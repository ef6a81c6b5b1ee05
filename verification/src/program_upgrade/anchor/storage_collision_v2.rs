//! An upgrade of the token vault that inserts an admin flag before the active
//! flag, so it reads a first-version vault's active flag as its admin flag.
//! Account bytes as read here: discriminator at 0..8, balance at 8..16, owner
//! at 16..48, admin flag at 48, active flag at 49.
use crate::bytes::{bytes_at, le_u64_at, read_key, read_u64_le};
use crate::framework::{check_signer, Error, ErrorCode};
use crate::program_upgrade::anchor::storage_collision_v1 as v1;
use crate::runtime::{AccountInfo, Pubkey};
use vstd::prelude::*;

verus! {

/// The program's address, `jojbHucvseW2LEAnFKGdCLX7PVsdWqVZXQHSAg4GxPq`.
pub const ID: Pubkey = [
    10, 247, 60, 149, 164, 98, 45, 157, 182, 112, 152, 84, 1, 146, 126, 190, 201, 74, 138, 249, 179,
    88, 2, 2, 126, 80, 220, 212, 25, 202, 239, 144,
];

/// The first eight bytes of a `Vault` account: the start of SHA-256 of
/// `"account:Vault"`, the same in both versions.
pub const VAULT_DISCRIMINATOR: [u8; 8] = [211, 8, 232, 43, 2, 152, 117, 119];

pub const ADMIN_FLAG_OFFSET: usize = 48;
pub const ACTIVE_FLAG_OFFSET: usize = 49;

#[derive(Clone, Copy, Debug, PartialEq, Eq)]
pub struct Vault {
    pub balance: u64,
    pub owner: Pubkey,
    pub is_admin: bool,
    pub is_active: bool,
}

#[derive(Clone, Copy, Debug, PartialEq, Eq)]
pub enum UpgradeError {
    NotAdmin,
    InsufficientBalance,
}

/// Accounts of the admin instructions: the vault as the runtime hands it over.
pub struct AdminWithdraw {
    pub vault: AccountInfo,
    pub admin: AccountInfo,
}

/// Why `data` does not decode as a vault, if it does not: too short for a
/// discriminator, another discriminator, too short for the fields, or a flag
/// byte other than 0 or 1.
pub open spec fn vault_decode_error(data: Seq<u8>) -> Option<ErrorCode> {
    if data.len() < 8 {
        Some(ErrorCode::AccountDiscriminatorNotFound)
    } else if data.subrange(0, 8) != VAULT_DISCRIMINATOR@ {
        Some(ErrorCode::AccountDiscriminatorMismatch)
    } else if data.len() < 50 || data[48] > 1 || data[49] > 1 {
        Some(ErrorCode::AccountDidNotDeserialize)
    } else {
        None
    }
}

/// Whether `v` is the vault that the (decodable) `data` holds.
pub open spec fn decodes_to(data: Seq<u8>, v: Vault) -> bool {
    &&& v.balance == le_u64_at(data, 8)
    &&& v.owner@ == bytes_at(data, 16, 32)
    &&& v.is_admin == (data[ADMIN_FLAG_OFFSET as int] == 1)
    &&& v.is_active == (data[ACTIVE_FLAG_OFFSET as int] == 1)
}

/// Reads a vault from account bytes, discriminator first.
pub fn decode_vault(data: &[u8]) -> (r: Result<Vault, ErrorCode>)
    ensures
        match vault_decode_error(data@) {
            Some(e) => r == Err::<Vault, ErrorCode>(e),
            None => r matches Ok(v) && decodes_to(data@, v),
        },
{
    if data.len() < 8 {
        return Err(ErrorCode::AccountDiscriminatorNotFound);
    }
    if !crate::bytes::bytes_eq_at(data, 0, &VAULT_DISCRIMINATOR) {
        return Err(ErrorCode::AccountDiscriminatorMismatch);
    }
    if data.len() < 50 || data[ADMIN_FLAG_OFFSET] > 1 || data[ACTIVE_FLAG_OFFSET] > 1 {
        return Err(ErrorCode::AccountDidNotDeserialize);
    }
    Ok(Vault {
        balance: read_u64_le(data, 8),
        owner: read_key(data, 16),
        is_admin: data[ADMIN_FLAG_OFFSET] == 1,
        is_active: data[ACTIVE_FLAG_OFFSET] == 1,
    })
}

/// The error the admin check fails with on `ctx`, if any: the admin must sign,
/// the vault must decode and its admin flag be set.
pub open spec fn admin_check_error(ctx: AdminWithdraw) -> Option<Error<UpgradeError>> {
    if !ctx.admin.is_signer {
        Some(Error::Anchor(ErrorCode::AccountNotSigner))
    } else {
        match vault_decode_error(ctx.vault.data@) {
            Some(e) => Some(Error::Anchor(e)),
            None => if ctx.vault.data@[ADMIN_FLAG_OFFSET as int] != 1 {
                Some(Error::Program(UpgradeError::NotAdmin))
            } else {
                None
            },
        }
    }
}

/// The event an admin withdrawal emits: the vault, the admin, the amount and
/// the balance left after it.
#[derive(Clone, Copy, Debug, PartialEq, Eq)]
pub struct AdminWithdrawal {
    pub vault: Pubkey,
    pub admin: Pubkey,
    pub amount: u64,
    pub remaining_balance: u64,
}

/// The event a pause emits: the vault and who paused.
#[derive(Clone, Copy, Debug, PartialEq, Eq)]
pub struct EmergencyPaused {
    pub vault: Pubkey,
    pub paused_by: Pubkey,
}

/// What `admin_withdraw` answers: the admin check, then a balance of at least
/// `amount`.
pub open spec fn admin_withdraw_result(ctx: AdminWithdraw, amount: u64) -> Result<AdminWithdrawal, Error<UpgradeError>> {
    match admin_check_error(ctx) {
        Some(e) => Err(e),
        None => if le_u64_at(ctx.vault.data@, 8) < amount {
            Err(Error::Program(UpgradeError::InsufficientBalance))
        } else {
            Ok(AdminWithdrawal {
                vault: ctx.vault.key,
                admin: ctx.admin.key,
                amount,
                remaining_balance: (le_u64_at(ctx.vault.data@, 8) - amount) as u64,
            })
        },
    }
}

/// Lets an admin vault withdraw `amount` (the withdrawal itself is simulated:
/// nothing changes).
pub fn admin_withdraw(ctx: &AdminWithdraw, amount: u64) -> (r: Result<AdminWithdrawal, Error<UpgradeError>>)
    ensures
        r == admin_withdraw_result(*ctx, amount),
{
    check_signer(&ctx.admin)?;
    let vault = match decode_vault(&ctx.vault.data) {
        Ok(v) => v,
        Err(e) => { return Err(Error::Anchor(e)); },
    };
    if !vault.is_admin {
        return Err(Error::Program(UpgradeError::NotAdmin));
    }
    if vault.balance < amount {
        return Err(Error::Program(UpgradeError::InsufficientBalance));
    }
    Ok(AdminWithdrawal { vault: ctx.vault.key, admin: ctx.admin.key, amount, remaining_balance: vault.balance - amount })
}

/// Lets an admin vault pause operations (the pause itself is simulated:
/// nothing changes).
pub fn emergency_pause(ctx: &AdminWithdraw) -> (r: Result<EmergencyPaused, Error<UpgradeError>>)
    ensures
        r == match admin_check_error(*ctx) {
            Some(e) => Err(e),
            None => Ok::<EmergencyPaused, Error<UpgradeError>>(EmergencyPaused { vault: ctx.vault.key, paused_by: ctx.admin.key }),
        },
{
    check_signer(&ctx.admin)?;
    let vault = match decode_vault(&ctx.vault.data) {
        Ok(v) => v,
        Err(e) => { return Err(Error::Anchor(e)); },
    };
    if !vault.is_admin {
        return Err(Error::Program(UpgradeError::NotAdmin));
    }
    Ok(EmergencyPaused { vault: ctx.vault.key, paused_by: ctx.admin.key })
}

/// Every active vault the first version wrote decodes here as an admin vault
/// that is not active.
pub proof fn active_first_version_vault_reads_as_admin(v: v1::Vault)
    requires
        v.is_active,
    ensures
        vault_decode_error(v1::vault_bytes(v)) is None,
        v1::vault_bytes(v)[ADMIN_FLAG_OFFSET as int] == 1,
        v1::vault_bytes(v)[ACTIVE_FLAG_OFFSET as int] == 0,
{
    let b = v1::vault_bytes(v);
    assert(b.subrange(0, 8) =~= VAULT_DISCRIMINATOR@);
    assert(b[48] == 1u8);
    assert(b[49] == 0u8);
}

/// Every vault the first version wrote passes this version's admin check for a
/// signing admin exactly when it was active.
pub proof fn first_version_vault_admin_check(v: v1::Vault, ctx: AdminWithdraw)
    requires
        ctx.vault.data@ == v1::vault_bytes(v),
        ctx.admin.is_signer,
    ensures
        admin_check_error(ctx) is None <==> v.is_active,
{
    let b = v1::vault_bytes(v);
    assert(b.subrange(0, 8) =~= VAULT_DISCRIMINATOR@);
    assert(b[48] == v1::bool_byte(v.is_active));
    assert(b[49] == 0u8);
}

} // verus!

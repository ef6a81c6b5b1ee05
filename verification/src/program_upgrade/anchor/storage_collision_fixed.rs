//! An upgrade of the token vault that appends its admin flag after the active
//! flag, so a first-version vault keeps its active flag and reads its reserved
//! zero byte as "not admin".
//! Account bytes as read here: discriminator at 0..8, balance at 8..16, owner
//! at 16..48, active flag at 48, admin flag at 49.
use crate::bytes::{bytes_at, le_u64_at, read_key, read_u64_le};
use crate::framework::{check_signer, Account, Error, ErrorCode};
use crate::program_upgrade::anchor::storage_collision_v1 as v1;
use crate::runtime::{AccountInfo, Pubkey};
use vstd::prelude::*;

verus! {

/// The program's address, `EvEETfCxZpVUqxeTJdRHdVtAX8MtnM98uVychPuHJERT`.
pub const ID: Pubkey = [
    206, 202, 172, 169, 180, 90, 228, 33, 52, 13, 17, 72, 40, 221, 248, 98, 115, 238, 140, 43, 120,
    67, 206, 222, 22, 159, 192, 121, 61, 62, 163, 6,
];

/// The first eight bytes of a `Vault` account: the start of SHA-256 of
/// `"account:Vault"`, the same in both versions.
pub const VAULT_DISCRIMINATOR: [u8; 8] = [211, 8, 232, 43, 2, 152, 117, 119];

pub const ACTIVE_FLAG_OFFSET: usize = 48;
pub const ADMIN_FLAG_OFFSET: usize = 49;

#[derive(Clone, Copy, Debug, PartialEq, Eq)]
pub struct Vault {
    pub balance: u64,
    pub owner: Pubkey,
    pub is_active: bool,
    pub is_admin: bool,
}

#[derive(Clone, Copy, Debug, PartialEq, Eq)]
pub enum UpgradeError {
    NotAdmin,
    InsufficientBalance,
}

/// Accounts of the admin instructions: the vault as the runtime hands it over.
pub struct AdminWithdraw {
    pub vault: AccountInfo,
    pub admin: AccountInfo,
}

/// Why `data` does not decode as a vault, if it does not: too short for a
/// discriminator, another discriminator, too short for the fields, or a flag
/// byte other than 0 or 1.
pub open spec fn vault_decode_error(data: Seq<u8>) -> Option<ErrorCode> {
    if data.len() < 8 {
        Some(ErrorCode::AccountDiscriminatorNotFound)
    } else if data.subrange(0, 8) != VAULT_DISCRIMINATOR@ {
        Some(ErrorCode::AccountDiscriminatorMismatch)
    } else if data.len() < 50 || data[48] > 1 || data[49] > 1 {
        Some(ErrorCode::AccountDidNotDeserialize)
    } else {
        None
    }
}

/// Whether `v` is the vault that the (decodable) `data` holds.
pub open spec fn decodes_to(data: Seq<u8>, v: Vault) -> bool {
    &&& v.balance == le_u64_at(data, 8)
    &&& v.owner@ == bytes_at(data, 16, 32)
    &&& v.is_admin == (data[ADMIN_FLAG_OFFSET as int] == 1)
    &&& v.is_active == (data[ACTIVE_FLAG_OFFSET as int] == 1)
}

/// Reads a vault from account bytes, discriminator first.
pub fn decode_vault(data: &[u8]) -> (r: Result<Vault, ErrorCode>)
    ensures
        match vault_decode_error(data@) {
            Some(e) => r == Err::<Vault, ErrorCode>(e),
            None => r matches Ok(v) && decodes_to(data@, v),
        },
{
    if data.len() < 8 {
        return Err(ErrorCode::AccountDiscriminatorNotFound);
    }
    if !crate::bytes::bytes_eq_at(data, 0, &VAULT_DISCRIMINATOR) {
        return Err(ErrorCode::AccountDiscriminatorMismatch);
    }
    if data.len() < 50 || data[ADMIN_FLAG_OFFSET] > 1 || data[ACTIVE_FLAG_OFFSET] > 1 {
        return Err(ErrorCode::AccountDidNotDeserialize);
    }
    Ok(Vault {
        balance: read_u64_le(data, 8),
        owner: read_key(data, 16),
        is_active: data[ACTIVE_FLAG_OFFSET] == 1,
        is_admin: data[ADMIN_FLAG_OFFSET] == 1,
    })
}

/// The error the admin check fails with on `ctx`, if any: the admin must sign,
/// the vault must decode and its admin flag be set.
pub open spec fn admin_check_error(ctx: AdminWithdraw) -> Option<Error<UpgradeError>> {
    if !ctx.admin.is_signer {
        Some(Error::Anchor(ErrorCode::AccountNotSigner))
    } else {
        match vault_decode_error(ctx.vault.data@) {
            Some(e) => Some(Error::Anchor(e)),
            None => if ctx.vault.data@[ADMIN_FLAG_OFFSET as int] != 1 {
                Some(Error::Program(UpgradeError::NotAdmin))
            } else {
                None
            },
        }
    }
}

/// The event an admin withdrawal emits: the vault, the admin, the amount and
/// the balance left after it.
#[derive(Clone, Copy, Debug, PartialEq, Eq)]
pub struct AdminWithdrawal {
    pub vault: Pubkey,
    pub admin: Pubkey,
    pub amount: u64,
    pub remaining_balance: u64,
}

/// The event a grant emits: the vault promoted and who granted it.
#[derive(Clone, Copy, Debug, PartialEq, Eq)]
pub struct AdminGranted {
    pub vault: Pubkey,
    pub granted_by: Pubkey,
}

/// The event a revocation emits: the vault demoted and who revoked it.
#[derive(Clone, Copy, Debug, PartialEq, Eq)]
pub struct AdminRevoked {
    pub vault: Pubkey,
    pub revoked_by: Pubkey,
}

/// What `admin_withdraw` answers: the admin check, then a balance of at least
/// `amount`.
pub open spec fn admin_withdraw_result(ctx: AdminWithdraw, amount: u64) -> Result<AdminWithdrawal, Error<UpgradeError>> {
    match admin_check_error(ctx) {
        Some(e) => Err(e),
        None => if le_u64_at(ctx.vault.data@, 8) < amount {
            Err(Error::Program(UpgradeError::InsufficientBalance))
        } else {
            Ok(AdminWithdrawal {
                vault: ctx.vault.key,
                admin: ctx.admin.key,
                amount,
                remaining_balance: (le_u64_at(ctx.vault.data@, 8) - amount) as u64,
            })
        },
    }
}

/// Lets an admin vault withdraw `amount` (the withdrawal itself is simulated:
/// nothing changes).
pub fn admin_withdraw(ctx: &AdminWithdraw, amount: u64) -> (r: Result<AdminWithdrawal, Error<UpgradeError>>)
    ensures
        r == admin_withdraw_result(*ctx, amount),
{
    check_signer(&ctx.admin)?;
    let vault = match decode_vault(&ctx.vault.data) {
        Ok(v) => v,
        Err(e) => { return Err(Error::Anchor(e)); },
    };
    if !vault.is_admin {
        return Err(Error::Program(UpgradeError::NotAdmin));
    }
    if vault.balance < amount {
        return Err(Error::Program(UpgradeError::InsufficientBalance));
    }
    Ok(AdminWithdrawal { vault: ctx.vault.key, admin: ctx.admin.key, amount, remaining_balance: vault.balance - amount })
}

/// Accounts of `grant_admin` and `revoke_admin`.
pub struct AdminOperation {
    pub vault: Account<Vault>,
    pub admin: AccountInfo,
}

/// Accounts of `grant_admin`: the vault to promote, the signing grantor, and the
/// grantor's own vault, which shows that the grantor is an admin.
pub struct GrantAdmin {
    pub vault: Account<Vault>,
    pub admin: AccountInfo,
    pub grantor_vault: Account<Vault>,
}

/// Whether the grantor is a current admin: the grantor's vault is theirs and
/// carries the admin flag.
pub open spec fn grantor_is_admin(ctx: GrantAdmin) -> bool {
    ctx.grantor_vault.data.owner@ == ctx.admin.key@ && ctx.grantor_vault.data.is_admin
}

/// Sets the vault's admin flag; the grantor must sign and be a current admin.
pub fn grant_admin(ctx: &mut GrantAdmin) -> (r: Result<AdminGranted, Error<UpgradeError>>)
    ensures
        !old(ctx).admin.is_signer ==> r == Err::<AdminGranted, Error<UpgradeError>>(Error::Anchor(ErrorCode::AccountNotSigner)),
        old(ctx).admin.is_signer && !grantor_is_admin(*old(ctx))
            ==> r == Err::<AdminGranted, Error<UpgradeError>>(Error::Program(UpgradeError::NotAdmin)),
        r is Err ==> *final(ctx) == *old(ctx),
        old(ctx).admin.is_signer && grantor_is_admin(*old(ctx)) ==> {
            &&& r == Ok::<AdminGranted, Error<UpgradeError>>(AdminGranted { vault: old(ctx).vault.key, granted_by: old(ctx).admin.key })
            &&& final(ctx).vault == (Account { data: (Vault { is_admin: true, ..old(ctx).vault.data }), ..old(ctx).vault })
            &&& final(ctx).admin == old(ctx).admin
            &&& final(ctx).grantor_vault == old(ctx).grantor_vault
        },
{
    check_signer(&ctx.admin)?;
    if !crate::bytes::keys_eq(&ctx.grantor_vault.data.owner, &ctx.admin.key) || !ctx.grantor_vault.data.is_admin {
        return Err(Error::Program(UpgradeError::NotAdmin));
    }
    ctx.vault.data.is_admin = true;
    Ok(AdminGranted { vault: ctx.vault.key, granted_by: ctx.admin.key })
}

/// Clears the vault's admin flag; only the signature of the account passed as
/// admin is checked.
pub fn revoke_admin(ctx: &mut AdminOperation) -> (r: Result<AdminRevoked, Error<UpgradeError>>)
    ensures
        !old(ctx).admin.is_signer ==> r == Err::<AdminRevoked, Error<UpgradeError>>(Error::Anchor(ErrorCode::AccountNotSigner))
            && *final(ctx) == *old(ctx),
        old(ctx).admin.is_signer ==> {
            &&& r == Ok::<AdminRevoked, Error<UpgradeError>>(AdminRevoked { vault: old(ctx).vault.key, revoked_by: old(ctx).admin.key })
            &&& final(ctx).vault == (Account { data: (Vault { is_admin: false, ..old(ctx).vault.data }), ..old(ctx).vault })
            &&& final(ctx).admin == old(ctx).admin
        },
{
    check_signer(&ctx.admin)?;
    ctx.vault.data.is_admin = false;
    Ok(AdminRevoked { vault: ctx.vault.key, revoked_by: ctx.admin.key })
}

/// Every vault the first version wrote decodes here with its own balance,
/// owner and active flag, and without the admin flag.
pub proof fn first_version_vault_reads_unchanged(v: v1::Vault)
    ensures
        vault_decode_error(v1::vault_bytes(v)) is None,
        decodes_to(v1::vault_bytes(v), Vault { balance: v.balance, owner: v.owner, is_active: v.is_active, is_admin: false }),
{
    let b = v1::vault_bytes(v);
    assert(b.subrange(0, 8) =~= VAULT_DISCRIMINATOR@);
    assert(bytes_at(b, 8, 8) =~= crate::bytes::u64_le_bytes(v.balance));
    crate::bytes::lemma_u64_roundtrip(v.balance);
    assert(le_u64_at(b, 8) == le_u64_at(crate::bytes::u64_le_bytes(v.balance), 0));
    assert(bytes_at(b, 16, 32) =~= v.owner@);
    assert(b[48] == v1::bool_byte(v.is_active));
    assert(b[49] == 0u8);
}

/// No vault the first version wrote passes this version's admin check.
pub proof fn first_version_vault_is_never_admin(v: v1::Vault, ctx: AdminWithdraw)
    requires
        ctx.vault.data@ == v1::vault_bytes(v),
        ctx.admin.is_signer,
    ensures
        admin_check_error(ctx) == Some(Error::<UpgradeError>::Program(UpgradeError::NotAdmin)),
{
    first_version_vault_reads_unchanged(v);
}

} // verus!

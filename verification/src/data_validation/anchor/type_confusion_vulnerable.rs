//! Admin withdrawals that read the configuration's bytes past the discriminator
//! without checking it, so a user account with the same layout passes as one.
use crate::bytes::{le_u64_at, read_u64_le, u64_le_bytes};
use crate::framework::{check_creation_signer, check_signer, check_uninitialized, in_use_error, is_unused, Error, ErrorCode};
use crate::runtime::{AccountInfo, ProgramError, Pubkey};
use vstd::prelude::*;

verus! {

/// The program's address, `E7efDRg2YiEW4TGMwUvBkv8EE8JUqC86DfxLBHdQ5zZh`.
pub const ID: Pubkey = [
    194, 219, 254, 244, 33, 58, 119, 132, 213, 222, 14, 137, 121, 103, 145, 122, 82, 58, 67, 232, 81,
    128, 230, 178, 197, 165, 206, 60, 110, 43, 209, 252,
];

/// The first eight bytes of a `User` account: the start of SHA-256 of `"account:User"`.
pub const USER_DISCRIMINATOR: [u8; 8] = [159, 117, 95, 227, 239, 151, 58, 236];

#[derive(Clone, Copy, Debug, PartialEq, Eq)]
pub struct User {
    pub id: u64,
}

#[derive(Clone, Copy, Debug, PartialEq, Eq)]
pub struct AdminConfig {
    pub admin_id: u64,
}

#[derive(Clone, Copy, Debug, PartialEq, Eq)]
pub enum AdminError {
    NotAdmin,
}

pub struct InitializeUser {
    pub user: AccountInfo,
    pub signer: AccountInfo,
}

pub struct InitializeAdmin {
    pub admin_config: AccountInfo,
    pub signer: AccountInfo,
}

/// Accounts of `admin_withdraw`: the configuration as the runtime hands it over.
pub struct AdminWithdraw {
    pub admin_config: AccountInfo,
    pub authority: AccountInfo,
}

/// The error creating `account`, paid by `payer`, fails with, if any: the payer
/// must sign, and so must the new account, which must be unused.
pub open spec fn creation_error(account: AccountInfo, payer: AccountInfo) -> Option<Error<AdminError>> {
    if !payer.is_signer {
        Some(Error::Anchor(ErrorCode::AccountNotSigner))
    } else if !account.is_signer {
        Some(Error::Runtime(ProgramError::MissingRequiredSignature))
    } else if !is_unused(account) {
        Some(in_use_error())
    } else {
        None
    }
}

/// The event a new user emits.
#[derive(Clone, Copy, Debug, PartialEq, Eq)]
pub struct UserInitialized {
    pub user: Pubkey,
    pub id: u64,
}

/// The event a new admin configuration emits.
#[derive(Clone, Copy, Debug, PartialEq, Eq)]
pub struct AdminConfigInitialized {
    pub config: Pubkey,
    pub admin_id: u64,
}

/// The event an admin withdrawal emits.
#[derive(Clone, Copy, Debug, PartialEq, Eq)]
pub struct AdminWithdrawn {
    pub admin: Pubkey,
    pub amount: u64,
}

/// Creates a user with the given id.
pub fn initialize_user(ctx: &InitializeUser, id: u64) -> (r: Result<(User, UserInitialized), Error<AdminError>>)
    ensures
        r == match creation_error(ctx.user, ctx.signer) {
            Some(e) => Err(e),
            None => Ok::<(User, UserInitialized), Error<AdminError>>((User { id }, UserInitialized { user: ctx.user.key, id })),
        },
{
    check_signer(&ctx.signer)?;
    check_creation_signer(&ctx.user)?;
    check_uninitialized(&ctx.user)?;
    Ok((User { id }, UserInitialized { user: ctx.user.key, id }))
}

/// Creates an admin configuration with the given admin id.
pub fn initialize_admin(ctx: &InitializeAdmin, admin_id: u64) -> (r: Result<(AdminConfig, AdminConfigInitialized), Error<AdminError>>)
    ensures
        r == match creation_error(ctx.admin_config, ctx.signer) {
            Some(e) => Err(e),
            None => Ok::<(AdminConfig, AdminConfigInitialized), Error<AdminError>>((AdminConfig { admin_id }, AdminConfigInitialized { config: ctx.admin_config.key, admin_id })),
        },
{
    check_signer(&ctx.signer)?;
    check_creation_signer(&ctx.admin_config)?;
    check_uninitialized(&ctx.admin_config)?;
    Ok((AdminConfig { admin_id }, AdminConfigInitialized { config: ctx.admin_config.key, admin_id }))
}

/// Whether `admin_id` names `authority`: it equals the key's first byte.
pub open spec fn is_admin(admin_id: u64, authority: Pubkey) -> bool {
    admin_id == authority[0] as u64
}

/// What `admin_withdraw` answers: the authority must sign, the account must hold
/// sixteen bytes, and the `u64` at bytes 8..16, whatever the account's type and
/// owner, must name the authority.
pub open spec fn admin_withdraw_result(ctx: AdminWithdraw) -> Result<(), Error<AdminError>> {
    if !ctx.authority.is_signer {
        Err(Error::Anchor(ErrorCode::AccountNotSigner))
    } else if ctx.admin_config.data@.len() < 16 {
        Err(Error::Runtime(ProgramError::InvalidAccountData))
    } else if !is_admin(le_u64_at(ctx.admin_config.data@, 8), ctx.authority.key) {
        Err(Error::Program(AdminError::NotAdmin))
    } else {
        Ok(())
    }
}

/// Lets whoever the account's bytes name as admin withdraw `amount` (the
/// withdrawal itself is simulated: nothing changes).
pub fn admin_withdraw(ctx: &AdminWithdraw, amount: u64) -> (r: Result<AdminWithdrawn, Error<AdminError>>)
    ensures
        r == match admin_withdraw_result(*ctx) {
            Err(e) => Err(e),
            Ok(_) => Ok::<AdminWithdrawn, Error<AdminError>>(AdminWithdrawn { admin: ctx.authority.key, amount }),
        },
{
    check_signer(&ctx.authority)?;
    if ctx.admin_config.data.len() < 16 {
        return Err(Error::Runtime(ProgramError::InvalidAccountData));
    }
    let admin_id = read_u64_le(&ctx.admin_config.data, 8);
    if admin_id != ctx.authority.key[0] as u64 {
        return Err(Error::Program(AdminError::NotAdmin));
    }
    Ok(AdminWithdrawn { admin: ctx.authority.key, amount })
}

/// The bytes of a user account holding `u`.
pub open spec fn user_bytes(u: User) -> Seq<u8> {
    USER_DISCRIMINATOR@ + u64_le_bytes(u.id)
}

/// A user account whose id equals the first byte of the signer's key passes as
/// an admin configuration.
pub proof fn user_account_passes_as_admin_config(u: User, ctx: AdminWithdraw)
    requires
        ctx.admin_config.data@ == user_bytes(u),
        ctx.authority.is_signer,
        is_admin(u.id, ctx.authority.key),
    ensures
        admin_withdraw_result(ctx) is Ok,
{
    let b = user_bytes(u);
    assert(b.subrange(8, 16) =~= u64_le_bytes(u.id));
    crate::bytes::lemma_u64_roundtrip(u.id);
    assert(le_u64_at(b, 8) == le_u64_at(u64_le_bytes(u.id), 0));
}

} // verus!

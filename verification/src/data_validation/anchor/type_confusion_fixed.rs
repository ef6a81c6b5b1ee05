//! Admin withdrawals that load the configuration as a typed account, so an
//! account of another type with the same layout is refused by its discriminator.
use crate::bytes::{le_u64_at, read_u64_le};
use crate::framework::{
    account_load_error, check_account, check_creation_signer, check_signer, check_uninitialized, in_use_error,
    is_unused, Error, ErrorCode,
};
use crate::runtime::{AccountInfo, ProgramError, Pubkey};
use vstd::prelude::*;

verus! {

/// The program's address, `ETrcTSafZgKTtt3ZciF2rinSrzAXLsLHeRveER1JkdvQ`.
pub const ID: Pubkey = [
    200, 9, 32, 115, 148, 231, 64, 214, 254, 125, 21, 34, 57, 136, 12, 231, 84, 71, 0, 31, 139, 226,
    150, 19, 12, 112, 136, 20, 57, 224, 53, 113,
];

/// The first eight bytes of an `AdminConfig` account: the start of
/// SHA-256 of `"account:AdminConfig"`.
pub const ADMIN_CONFIG_DISCRIMINATOR: [u8; 8] = [156, 10, 79, 161, 71, 9, 62, 77];

/// The first eight bytes of a `User` account: the start of SHA-256 of `"account:User"`.
pub const USER_DISCRIMINATOR: [u8; 8] = [159, 117, 95, 227, 239, 151, 58, 236];

/// The bytes an `AdminConfig`'s fields take after its discriminator.
pub const ADMIN_CONFIG_SIZE: usize = 8;

#[derive(Clone, Copy, Debug, PartialEq, Eq)]
pub struct User {
    pub id: u64,
}

#[derive(Clone, Copy, Debug, PartialEq, Eq)]
pub struct AdminConfig {
    pub admin_id: u64,
}

#[derive(Clone, Copy, Debug, PartialEq, Eq)]
pub enum AdminError {
    NotAdmin,
}

pub struct InitializeUser {
    pub user: AccountInfo,
    pub signer: AccountInfo,
}

pub struct InitializeAdmin {
    pub admin_config: AccountInfo,
    pub signer: AccountInfo,
}

/// Accounts of `admin_withdraw`: the configuration as the runtime hands it over.
pub struct AdminWithdraw {
    pub admin_config: AccountInfo,
    pub authority: AccountInfo,
}

/// The error creating `account`, paid by `payer`, fails with, if any: the payer
/// must sign, and so must the new account, which must be unused.
pub open spec fn creation_error(account: AccountInfo, payer: AccountInfo) -> Option<Error<AdminError>> {
    if !payer.is_signer {
        Some(Error::Anchor(ErrorCode::AccountNotSigner))
    } else if !account.is_signer {
        Some(Error::Runtime(ProgramError::MissingRequiredSignature))
    } else if !is_unused(account) {
        Some(in_use_error())
    } else {
        None
    }
}

/// The event a new user emits.
#[derive(Clone, Copy, Debug, PartialEq, Eq)]
pub struct UserInitialized {
    pub user: Pubkey,
    pub id: u64,
}

/// The event a new admin configuration emits.
#[derive(Clone, Copy, Debug, PartialEq, Eq)]
pub struct AdminConfigInitialized {
    pub config: Pubkey,
    pub admin_id: u64,
}

/// The event an admin withdrawal emits.
#[derive(Clone, Copy, Debug, PartialEq, Eq)]
pub struct AdminWithdrawn {
    pub admin: Pubkey,
    pub amount: u64,
}

/// Creates a user with the given id.
pub fn initialize_user(ctx: &InitializeUser, id: u64) -> (r: Result<(User, UserInitialized), Error<AdminError>>)
    ensures
        r == match creation_error(ctx.user, ctx.signer) {
            Some(e) => Err(e),
            None => Ok::<(User, UserInitialized), Error<AdminError>>((User { id }, UserInitialized { user: ctx.user.key, id })),
        },
{
    check_signer(&ctx.signer)?;
    check_creation_signer(&ctx.user)?;
    check_uninitialized(&ctx.user)?;
    Ok((User { id }, UserInitialized { user: ctx.user.key, id }))
}

/// Creates an admin configuration with the given admin id.
pub fn initialize_admin(ctx: &InitializeAdmin, admin_id: u64) -> (r: Result<(AdminConfig, AdminConfigInitialized), Error<AdminError>>)
    ensures
        r == match creation_error(ctx.admin_config, ctx.signer) {
            Some(e) => Err(e),
            None => Ok::<(AdminConfig, AdminConfigInitialized), Error<AdminError>>((AdminConfig { admin_id }, AdminConfigInitialized { config: ctx.admin_config.key, admin_id })),
        },
{
    check_signer(&ctx.signer)?;
    check_creation_signer(&ctx.admin_config)?;
    check_uninitialized(&ctx.admin_config)?;
    Ok((AdminConfig { admin_id }, AdminConfigInitialized { config: ctx.admin_config.key, admin_id }))
}

/// Whether `admin_id` names `authority`: it equals the key's first byte.
pub open spec fn is_admin(admin_id: u64, authority: Pubkey) -> bool {
    admin_id == authority[0] as u64
}

/// What `admin_withdraw` answers: the configuration must load as an
/// `AdminConfig` of this program, the authority must sign and be its admin.
pub open spec fn admin_withdraw_result(ctx: AdminWithdraw) -> Result<(), Error<AdminError>> {
    match account_load_error(ctx.admin_config, ID@, ADMIN_CONFIG_DISCRIMINATOR@, ADMIN_CONFIG_SIZE as int) {
        Some(e) => Err(Error::Anchor(e)),
        None => if !ctx.authority.is_signer {
            Err(Error::Anchor(ErrorCode::AccountNotSigner))
        } else if !is_admin(le_u64_at(ctx.admin_config.data@, 8), ctx.authority.key) {
            Err(Error::Program(AdminError::NotAdmin))
        } else {
            Ok(())
        },
    }
}

/// Lets the configuration's admin withdraw `amount` (the withdrawal itself is
/// simulated: nothing changes).
pub fn admin_withdraw(ctx: &AdminWithdraw, amount: u64) -> (r: Result<AdminWithdrawn, Error<AdminError>>)
    ensures
        r == match admin_withdraw_result(*ctx) {
            Err(e) => Err(e),
            Ok(_) => Ok::<AdminWithdrawn, Error<AdminError>>(AdminWithdrawn { admin: ctx.authority.key, amount }),
        },
{
    check_account(&ctx.admin_config, &ID, &ADMIN_CONFIG_DISCRIMINATOR, ADMIN_CONFIG_SIZE)?;
    check_signer(&ctx.authority)?;
    let admin_id = read_u64_le(&ctx.admin_config.data, 8);
    if admin_id != ctx.authority.key[0] as u64 {
        return Err(Error::Program(AdminError::NotAdmin));
    }
    Ok(AdminWithdrawn { admin: ctx.authority.key, amount })
}

/// No user account passes as an admin configuration, whatever id it holds.
pub proof fn user_account_never_passes_as_admin_config(ctx: AdminWithdraw)
    requires
        ctx.admin_config.data@.len() >= 8,
        ctx.admin_config.data@.subrange(0, 8) == USER_DISCRIMINATOR@,
    ensures
        admin_withdraw_result(ctx) is Err,
{
    assert(ctx.admin_config.data@.subrange(0, 8)[0] != ADMIN_CONFIG_DISCRIMINATOR@[0]);
}

} // verus!

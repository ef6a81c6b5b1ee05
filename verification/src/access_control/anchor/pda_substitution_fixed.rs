//! User vaults at derived addresses that every instruction re-derives, from the
//! user's key and the bump stored at creation, before touching the vault.
use crate::framework::{
    check_seeds, check_seeds_with_bump, check_signer, check_uninitialized, in_use_error,
    is_created_address, is_pda, is_unused, pda_bump, seed_list2, Account, Error, ErrorCode,
};
use crate::bytes::keys_eq;
use crate::runtime::{AccountInfo, Pubkey};
use vstd::prelude::*;

verus! {

/// The program's address, `13zVgMdotKjDGK9Gznow7t621HMLgMBWDmWdikn5jon4`.
pub const ID: Pubkey = [
    0, 196, 43, 186, 31, 60, 87, 13, 233, 131, 136, 20, 52, 46, 175, 183, 246, 61, 50, 0, 17, 56,
    39, 146, 109, 255, 108, 36, 10, 147, 99, 221,
];

/// The bytes of `"user_vault"`.
pub const USER_VAULT_SEED: [u8; 10] = [117, 115, 101, 114, 95, 118, 97, 117, 108, 116];

#[derive(Clone, Copy, Debug, PartialEq, Eq)]
pub struct UserVault {
    pub user: Pubkey,
    pub balance: u64,
    pub bump: u8,
}

#[derive(Clone, Copy, Debug, PartialEq, Eq)]
pub enum VaultError {
    Unauthorized,
    InsufficientFunds,
}

/// The seeds of a user's vault address: `"user_vault"` and the user's key.
pub open spec fn vault_seeds(user: Seq<u8>) -> Seq<Seq<u8>> {
    seq![USER_VAULT_SEED@, user]
}

pub struct InitializeVault {
    pub vault: AccountInfo,
    pub user: AccountInfo,
}

pub struct DepositVault {
    pub vault: Account<UserVault>,
    pub user: AccountInfo,
}

pub struct Withdraw {
    pub vault: Account<UserVault>,
    pub user: AccountInfo,
}

/// What `initialize_vault` returns: the signing user's empty vault with the bump
/// found for its address, or the first failed check.
pub open spec fn initialize_vault_result(ctx: InitializeVault) -> Result<UserVault, Error<VaultError>> {
    if !ctx.user.is_signer {
        Err(Error::Anchor(ErrorCode::AccountNotSigner))
    } else if !is_pda(ctx.vault.key@, vault_seeds(ctx.user.key@), ID@) {
        Err(Error::Anchor(ErrorCode::ConstraintSeeds))
    } else if !is_unused(ctx.vault) {
        Err(in_use_error())
    } else {
        Ok(UserVault { user: ctx.user.key, balance: 0, bump: pda_bump(vault_seeds(ctx.user.key@), ID@) })
    }
}

pub fn initialize_vault(ctx: &InitializeVault) -> (r: Result<UserVault, Error<VaultError>>)
    ensures
        r == initialize_vault_result(*ctx),
{
    check_signer(&ctx.user)?;
    let bump = check_seeds(&ctx.vault.key, &seed_list2(&USER_VAULT_SEED, &ctx.user.key), &ID)?;
    check_uninitialized(&ctx.vault)?;
    Ok(UserVault { user: ctx.user.key, balance: 0, bump })
}

/// Whether the vault is at the address created from the user's seeds and the
/// bump the vault stores.
pub open spec fn vault_at_stored_address(vault: Account<UserVault>, user: Seq<u8>) -> bool {
    is_created_address(vault.key@, vault_seeds(user), vault.data.bump, ID@)
}

/// Whether `deposit` runs without an arithmetic panic.
pub open spec fn deposit_safe(ctx: DepositVault, amount: u64) -> bool {
    ctx.user.is_signer && vault_at_stored_address(ctx.vault, ctx.user.key@) ==> {
        &&& ctx.user.lamports >= amount
        &&& ctx.vault.lamports + amount <= u64::MAX
        &&& ctx.vault.data.balance + amount <= u64::MAX
    }
}

/// Moves `amount` lamports from the signing user into their vault and adds it to
/// the recorded balance, after checking the vault's address.
pub fn deposit(ctx: &mut DepositVault, amount: u64) -> (r: Result<(), Error<VaultError>>)
    requires
        deposit_safe(*old(ctx), amount),
    ensures
        !old(ctx).user.is_signer ==> r == Err::<(), Error<VaultError>>(Error::Anchor(ErrorCode::AccountNotSigner)),
        old(ctx).user.is_signer && !vault_at_stored_address(old(ctx).vault, old(ctx).user.key@)
            ==> r == Err::<(), Error<VaultError>>(Error::Anchor(ErrorCode::ConstraintSeeds)),
        r is Err ==> *final(ctx) == *old(ctx),
        old(ctx).user.is_signer && vault_at_stored_address(old(ctx).vault, old(ctx).user.key@) ==> {
            &&& r is Ok
            &&& final(ctx).vault.data == UserVault { balance: (old(ctx).vault.data.balance + amount) as u64, ..old(ctx).vault.data }
            &&& final(ctx).vault.lamports == old(ctx).vault.lamports + amount
            &&& final(ctx).vault.key == old(ctx).vault.key
            &&& final(ctx).user == AccountInfo { lamports: (old(ctx).user.lamports - amount) as u64, ..old(ctx).user }
        },
{
    check_signer(&ctx.user)?;
    check_seeds_with_bump(&ctx.vault.key, seed_list2(&USER_VAULT_SEED, &ctx.user.key), ctx.vault.data.bump, &ID)?;
    ctx.user.lamports = ctx.user.lamports - amount;
    ctx.vault.lamports = ctx.vault.lamports + amount;
    ctx.vault.data.balance = ctx.vault.data.balance + amount;
    Ok(())
}

/// Whether a withdrawal of `amount` passes every check of `withdraw`.
pub open spec fn withdraw_allowed(ctx: Withdraw, amount: u64) -> bool {
    &&& ctx.user.is_signer
    &&& vault_at_stored_address(ctx.vault, ctx.user.key@)
    &&& ctx.vault.data.user@ == ctx.user.key@
    &&& ctx.vault.data.balance >= amount
}

/// Pays `amount` lamports from the signing user's own vault, at its derived
/// address, back to the user.
pub fn withdraw(ctx: &mut Withdraw, amount: u64) -> (r: Result<(), Error<VaultError>>)
    requires
        withdraw_allowed(*old(ctx), amount) ==> old(ctx).vault.lamports >= amount
            && old(ctx).user.lamports + amount <= u64::MAX,
    ensures
        !old(ctx).user.is_signer ==> r == Err::<(), Error<VaultError>>(Error::Anchor(ErrorCode::AccountNotSigner)),
        old(ctx).user.is_signer && !vault_at_stored_address(old(ctx).vault, old(ctx).user.key@)
            ==> r == Err::<(), Error<VaultError>>(Error::Anchor(ErrorCode::ConstraintSeeds)),
        old(ctx).user.is_signer && vault_at_stored_address(old(ctx).vault, old(ctx).user.key@)
            && old(ctx).vault.data.user@ != old(ctx).user.key@
            ==> r == Err::<(), Error<VaultError>>(Error::Program(VaultError::Unauthorized)),
        old(ctx).user.is_signer && vault_at_stored_address(old(ctx).vault, old(ctx).user.key@)
            && old(ctx).vault.data.user@ == old(ctx).user.key@ && old(ctx).vault.data.balance < amount
            ==> r == Err::<(), Error<VaultError>>(Error::Program(VaultError::InsufficientFunds)),
        r is Err ==> *final(ctx) == *old(ctx),
        withdraw_allowed(*old(ctx), amount) ==> {
            &&& r is Ok
            &&& final(ctx).vault.data == UserVault { balance: (old(ctx).vault.data.balance - amount) as u64, ..old(ctx).vault.data }
            &&& final(ctx).vault.lamports == old(ctx).vault.lamports - amount
            &&& final(ctx).vault.key == old(ctx).vault.key
            &&& final(ctx).user == AccountInfo { lamports: (old(ctx).user.lamports + amount) as u64, ..old(ctx).user }
        },
{
    check_signer(&ctx.user)?;
    check_seeds_with_bump(&ctx.vault.key, seed_list2(&USER_VAULT_SEED, &ctx.user.key), ctx.vault.data.bump, &ID)?;
    if !keys_eq(&ctx.vault.data.user, &ctx.user.key) {
        return Err(Error::Program(VaultError::Unauthorized));
    }
    if ctx.vault.data.balance < amount {
        return Err(Error::Program(VaultError::InsufficientFunds));
    }
    ctx.vault.data.balance = ctx.vault.data.balance - amount;
    ctx.vault.lamports = ctx.vault.lamports - amount;
    ctx.user.lamports = ctx.user.lamports + amount;
    Ok(())
}

} // verus!

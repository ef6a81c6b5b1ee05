//! Vaults at addresses derived from their authority, which a withdrawal
//! re-derives, so no other account can stand in for the vault.
use crate::bytes::keys_eq;
use crate::framework::{
    check_seeds, check_signer, check_uninitialized, in_use_error, is_pda, is_unused, seed_list2, Account, Error,
    ErrorCode,
};
use crate::runtime::{AccountInfo, Pubkey};
use vstd::prelude::*;

verus! {

/// The program's address, `AAdZNcYNd2LmcU3J8gbYjazPVKJ9T5zd1evJJPirnZbu`.
pub const ID: Pubkey = [
    136, 48, 190, 253, 26, 108, 75, 14, 89, 228, 155, 198, 125, 106, 226, 129, 43, 217, 173, 229,
    127, 180, 38, 193, 186, 237, 121, 119, 68, 226, 127, 32,
];

/// The bytes of `"vault"`.
pub const VAULT_SEED: [u8; 5] = [118, 97, 117, 108, 116];

/// The amount a new vault holds.
pub const INITIAL_AMOUNT: u64 = 100;

#[derive(Clone, Copy, Debug, PartialEq, Eq)]
pub struct Vault {
    pub amount: u64,
    pub owner: Pubkey,
}

#[derive(Clone, Copy, Debug, PartialEq, Eq)]
pub enum VaultError {
    NotOwner,
    Empty,
}

/// The seeds of an authority's vault address: `"vault"` and the authority's key.
pub open spec fn vault_seeds(authority: Seq<u8>) -> Seq<Seq<u8>> {
    seq![VAULT_SEED@, authority]
}

pub struct InitializeVault {
    pub vault: AccountInfo,
    pub authority: AccountInfo,
}

pub struct Withdraw {
    pub vault: Account<Vault>,
    pub authority: AccountInfo,
}

/// The event a new vault emits.
#[derive(Clone, Copy, Debug, PartialEq, Eq)]
pub struct VaultInitialized {
    pub vault: Pubkey,
    pub owner: Pubkey,
    pub amount: u64,
}

/// The event a withdrawal emits: the vault, who withdrew, and how much.
#[derive(Clone, Copy, Debug, PartialEq, Eq)]
pub struct Withdrawal {
    pub vault: Pubkey,
    pub authority: Pubkey,
    pub amount: u64,
}

/// What `initialize_vault` returns: the signing authority's vault at its derived
/// address, with the initial amount, or the first failed check.
pub open spec fn initialize_vault_result(ctx: InitializeVault) -> Result<(Vault, VaultInitialized), Error<VaultError>> {
    if !ctx.authority.is_signer {
        Err(Error::Anchor(ErrorCode::AccountNotSigner))
    } else if !is_pda(ctx.vault.key@, vault_seeds(ctx.authority.key@), ID@) {
        Err(Error::Anchor(ErrorCode::ConstraintSeeds))
    } else if !is_unused(ctx.vault) {
        Err(in_use_error())
    } else {
        Ok((Vault { amount: INITIAL_AMOUNT, owner: ctx.authority.key }, VaultInitialized { vault: ctx.vault.key, owner: ctx.authority.key, amount: INITIAL_AMOUNT }))
    }
}

pub fn initialize_vault(ctx: &InitializeVault) -> (r: Result<(Vault, VaultInitialized), Error<VaultError>>)
    ensures
        r == initialize_vault_result(*ctx),
{
    check_signer(&ctx.authority)?;
    check_seeds(&ctx.vault.key, &seed_list2(&VAULT_SEED, &ctx.authority.key), &ID)?;
    check_uninitialized(&ctx.vault)?;
    Ok((Vault { amount: INITIAL_AMOUNT, owner: ctx.authority.key }, VaultInitialized { vault: ctx.vault.key, owner: ctx.authority.key, amount: INITIAL_AMOUNT }))
}

/// The error `withdraw` fails with, if any: the first of a missing signature, a
/// vault away from the authority's derived address, another owner, an empty vault.
pub open spec fn withdraw_error(ctx: Withdraw) -> Option<Error<VaultError>> {
    if !ctx.authority.is_signer {
        Some(Error::Anchor(ErrorCode::AccountNotSigner))
    } else if !is_pda(ctx.vault.key@, vault_seeds(ctx.authority.key@), ID@) {
        Some(Error::Anchor(ErrorCode::ConstraintSeeds))
    } else if ctx.vault.data.owner@ != ctx.authority.key@ {
        Some(Error::Program(VaultError::NotOwner))
    } else if ctx.vault.data.amount == 0 {
        Some(Error::Program(VaultError::Empty))
    } else {
        None
    }
}

/// Empties the authority's own vault at its derived address.
pub fn withdraw(ctx: &mut Withdraw) -> (r: Result<Withdrawal, Error<VaultError>>)
    ensures
        match withdraw_error(*old(ctx)) {
            Some(e) => r == Err::<Withdrawal, Error<VaultError>>(e) && *final(ctx) == *old(ctx),
            None => {
                &&& r == Ok::<Withdrawal, Error<VaultError>>(Withdrawal {
                    vault: old(ctx).vault.key, authority: old(ctx).authority.key, amount: old(ctx).vault.data.amount })
                &&& final(ctx).vault == (Account { data: (Vault { amount: 0, ..old(ctx).vault.data }), ..old(ctx).vault })
                &&& final(ctx).authority == old(ctx).authority
            },
        },
{
    check_signer(&ctx.authority)?;
    check_seeds(&ctx.vault.key, &seed_list2(&VAULT_SEED, &ctx.authority.key), &ID)?;
    if !keys_eq(&ctx.vault.data.owner, &ctx.authority.key) {
        return Err(Error::Program(VaultError::NotOwner));
    }
    if ctx.vault.data.amount == 0 {
        return Err(Error::Program(VaultError::Empty));
    }
    let withdrawn = ctx.vault.data.amount;
    ctx.vault.data.amount = 0;
    Ok(Withdrawal { vault: ctx.vault.key, authority: ctx.authority.key, amount: withdrawn })
}

} // verus!

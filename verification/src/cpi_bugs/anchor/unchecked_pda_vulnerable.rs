//! Vaults at any address: a withdrawal checks the stored owner but not that the
//! vault is the owner's derived one, so a vault made elsewhere is accepted.
use crate::bytes::keys_eq;
use crate::framework::{check_creation_signer, check_signer, check_uninitialized, in_use_error, is_unused, Account, Error, ErrorCode};
use crate::runtime::{AccountInfo, ProgramError, Pubkey};
use vstd::prelude::*;

verus! {

/// The program's address, `GtPCfUmRmiykmMatihCAkzGT71Rui2KzZdmAZvuhGLxx`.
pub const ID: Pubkey = [
    236, 9, 7, 43, 247, 111, 100, 4, 216, 41, 167, 185, 85, 36, 150, 2, 65, 240, 128, 110, 114, 44,
    204, 37, 148, 10, 160, 219, 254, 248, 25, 241,
];

/// The amount a new vault holds.
pub const INITIAL_AMOUNT: u64 = 100;

#[derive(Clone, Copy, Debug, PartialEq, Eq)]
pub struct Vault {
    pub amount: u64,
    pub owner: Pubkey,
}

#[derive(Clone, Copy, Debug, PartialEq, Eq)]
pub enum VaultError {
    NotOwner,
    Empty,
}

pub struct InitializeVault {
    pub vault: AccountInfo,
    pub authority: AccountInfo,
}

pub struct Withdraw {
    pub vault: Account<Vault>,
    pub authority: AccountInfo,
}

/// The event a new vault emits.
#[derive(Clone, Copy, Debug, PartialEq, Eq)]
pub struct VaultInitialized {
    pub vault: Pubkey,
    pub owner: Pubkey,
    pub amount: u64,
}

/// The event a withdrawal emits: the vault, who withdrew, and how much.
#[derive(Clone, Copy, Debug, PartialEq, Eq)]
pub struct Withdrawal {
    pub vault: Pubkey,
    pub authority: Pubkey,
    pub amount: u64,
}

/// What `initialize_vault` returns: the signing authority's vault with the
/// initial amount at whatever address signed for it, or the first failed check
/// (creating an account at an address that is not derived needs its signature).
pub open spec fn initialize_vault_result(ctx: InitializeVault) -> Result<(Vault, VaultInitialized), Error<VaultError>> {
    if !ctx.authority.is_signer {
        Err(Error::Anchor(ErrorCode::AccountNotSigner))
    } else if !ctx.vault.is_signer {
        Err(Error::Runtime(ProgramError::MissingRequiredSignature))
    } else if !is_unused(ctx.vault) {
        Err(in_use_error())
    } else {
        Ok((Vault { amount: INITIAL_AMOUNT, owner: ctx.authority.key }, VaultInitialized { vault: ctx.vault.key, owner: ctx.authority.key, amount: INITIAL_AMOUNT }))
    }
}

pub fn initialize_vault(ctx: &InitializeVault) -> (r: Result<(Vault, VaultInitialized), Error<VaultError>>)
    ensures
        r == initialize_vault_result(*ctx),
{
    check_signer(&ctx.authority)?;
    check_creation_signer(&ctx.vault)?;
    check_uninitialized(&ctx.vault)?;
    Ok((Vault { amount: INITIAL_AMOUNT, owner: ctx.authority.key }, VaultInitialized { vault: ctx.vault.key, owner: ctx.authority.key, amount: INITIAL_AMOUNT }))
}

/// The error `withdraw` fails with, if any: the first of a missing signature,
/// another owner, an empty vault; where the vault is is never checked.
pub open spec fn withdraw_error(ctx: Withdraw) -> Option<Error<VaultError>> {
    if !ctx.authority.is_signer {
        Some(Error::Anchor(ErrorCode::AccountNotSigner))
    } else if ctx.vault.data.owner@ != ctx.authority.key@ {
        Some(Error::Program(VaultError::NotOwner))
    } else if ctx.vault.data.amount == 0 {
        Some(Error::Program(VaultError::Empty))
    } else {
        None
    }
}

/// Empties a vault that names the signing authority as owner, wherever it is.
pub fn withdraw(ctx: &mut Withdraw) -> (r: Result<Withdrawal, Error<VaultError>>)
    ensures
        match withdraw_error(*old(ctx)) {
            Some(e) => r == Err::<Withdrawal, Error<VaultError>>(e) && *final(ctx) == *old(ctx),
            None => {
                &&& r == Ok::<Withdrawal, Error<VaultError>>(Withdrawal {
                    vault: old(ctx).vault.key, authority: old(ctx).authority.key, amount: old(ctx).vault.data.amount })
                &&& final(ctx).vault == (Account { data: (Vault { amount: 0, ..old(ctx).vault.data }), ..old(ctx).vault })
                &&& final(ctx).authority == old(ctx).authority
            },
        },
{
    check_signer(&ctx.authority)?;
    if !keys_eq(&ctx.vault.data.owner, &ctx.authority.key) {
        return Err(Error::Program(VaultError::NotOwner));
    }
    if ctx.vault.data.amount == 0 {
        return Err(Error::Program(VaultError::Empty));
    }
    let withdrawn = ctx.vault.data.amount;
    ctx.vault.data.amount = 0;
    Ok(Withdrawal { vault: ctx.vault.key, authority: ctx.authority.key, amount: withdrawn })
}

} // verus!

//! A vault whose withdrawals compare the authority's key with the recorded one
//! but never ask for its signature.
use crate::bytes::keys_eq;
use crate::framework::{
    check_seeds, check_signer, check_uninitialized, in_use_error, is_pda, is_unused, seed_list2,
    Account, Error, ErrorCode, SystemTransfer,
};
use crate::runtime::{AccountInfo, Pubkey};
use vstd::prelude::*;

verus! {

/// The program's address, `BH5HWxfnGHa81jEBZXdt6zFh5TZpVMsiVEqDCE23YBW`.
pub const ID: Pubkey = [
    2, 161, 251, 157, 253, 204, 105, 115, 36, 219, 84, 78, 240, 116, 113, 112, 202, 100, 21, 108,
    228, 232, 56, 87, 182, 147, 237, 55, 231, 199, 112, 253,
];

/// The bytes of `"vault"`.
pub const VAULT_SEED: [u8; 5] = [118, 97, 117, 108, 116];

#[derive(Clone, Copy, Debug, PartialEq, Eq)]
pub struct Vault {
    pub authority: Pubkey,
    pub balance: u64,
}

#[derive(Clone, Copy, Debug, PartialEq, Eq)]
pub enum VaultError {
    Unauthorized,
    InsufficientFunds,
}

/// The seeds of a vault's address: `"vault"` and the authority's key.
pub open spec fn vault_seeds(authority: Seq<u8>) -> Seq<Seq<u8>> {
    seq![VAULT_SEED@, authority]
}

pub struct Initialize {
    pub vault: AccountInfo,
    pub authority: AccountInfo,
}

pub struct Deposit {
    pub vault: Account<Vault>,
    pub depositor: AccountInfo,
}

pub struct Withdraw {
    pub vault: Account<Vault>,
    pub authority: AccountInfo,
}

/// What `initialize` returns: the new vault, or the first failed check among the
/// authority's signature, the vault's address and the vault being unused.
pub open spec fn initialize_result(ctx: Initialize) -> Result<Vault, Error<VaultError>> {
    if !ctx.authority.is_signer {
        Err(Error::Anchor(ErrorCode::AccountNotSigner))
    } else if !is_pda(ctx.vault.key@, vault_seeds(ctx.authority.key@), ID@) {
        Err(Error::Anchor(ErrorCode::ConstraintSeeds))
    } else if !is_unused(ctx.vault) {
        Err(in_use_error())
    } else {
        Ok(Vault { authority: ctx.authority.key, balance: 0 })
    }
}

/// Creates the vault at the authority's derived address, recording the
/// authority and a zero balance.
pub fn initialize(ctx: &Initialize) -> (r: Result<Vault, Error<VaultError>>)
    ensures
        r == initialize_result(*ctx),
{
    check_signer(&ctx.authority)?;
    check_seeds(&ctx.vault.key, &seed_list2(&VAULT_SEED, &ctx.authority.key), &ID)?;
    check_uninitialized(&ctx.vault)?;
    Ok(Vault { authority: ctx.authority.key, balance: 0 })
}

/// Records a deposit by a signing depositor; the lamports move by the returned
/// system transfer. The balance is added with `checked_add(..).unwrap()`, so an
/// overflow would abort.
pub fn deposit(ctx: &mut Deposit, amount: u64) -> (r: Result<SystemTransfer, Error<VaultError>>)
    requires
        old(ctx).depositor.is_signer ==> old(ctx).vault.data.balance + amount <= u64::MAX,
    ensures
        !old(ctx).depositor.is_signer ==> r == Err::<SystemTransfer, Error<VaultError>>(Error::Anchor(ErrorCode::AccountNotSigner))
            && *final(ctx) == *old(ctx),
        old(ctx).depositor.is_signer ==> {
            &&& r == Ok::<SystemTransfer, Error<VaultError>>(
                SystemTransfer { from: old(ctx).depositor.key, to: old(ctx).vault.key, lamports: amount },
            )
            &&& final(ctx).vault.data == Vault { balance: (old(ctx).vault.data.balance + amount) as u64, ..old(ctx).vault.data }
            &&& final(ctx).vault.key == old(ctx).vault.key
            &&& final(ctx).vault.lamports == old(ctx).vault.lamports
            &&& final(ctx).depositor == old(ctx).depositor
        },
{
    check_signer(&ctx.depositor)?;
    let transfer = SystemTransfer { from: ctx.depositor.key, to: ctx.vault.key, lamports: amount };
    ctx.vault.data.balance = ctx.vault.data.balance + amount;
    Ok(transfer)
}

/// Whether a withdrawal of `amount` passes every check of `withdraw`: the key
/// check and the balance check, with no signature asked.
pub open spec fn withdraw_allowed(ctx: Withdraw, amount: u64) -> bool {
    &&& ctx.vault.data.authority@ == ctx.authority.key@
    &&& ctx.vault.data.balance >= amount
}

/// Pays `amount` lamports out of the vault to whoever passes the recorded
/// authority's key, signed or not.
pub fn withdraw(ctx: &mut Withdraw, amount: u64) -> (r: Result<(), Error<VaultError>>)
    requires
        withdraw_allowed(*old(ctx), amount) ==> old(ctx).vault.lamports >= amount
            && old(ctx).authority.lamports + amount <= u64::MAX,
    ensures
        old(ctx).vault.data.authority@ != old(ctx).authority.key@
            ==> r == Err::<(), Error<VaultError>>(Error::Program(VaultError::Unauthorized)),
        old(ctx).vault.data.authority@ == old(ctx).authority.key@ && old(ctx).vault.data.balance < amount
            ==> r == Err::<(), Error<VaultError>>(Error::Program(VaultError::InsufficientFunds)),
        r is Err ==> *final(ctx) == *old(ctx),
        withdraw_allowed(*old(ctx), amount) ==> {
            &&& r is Ok
            &&& final(ctx).vault.data == Vault { balance: (old(ctx).vault.data.balance - amount) as u64, ..old(ctx).vault.data }
            &&& final(ctx).vault.lamports == old(ctx).vault.lamports - amount
            &&& final(ctx).authority.lamports == old(ctx).authority.lamports + amount
            &&& final(ctx).vault.key == old(ctx).vault.key
            &&& final(ctx).authority == AccountInfo { lamports: final(ctx).authority.lamports, ..old(ctx).authority }
        },
{
    if !keys_eq(&ctx.vault.data.authority, &ctx.authority.key) {
        return Err(Error::Program(VaultError::Unauthorized));
    }
    if ctx.vault.data.balance < amount {
        return Err(Error::Program(VaultError::InsufficientFunds));
    }
    ctx.vault.data.balance = ctx.vault.data.balance - amount;
    ctx.vault.lamports = ctx.vault.lamports - amount;
    ctx.authority.lamports = ctx.authority.lamports + amount;
    Ok(())
}

} // verus!

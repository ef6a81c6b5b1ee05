//! A vault whose owner changes and withdrawals compare the caller's key with
//! the owner's but never ask for a signature.
use crate::bytes::keys_eq;
use crate::framework::{
    check_seeds, check_signer, check_uninitialized, in_use_error, is_pda, is_unused, pda_bump,
    seed_list2, Account, Error, ErrorCode, SystemTransfer,
};
use crate::runtime::{AccountInfo, Pubkey};
use vstd::prelude::*;

verus! {

/// The program's address, `2WkZa747N84M3p6FkAxqSUp5ACTJNX6PfqskmSPtT1BU`.
pub const ID: Pubkey = [
    22, 122, 201, 29, 155, 51, 245, 36, 99, 85, 249, 163, 189, 63, 207, 109, 40, 22, 57, 207, 35,
    225, 255, 57, 74, 133, 124, 102, 234, 21, 153, 159,
];

/// The bytes of `"vault"`.
pub const VAULT_SEED: [u8; 5] = [118, 97, 117, 108, 116];

/// A vault: its current owner, the lamports it records, the creator whose key
/// its address derives from, and that address's bump.
#[derive(Clone, Copy, Debug, PartialEq, Eq)]
pub struct Vault {
    pub owner: Pubkey,
    pub balance: u64,
    pub seed_key: Pubkey,
    pub bump: u8,
}

#[derive(Clone, Copy, Debug, PartialEq, Eq)]
pub enum SignatureError {
    InvalidOwner,
    InsufficientFunds,
}

/// The seeds of a vault's address: `"vault"` and the creator's key.
pub open spec fn vault_seeds(creator: Seq<u8>) -> Seq<Seq<u8>> {
    seq![VAULT_SEED@, creator]
}

/// The event a new vault emits.
#[derive(Clone, Copy, Debug, PartialEq, Eq)]
pub struct VaultCreated {
    pub vault: Pubkey,
    pub owner: Pubkey,
}

/// The event a deposit emits.
#[derive(Clone, Copy, Debug, PartialEq, Eq)]
pub struct Deposited {
    pub vault: Pubkey,
    pub depositor: Pubkey,
    pub amount: u64,
}

/// The event an owner change emits.
#[derive(Clone, Copy, Debug, PartialEq, Eq)]
pub struct OwnerUpdated {
    pub vault: Pubkey,
    pub old_owner: Pubkey,
    pub new_owner: Pubkey,
}

/// The event a withdrawal emits.
#[derive(Clone, Copy, Debug, PartialEq, Eq)]
pub struct Withdrawn {
    pub vault: Pubkey,
    pub authority: Pubkey,
    pub amount: u64,
}

pub struct Initialize {
    pub vault: AccountInfo,
    pub signer: AccountInfo,
}

pub struct Deposit {
    pub vault: Account<Vault>,
    pub depositor: AccountInfo,
}

pub struct UpdateOwner {
    pub vault: Account<Vault>,
    pub authority: AccountInfo,
}

pub struct Withdraw {
    pub vault: Account<Vault>,
    pub authority: AccountInfo,
}

/// What `initialize` returns: the signer's empty vault at its derived address, or
/// the first failed check.
pub open spec fn initialize_result(ctx: Initialize) -> Result<(Vault, VaultCreated), Error<SignatureError>> {
    if !ctx.signer.is_signer {
        Err(Error::Anchor(ErrorCode::AccountNotSigner))
    } else if !is_pda(ctx.vault.key@, vault_seeds(ctx.signer.key@), ID@) {
        Err(Error::Anchor(ErrorCode::ConstraintSeeds))
    } else if !is_unused(ctx.vault) {
        Err(in_use_error())
    } else {
        Ok((Vault {
            owner: ctx.signer.key,
            balance: 0,
            seed_key: ctx.signer.key,
            bump: pda_bump(vault_seeds(ctx.signer.key@), ID@),
        }, VaultCreated { vault: ctx.vault.key, owner: ctx.signer.key }))
    }
}

pub fn initialize(ctx: &Initialize) -> (r: Result<(Vault, VaultCreated), Error<SignatureError>>)
    ensures
        r == initialize_result(*ctx),
{
    check_signer(&ctx.signer)?;
    let bump = check_seeds(&ctx.vault.key, &seed_list2(&VAULT_SEED, &ctx.signer.key), &ID)?;
    check_uninitialized(&ctx.vault)?;
    Ok((Vault { owner: ctx.signer.key, balance: 0, seed_key: ctx.signer.key, bump }, VaultCreated { vault: ctx.vault.key, owner: ctx.signer.key }))
}

/// Records a deposit by a signing depositor, whose lamports move by the returned
/// system transfer; the balance is added with `+=`, so an overflow would abort.
pub fn deposit(ctx: &mut Deposit, amount: u64) -> (r: Result<(SystemTransfer, Deposited), Error<SignatureError>>)
    requires
        old(ctx).depositor.is_signer ==> old(ctx).vault.data.balance + amount <= u64::MAX,
    ensures
        !old(ctx).depositor.is_signer ==> r == Err::<(SystemTransfer, Deposited), Error<SignatureError>>(Error::Anchor(ErrorCode::AccountNotSigner))
            && *final(ctx) == *old(ctx),
        old(ctx).depositor.is_signer ==> {
            &&& r == Ok::<(SystemTransfer, Deposited), Error<SignatureError>>((
                SystemTransfer { from: old(ctx).depositor.key, to: old(ctx).vault.key, lamports: amount },
                Deposited { vault: old(ctx).vault.key, depositor: old(ctx).depositor.key, amount },
            ))
            &&& final(ctx).vault.data == Vault { balance: (old(ctx).vault.data.balance + amount) as u64, ..old(ctx).vault.data }
            &&& final(ctx).vault.key == old(ctx).vault.key
            &&& final(ctx).vault.lamports == old(ctx).vault.lamports
            &&& final(ctx).depositor == old(ctx).depositor
        },
{
    check_signer(&ctx.depositor)?;
    let transfer = SystemTransfer { from: ctx.depositor.key, to: ctx.vault.key, lamports: amount };
    ctx.vault.data.balance = ctx.vault.data.balance + amount;
    Ok((transfer, Deposited { vault: ctx.vault.key, depositor: ctx.depositor.key, amount }))
}

/// Hands the vault to `new_owner` for whoever passes the owner's key, signed or not.
pub fn update_owner(ctx: &mut UpdateOwner, new_owner: Pubkey) -> (r: Result<OwnerUpdated, Error<SignatureError>>)
    ensures
        old(ctx).vault.data.owner@ != old(ctx).authority.key@
            ==> r == Err::<OwnerUpdated, Error<SignatureError>>(Error::Program(SignatureError::InvalidOwner)),
        r is Err ==> *final(ctx) == *old(ctx),
        old(ctx).vault.data.owner@ == old(ctx).authority.key@ ==> {
            &&& r == Ok::<OwnerUpdated, Error<SignatureError>>(OwnerUpdated { vault: old(ctx).vault.key, old_owner: old(ctx).vault.data.owner, new_owner })
            &&& final(ctx).vault.data == Vault { owner: new_owner, ..old(ctx).vault.data }
            &&& final(ctx).vault.key == old(ctx).vault.key
            &&& final(ctx).vault.lamports == old(ctx).vault.lamports
            &&& final(ctx).authority == old(ctx).authority
        },
{
    if !keys_eq(&ctx.vault.data.owner, &ctx.authority.key) {
        return Err(Error::Program(SignatureError::InvalidOwner));
    }
    let old_owner = ctx.vault.data.owner;
    ctx.vault.data.owner = new_owner;
    Ok(OwnerUpdated { vault: ctx.vault.key, old_owner, new_owner })
}

/// Whether a withdrawal of `amount` passes every check of `withdraw`: no signature asked.
pub open spec fn withdraw_allowed(ctx: Withdraw, amount: u64) -> bool {
    &&& ctx.vault.data.owner@ == ctx.authority.key@
    &&& ctx.vault.data.balance >= amount
}

/// Pays `amount` lamports out of the vault to whoever passes the owner's key,
/// signed or not, and lowers the recorded balance.
pub fn withdraw(ctx: &mut Withdraw, amount: u64) -> (r: Result<Withdrawn, Error<SignatureError>>)
    requires
        withdraw_allowed(*old(ctx), amount) ==> old(ctx).vault.lamports >= amount
            && old(ctx).authority.lamports + amount <= u64::MAX,
    ensures
        old(ctx).vault.data.owner@ != old(ctx).authority.key@
            ==> r == Err::<Withdrawn, Error<SignatureError>>(Error::Program(SignatureError::InvalidOwner)),
        old(ctx).vault.data.owner@ == old(ctx).authority.key@ && old(ctx).vault.data.balance < amount
            ==> r == Err::<Withdrawn, Error<SignatureError>>(Error::Program(SignatureError::InsufficientFunds)),
        r is Err ==> *final(ctx) == *old(ctx),
        withdraw_allowed(*old(ctx), amount) ==> {
            &&& r == Ok::<Withdrawn, Error<SignatureError>>(Withdrawn { vault: old(ctx).vault.key, authority: old(ctx).authority.key, amount })
            &&& final(ctx).vault.data == Vault { balance: (old(ctx).vault.data.balance - amount) as u64, ..old(ctx).vault.data }
            &&& final(ctx).vault.lamports == old(ctx).vault.lamports - amount
            &&& final(ctx).vault.key == old(ctx).vault.key
            &&& final(ctx).authority == AccountInfo { lamports: (old(ctx).authority.lamports + amount) as u64, ..old(ctx).authority }
        },
{
    if !keys_eq(&ctx.vault.data.owner, &ctx.authority.key) {
        return Err(Error::Program(SignatureError::InvalidOwner));
    }
    if ctx.vault.data.balance < amount {
        return Err(Error::Program(SignatureError::InsufficientFunds));
    }
    ctx.vault.lamports = ctx.vault.lamports - amount;
    ctx.authority.lamports = ctx.authority.lamports + amount;
    ctx.vault.data.balance = ctx.vault.data.balance - amount;
    Ok(Withdrawn { vault: ctx.vault.key, authority: ctx.authority.key, amount })
}

} // verus!

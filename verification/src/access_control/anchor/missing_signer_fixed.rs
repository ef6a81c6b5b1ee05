//! A vault whose withdrawals need the authority's signature.
use crate::framework::{
    check_seeds, check_signer, check_uninitialized, in_use_error, is_pda, is_unused, seed_list2,
    Account, Error, ErrorCode, SystemTransfer,
};
use crate::bytes::keys_eq;
use crate::runtime::{AccountInfo, Pubkey};
use vstd::prelude::*;

verus! {

/// The program's address, `CtRBdgxU8TpJ9jXVJXyPJrRqj9ByXa7M7ixRerVhF1hX`.
pub const ID: Pubkey = [
    176, 156, 133, 136, 226, 119, 186, 110, 2, 30, 250, 228, 224, 162, 236, 60, 116, 7, 160, 54,
    145, 249, 27, 78, 89, 190, 104, 75, 179, 154, 88, 30,
];

/// A vault: who may withdraw, and the lamports it records.
#[derive(Clone, Copy, Debug, PartialEq, Eq)]
pub struct Vault {
    pub authority: Pubkey,
    pub balance: u64,
}

#[derive(Clone, Copy, Debug, PartialEq, Eq)]
pub enum VaultError {
    Unauthorized,
    InsufficientFunds,
    Overflow,
    Underflow,
}

/// The bytes of `"vault"`.
pub const VAULT_SEED: [u8; 5] = [118, 97, 117, 108, 116];

/// The seeds of a vault's address: `"vault"` and the authority's key.
pub open spec fn vault_seeds(authority: Seq<u8>) -> Seq<Seq<u8>> {
    seq![VAULT_SEED@, authority]
}

/// Accounts of `initialize`: the vault to create and its paying authority.
pub struct Initialize {
    pub vault: AccountInfo,
    pub authority: AccountInfo,
}

/// Accounts of `deposit`.
pub struct Deposit {
    pub vault: Account<Vault>,
    pub depositor: AccountInfo,
}

/// Accounts of `withdraw`.
pub struct Withdraw {
    pub vault: Account<Vault>,
    pub authority: AccountInfo,
}

/// Creates the vault at the authority's derived address, recording the
/// authority and a zero balance.
pub fn initialize(ctx: &Initialize) -> (r: Result<Vault, Error<VaultError>>)
    ensures
        r == initialize_result(*ctx),
{
    check_signer(&ctx.authority)?;
    check_seeds(&ctx.vault.key, &seed_list2(&VAULT_SEED, &ctx.authority.key), &ID)?;
    check_uninitialized(&ctx.vault)?;
    Ok(Vault { authority: ctx.authority.key, balance: 0 })
}

/// What `initialize` returns: the new vault, or the first failed check among the
/// authority's signature, the vault's address and the vault being unused.
pub open spec fn initialize_result(ctx: Initialize) -> Result<Vault, Error<VaultError>> {
    if !ctx.authority.is_signer {
        Err(Error::Anchor(ErrorCode::AccountNotSigner))
    } else if !is_pda(ctx.vault.key@, vault_seeds(ctx.authority.key@), ID@) {
        Err(Error::Anchor(ErrorCode::ConstraintSeeds))
    } else if !is_unused(ctx.vault) {
        Err(in_use_error())
    } else {
        Ok(Vault { authority: ctx.authority.key, balance: 0 })
    }
}

/// Records a deposit: the depositor must sign; the vault's recorded balance grows
/// by `amount` (checked), and the lamports move by the returned system transfer.
pub fn deposit(ctx: &mut Deposit, amount: u64) -> (r: Result<SystemTransfer, Error<VaultError>>)
    ensures
        !old(ctx).depositor.is_signer ==> r == Err::<SystemTransfer, Error<VaultError>>(Error::Anchor(ErrorCode::AccountNotSigner)),
        old(ctx).depositor.is_signer && old(ctx).vault.data.balance + amount > u64::MAX
            ==> r == Err::<SystemTransfer, Error<VaultError>>(Error::Program(VaultError::Overflow)),
        r is Err ==> *final(ctx) == *old(ctx),
        r matches Ok(t) ==> {
            &&& old(ctx).depositor.is_signer
            &&& t == SystemTransfer { from: old(ctx).depositor.key, to: old(ctx).vault.key, lamports: amount }
            &&& final(ctx).vault.data.balance == old(ctx).vault.data.balance + amount
            &&& final(ctx).vault.data.authority == old(ctx).vault.data.authority
            &&& final(ctx).vault.key == old(ctx).vault.key
            &&& final(ctx).vault.lamports == old(ctx).vault.lamports
            &&& final(ctx).depositor == old(ctx).depositor
        },
{
    check_signer(&ctx.depositor)?;
    let transfer = SystemTransfer { from: ctx.depositor.key, to: ctx.vault.key, lamports: amount };
    match ctx.vault.data.balance.checked_add(amount) {
        Some(b) => {
            ctx.vault.data.balance = b;
            Ok(transfer)
        },
        None => Err(Error::Program(VaultError::Overflow)),
    }
}

/// Whether a withdrawal of `amount` passes every check of `withdraw`.
pub open spec fn withdraw_allowed(ctx: Withdraw, amount: u64) -> bool {
    &&& ctx.authority.is_signer
    &&& ctx.vault.data.authority@ == ctx.authority.key@
    &&& ctx.vault.data.balance >= amount
}

/// What `withdraw` answers: a missing signature, another authority than the
/// recorded one, or a balance below `amount` is refused.
pub open spec fn withdraw_result(ctx: Withdraw, amount: u64) -> Result<(), Error<VaultError>> {
    if !ctx.authority.is_signer {
        Err(Error::Anchor(ErrorCode::AccountNotSigner))
    } else if ctx.vault.data.authority@ != ctx.authority.key@ {
        Err(Error::Program(VaultError::Unauthorized))
    } else if ctx.vault.data.balance < amount {
        Err(Error::Program(VaultError::InsufficientFunds))
    } else {
        Ok(())
    }
}

/// Pays `amount` lamports out of the vault to its authority, who must sign and
/// be the vault's recorded authority; the recorded balance drops by `amount`.
pub fn withdraw(ctx: &mut Withdraw, amount: u64) -> (r: Result<(), Error<VaultError>>)
    requires
        withdraw_allowed(*old(ctx), amount) ==> old(ctx).vault.lamports >= amount
            && old(ctx).authority.lamports + amount <= u64::MAX,
    ensures
        !old(ctx).authority.is_signer ==> r == Err::<(), Error<VaultError>>(Error::Anchor(ErrorCode::AccountNotSigner)),
        old(ctx).authority.is_signer && old(ctx).vault.data.authority@ != old(ctx).authority.key@
            ==> r == Err::<(), Error<VaultError>>(Error::Program(VaultError::Unauthorized)),
        old(ctx).authority.is_signer && old(ctx).vault.data.authority@ == old(ctx).authority.key@
            && old(ctx).vault.data.balance < amount
            ==> r == Err::<(), Error<VaultError>>(Error::Program(VaultError::InsufficientFunds)),
        r is Err ==> *final(ctx) == *old(ctx),
        r is Ok <==> withdraw_allowed(*old(ctx), amount),
        r == withdraw_result(*old(ctx), amount),
        r is Ok ==> {
            &&& withdraw_allowed(*old(ctx), amount)
            &&& final(ctx).vault.data.balance == old(ctx).vault.data.balance - amount
            &&& final(ctx).vault.data.authority == old(ctx).vault.data.authority
            &&& final(ctx).vault.lamports == old(ctx).vault.lamports - amount
            &&& final(ctx).authority.lamports == old(ctx).authority.lamports + amount
            &&& final(ctx).vault.key == old(ctx).vault.key
            &&& final(ctx).authority.key == old(ctx).authority.key
        },
{
    check_signer(&ctx.authority)?;
    if !keys_eq(&ctx.vault.data.authority, &ctx.authority.key) {
        return Err(Error::Program(VaultError::Unauthorized));
    }
    if ctx.vault.data.balance < amount {
        return Err(Error::Program(VaultError::InsufficientFunds));
    }
    ctx.vault.data.balance = ctx.vault.data.balance - amount;
    ctx.vault.lamports = ctx.vault.lamports - amount;
    ctx.authority.lamports = ctx.authority.lamports + amount;
    Ok(())
}


/// The vault's signing recorded authority can withdraw any amount up to and
/// including the recorded balance, and nothing more; nobody else can withdraw.
pub proof fn authority_withdraws_up_to_the_balance(ctx: Withdraw, amount: u64)
    ensures
        ctx.authority.is_signer && ctx.vault.data.authority@ == ctx.authority.key@
            ==> (withdraw_result(ctx, amount) is Ok <==> amount <= ctx.vault.data.balance),
        !ctx.authority.is_signer || ctx.vault.data.authority@ != ctx.authority.key@
            ==> withdraw_result(ctx, amount) is Err,
        withdraw_result(ctx, amount) is Ok <==> withdraw_allowed(ctx, amount),
{
}

} // verus!

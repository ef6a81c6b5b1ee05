//! A vault whose withdrawal reads the vault from raw account bytes without
//! asking which program owns the account, so forged data passes the checks.
use crate::bytes::{bytes_at, bytes_eq_key, le_u64_at, read_u64_le};
use crate::framework::{
    check_seeds, check_signer, check_uninitialized, in_use_error, is_pda, is_unused, seed_list2,
    Account, Error, ErrorCode,
};
use crate::runtime::{AccountInfo, Pubkey};
use vstd::prelude::*;

verus! {

/// The program's address, `FS2bmiDeTvd7f4AkdqGgkJiYRztyCcHKVxAH7YTVCw9M`.
pub const ID: Pubkey = [
    214, 108, 242, 28, 235, 14, 94, 156, 32, 126, 18, 162, 172, 200, 66, 41, 108, 204, 250, 65,
    98, 12, 139, 96, 217, 245, 236, 88, 166, 96, 221, 244,
];

/// The bytes of `"vault"`.
pub const VAULT_SEED: [u8; 5] = [118, 97, 117, 108, 116];

#[derive(Clone, Copy, Debug, PartialEq, Eq)]
pub struct Vault {
    pub owner: Pubkey,
    pub balance: u64,
    pub is_locked: bool,
}

#[derive(Clone, Copy, Debug, PartialEq, Eq)]
pub enum VaultError {
    Unauthorized,
    InsufficientFunds,
}

/// The seeds of a vault's address: `"vault"` and the owner's key.
pub open spec fn vault_seeds(owner: Seq<u8>) -> Seq<Seq<u8>> {
    seq![VAULT_SEED@, owner]
}

pub struct Initialize {
    pub vault: AccountInfo,
    pub owner: AccountInfo,
}

pub struct Deposit {
    pub vault: Account<Vault>,
    pub depositor: AccountInfo,
}

/// Accounts of `withdraw_vulnerable`: the vault is any account at all.
pub struct WithdrawVulnerable {
    pub vault: AccountInfo,
    pub owner: AccountInfo,
}

/// What `initialize` returns: the new unlocked, empty vault of the signing owner,
/// or the first failed check among the signature, the address and the vault being unused.
pub open spec fn initialize_result(ctx: Initialize) -> Result<Vault, Error<VaultError>> {
    if !ctx.owner.is_signer {
        Err(Error::Anchor(ErrorCode::AccountNotSigner))
    } else if !is_pda(ctx.vault.key@, vault_seeds(ctx.owner.key@), ID@) {
        Err(Error::Anchor(ErrorCode::ConstraintSeeds))
    } else if !is_unused(ctx.vault) {
        Err(in_use_error())
    } else {
        Ok(Vault { owner: ctx.owner.key, balance: 0, is_locked: false })
    }
}

pub fn initialize(ctx: &Initialize) -> (r: Result<Vault, Error<VaultError>>)
    ensures
        r == initialize_result(*ctx),
{
    check_signer(&ctx.owner)?;
    check_seeds(&ctx.vault.key, &seed_list2(&VAULT_SEED, &ctx.owner.key), &ID)?;
    check_uninitialized(&ctx.vault)?;
    Ok(Vault { owner: ctx.owner.key, balance: 0, is_locked: false })
}

/// Whether `deposit` runs without an arithmetic panic: the lamports move with
/// `-=`/`+=` and the balance grows with `checked_add(..).unwrap()`.
pub open spec fn deposit_safe(ctx: Deposit, amount: u64) -> bool {
    ctx.depositor.is_signer ==> {
        &&& ctx.depositor.lamports >= amount
        &&& ctx.vault.lamports + amount <= u64::MAX
        &&& ctx.vault.data.balance + amount <= u64::MAX
    }
}

/// Moves `amount` lamports from the signing depositor to the vault and adds it to
/// the recorded balance.
pub fn deposit(ctx: &mut Deposit, amount: u64) -> (r: Result<(), Error<VaultError>>)
    requires
        deposit_safe(*old(ctx), amount),
    ensures
        !old(ctx).depositor.is_signer ==> r == Err::<(), Error<VaultError>>(Error::Anchor(ErrorCode::AccountNotSigner))
            && *final(ctx) == *old(ctx),
        old(ctx).depositor.is_signer ==> {
            &&& r is Ok
            &&& final(ctx).vault.data == Vault { balance: (old(ctx).vault.data.balance + amount) as u64, ..old(ctx).vault.data }
            &&& final(ctx).vault.lamports == old(ctx).vault.lamports + amount
            &&& final(ctx).vault.key == old(ctx).vault.key
            &&& final(ctx).depositor == AccountInfo { lamports: (old(ctx).depositor.lamports - amount) as u64, ..old(ctx).depositor }
        },
{
    check_signer(&ctx.depositor)?;
    ctx.depositor.lamports = ctx.depositor.lamports - amount;
    ctx.vault.lamports = ctx.vault.lamports + amount;
    ctx.vault.data.balance = ctx.vault.data.balance + amount;
    Ok(())
}

/// The owner the data of a would-be vault names, at bytes 8..40.
pub open spec fn claimed_owner(data: Seq<u8>) -> Seq<u8> {
    bytes_at(data, 8, 32)
}

/// The balance the data of a would-be vault names, at bytes 40..48.
pub open spec fn claimed_balance(data: Seq<u8>) -> u64 {
    le_u64_at(data, 40)
}

/// Whether a withdrawal of `amount` passes every check of `withdraw_vulnerable`:
/// a signing owner whose key and a large enough balance stand in the account's
/// bytes, whoever owns the account.
pub open spec fn withdraw_allowed(ctx: WithdrawVulnerable, amount: u64) -> bool {
    &&& ctx.owner.is_signer
    &&& claimed_owner(ctx.vault.data@) == ctx.owner.key@
    &&& claimed_balance(ctx.vault.data@) >= amount
}

/// Pays `amount` lamports out of any account whose bytes name the signing owner
/// and a large enough balance; the bytes are left as they were.
pub fn withdraw_vulnerable(ctx: &mut WithdrawVulnerable, amount: u64) -> (r: Result<(), Error<VaultError>>)
    requires
        old(ctx).owner.is_signer ==> old(ctx).vault.data@.len() >= 48,
        withdraw_allowed(*old(ctx), amount) ==> old(ctx).vault.lamports >= amount
            && old(ctx).owner.lamports + amount <= u64::MAX,
    ensures
        !old(ctx).owner.is_signer ==> r == Err::<(), Error<VaultError>>(Error::Anchor(ErrorCode::AccountNotSigner)),
        old(ctx).owner.is_signer && claimed_owner(old(ctx).vault.data@) != old(ctx).owner.key@
            ==> r == Err::<(), Error<VaultError>>(Error::Program(VaultError::Unauthorized)),
        old(ctx).owner.is_signer && claimed_owner(old(ctx).vault.data@) == old(ctx).owner.key@
            && claimed_balance(old(ctx).vault.data@) < amount
            ==> r == Err::<(), Error<VaultError>>(Error::Program(VaultError::InsufficientFunds)),
        r is Err ==> *final(ctx) == *old(ctx),
        withdraw_allowed(*old(ctx), amount) ==> {
            &&& r is Ok
            &&& final(ctx).vault == AccountInfo { lamports: (old(ctx).vault.lamports - amount) as u64, ..old(ctx).vault }
            &&& final(ctx).owner == AccountInfo { lamports: (old(ctx).owner.lamports + amount) as u64, ..old(ctx).owner }
        },
{
    check_signer(&ctx.owner)?;
    if !bytes_eq_key(&ctx.vault.data, 8, &ctx.owner.key) {
        return Err(Error::Program(VaultError::Unauthorized));
    }
    let balance = read_u64_le(&ctx.vault.data, 40);
    if balance < amount {
        return Err(Error::Program(VaultError::InsufficientFunds));
    }
    ctx.vault.lamports = ctx.vault.lamports - amount;
    ctx.owner.lamports = ctx.owner.lamports + amount;
    Ok(())
}

} // verus!

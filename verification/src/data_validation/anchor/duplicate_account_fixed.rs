//! Wallet transfers that refuse the same account as source and destination.
use crate::bytes::keys_eq;
use crate::framework::{check_creation_signer, check_signer, check_uninitialized, in_use_error, is_unused, Account, Error, ErrorCode};
use crate::runtime::{AccountInfo, ProgramError, Pubkey};
use vstd::prelude::*;

verus! {

/// The program's address, `FRwiTLfEffh9jMEvijPPUPdpuF9Q4ieiGvJJmeWc3in5`.
pub const ID: Pubkey = [
    214, 103, 108, 42, 151, 72, 83, 155, 210, 147, 8, 146, 115, 206, 214, 216, 184, 117, 232, 59,
    170, 131, 2, 93, 20, 7, 118, 91, 97, 175, 49, 218,
];

/// The balance a new wallet starts with.
pub const INITIAL_BALANCE: u64 = 1000;

#[derive(Clone, Copy, Debug, PartialEq, Eq)]
pub struct Wallet {
    pub balance: u64,
}

#[derive(Clone, Copy, Debug, PartialEq, Eq)]
pub enum WalletError {
    InsufficientFunds,
    DuplicateAccount,
}

pub struct Initialize {
    pub wallet: AccountInfo,
    pub signer: AccountInfo,
}

/// Accounts of `transfer`: each wallet as loaded on its own, even when both
/// are the same account.
pub struct Transfer {
    pub from: Account<Wallet>,
    pub to: Account<Wallet>,
}

/// The event a new wallet emits.
#[derive(Clone, Copy, Debug, PartialEq, Eq)]
pub struct WalletCreated {
    pub wallet: Pubkey,
    pub owner: Pubkey,
    pub balance: u64,
}

/// The event a transfer emits.
#[derive(Clone, Copy, Debug, PartialEq, Eq)]
pub struct TransferExecuted {
    pub from: Pubkey,
    pub to: Pubkey,
    pub amount: u64,
}

/// What `initialize` returns: a wallet with the starting balance, or the first
/// failed check (the new account must sign for its creation).
pub open spec fn initialize_result(ctx: Initialize) -> Result<(Wallet, WalletCreated), Error<WalletError>> {
    if !ctx.signer.is_signer {
        Err(Error::Anchor(ErrorCode::AccountNotSigner))
    } else if !ctx.wallet.is_signer {
        Err(Error::Runtime(ProgramError::MissingRequiredSignature))
    } else if !is_unused(ctx.wallet) {
        Err(in_use_error())
    } else {
        Ok((Wallet { balance: INITIAL_BALANCE }, WalletCreated { wallet: ctx.wallet.key, owner: ctx.signer.key, balance: INITIAL_BALANCE }))
    }
}

pub fn initialize(ctx: &Initialize) -> (r: Result<(Wallet, WalletCreated), Error<WalletError>>)
    ensures
        r == initialize_result(*ctx),
{
    check_signer(&ctx.signer)?;
    check_creation_signer(&ctx.wallet)?;
    check_uninitialized(&ctx.wallet)?;
    Ok((Wallet { balance: INITIAL_BALANCE }, WalletCreated { wallet: ctx.wallet.key, owner: ctx.signer.key, balance: INITIAL_BALANCE }))
}

/// The error `transfer` fails with, if any: the same account on both sides, or
/// a source holding less than `amount`.
pub open spec fn transfer_error(ctx: Transfer, amount: u64) -> Option<WalletError> {
    if ctx.from.key@ == ctx.to.key@ {
        Some(WalletError::DuplicateAccount)
    } else if ctx.from.data.balance < amount {
        Some(WalletError::InsufficientFunds)
    } else {
        None
    }
}

/// Moves `amount` from one wallet to another, distinct, wallet.
pub fn transfer(ctx: &mut Transfer, amount: u64) -> (r: Result<TransferExecuted, Error<WalletError>>)
    requires
        transfer_error(*old(ctx), amount) is None ==> old(ctx).to.data.balance + amount <= u64::MAX,
    ensures
        match transfer_error(*old(ctx), amount) {
            Some(e) => r == Err::<TransferExecuted, Error<WalletError>>(Error::Program(e)) && *final(ctx) == *old(ctx),
            None => {
                &&& r == Ok::<TransferExecuted, Error<WalletError>>(TransferExecuted { from: old(ctx).from.key, to: old(ctx).to.key, amount })
                &&& final(ctx).from == (Account { data: Wallet { balance: (old(ctx).from.data.balance - amount) as u64 }, ..old(ctx).from })
                &&& final(ctx).to == (Account { data: Wallet { balance: (old(ctx).to.data.balance + amount) as u64 }, ..old(ctx).to })
            },
        },
        old(ctx).from.key@ == old(ctx).to.key@ ==> r is Err,
        r is Ok ==> final(ctx).from.data.balance + final(ctx).to.data.balance
            == old(ctx).from.data.balance + old(ctx).to.data.balance,
{
    if keys_eq(&ctx.from.key, &ctx.to.key) {
        return Err(Error::Program(WalletError::DuplicateAccount));
    }
    if ctx.from.data.balance < amount {
        return Err(Error::Program(WalletError::InsufficientFunds));
    }
    ctx.from.data.balance = ctx.from.data.balance - amount;
    ctx.to.data.balance = ctx.to.data.balance + amount;
    Ok(TransferExecuted { from: ctx.from.key, to: ctx.to.key, amount })
}

} // verus!

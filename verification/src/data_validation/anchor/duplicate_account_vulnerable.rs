//! Wallet transfers that accept the same account as source and destination;
//! each side is loaded and stored on its own, the destination last, so a
//! transfer to oneself adds the amount to the wallet.
use crate::framework::{check_creation_signer, check_signer, check_uninitialized, in_use_error, is_unused, Account, Error, ErrorCode};
use crate::runtime::{AccountInfo, ProgramError, Pubkey};
use vstd::prelude::*;

verus! {

/// The program's address, `mwhX2iLiM9sKJKE3reewCNmCn3BqdDY3uBL5WYn5L5R`.
pub const ID: Pubkey = [
    11, 131, 103, 74, 170, 15, 22, 47, 124, 175, 27, 165, 209, 189, 237, 161, 208, 42, 193, 223, 255,
    231, 231, 174, 203, 71, 250, 95, 6, 159, 147, 188,
];

/// The balance a new wallet starts with.
pub const INITIAL_BALANCE: u64 = 1000;

#[derive(Clone, Copy, Debug, PartialEq, Eq)]
pub struct Wallet {
    pub balance: u64,
}

#[derive(Clone, Copy, Debug, PartialEq, Eq)]
pub enum WalletError {
    InsufficientFunds,
}

pub struct Initialize {
    pub wallet: AccountInfo,
    pub signer: AccountInfo,
}

/// Accounts of `transfer`: each wallet as loaded on its own, even when both
/// are the same account.
pub struct Transfer {
    pub from: Account<Wallet>,
    pub to: Account<Wallet>,
}

/// The event a new wallet emits.
#[derive(Clone, Copy, Debug, PartialEq, Eq)]
pub struct WalletCreated {
    pub wallet: Pubkey,
    pub owner: Pubkey,
    pub balance: u64,
}

/// The event a transfer emits.
#[derive(Clone, Copy, Debug, PartialEq, Eq)]
pub struct TransferExecuted {
    pub from: Pubkey,
    pub to: Pubkey,
    pub amount: u64,
}

/// What `initialize` returns: a wallet with the starting balance, or the first
/// failed check (the new account must sign for its creation).
pub open spec fn initialize_result(ctx: Initialize) -> Result<(Wallet, WalletCreated), Error<WalletError>> {
    if !ctx.signer.is_signer {
        Err(Error::Anchor(ErrorCode::AccountNotSigner))
    } else if !ctx.wallet.is_signer {
        Err(Error::Runtime(ProgramError::MissingRequiredSignature))
    } else if !is_unused(ctx.wallet) {
        Err(in_use_error())
    } else {
        Ok((Wallet { balance: INITIAL_BALANCE }, WalletCreated { wallet: ctx.wallet.key, owner: ctx.signer.key, balance: INITIAL_BALANCE }))
    }
}

pub fn initialize(ctx: &Initialize) -> (r: Result<(Wallet, WalletCreated), Error<WalletError>>)
    ensures
        r == initialize_result(*ctx),
{
    check_signer(&ctx.signer)?;
    check_creation_signer(&ctx.wallet)?;
    check_uninitialized(&ctx.wallet)?;
    Ok((Wallet { balance: INITIAL_BALANCE }, WalletCreated { wallet: ctx.wallet.key, owner: ctx.signer.key, balance: INITIAL_BALANCE }))
}

/// Moves `amount` from one wallet to another, without checking that they differ.
pub fn transfer(ctx: &mut Transfer, amount: u64) -> (r: Result<TransferExecuted, Error<WalletError>>)
    requires
        old(ctx).from.data.balance >= amount ==> old(ctx).to.data.balance + amount <= u64::MAX,
    ensures
        old(ctx).from.data.balance < amount
            ==> r == Err::<TransferExecuted, Error<WalletError>>(Error::Program(WalletError::InsufficientFunds)) && *final(ctx) == *old(ctx),
        old(ctx).from.data.balance >= amount ==> {
            &&& r == Ok::<TransferExecuted, Error<WalletError>>(TransferExecuted { from: old(ctx).from.key, to: old(ctx).to.key, amount })
            &&& final(ctx).from == (Account { data: Wallet { balance: (old(ctx).from.data.balance - amount) as u64 }, ..old(ctx).from })
            &&& final(ctx).to == (Account { data: Wallet { balance: (old(ctx).to.data.balance + amount) as u64 }, ..old(ctx).to })
        },
        old(ctx).from.key@ == old(ctx).to.key@ && old(ctx).from.data == old(ctx).to.data && r is Ok
            ==> final(ctx).to.data.balance == old(ctx).from.data.balance + amount,
{
    if ctx.from.data.balance < amount {
        return Err(Error::Program(WalletError::InsufficientFunds));
    }
    ctx.from.data.balance = ctx.from.data.balance - amount;
    ctx.to.data.balance = ctx.to.data.balance + amount;
    Ok(TransferExecuted { from: ctx.from.key, to: ctx.to.key, amount })
}

} // verus!

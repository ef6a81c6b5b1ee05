//! An escrow "closed" by draining its lamports alone: its data stays, so a
//! refund in the same transaction brings the unclaimed escrow back.
use crate::bytes::keys_eq;
use crate::framework::{
    check_seeds, check_signer, check_uninitialized, in_use_error, is_pda, is_unused, seed_list2,
    Account, Error, ErrorCode, SystemTransfer,
};
use crate::runtime::{AccountInfo, Pubkey};
use vstd::prelude::*;

verus! {

/// The program's address, `B3Eq5DhSv3WHetnJdgJbMQbtKoxSLJxREnYeXLdJiU7J`.
pub const ID: Pubkey = [
    149, 39, 170, 205, 180, 88, 54, 222, 251, 45, 118, 174, 237, 145, 57, 79, 33, 100, 59, 13, 90,
    229, 20, 152, 123, 143, 11, 231, 130, 247, 213, 241,
];

/// The bytes of `"escrow"`.
pub const ESCROW_SEED: [u8; 6] = [101, 115, 99, 114, 111, 119];

#[derive(Clone, Copy, Debug, PartialEq, Eq)]
pub struct Escrow {
    pub owner: Pubkey,
    pub amount: u64,
    pub claimed: bool,
}

#[derive(Clone, Copy, Debug, PartialEq, Eq)]
pub enum EscrowError {
    AlreadyClaimed,
}

/// The seeds of an escrow's address: `"escrow"` and the owner's key.
pub open spec fn escrow_seeds(owner: Seq<u8>) -> Seq<Seq<u8>> {
    seq![ESCROW_SEED@, owner]
}

pub struct CreateEscrow {
    pub escrow: AccountInfo,
    pub owner: AccountInfo,
}

pub struct Claim {
    pub escrow: Account<Escrow>,
    pub owner: AccountInfo,
}

pub struct CloseEscrow {
    pub escrow: Account<Escrow>,
    pub owner: AccountInfo,
}

/// What `create_escrow` returns: the unclaimed escrow of `amount` for the signing
/// owner and the transfer funding it, or the first failed check.
pub open spec fn create_escrow_result(ctx: CreateEscrow, amount: u64) -> Result<(Escrow, SystemTransfer), Error<EscrowError>> {
    if !ctx.owner.is_signer {
        Err(Error::Anchor(ErrorCode::AccountNotSigner))
    } else if !is_pda(ctx.escrow.key@, escrow_seeds(ctx.owner.key@), ID@) {
        Err(Error::Anchor(ErrorCode::ConstraintSeeds))
    } else if !is_unused(ctx.escrow) {
        Err(in_use_error())
    } else {
        Ok((
            Escrow { owner: ctx.owner.key, amount, claimed: false },
            SystemTransfer { from: ctx.owner.key, to: ctx.escrow.key, lamports: amount },
        ))
    }
}

pub fn create_escrow(ctx: &CreateEscrow, amount: u64) -> (r: Result<(Escrow, SystemTransfer), Error<EscrowError>>)
    ensures
        r == create_escrow_result(*ctx, amount),
{
    check_signer(&ctx.owner)?;
    check_seeds(&ctx.escrow.key, &seed_list2(&ESCROW_SEED, &ctx.owner.key), &ID)?;
    check_uninitialized(&ctx.escrow)?;
    Ok((
        Escrow { owner: ctx.owner.key, amount, claimed: false },
        SystemTransfer { from: ctx.owner.key, to: ctx.escrow.key, lamports: amount },
    ))
}

/// The lamports a claim pays: all above `min_rent`.
pub open spec fn claimable(lamports: u64, min_rent: u64) -> u64 {
    if lamports > min_rent { (lamports - min_rent) as u64 } else { 0 }
}

/// Marks the escrow claimed and pays its owner every lamport above `min_rent`
/// (what `Rent::minimum_balance` gives for the escrow's size); only once.
pub fn claim(ctx: &mut Claim, min_rent: u64) -> (r: Result<(), Error<EscrowError>>)
    requires
        old(ctx).owner.is_signer && old(ctx).escrow.data.owner@ == old(ctx).owner.key@ && !old(ctx).escrow.data.claimed
            ==> old(ctx).owner.lamports + claimable(old(ctx).escrow.lamports, min_rent) <= u64::MAX,
    ensures
        !old(ctx).owner.is_signer ==> r == Err::<(), Error<EscrowError>>(Error::Anchor(ErrorCode::AccountNotSigner)),
        old(ctx).owner.is_signer && old(ctx).escrow.data.owner@ != old(ctx).owner.key@
            ==> r == Err::<(), Error<EscrowError>>(Error::Anchor(ErrorCode::ConstraintHasOne)),
        old(ctx).owner.is_signer && old(ctx).escrow.data.owner@ == old(ctx).owner.key@ && old(ctx).escrow.data.claimed
            ==> r == Err::<(), Error<EscrowError>>(Error::Program(EscrowError::AlreadyClaimed)),
        r is Err ==> *final(ctx) == *old(ctx),
        old(ctx).owner.is_signer && old(ctx).escrow.data.owner@ == old(ctx).owner.key@ && !old(ctx).escrow.data.claimed ==> {
            let c = claimable(old(ctx).escrow.lamports, min_rent);
            &&& r is Ok
            &&& final(ctx).escrow.data == Escrow { claimed: true, ..old(ctx).escrow.data }
            &&& final(ctx).escrow.lamports == old(ctx).escrow.lamports - c
            &&& final(ctx).escrow.key == old(ctx).escrow.key
            &&& final(ctx).owner == AccountInfo { lamports: (old(ctx).owner.lamports + c) as u64, ..old(ctx).owner }
        },
{
    check_signer(&ctx.owner)?;
    if !keys_eq(&ctx.escrow.data.owner, &ctx.owner.key) {
        return Err(Error::Anchor(ErrorCode::ConstraintHasOne));
    }
    if ctx.escrow.data.claimed {
        return Err(Error::Program(EscrowError::AlreadyClaimed));
    }
    ctx.escrow.data.claimed = true;
    let claimable = ctx.escrow.lamports.saturating_sub(min_rent);
    ctx.escrow.lamports = ctx.escrow.lamports - claimable;
    ctx.owner.lamports = ctx.owner.lamports + claimable;
    Ok(())
}

/// Drains the escrow's lamports to its signing owner and leaves its data as it
/// was. Returns what the account holds afterwards.
pub fn close_escrow(ctx: &mut CloseEscrow) -> (r: Result<Option<Escrow>, Error<EscrowError>>)
    requires
        old(ctx).owner.is_signer && old(ctx).escrow.data.owner@ == old(ctx).owner.key@
            ==> old(ctx).owner.lamports + old(ctx).escrow.lamports <= u64::MAX,
    ensures
        !old(ctx).owner.is_signer ==> r == Err::<Option<Escrow>, Error<EscrowError>>(Error::Anchor(ErrorCode::AccountNotSigner)),
        old(ctx).owner.is_signer && old(ctx).escrow.data.owner@ != old(ctx).owner.key@
            ==> r == Err::<Option<Escrow>, Error<EscrowError>>(Error::Anchor(ErrorCode::ConstraintHasOne)),
        r is Err ==> *final(ctx) == *old(ctx),
        old(ctx).owner.is_signer && old(ctx).escrow.data.owner@ == old(ctx).owner.key@ ==> {
            &&& r == Ok::<Option<Escrow>, Error<EscrowError>>(Some(old(ctx).escrow.data))
            &&& final(ctx).escrow.data == old(ctx).escrow.data
            &&& final(ctx).escrow.lamports == 0
            &&& final(ctx).escrow.key == old(ctx).escrow.key
            &&& final(ctx).owner == AccountInfo { lamports: (old(ctx).owner.lamports + old(ctx).escrow.lamports) as u64, ..old(ctx).owner }
        },
{
    check_signer(&ctx.owner)?;
    if !keys_eq(&ctx.escrow.data.owner, &ctx.owner.key) {
        return Err(Error::Anchor(ErrorCode::ConstraintHasOne));
    }
    let escrow_lamports = ctx.escrow.lamports;
    ctx.escrow.lamports = 0;
    ctx.owner.lamports = ctx.owner.lamports + escrow_lamports;
    Ok(Some(ctx.escrow.data))
}

} // verus!

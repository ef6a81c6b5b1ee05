//! A stored product computed in 128 bits and refused when it does not fit in 64.
use crate::framework::{check_creation_signer, check_signer, check_uninitialized, in_use_error, is_unused, Account, Error};
use crate::framework::ErrorCode as AnchorErrorCode;
use crate::runtime::{AccountInfo, ProgramError, Pubkey};
use vstd::prelude::*;

verus! {

/// The program's address, `9grzLTNdQjm3onsaU47WcN8JD8DorU2gyfWp6emRDtP8`.
pub const ID: Pubkey = [
    129, 19, 171, 79, 251, 127, 209, 62, 118, 131, 215, 168, 148, 57, 195, 39, 53, 118, 78, 118, 153,
    7, 226, 60, 149, 91, 243, 211, 64, 45, 114, 207,
];

#[derive(Clone, Copy, Debug, PartialEq, Eq)]
pub struct State {
    pub value: u64,
    pub result: u64,
    pub authority: Pubkey,
}

/// The program's own error codes.
#[derive(Clone, Copy, Debug, PartialEq, Eq)]
pub enum ErrorCode {
    Overflow,
}

pub struct Initialize {
    pub state: AccountInfo,
    pub authority: AccountInfo,
}

pub struct Calculate {
    pub state: Account<State>,
    pub authority: AccountInfo,
}

/// What `initialize` returns: the state with the value and the signing
/// authority (no result yet), or the first failed check (the new account must
/// sign for its creation).
pub open spec fn initialize_result(ctx: Initialize, value: u64) -> Result<State, Error<ErrorCode>> {
    if !ctx.authority.is_signer {
        Err(Error::Anchor(AnchorErrorCode::AccountNotSigner))
    } else if !ctx.state.is_signer {
        Err(Error::Runtime(ProgramError::MissingRequiredSignature))
    } else if !is_unused(ctx.state) {
        Err(in_use_error())
    } else {
        Ok(State { value, result: 0, authority: ctx.authority.key })
    }
}

pub fn initialize(ctx: &Initialize, value: u64) -> (r: Result<State, Error<ErrorCode>>)
    ensures
        r == initialize_result(*ctx, value),
{
    check_signer(&ctx.authority)?;
    check_creation_signer(&ctx.state)?;
    check_uninitialized(&ctx.state)?;
    Ok(State { value, result: 0, authority: ctx.authority.key })
}

/// The error `calculate` fails with, if any: the authority must sign and be the
/// state's, and the product must fit in 64 bits.
pub open spec fn calculate_error(ctx: Calculate, multiplier: u64) -> Option<Error<ErrorCode>> {
    if !ctx.authority.is_signer {
        Some(Error::Anchor(AnchorErrorCode::AccountNotSigner))
    } else if ctx.state.data.authority@ != ctx.authority.key@ {
        Some(Error::Anchor(AnchorErrorCode::ConstraintHasOne))
    } else if ctx.state.data.value * multiplier > u64::MAX {
        Some(Error::Program(ErrorCode::Overflow))
    } else {
        None
    }
}

/// Stores `value * multiplier` as the result.
pub fn calculate(ctx: &mut Calculate, multiplier: u64) -> (r: Result<(), Error<ErrorCode>>)
    ensures
        match calculate_error(*old(ctx), multiplier) {
            Some(e) => r == Err::<(), Error<ErrorCode>>(e) && *final(ctx) == *old(ctx),
            None => {
                &&& r is Ok
                &&& final(ctx).state == Account {
                    data: State { result: (old(ctx).state.data.value * multiplier) as u64, ..old(ctx).state.data },
                    ..old(ctx).state
                }
                &&& final(ctx).authority == old(ctx).authority
            },
        },
        r is Ok ==> final(ctx).state.data.result == old(ctx).state.data.value * multiplier,
{
    check_signer(&ctx.authority)?;
    if !crate::bytes::keys_eq(&ctx.state.data.authority, &ctx.authority.key) {
        return Err(Error::Anchor(AnchorErrorCode::ConstraintHasOne));
    }
    let a = ctx.state.data.value as u128;
    let b = multiplier as u128;
    assert(a * b <= u64::MAX * u64::MAX) by (nonlinear_arith)
        requires
            a <= u64::MAX,
            b <= u64::MAX,
    ;
    let result_u128: u128 = a * b;
    if result_u128 > u64::MAX as u128 {
        return Err(Error::Program(ErrorCode::Overflow));
    }
    ctx.state.data.result = result_u128 as u64;
    Ok(())
}

} // verus!

//! A stored product computed in 128 bits and cast to 64 bits, so a product
//! that does not fit keeps only its low 64 bits.
use crate::framework::{check_creation_signer, check_signer, check_uninitialized, in_use_error, is_unused, Account, Error, ErrorCode, NoProgramError};
use crate::math::{lemma_truncate_u128, wrap_u64};
use crate::runtime::{AccountInfo, ProgramError, Pubkey};
use vstd::prelude::*;

verus! {

/// The program's address, `GExP8D2AMvf8g1J178NFEAwYz1MLLC5u8LPsHe2dWjCv`.
pub const ID: Pubkey = [
    226, 114, 121, 115, 177, 106, 148, 91, 84, 185, 71, 172, 214, 150, 69, 119, 63, 97, 12, 217, 96,
    85, 112, 128, 150, 9, 208, 112, 189, 16, 110, 67,
];

#[derive(Clone, Copy, Debug, PartialEq, Eq)]
pub struct State {
    pub value: u64,
    pub result: u64,
    pub authority: Pubkey,
}

pub struct Initialize {
    pub state: AccountInfo,
    pub authority: AccountInfo,
}

pub struct Calculate {
    pub state: Account<State>,
    pub authority: AccountInfo,
}

/// What `initialize` returns: the state with the value and the signing
/// authority (no result yet), or the first failed check (the new account must
/// sign for its creation).
pub open spec fn initialize_result(ctx: Initialize, value: u64) -> Result<State, Error<NoProgramError>> {
    if !ctx.authority.is_signer {
        Err(Error::Anchor(ErrorCode::AccountNotSigner))
    } else if !ctx.state.is_signer {
        Err(Error::Runtime(ProgramError::MissingRequiredSignature))
    } else if !is_unused(ctx.state) {
        Err(in_use_error())
    } else {
        Ok(State { value, result: 0, authority: ctx.authority.key })
    }
}

pub fn initialize(ctx: &Initialize, value: u64) -> (r: Result<State, Error<NoProgramError>>)
    ensures
        r == initialize_result(*ctx, value),
{
    check_signer(&ctx.authority)?;
    check_creation_signer(&ctx.state)?;
    check_uninitialized(&ctx.state)?;
    Ok(State { value, result: 0, authority: ctx.authority.key })
}

/// The error `calculate` fails with, if any: the authority must sign and be the
/// state's; the product's size is never checked.
pub open spec fn calculate_error(ctx: Calculate) -> Option<Error<NoProgramError>> {
    if !ctx.authority.is_signer {
        Some(Error::Anchor(ErrorCode::AccountNotSigner))
    } else if ctx.state.data.authority@ != ctx.authority.key@ {
        Some(Error::Anchor(ErrorCode::ConstraintHasOne))
    } else {
        None
    }
}

/// Stores `value * multiplier` modulo 2^64 as the result.
pub fn calculate(ctx: &mut Calculate, multiplier: u64) -> (r: Result<(), Error<NoProgramError>>)
    ensures
        match calculate_error(*old(ctx)) {
            Some(e) => r == Err::<(), Error<NoProgramError>>(e) && *final(ctx) == *old(ctx),
            None => {
                &&& r is Ok
                &&& final(ctx).state == Account {
                    data: State { result: wrap_u64(old(ctx).state.data.value * multiplier), ..old(ctx).state.data },
                    ..old(ctx).state
                }
                &&& final(ctx).authority == old(ctx).authority
            },
        },
{
    check_signer(&ctx.authority)?;
    if !crate::bytes::keys_eq(&ctx.state.data.authority, &ctx.authority.key) {
        return Err(Error::Anchor(ErrorCode::ConstraintHasOne));
    }
    let a = ctx.state.data.value as u128;
    let b = multiplier as u128;
    assert(a * b <= u64::MAX * u64::MAX) by (nonlinear_arith)
        requires
            a <= u64::MAX,
            b <= u64::MAX,
    ;
    let result_u128: u128 = a * b;
    proof {
        lemma_truncate_u128(result_u128);
    }
    ctx.state.data.result = result_u128 as u64;
    Ok(())
}

/// A product past `u64::MAX` is stored as something smaller: its high bits are lost.
pub proof fn truncation_loses_large_products(value: u64, multiplier: u64)
    requires
        value * multiplier > u64::MAX,
    ensures
        wrap_u64(value * multiplier) < value * multiplier,
{
}

} // verus!

//! A share pool that values shares by multiplying before dividing, in 128 bits,
//! so a small share is not rounded down to nothing.
use crate::framework::{
    check_seeds, check_signer, check_uninitialized, in_use_error, is_pda, is_unused, seed_list1, seed_list2,
    Account, Error, ErrorCode, NoProgramError,
};
use crate::runtime::{AccountInfo, Pubkey};
use vstd::prelude::*;

verus! {

/// The program's address, `tBN98fzfGy2oZCpmCBAP5tvCsDausty8geDpZxQ8Bmj`.
pub const ID: Pubkey = [
    13, 28, 87, 38, 23, 71, 95, 66, 101, 32, 210, 132, 96, 120, 28, 57, 122, 71, 234, 5, 254, 155,
    80, 234, 214, 51, 68, 148, 52, 172, 173, 242,
];

/// The bytes of `"pool"`.
pub const POOL_SEED: [u8; 4] = [112, 111, 111, 108];

/// The bytes of `"user"`.
pub const USER_SEED: [u8; 4] = [117, 115, 101, 114];

/// The assets a new pool holds.
pub const INITIAL_ASSETS: u64 = 10_000_000;

/// The shares a new pool has issued.
pub const INITIAL_SHARES: u64 = 1_000;

#[derive(Clone, Copy, Debug, PartialEq, Eq)]
pub struct Pool {
    pub total_assets: u64,
    pub total_shares: u64,
}

#[derive(Clone, Copy, Debug, PartialEq, Eq)]
pub struct User {
    pub last_withdrawal: u64,
}

pub struct Initialize {
    pub pool: AccountInfo,
    pub authority: AccountInfo,
}

/// Accounts of `withdraw_share`: the user's record is `None` while its account
/// does not exist yet; it is created on first use.
pub struct WithdrawShare {
    pub pool: Account<Pool>,
    pub user: Account<Option<User>>,
    pub user_authority: AccountInfo,
}

/// What `initialize` returns: the pool with its initial assets and shares, or
/// the first failed check.
pub open spec fn initialize_result(ctx: Initialize) -> Result<Pool, Error<NoProgramError>> {
    if !ctx.authority.is_signer {
        Err(Error::Anchor(ErrorCode::AccountNotSigner))
    } else if !is_pda(ctx.pool.key@, seq![POOL_SEED@], ID@) {
        Err(Error::Anchor(ErrorCode::ConstraintSeeds))
    } else if !is_unused(ctx.pool) {
        Err(in_use_error())
    } else {
        Ok(Pool { total_assets: INITIAL_ASSETS, total_shares: INITIAL_SHARES })
    }
}

pub fn initialize(ctx: &Initialize) -> (r: Result<Pool, Error<NoProgramError>>)
    ensures
        r == initialize_result(*ctx),
{
    check_signer(&ctx.authority)?;
    check_seeds(&ctx.pool.key, &seed_list1(&POOL_SEED), &ID)?;
    check_uninitialized(&ctx.pool)?;
    Ok(Pool { total_assets: INITIAL_ASSETS, total_shares: INITIAL_SHARES })
}

/// The seeds of a user's record address: `"user"` and the user's key.
pub open spec fn user_seeds(user: Seq<u8>) -> Seq<Seq<u8>> {
    seq![USER_SEED@, user]
}

/// The value of `shares` in a pool: `shares * total_assets / total_shares`,
/// rounded down once, at the end (kept to its low 64 bits when stored).
pub open spec fn share_value(shares: u64, pool: Pool) -> int {
    shares * pool.total_assets / (pool.total_shares as int)
}

/// Records in the signing user's record, created at its derived address if
/// needed, what `shares` of the pool are worth.
pub fn withdraw_share(ctx: &mut WithdrawShare, shares: u64) -> (r: Result<(), Error<NoProgramError>>)
    requires
        old(ctx).user_authority.is_signer ==> old(ctx).pool.data.total_shares != 0,
    ensures
        !old(ctx).user_authority.is_signer ==> r == Err::<(), Error<NoProgramError>>(Error::Anchor(ErrorCode::AccountNotSigner)),
        old(ctx).user_authority.is_signer && !is_pda(old(ctx).user.key@, user_seeds(old(ctx).user_authority.key@), ID@)
            ==> r == Err::<(), Error<NoProgramError>>(Error::Anchor(ErrorCode::ConstraintSeeds)),
        r is Err ==> *final(ctx) == *old(ctx),
        old(ctx).user_authority.is_signer && is_pda(old(ctx).user.key@, user_seeds(old(ctx).user_authority.key@), ID@) ==> {
            &&& r is Ok
            &&& final(ctx).user == Account {
                data: Some(User { last_withdrawal: share_value(shares, old(ctx).pool.data) as u64 }),
                ..old(ctx).user
            }
            &&& final(ctx).pool == old(ctx).pool
            &&& final(ctx).user_authority == old(ctx).user_authority
        },
{
    check_signer(&ctx.user_authority)?;
    check_seeds(&ctx.user.key, &seed_list2(&USER_SEED, &ctx.user_authority.key), &ID)?;
    let s = shares as u128;
    let assets = ctx.pool.data.total_assets as u128;
    assert(s * assets <= u64::MAX * u64::MAX) by (nonlinear_arith)
        requires
            s <= u64::MAX,
            assets <= u64::MAX,
    ;
    let amount = s * assets / (ctx.pool.data.total_shares as u128);
    ctx.user.data = Some(User { last_withdrawal: amount as u64 });
    Ok(())
}

/// Multiplying first never values shares lower than dividing first, and falls
/// short of the exact value by less than one unit.
pub proof fn multiply_first_is_at_least_divide_first(shares: u64, pool: Pool)
    requires
        pool.total_shares > 0,
    ensures
        share_value(shares, pool) >= (shares / pool.total_shares) * pool.total_assets,
        share_value(shares, pool) * pool.total_shares <= shares * pool.total_assets,
        shares * pool.total_assets < (share_value(shares, pool) + 1) * pool.total_shares,
{
    let s = shares as int;
    let a = pool.total_assets as int;
    let t = pool.total_shares as int;
    assert((s * a) / t >= (s / t) * a) by (nonlinear_arith)
        requires
            s >= 0,
            a >= 0,
            t > 0,
    ;
    assert(((s * a) / t) * t <= s * a && s * a < ((s * a) / t + 1) * t) by (nonlinear_arith)
        requires
            s >= 0,
            a >= 0,
            t > 0,
    ;
}

} // verus!

//! A share pool that values shares by dividing before multiplying, so any
//! holding below the total number of shares is worth nothing.
use crate::framework::{
    check_seeds, check_signer, check_uninitialized, in_use_error, is_pda, is_unused, seed_list1, seed_list2,
    Account, Error, ErrorCode, NoProgramError,
};
use crate::runtime::{AccountInfo, Pubkey};
use vstd::prelude::*;

verus! {

/// The program's address, `6FeGwNoqLxYZWatLH9v1Jcrjo1si3H1NrTSupxfYDugn`.
pub const ID: Pubkey = [
    78, 10, 182, 115, 1, 24, 254, 45, 141, 45, 145, 172, 155, 196, 184, 108, 208, 206, 66, 203, 90,
    66, 18, 38, 192, 142, 243, 21, 44, 195, 28, 35,
];

/// The bytes of `"pool"`.
pub const POOL_SEED: [u8; 4] = [112, 111, 111, 108];

/// The bytes of `"user"`.
pub const USER_SEED: [u8; 4] = [117, 115, 101, 114];

/// The assets a new pool holds.
pub const INITIAL_ASSETS: u64 = 10_000_000;

/// The shares a new pool has issued.
pub const INITIAL_SHARES: u64 = 1_000;

#[derive(Clone, Copy, Debug, PartialEq, Eq)]
pub struct Pool {
    pub total_assets: u64,
    pub total_shares: u64,
}

#[derive(Clone, Copy, Debug, PartialEq, Eq)]
pub struct User {
    pub last_withdrawal: u64,
}

pub struct Initialize {
    pub pool: AccountInfo,
    pub authority: AccountInfo,
}

/// Accounts of `withdraw_share`: the user's record is `None` while its account
/// does not exist yet; it is created on first use.
pub struct WithdrawShare {
    pub pool: Account<Pool>,
    pub user: Account<Option<User>>,
    pub user_authority: AccountInfo,
}

/// What `initialize` returns: the pool with its initial assets and shares, or
/// the first failed check.
pub open spec fn initialize_result(ctx: Initialize) -> Result<Pool, Error<NoProgramError>> {
    if !ctx.authority.is_signer {
        Err(Error::Anchor(ErrorCode::AccountNotSigner))
    } else if !is_pda(ctx.pool.key@, seq![POOL_SEED@], ID@) {
        Err(Error::Anchor(ErrorCode::ConstraintSeeds))
    } else if !is_unused(ctx.pool) {
        Err(in_use_error())
    } else {
        Ok(Pool { total_assets: INITIAL_ASSETS, total_shares: INITIAL_SHARES })
    }
}

pub fn initialize(ctx: &Initialize) -> (r: Result<Pool, Error<NoProgramError>>)
    ensures
        r == initialize_result(*ctx),
{
    check_signer(&ctx.authority)?;
    check_seeds(&ctx.pool.key, &seed_list1(&POOL_SEED), &ID)?;
    check_uninitialized(&ctx.pool)?;
    Ok(Pool { total_assets: INITIAL_ASSETS, total_shares: INITIAL_SHARES })
}

/// The seeds of a user's record address: `"user"` and the user's key.
pub open spec fn user_seeds(user: Seq<u8>) -> Seq<Seq<u8>> {
    seq![USER_SEED@, user]
}

/// The value `withdraw_share` gives `shares`: the whole number of times they
/// hold the total, times the pool's assets.
pub open spec fn share_value(shares: u64, pool: Pool) -> int {
    (shares / pool.total_shares) * pool.total_assets
}

/// Whether `withdraw_share` on this pool runs without a division by zero or an
/// overflow.
pub open spec fn share_value_safe(shares: u64, pool: Pool) -> bool {
    pool.total_shares != 0 && share_value(shares, pool) <= u64::MAX
}

/// Records in the signing user's record, created at its derived address if
/// needed, what `withdraw_share` values `shares` of the pool at.
pub fn withdraw_share(ctx: &mut WithdrawShare, shares: u64) -> (r: Result<(), Error<NoProgramError>>)
    requires
        old(ctx).user_authority.is_signer ==> share_value_safe(shares, old(ctx).pool.data),
    ensures
        !old(ctx).user_authority.is_signer ==> r == Err::<(), Error<NoProgramError>>(Error::Anchor(ErrorCode::AccountNotSigner)),
        old(ctx).user_authority.is_signer && !is_pda(old(ctx).user.key@, user_seeds(old(ctx).user_authority.key@), ID@)
            ==> r == Err::<(), Error<NoProgramError>>(Error::Anchor(ErrorCode::ConstraintSeeds)),
        r is Err ==> *final(ctx) == *old(ctx),
        old(ctx).user_authority.is_signer && is_pda(old(ctx).user.key@, user_seeds(old(ctx).user_authority.key@), ID@) ==> {
            &&& r is Ok
            &&& final(ctx).user == Account {
                data: Some(User { last_withdrawal: share_value(shares, old(ctx).pool.data) as u64 }),
                ..old(ctx).user
            }
            &&& final(ctx).pool == old(ctx).pool
            &&& final(ctx).user_authority == old(ctx).user_authority
        },
{
    check_signer(&ctx.user_authority)?;
    check_seeds(&ctx.user.key, &seed_list2(&USER_SEED, &ctx.user_authority.key), &ID)?;
    let amount = (shares / ctx.pool.data.total_shares) * ctx.pool.data.total_assets;
    ctx.user.data = Some(User { last_withdrawal: amount });
    Ok(())
}

/// Any holding below the total number of shares is valued at nothing.
pub proof fn small_holdings_are_worth_nothing(shares: u64, pool: Pool)
    requires
        shares < pool.total_shares,
    ensures
        share_value(shares, pool) == 0,
{
    assert(shares / pool.total_shares == 0) by (nonlinear_arith)
        requires
            shares < pool.total_shares,
    ;
}

} // verus!

//! A staking pool that adds, subtracts and multiplies with wrapping arithmetic,
//! so totals silently wrap around past zero or `u64::MAX`.
use crate::framework::{
    check_seeds, check_signer, check_uninitialized, in_use_error, is_pda, is_unused, seed_list1, seed_list2,
    Account, Error, ErrorCode, NoProgramError,
};
use crate::math::wrap_u64;
use crate::runtime::{AccountInfo, Pubkey};
use vstd::prelude::*;

verus! {

/// The program's address, `99TU6jpz8cu7gCVJKriHL3wHaDdTZUwzayEW59SreAB`.
pub const ID: Pubkey = [
    2, 22, 53, 68, 137, 86, 121, 61, 140, 252, 23, 0, 149, 75, 74, 149, 131, 4, 24, 7, 130, 60, 151,
    54, 233, 16, 23, 191, 221, 169, 112, 0,
];

/// The bytes of `"pool"`.
pub const POOL_SEED: [u8; 4] = [112, 111, 111, 108];

/// The bytes of `"user_stake"`.
pub const USER_STAKE_SEED: [u8; 10] = [117, 115, 101, 114, 95, 115, 116, 97, 107, 101];

/// The reward rate a new pool starts with, per staked token and second.
pub const INITIAL_REWARD_RATE: u64 = 100;

#[derive(Clone, Copy, Debug, PartialEq, Eq)]
pub struct StakingPool {
    pub authority: Pubkey,
    pub total_staked: u64,
    pub reward_rate: u64,
    pub last_update: u64,
}

#[derive(Clone, Copy, Debug, PartialEq, Eq)]
pub struct UserStake {
    pub staked_amount: u64,
    pub last_claim: u64,
}

pub struct Initialize {
    pub pool: AccountInfo,
    pub authority: AccountInfo,
}

/// Accounts of `stake`: the user's stake is `None` while its account does not
/// exist yet; it is created on first use.
pub struct Stake {
    pub pool: Account<StakingPool>,
    pub user_stake: Account<Option<UserStake>>,
    pub staker: AccountInfo,
}

pub struct Withdraw {
    pub pool: Account<StakingPool>,
    pub user_stake: Account<UserStake>,
    pub staker: AccountInfo,
}

pub struct CalculateRewards {
    pub pool: Account<StakingPool>,
    pub user_stake: Account<UserStake>,
}

/// What `initialize` returns: a pool of the signing authority with nothing
/// staked, the initial rate and `now` as its update time, or the first failed check.
pub open spec fn initialize_result(ctx: Initialize, now: i64) -> Result<StakingPool, Error<NoProgramError>> {
    if !ctx.authority.is_signer {
        Err(Error::Anchor(ErrorCode::AccountNotSigner))
    } else if !is_pda(ctx.pool.key@, seq![POOL_SEED@], ID@) {
        Err(Error::Anchor(ErrorCode::ConstraintSeeds))
    } else if !is_unused(ctx.pool) {
        Err(in_use_error())
    } else {
        Ok(StakingPool {
            authority: ctx.authority.key,
            total_staked: 0,
            reward_rate: INITIAL_REWARD_RATE,
            last_update: now as u64,
        })
    }
}

/// Creates the pool; `now` is the cluster's current Unix time.
pub fn initialize(ctx: &Initialize, now: i64) -> (r: Result<StakingPool, Error<NoProgramError>>)
    ensures
        r == initialize_result(*ctx, now),
{
    check_signer(&ctx.authority)?;
    check_seeds(&ctx.pool.key, &seed_list1(&POOL_SEED), &ID)?;
    check_uninitialized(&ctx.pool)?;
    Ok(StakingPool {
        authority: ctx.authority.key,
        total_staked: 0,
        reward_rate: INITIAL_REWARD_RATE,
        last_update: now as u64,
    })
}

/// The seeds of a staker's stake address: `"user_stake"` and the staker's key.
pub open spec fn user_stake_seeds(staker: Seq<u8>) -> Seq<Seq<u8>> {
    seq![USER_STAKE_SEED@, staker]
}

/// The stake as `stake` finds it: a new one is empty.
pub open spec fn current_stake(s: Option<UserStake>) -> UserStake {
    match s {
        Some(u) => u,
        None => UserStake { staked_amount: 0, last_claim: 0 },
    }
}

/// Adds `amount` to the pool's total and to the signing staker's stake, modulo
/// 2^64, creating the stake at its derived address if needed.
pub fn stake(ctx: &mut Stake, amount: u64) -> (r: Result<(), Error<NoProgramError>>)
    ensures
        !old(ctx).staker.is_signer ==> r == Err::<(), Error<NoProgramError>>(Error::Anchor(ErrorCode::AccountNotSigner)),
        old(ctx).staker.is_signer && !is_pda(old(ctx).user_stake.key@, user_stake_seeds(old(ctx).staker.key@), ID@)
            ==> r == Err::<(), Error<NoProgramError>>(Error::Anchor(ErrorCode::ConstraintSeeds)),
        r is Err ==> *final(ctx) == *old(ctx),
        old(ctx).staker.is_signer && is_pda(old(ctx).user_stake.key@, user_stake_seeds(old(ctx).staker.key@), ID@) ==> {
            let user = current_stake(old(ctx).user_stake.data);
            &&& r is Ok
            &&& final(ctx).pool.data == StakingPool {
                total_staked: wrap_u64(old(ctx).pool.data.total_staked + amount),
                ..old(ctx).pool.data
            }
            &&& final(ctx).user_stake.data == Some(UserStake { staked_amount: wrap_u64(user.staked_amount + amount), ..user })
            &&& final(ctx).pool.key == old(ctx).pool.key && final(ctx).pool.lamports == old(ctx).pool.lamports
            &&& final(ctx).user_stake.key == old(ctx).user_stake.key
            &&& final(ctx).user_stake.lamports == old(ctx).user_stake.lamports
            &&& final(ctx).staker == old(ctx).staker
        },
{
    check_signer(&ctx.staker)?;
    check_seeds(&ctx.user_stake.key, &seed_list2(&USER_STAKE_SEED, &ctx.staker.key), &ID)?;
    let user = match ctx.user_stake.data {
        Some(u) => u,
        None => UserStake { staked_amount: 0, last_claim: 0 },
    };
    ctx.pool.data.total_staked = ctx.pool.data.total_staked.wrapping_add(amount);
    ctx.user_stake.data = Some(UserStake { staked_amount: user.staked_amount.wrapping_add(amount), ..user });
    Ok(())
}

/// Takes `amount` off the stake and the pool's total modulo 2^64, for a signing
/// staker, however little either holds.
pub fn withdraw(ctx: &mut Withdraw, amount: u64) -> (r: Result<(), Error<NoProgramError>>)
    ensures
        !old(ctx).staker.is_signer ==> r == Err::<(), Error<NoProgramError>>(Error::Anchor(ErrorCode::AccountNotSigner))
            && *final(ctx) == *old(ctx),
        old(ctx).staker.is_signer ==> {
            &&& r is Ok
            &&& final(ctx).pool == Account {
                data: StakingPool { total_staked: wrap_u64(old(ctx).pool.data.total_staked - amount), ..old(ctx).pool.data },
                ..old(ctx).pool
            }
            &&& final(ctx).user_stake == Account {
                data: UserStake { staked_amount: wrap_u64(old(ctx).user_stake.data.staked_amount - amount), ..old(ctx).user_stake.data },
                ..old(ctx).user_stake
            }
            &&& final(ctx).staker == old(ctx).staker
        },
{
    check_signer(&ctx.staker)?;
    ctx.user_stake.data.staked_amount = ctx.user_stake.data.staked_amount.wrapping_sub(amount);
    ctx.pool.data.total_staked = ctx.pool.data.total_staked.wrapping_sub(amount);
    Ok(())
}

/// The reward `calculate_rewards` gives: stake times rate times elapsed seconds,
/// every step modulo 2^64, the elapsed time too.
pub open spec fn wrapped_reward(staked: u64, rate: u64, last_update: u64, now: u64) -> u64 {
    wrap_u64(staked * rate * wrap_u64(now - last_update))
}

/// A product of three factors keeps its residue when the first two are reduced first.
proof fn lemma_wrapped_product(a: int, b: int, c: int)
    ensures
        wrap_u64(wrap_u64(a * b) * c) == wrap_u64(a * b * c),
{
    let m: int = 0x1_0000_0000_0000_0000;
    vstd::arithmetic::div_mod::lemma_mul_mod_noop_left(a * b, c, m);
}

/// The reward a stake has earned since the pool's last update, at `now` (the
/// cluster's current Unix time), with every operation wrapping.
pub fn calculate_rewards(ctx: &CalculateRewards, now: i64) -> (r: Result<u64, Error<NoProgramError>>)
    ensures
        r == Ok::<u64, Error<NoProgramError>>(
            wrapped_reward(ctx.user_stake.data.staked_amount, ctx.pool.data.reward_rate, ctx.pool.data.last_update, now as u64),
        ),
{
    let current_time = now as u64;
    let time_elapsed = current_time.wrapping_sub(ctx.pool.data.last_update);
    let step = ctx.user_stake.data.staked_amount.wrapping_mul(ctx.pool.data.reward_rate);
    let reward = step.wrapping_mul(time_elapsed);
    proof {
        lemma_wrapped_product(
            ctx.user_stake.data.staked_amount as int,
            ctx.pool.data.reward_rate as int,
            time_elapsed as int,
        );
    }
    Ok(reward)
}

/// Withdrawing more than is staked wraps around: the stake becomes
/// `2^64 - (amount - staked)`, far more than was ever staked.
pub proof fn withdraw_past_zero_wraps(staked: u64, amount: u64)
    requires
        staked < amount,
    ensures
        wrap_u64(staked - amount) == 0x1_0000_0000_0000_0000 - (amount - staked),
        wrap_u64(staked - amount) > staked,
{
}

} // verus!

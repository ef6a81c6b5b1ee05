//! A staking pool whose every addition, subtraction and multiplication is
//! checked, so totals never wrap and rewards are computed in 128 bits.
use crate::framework::{
    check_seeds, check_signer, check_uninitialized, in_use_error, is_pda, is_unused, seed_list1, seed_list2,
    Account, Error, ErrorCode,
};
use crate::runtime::{AccountInfo, Pubkey};
use vstd::prelude::*;

verus! {

/// The program's address, `Acc3HTF6PvkATUhAP3Nvh6T5szSmKJ3G5ivhPpBbTozZ`.
pub const ID: Pubkey = [
    142, 216, 33, 58, 158, 208, 238, 61, 85, 213, 86, 147, 33, 230, 43, 58, 67, 123, 172, 68, 7,
    248, 251, 195, 143, 172, 64, 38, 33, 21, 80, 178,
];

/// The bytes of `"pool"`.
pub const POOL_SEED: [u8; 4] = [112, 111, 111, 108];

/// The bytes of `"user_stake"`.
pub const USER_STAKE_SEED: [u8; 10] = [117, 115, 101, 114, 95, 115, 116, 97, 107, 101];

/// The reward rate a new pool starts with, per staked token and second.
pub const INITIAL_REWARD_RATE: u64 = 100;

#[derive(Clone, Copy, Debug, PartialEq, Eq)]
pub struct StakingPool {
    pub authority: Pubkey,
    pub total_staked: u64,
    pub reward_rate: u64,
    pub last_update: u64,
}

#[derive(Clone, Copy, Debug, PartialEq, Eq)]
pub struct UserStake {
    pub staked_amount: u64,
    pub last_claim: u64,
}

#[derive(Clone, Copy, Debug, PartialEq, Eq)]
pub enum ArithmeticError {
    Overflow,
    Underflow,
    InsufficientBalance,
}

pub struct Initialize {
    pub pool: AccountInfo,
    pub authority: AccountInfo,
}

/// Accounts of `stake`: the user's stake is `None` while its account does not
/// exist yet; it is created on first use.
pub struct Stake {
    pub pool: Account<StakingPool>,
    pub user_stake: Account<Option<UserStake>>,
    pub staker: AccountInfo,
}

pub struct Withdraw {
    pub pool: Account<StakingPool>,
    pub user_stake: Account<UserStake>,
    pub staker: AccountInfo,
}

pub struct CalculateRewards {
    pub pool: Account<StakingPool>,
    pub user_stake: Account<UserStake>,
}

/// What `initialize` returns: a pool of the signing authority with nothing
/// staked, the initial rate and `now` as its update time, or the first failed check.
pub open spec fn initialize_result(ctx: Initialize, now: i64) -> Result<StakingPool, Error<ArithmeticError>> {
    if !ctx.authority.is_signer {
        Err(Error::Anchor(ErrorCode::AccountNotSigner))
    } else if !is_pda(ctx.pool.key@, seq![POOL_SEED@], ID@) {
        Err(Error::Anchor(ErrorCode::ConstraintSeeds))
    } else if !is_unused(ctx.pool) {
        Err(in_use_error())
    } else {
        Ok(StakingPool {
            authority: ctx.authority.key,
            total_staked: 0,
            reward_rate: INITIAL_REWARD_RATE,
            last_update: now as u64,
        })
    }
}

/// Creates the pool; `now` is the cluster's current Unix time.
pub fn initialize(ctx: &Initialize, now: i64) -> (r: Result<StakingPool, Error<ArithmeticError>>)
    ensures
        r == initialize_result(*ctx, now),
{
    check_signer(&ctx.authority)?;
    check_seeds(&ctx.pool.key, &seed_list1(&POOL_SEED), &ID)?;
    check_uninitialized(&ctx.pool)?;
    Ok(StakingPool {
        authority: ctx.authority.key,
        total_staked: 0,
        reward_rate: INITIAL_REWARD_RATE,
        last_update: now as u64,
    })
}

/// The seeds of a staker's stake address: `"user_stake"` and the staker's key.
pub open spec fn user_stake_seeds(staker: Seq<u8>) -> Seq<Seq<u8>> {
    seq![USER_STAKE_SEED@, staker]
}

/// The stake as `stake` finds it: a new one is empty.
pub open spec fn current_stake(s: Option<UserStake>) -> UserStake {
    match s {
        Some(u) => u,
        None => UserStake { staked_amount: 0, last_claim: 0 },
    }
}

/// What `stake` does to the pool and the user's stake: both grow by `amount`,
/// unless either sum overflows.
pub open spec fn stake_result(pool: StakingPool, user: UserStake, amount: u64) -> Result<(StakingPool, UserStake), ArithmeticError> {
    if pool.total_staked + amount > u64::MAX || user.staked_amount + amount > u64::MAX {
        Err(ArithmeticError::Overflow)
    } else {
        Ok((
            StakingPool { total_staked: (pool.total_staked + amount) as u64, ..pool },
            UserStake { staked_amount: (user.staked_amount + amount) as u64, ..user },
        ))
    }
}

/// Adds `amount` to the pool's total and to the signing staker's stake, created
/// at its derived address if needed; fails without a change on overflow.
pub fn stake(ctx: &mut Stake, amount: u64) -> (r: Result<(), Error<ArithmeticError>>)
    ensures
        !old(ctx).staker.is_signer ==> r == Err::<(), Error<ArithmeticError>>(Error::Anchor(ErrorCode::AccountNotSigner)),
        old(ctx).staker.is_signer && !is_pda(old(ctx).user_stake.key@, user_stake_seeds(old(ctx).staker.key@), ID@)
            ==> r == Err::<(), Error<ArithmeticError>>(Error::Anchor(ErrorCode::ConstraintSeeds)),
        r is Err ==> *final(ctx) == *old(ctx),
        old(ctx).staker.is_signer && is_pda(old(ctx).user_stake.key@, user_stake_seeds(old(ctx).staker.key@), ID@) ==> {
            match stake_result(old(ctx).pool.data, current_stake(old(ctx).user_stake.data), amount) {
                Ok(p) => {
                    &&& r is Ok
                    &&& final(ctx).pool == Account { data: p.0, ..old(ctx).pool }
                    &&& final(ctx).user_stake == Account { data: Some(p.1), ..old(ctx).user_stake }
                    &&& final(ctx).staker == old(ctx).staker
                },
                Err(e) => r == Err::<(), Error<ArithmeticError>>(Error::Program(e)),
            }
        },
{
    check_signer(&ctx.staker)?;
    check_seeds(&ctx.user_stake.key, &seed_list2(&USER_STAKE_SEED, &ctx.staker.key), &ID)?;
    let user = match ctx.user_stake.data {
        Some(u) => u,
        None => UserStake { staked_amount: 0, last_claim: 0 },
    };
    let total = match ctx.pool.data.total_staked.checked_add(amount) {
        Some(t) => t,
        None => { return Err(Error::Program(ArithmeticError::Overflow)); },
    };
    let staked = match user.staked_amount.checked_add(amount) {
        Some(s) => s,
        None => { return Err(Error::Program(ArithmeticError::Overflow)); },
    };
    ctx.pool.data.total_staked = total;
    ctx.user_stake.data = Some(UserStake { staked_amount: staked, ..user });
    Ok(())
}

/// What `withdraw` does to the pool and the stake: both shrink by `amount`; a
/// stake below `amount` is refused, and so is a pool total below it.
pub open spec fn withdraw_result(pool: StakingPool, user: UserStake, amount: u64) -> Result<(StakingPool, UserStake), ArithmeticError> {
    if user.staked_amount < amount {
        Err(ArithmeticError::InsufficientBalance)
    } else if pool.total_staked < amount {
        Err(ArithmeticError::Underflow)
    } else {
        Ok((
            StakingPool { total_staked: (pool.total_staked - amount) as u64, ..pool },
            UserStake { staked_amount: (user.staked_amount - amount) as u64, ..user },
        ))
    }
}

/// Takes `amount` off the stake and the pool's total, for a signing staker.
pub fn withdraw(ctx: &mut Withdraw, amount: u64) -> (r: Result<(), Error<ArithmeticError>>)
    ensures
        !old(ctx).staker.is_signer ==> r == Err::<(), Error<ArithmeticError>>(Error::Anchor(ErrorCode::AccountNotSigner)),
        r is Err ==> *final(ctx) == *old(ctx),
        old(ctx).staker.is_signer ==> match withdraw_result(old(ctx).pool.data, old(ctx).user_stake.data, amount) {
            Ok(p) => {
                &&& r is Ok
                &&& final(ctx).pool == Account { data: p.0, ..old(ctx).pool }
                &&& final(ctx).user_stake == Account { data: p.1, ..old(ctx).user_stake }
                &&& final(ctx).staker == old(ctx).staker
            },
            Err(e) => r == Err::<(), Error<ArithmeticError>>(Error::Program(e)),
        },
{
    check_signer(&ctx.staker)?;
    if ctx.user_stake.data.staked_amount < amount {
        return Err(Error::Program(ArithmeticError::InsufficientBalance));
    }
    let staked = match ctx.user_stake.data.staked_amount.checked_sub(amount) {
        Some(s) => s,
        None => { return Err(Error::Program(ArithmeticError::Underflow)); },
    };
    let total = match ctx.pool.data.total_staked.checked_sub(amount) {
        Some(t) => t,
        None => { return Err(Error::Program(ArithmeticError::Underflow)); },
    };
    ctx.user_stake.data.staked_amount = staked;
    ctx.pool.data.total_staked = total;
    Ok(())
}

/// The reward for `staked` tokens at `rate` over `elapsed` seconds, capped at
/// `u64::MAX`; an overflow of the 128-bit product is refused, a clock behind the
/// pool's update time too.
pub open spec fn rewards(staked: u64, rate: u64, last_update: u64, now: u64) -> Result<u64, ArithmeticError> {
    if now < last_update {
        Err(ArithmeticError::Underflow)
    } else {
        let product = staked * rate * (now - last_update);
        if product > u128::MAX {
            Err(ArithmeticError::Overflow)
        } else if product > u64::MAX {
            Ok(u64::MAX)
        } else {
            Ok(product as u64)
        }
    }
}

/// The reward a stake has earned since the pool's last update, at `now` (the
/// cluster's current Unix time).
pub fn calculate_rewards(ctx: &CalculateRewards, now: i64) -> (r: Result<u64, Error<ArithmeticError>>)
    ensures
        r == match rewards(ctx.user_stake.data.staked_amount, ctx.pool.data.reward_rate, ctx.pool.data.last_update, now as u64) {
            Ok(v) => Ok::<u64, Error<ArithmeticError>>(v),
            Err(e) => Err::<u64, Error<ArithmeticError>>(Error::Program(e)),
        },
{
    let current_time = now as u64;
    let time_elapsed = match current_time.checked_sub(ctx.pool.data.last_update) {
        Some(t) => t,
        None => { return Err(Error::Program(ArithmeticError::Underflow)); },
    };
    let staked = ctx.user_stake.data.staked_amount as u128;
    let rate = ctx.pool.data.reward_rate as u128;
    assert(staked * rate <= u64::MAX * u64::MAX) by (nonlinear_arith)
        requires
            staked <= u64::MAX,
            rate <= u64::MAX,
    ;
    let step = match staked.checked_mul(rate) {
        Some(p) => p,
        None => { return Err(Error::Program(ArithmeticError::Overflow)); },
    };
    let product = match step.checked_mul(time_elapsed as u128) {
        Some(p) => p,
        None => { return Err(Error::Program(ArithmeticError::Overflow)); },
    };
    let reward = if product > u64::MAX as u128 {
        u64::MAX
    } else {
        product as u64
    };
    Ok(reward)
}

/// Withdrawing what was just staked gives back the pool and the stake exactly
/// as they were, and a stake that goes through never makes a total smaller.
pub proof fn withdraw_undoes_stake(pool: StakingPool, user: UserStake, amount: u64)
    requires
        stake_result(pool, user, amount) is Ok,
    ensures
        ({
            let (p, u) = stake_result(pool, user, amount).unwrap();
            &&& p.total_staked >= pool.total_staked
            &&& u.staked_amount >= user.staked_amount
            &&& withdraw_result(p, u, amount) == Ok::<(StakingPool, UserStake), ArithmeticError>((pool, user))
        }),
{
}

/// A withdrawal never takes a stake or a pool total below zero: more than the
/// stake, or than the pool holds, is refused.
pub proof fn withdraw_never_underflows(pool: StakingPool, user: UserStake, amount: u64)
    ensures
        withdraw_result(pool, user, amount) is Ok <==> (user.staked_amount >= amount && pool.total_staked >= amount),
{
}


/// The reward is the 128-bit product of stake, rate and elapsed seconds, capped
/// at `u64::MAX`: whenever time has not gone backwards and that product fits in
/// 128 bits, the reward is computed, never exceeds the product, and falls short
/// of it only by being `u64::MAX`; it never wraps around.
pub proof fn rewards_are_the_capped_product(staked: u64, rate: u64, last_update: u64, now: u64)
    requires
        now >= last_update,
        staked * rate * (now - last_update) <= u128::MAX,
    ensures
        rewards(staked, rate, last_update, now) matches Ok(v) && {
            let product = staked * rate * (now - last_update);
            &&& v <= product
            &&& v == product || v == u64::MAX
        },
{
}

} // verus!

use anchor_lang::prelude::Pubkey as SolPubkey;
use sealevel_checks::framework::{Account, Error, ErrorCode};
use sealevel_checks::logic_and_arithmetic::anchor::{
    integer_overflow_fixed as overflow_fixed, integer_overflow_vulnerable as overflow_vulnerable,
    precision_loss_fixed as precision_fixed, precision_loss_vulnerable as precision_vulnerable,
};
use sealevel_checks::logic_and_arithmetic::pinocchio::integer_overflow_vulnerable as raw_overflow;
use sealevel_checks::runtime::{AccountInfo, ProgramError};

const ALICE: [u8; 32] = [11; 32];
const SYSTEM: [u8; 32] = [0; 32];

fn info(key: [u8; 32], is_signer: bool, lamports: u64) -> AccountInfo {
    AccountInfo { key, owner: SYSTEM, lamports, data: vec![], is_signer, is_writable: true, executable: false }
}

fn pda(seeds: &[&[u8]], program: [u8; 32]) -> [u8; 32] {
    SolPubkey::find_program_address(seeds, &SolPubkey::new_from_array(program)).0.to_bytes()
}

fn fixed_pool(total: u64) -> Account<overflow_fixed::StakingPool> {
    Account {
        key: [1; 32],
        lamports: 1,
        data: overflow_fixed::StakingPool { authority: ALICE, total_staked: total, reward_rate: 100, last_update: 1_000 },
    }
}

#[test]
fn overflow_fixed_initialize_starts_empty_at_the_current_time() {
    let pool = pda(&[&overflow_fixed::POOL_SEED], overflow_fixed::ID);
    let ctx = overflow_fixed::Initialize { pool: info(pool, false, 0), authority: info(ALICE, true, 10) };
    assert_eq!(
        overflow_fixed::initialize(&ctx, 1_700_000_000),
        Ok(overflow_fixed::StakingPool { authority: ALICE, total_staked: 0, reward_rate: 100, last_update: 1_700_000_000 })
    );
}

#[test]
fn overflow_fixed_stake_creates_the_stake_and_adds() {
    let stake = pda(&[&overflow_fixed::USER_STAKE_SEED, &ALICE], overflow_fixed::ID);
    let mut ctx = overflow_fixed::Stake {
        pool: fixed_pool(500),
        user_stake: Account { key: stake, lamports: 1, data: None },
        staker: info(ALICE, true, 10),
    };
    assert_eq!(overflow_fixed::stake(&mut ctx, 200), Ok(()));
    assert_eq!(ctx.pool.data.total_staked, 700);
    assert_eq!(ctx.user_stake.data, Some(overflow_fixed::UserStake { staked_amount: 200, last_claim: 0 }));
}

#[test]
fn overflow_fixed_stake_refuses_to_wrap() {
    let stake = pda(&[&overflow_fixed::USER_STAKE_SEED, &ALICE], overflow_fixed::ID);
    let mut ctx = overflow_fixed::Stake {
        pool: fixed_pool(u64::MAX - 100),
        user_stake: Account { key: stake, lamports: 1, data: None },
        staker: info(ALICE, true, 10),
    };
    assert_eq!(overflow_fixed::stake(&mut ctx, 200), Err(Error::Program(overflow_fixed::ArithmeticError::Overflow)));
    assert_eq!(ctx.pool.data.total_staked, u64::MAX - 100);
    assert_eq!(ctx.user_stake.data, None);
}

#[test]
fn overflow_fixed_stake_at_a_foreign_address_is_refused() {
    let mut ctx = overflow_fixed::Stake {
        pool: fixed_pool(0),
        user_stake: Account { key: [9; 32], lamports: 1, data: None },
        staker: info(ALICE, true, 10),
    };
    assert_eq!(overflow_fixed::stake(&mut ctx, 1), Err(Error::Anchor(ErrorCode::ConstraintSeeds)));
}

fn fixed_withdraw(staked: u64, total: u64) -> overflow_fixed::Withdraw {
    overflow_fixed::Withdraw {
        pool: fixed_pool(total),
        user_stake: Account { key: [2; 32], lamports: 1, data: overflow_fixed::UserStake { staked_amount: staked, last_claim: 0 } },
        staker: info(ALICE, true, 10),
    }
}

#[test]
fn overflow_fixed_withdraw_undoes_a_stake() {
    let mut ctx = fixed_withdraw(200, 700);
    assert_eq!(overflow_fixed::withdraw(&mut ctx, 200), Ok(()));
    assert_eq!((ctx.user_stake.data.staked_amount, ctx.pool.data.total_staked), (0, 500));
}

#[test]
fn overflow_fixed_withdraw_past_the_stake_is_refused() {
    let mut ctx = fixed_withdraw(50, 700);
    assert_eq!(overflow_fixed::withdraw(&mut ctx, 100), Err(Error::Program(overflow_fixed::ArithmeticError::InsufficientBalance)));
}

#[test]
fn overflow_fixed_withdraw_past_the_pool_total_is_refused() {
    let mut ctx = fixed_withdraw(100, 50);
    assert_eq!(overflow_fixed::withdraw(&mut ctx, 100), Err(Error::Program(overflow_fixed::ArithmeticError::Underflow)));
}

#[test]
fn overflow_fixed_withdraw_needs_a_signature() {
    let mut ctx = fixed_withdraw(100, 100);
    ctx.staker.is_signer = false;
    assert_eq!(overflow_fixed::withdraw(&mut ctx, 1), Err(Error::Anchor(ErrorCode::AccountNotSigner)));
}

fn fixed_rewards(staked: u64) -> overflow_fixed::CalculateRewards {
    overflow_fixed::CalculateRewards {
        pool: fixed_pool(staked),
        user_stake: Account { key: [2; 32], lamports: 1, data: overflow_fixed::UserStake { staked_amount: staked, last_claim: 0 } },
    }
}

#[test]
fn overflow_fixed_rewards_are_stake_times_rate_times_time() {
    assert_eq!(overflow_fixed::calculate_rewards(&fixed_rewards(50), 1_010), Ok(50 * 100 * 10));
}

#[test]
fn overflow_fixed_rewards_are_capped_at_u64_max() {
    // 10^18 * 100 * 86400 does not fit in 64 bits
    assert_eq!(overflow_fixed::calculate_rewards(&fixed_rewards(1_000_000_000_000_000_000), 1_000 + 86_400), Ok(u64::MAX));
}

#[test]
fn overflow_fixed_rewards_with_a_clock_behind_are_refused() {
    assert_eq!(
        overflow_fixed::calculate_rewards(&fixed_rewards(50), 999),
        Err(Error::Program(overflow_fixed::ArithmeticError::Underflow))
    );
}

#[test]
fn overflow_vulnerable_stake_wraps_around() {
    let stake = pda(&[&overflow_vulnerable::USER_STAKE_SEED, &ALICE], overflow_vulnerable::ID);
    let mut ctx = overflow_vulnerable::Stake {
        pool: Account {
            key: [1; 32],
            lamports: 1,
            data: overflow_vulnerable::StakingPool { authority: ALICE, total_staked: u64::MAX - 100, reward_rate: 100, last_update: 0 },
        },
        user_stake: Account { key: stake, lamports: 1, data: None },
        staker: info(ALICE, true, 10),
    };
    assert_eq!(overflow_vulnerable::stake(&mut ctx, 200), Ok(()));
    assert_eq!(ctx.pool.data.total_staked, 99);
}

#[test]
fn overflow_vulnerable_withdraw_wraps_below_zero() {
    let mut ctx = overflow_vulnerable::Withdraw {
        pool: Account {
            key: [1; 32],
            lamports: 1,
            data: overflow_vulnerable::StakingPool { authority: ALICE, total_staked: 50, reward_rate: 100, last_update: 0 },
        },
        user_stake: Account { key: [2; 32], lamports: 1, data: overflow_vulnerable::UserStake { staked_amount: 50, last_claim: 0 } },
        staker: info(ALICE, true, 10),
    };
    assert_eq!(overflow_vulnerable::withdraw(&mut ctx, 100), Ok(()));
    assert_eq!(ctx.user_stake.data.staked_amount, u64::MAX - 49);
}

#[test]
fn overflow_vulnerable_rewards_wrap() {
    let ctx = overflow_vulnerable::CalculateRewards {
        pool: Account {
            key: [1; 32],
            lamports: 1,
            data: overflow_vulnerable::StakingPool { authority: ALICE, total_staked: 0, reward_rate: 100, last_update: 0 },
        },
        user_stake: Account {
            key: [2; 32],
            lamports: 1,
            data: overflow_vulnerable::UserStake { staked_amount: 1_000_000_000_000_000_000, last_claim: 0 },
        },
    };
    let exact: u128 = 1_000_000_000_000_000_000u128 * 100 * 86_400;
    assert_eq!(overflow_vulnerable::calculate_rewards(&ctx, 86_400), Ok(exact as u64));
}

fn precision_ctx_fixed(shares_program: [u8; 32]) -> precision_fixed::WithdrawShare {
    let user = pda(&[&precision_fixed::USER_SEED, &ALICE], shares_program);
    precision_fixed::WithdrawShare {
        pool: Account { key: [1; 32], lamports: 1, data: precision_fixed::Pool { total_assets: 10_000_000, total_shares: 1_000 } },
        user: Account { key: user, lamports: 1, data: None },
        user_authority: info(ALICE, true, 10),
    }
}

#[test]
fn precision_fixed_values_ten_shares_exactly() {
    let mut ctx = precision_ctx_fixed(precision_fixed::ID);
    assert_eq!(precision_fixed::withdraw_share(&mut ctx, 10), Ok(()));
    assert_eq!(ctx.user.data, Some(precision_fixed::User { last_withdrawal: 100_000 }));
}

#[test]
fn precision_fixed_initialize_sets_the_example_pool() {
    let pool = pda(&[&precision_fixed::POOL_SEED], precision_fixed::ID);
    let ctx = precision_fixed::Initialize { pool: info(pool, false, 0), authority: info(ALICE, true, 1) };
    assert_eq!(precision_fixed::initialize(&ctx), Ok(precision_fixed::Pool { total_assets: 10_000_000, total_shares: 1_000 }));
}

#[test]
fn precision_vulnerable_values_ten_shares_at_nothing() {
    let user = pda(&[&precision_vulnerable::USER_SEED, &ALICE], precision_vulnerable::ID);
    let mut ctx = precision_vulnerable::WithdrawShare {
        pool: Account { key: [1; 32], lamports: 1, data: precision_vulnerable::Pool { total_assets: 10_000_000, total_shares: 1_000 } },
        user: Account { key: user, lamports: 1, data: None },
        user_authority: info(ALICE, true, 10),
    };
    assert_eq!(precision_vulnerable::withdraw_share(&mut ctx, 10), Ok(()));
    assert_eq!(ctx.user.data, Some(precision_vulnerable::User { last_withdrawal: 0 }));
    assert_eq!(precision_vulnerable::withdraw_share(&mut ctx, 2_500), Ok(()));
    assert_eq!(ctx.user.data, Some(precision_vulnerable::User { last_withdrawal: 20_000_000 }));
}

fn raw_pool(total: u64) -> AccountInfo {
    let mut data = ALICE.to_vec();
    data.extend_from_slice(&total.to_le_bytes());
    data.extend_from_slice(&100u64.to_le_bytes());
    AccountInfo { data, ..info([5; 32], false, 1) }
}

fn raw_stake(staked: u64) -> AccountInfo {
    AccountInfo { data: staked.to_le_bytes().to_vec(), ..info([6; 32], false, 1) }
}

fn amount_data(tag: u8, amount: u64) -> Vec<u8> {
    let mut d = vec![tag];
    d.extend_from_slice(&amount.to_le_bytes());
    d
}

#[test]
fn raw_overflow_initialize_writes_the_layout() {
    let mut accounts = vec![AccountInfo { data: vec![7; 48], ..info([5; 32], false, 1) }, info(ALICE, true, 1), info(SYSTEM, false, 1)];
    assert_eq!(raw_overflow::process_instruction(&[9; 32], &mut accounts, &[raw_overflow::INITIALIZE]), Ok(()));
    assert_eq!(accounts[0].data, raw_pool(0).data);
}

#[test]
fn raw_overflow_stake_wraps_around() {
    let mut accounts = vec![raw_pool(u64::MAX - 100), raw_stake(0), info(ALICE, true, 1), info(SYSTEM, false, 1)];
    assert_eq!(raw_overflow::process_instruction(&[9; 32], &mut accounts, &amount_data(raw_overflow::STAKE, 200)), Ok(()));
    assert_eq!(accounts[0].data[32..40], 99u64.to_le_bytes());
    assert_eq!(accounts[1].data[0..8], 200u64.to_le_bytes());
}

#[test]
fn raw_overflow_withdraw_wraps_below_zero() {
    let mut accounts = vec![raw_pool(50), raw_stake(50), info(ALICE, true, 1)];
    assert_eq!(raw_overflow::process_instruction(&[9; 32], &mut accounts, &amount_data(raw_overflow::WITHDRAW, 100)), Ok(()));
    assert_eq!(accounts[1].data[0..8], (u64::MAX - 49).to_le_bytes());
}

#[test]
fn raw_overflow_unsigned_stake_is_refused() {
    let mut accounts = vec![raw_pool(0), raw_stake(0), info(ALICE, false, 1), info(SYSTEM, false, 1)];
    assert_eq!(
        raw_overflow::process_instruction(&[9; 32], &mut accounts, &amount_data(raw_overflow::STAKE, 1)),
        Err(ProgramError::MissingRequiredSignature)
    );
}

use anchor_lang::prelude::Pubkey as SolPubkey;
use sealevel_checks::challenges::amm_fixed::{
    add_liquidity, get_spot_price, get_twap, initialize, integer_sqrt_u128, remove_liquidity, swap, AddLiquidity,
    load_pool, AmmError, GetPrice, Initialize, Pool, RemoveLiquidity, Swap, ID, POOL_DISCRIMINATOR, POOL_SEED,
};
use sealevel_checks::framework::{Account, Error, ErrorCode, Mint, TokenAccount, TokenInstruction};
use sealevel_checks::runtime::AccountInfo;

const MINT_A: [u8; 32] = [1; 32];
const MINT_B: [u8; 32] = [2; 32];
const VAULT_A: [u8; 32] = [3; 32];
const VAULT_B: [u8; 32] = [4; 32];
const LP_MINT: [u8; 32] = [5; 32];
const USER: [u8; 32] = [6; 32];
const USER_A: [u8; 32] = [7; 32];
const USER_B: [u8; 32] = [8; 32];
const USER_LP: [u8; 32] = [9; 32];
const SYSTEM: [u8; 32] = [0; 32];

fn pool_address() -> ([u8; 32], u8) {
    let (k, b) = SolPubkey::find_program_address(&[&POOL_SEED, &MINT_A, &MINT_B], &SolPubkey::new_from_array(ID));
    (k.to_bytes(), b)
}

fn info(key: [u8; 32], is_signer: bool) -> AccountInfo {
    AccountInfo { key, owner: SYSTEM, lamports: 1_000_000, data: vec![], is_signer, is_writable: true, executable: false }
}

fn token(key: [u8; 32], mint: [u8; 32], owner: [u8; 32]) -> Account<TokenAccount> {
    Account { key, lamports: 2_039_280, data: TokenAccount { mint, owner } }
}

fn pool(reserve_a: u64, reserve_b: u64, total_lp_supply: u64) -> Account<Pool> {
    let (key, bump) = pool_address();
    Account {
        key,
        lamports: 5_000_000,
        data: Pool {
            authority: USER,
            token_a_mint: MINT_A,
            token_b_mint: MINT_B,
            token_a_vault: VAULT_A,
            token_b_vault: VAULT_B,
            lp_mint: LP_MINT,
            reserve_a,
            reserve_b,
            total_lp_supply,
            fee_bps: 30,
            bump,
            last_update: 1_000,
            price_cumulative_a: 0,
            price_cumulative_b: 0,
        },
    }
}

fn swap_ctx(p: Account<Pool>) -> Swap {
    let (pool_key, _) = pool_address();
    Swap {
        pool: p,
        token_a_vault: token(VAULT_A, MINT_A, pool_key),
        token_b_vault: token(VAULT_B, MINT_B, pool_key),
        user_token_a: token(USER_A, MINT_A, USER),
        user_token_b: token(USER_B, MINT_B, USER),
        user: info(USER, true),
    }
}

fn add_ctx(p: Account<Pool>) -> AddLiquidity {
    let (pool_key, _) = pool_address();
    AddLiquidity {
        pool: p,
        token_a_vault: token(VAULT_A, MINT_A, pool_key),
        token_b_vault: token(VAULT_B, MINT_B, pool_key),
        lp_mint: Account { key: LP_MINT, lamports: 1, data: Mint { mint_authority: Some(pool_key) } },
        user_token_a: token(USER_A, MINT_A, USER),
        user_token_b: token(USER_B, MINT_B, USER),
        user_lp_account: token(USER_LP, LP_MINT, USER),
        user: info(USER, true),
    }
}

fn remove_ctx(p: Account<Pool>) -> RemoveLiquidity {
    let (pool_key, _) = pool_address();
    RemoveLiquidity {
        pool: p,
        token_a_vault: token(VAULT_A, MINT_A, pool_key),
        token_b_vault: token(VAULT_B, MINT_B, pool_key),
        lp_mint: Account { key: LP_MINT, lamports: 1, data: Mint { mint_authority: Some(pool_key) } },
        user_token_a: token(USER_A, MINT_A, USER),
        user_token_b: token(USER_B, MINT_B, USER),
        user_lp_account: token(USER_LP, LP_MINT, USER),
        lp_owner: info(USER, true),
    }
}

#[test]
fn test_integer_sqrt() {
    assert_eq!(integer_sqrt_u128(0), 0);
    assert_eq!(integer_sqrt_u128(1), 1);
    assert_eq!(integer_sqrt_u128(4), 2);
    assert_eq!(integer_sqrt_u128(9), 3);
    assert_eq!(integer_sqrt_u128(100), 10);
    assert_eq!(integer_sqrt_u128(1000000), 1000);
    // Large number that would overflow u64
    assert_eq!(integer_sqrt_u128(u128::MAX), u64::MAX);
}

#[test]
fn test_fee_rounding() {
    // Small amount - fee should NOT be zero
    let amount: u64 = 99;
    let fee_bps: u64 = 30;

    // Vulnerable version: 99 * 30 / 10000 = 0

    // Fixed version with ceiling division: ceil(99 * 30 / 10000) = 1
    let fee = amount * fee_bps + 9999 / 10000;
    assert!(fee > 0, "Fee should never be zero for non-zero amount");
}

#[test]
fn integer_sqrt_rounds_down_between_squares() {
    assert_eq!(integer_sqrt_u128(8), 2);
    assert_eq!(integer_sqrt_u128(99), 9);
    assert_eq!(integer_sqrt_u128(1 << 64), 1 << 32);
    assert_eq!(integer_sqrt_u128((1u128 << 64) - 1), (1u64 << 32) - 1);
}

#[test]
fn swap_of_a_small_amount_still_pays_a_fee() {
    let mut ctx = swap_ctx(pool(1000, 1000, 1000));
    let r = swap(&mut ctx, 99, 0, true, 1_000);
    // fee = ceil(99 * 30 / 10000) = 1, so 98 joins the reserve:
    // new_b = 1_000_000 / 1098 = 910, paid out 90.
    assert_eq!(
        r,
        Ok(vec![
            TokenInstruction::Transfer { from: USER_A, to: VAULT_A, authority: USER, amount: 99, signed_by_pool: false },
            TokenInstruction::Transfer { from: VAULT_B, to: USER_B, authority: pool_address().0, amount: 90, signed_by_pool: true },
        ])
    );
    assert_eq!(ctx.pool.data.reserve_a, 1098);
    assert_eq!(ctx.pool.data.reserve_b, 910);
}

#[test]
fn swap_below_minimum_output_is_refused() {
    let mut ctx = swap_ctx(pool(1000, 1000, 1000));
    let before = ctx.pool.clone();
    assert_eq!(swap(&mut ctx, 99, 91, true, 1_000), Err(Error::Program(AmmError::SlippageExceeded)));
    assert_eq!(ctx.pool, before);
}

#[test]
fn swap_b_to_a_moves_the_other_way() {
    let mut ctx = swap_ctx(pool(1000, 1000, 1000));
    let r = swap(&mut ctx, 99, 90, false, 1_000).unwrap();
    assert_eq!(r[1], TokenInstruction::Transfer { from: VAULT_A, to: USER_A, authority: pool_address().0, amount: 90, signed_by_pool: true });
    assert_eq!((ctx.pool.data.reserve_a, ctx.pool.data.reserve_b), (910, 1098));
}

#[test]
fn swap_needs_the_users_signature() {
    let mut ctx = swap_ctx(pool(1000, 1000, 1000));
    ctx.user.is_signer = false;
    assert_eq!(swap(&mut ctx, 10, 0, true, 1_000), Err(Error::Anchor(ErrorCode::AccountNotSigner)));
}

#[test]
fn swap_with_a_foreign_vault_is_refused() {
    let mut ctx = swap_ctx(pool(1000, 1000, 1000));
    ctx.token_b_vault.key = [42; 32];
    assert_eq!(swap(&mut ctx, 10, 0, true, 1_000), Err(Error::Program(AmmError::InvalidPool)));
}

#[test]
fn swap_on_a_pool_away_from_its_address_is_refused() {
    let mut ctx = swap_ctx(pool(1000, 1000, 1000));
    ctx.pool.key = [43; 32];
    assert_eq!(swap(&mut ctx, 10, 0, true, 1_000), Err(Error::Anchor(ErrorCode::ConstraintSeeds)));
}

#[test]
fn swap_on_an_empty_pool_is_refused() {
    let mut ctx = swap_ctx(pool(0, 1000, 0));
    assert_eq!(swap(&mut ctx, 10, 0, true, 1_000), Err(Error::Program(AmmError::InsufficientLiquidity)));
}

#[test]
fn first_deposit_mints_the_square_root_of_the_product() {
    let mut ctx = add_ctx(pool(0, 0, 0));
    let r = add_liquidity(&mut ctx, 100, 400, 200, 1_000).unwrap();
    assert_eq!(r[2], TokenInstruction::MintTo { mint: LP_MINT, to: USER_LP, authority: pool_address().0, amount: 200 });
    assert_eq!((ctx.pool.data.reserve_a, ctx.pool.data.reserve_b, ctx.pool.data.total_lp_supply), (100, 400, 200));
}

#[test]
fn later_deposit_mints_the_smaller_share() {
    let mut ctx = add_ctx(pool(1000, 2000, 500));
    // lp_a = 100 * 500 / 1000 = 50, lp_b = 100 * 500 / 2000 = 25
    let r = add_liquidity(&mut ctx, 100, 100, 0, 1_000).unwrap();
    assert_eq!(r[2], TokenInstruction::MintTo { mint: LP_MINT, to: USER_LP, authority: pool_address().0, amount: 25 });
    assert_eq!(ctx.pool.data.total_lp_supply, 525);
}

#[test]
fn deposit_below_minimum_lp_is_refused() {
    let mut ctx = add_ctx(pool(1000, 2000, 500));
    assert_eq!(add_liquidity(&mut ctx, 100, 100, 26, 1_000), Err(Error::Program(AmmError::SlippageExceeded)));
}

#[test]
fn withdrawal_pays_the_lp_share_of_each_reserve() {
    let mut ctx = remove_ctx(pool(1000, 3000, 1000));
    let r = remove_liquidity(&mut ctx, 100, 100, 300, 1_000).unwrap();
    assert_eq!(r[0], TokenInstruction::Burn { mint: LP_MINT, from: USER_LP, authority: USER, amount: 100 });
    assert_eq!(r[1], TokenInstruction::Transfer { from: VAULT_A, to: USER_A, authority: pool_address().0, amount: 100, signed_by_pool: true });
    assert_eq!(r[2], TokenInstruction::Transfer { from: VAULT_B, to: USER_B, authority: pool_address().0, amount: 300, signed_by_pool: true });
    assert_eq!((ctx.pool.data.reserve_a, ctx.pool.data.reserve_b, ctx.pool.data.total_lp_supply), (900, 2700, 900));
}

#[test]
fn withdrawal_by_another_lp_owner_is_refused() {
    let mut ctx = remove_ctx(pool(1000, 3000, 1000));
    ctx.user_lp_account.data.owner = [44; 32];
    assert_eq!(remove_liquidity(&mut ctx, 100, 0, 0, 1_000), Err(Error::Program(AmmError::Unauthorized)));
}

#[test]
fn withdrawal_of_more_lp_than_exists_is_refused() {
    let mut ctx = remove_ctx(pool(1000, 3000, 1000));
    assert_eq!(remove_liquidity(&mut ctx, 1001, 0, 0, 1_000), Err(Error::Program(AmmError::InsufficientLiquidity)));
}

#[test]
fn twap_divides_the_accumulators_by_elapsed_time() {
    let mut p = pool(1000, 2000, 1000);
    p.data.price_cumulative_a = 20_000_000;
    p.data.price_cumulative_b = 5_000_000;
    let ctx = GetPrice { pool: p };
    assert_eq!(get_twap(&ctx, 3600, 1_010), Ok((2_000_000, 500_000)));
    assert_eq!(get_twap(&ctx, 3600, 1_005), Ok((4_000_000, 1_000_000)));
    // no time passed, or no period asked for: the spot prices
    assert_eq!(get_twap(&ctx, 3600, 1_000), Ok((2_000_000, 500_000)));
    assert_eq!(get_twap(&ctx, 0, 1_010), Ok((2_000_000, 500_000)));
    assert_eq!(get_spot_price(&ctx), Ok((2_000_000, 500_000)));
}

#[test]
fn swap_whose_input_reserve_would_not_fit_is_an_overflow() {
    let mut ctx = swap_ctx(pool(u64::MAX - 5, 1_000, 1000));
    let before = ctx.pool.clone();
    assert_eq!(swap(&mut ctx, 1_000, 0, true, 1_000), Err(Error::Program(AmmError::Overflow)));
    assert_eq!(ctx.pool, before);
}

#[test]
fn failed_swap_leaves_the_pool_unchanged() {
    let mut ctx = swap_ctx(pool(1000, 2000, 1000));
    let before = ctx.pool.clone();
    assert_eq!(swap(&mut ctx, 100, 10_000, true, 1_100), Err(Error::Program(AmmError::SlippageExceeded)));
    assert_eq!(ctx.pool, before);
}

#[test]
fn failed_withdrawal_leaves_the_pool_unchanged() {
    let mut ctx = remove_ctx(pool(1000, 3000, 1000));
    let before = ctx.pool.clone();
    assert_eq!(remove_liquidity(&mut ctx, 1001, 0, 0, 1_100), Err(Error::Program(AmmError::InsufficientLiquidity)));
    assert_eq!(ctx.pool, before);
}

#[test]
fn share_beyond_64_bits_is_an_overflow() {
    let mut p = pool(1 << 62, 1 << 62, 1 << 63);
    p.data.total_lp_supply = 1 << 63;
    let mut ctx = add_ctx(p);
    let before = ctx.pool.clone();
    let amount = (1u64 << 63) + 1;
    assert_eq!(add_liquidity(&mut ctx, amount, amount, 0, 1_000), Err(Error::Program(AmmError::Overflow)));
    assert_eq!(ctx.pool, before);
}

#[test]
fn swap_brings_the_accumulators_up_to_date() {
    let mut ctx = swap_ctx(pool(1000, 2000, 1000));
    swap(&mut ctx, 10, 0, true, 1_010).unwrap();
    assert_eq!(ctx.pool.data.price_cumulative_a, 2_000_000 * 10);
    assert_eq!(ctx.pool.data.price_cumulative_b, 500_000 * 10);
    assert_eq!(ctx.pool.data.last_update, 1_010);
}

fn init_ctx() -> Initialize {
    let (pool_key, _) = pool_address();
    Initialize {
        pool: info(pool_key, false),
        token_a_mint: Account { key: MINT_A, lamports: 1, data: Mint { mint_authority: None } },
        token_b_mint: Account { key: MINT_B, lamports: 1, data: Mint { mint_authority: None } },
        token_a_vault: token(VAULT_A, MINT_A, pool_key),
        token_b_vault: token(VAULT_B, MINT_B, pool_key),
        lp_mint: Account { key: LP_MINT, lamports: 1, data: Mint { mint_authority: Some(pool_key) } },
        authority: info(USER, true),
    }
}

#[test]
fn initialize_records_the_accounts_and_bump() {
    let mut ctx = init_ctx();
    ctx.pool.lamports = 0;
    let p = initialize(&ctx, 30, 77).unwrap();
    assert_eq!(p.bump, pool_address().1);
    assert_eq!((p.reserve_a, p.reserve_b, p.total_lp_supply, p.fee_bps, p.last_update), (0, 0, 0, 30, 77));
    assert_eq!(p.token_a_vault, VAULT_A);
}

#[test]
fn initialize_refuses_a_fee_above_everything() {
    let ctx = init_ctx();
    assert_eq!(initialize(&ctx, 10_001, 0), Err(Error::Program(AmmError::InvalidFee)));
}

#[test]
fn initialize_refuses_a_vault_the_pool_does_not_own() {
    let mut ctx = init_ctx();
    ctx.token_a_vault.data.owner = USER;
    assert_eq!(initialize(&ctx, 30, 0), Err(Error::Program(AmmError::InvalidPool)));
}

fn pool_bytes(p: &Pool) -> Vec<u8> {
    let mut d = POOL_DISCRIMINATOR.to_vec();
    for k in [p.authority, p.token_a_mint, p.token_b_mint, p.token_a_vault, p.token_b_vault, p.lp_mint] {
        d.extend_from_slice(&k);
    }
    for v in [p.reserve_a, p.reserve_b, p.total_lp_supply, p.fee_bps] {
        d.extend_from_slice(&v.to_le_bytes());
    }
    d.push(p.bump);
    d.extend_from_slice(&p.last_update.to_le_bytes());
    d.extend_from_slice(&p.price_cumulative_a.to_le_bytes());
    d.extend_from_slice(&p.price_cumulative_b.to_le_bytes());
    d
}

#[test]
fn typed_pool_loads_only_from_this_programs_pool_accounts() {
    let mut p = pool(1000, 2000, 1000);
    p.data.price_cumulative_a = (7u128 << 64) + 5;
    p.data.last_update = -3;
    let raw = AccountInfo {
        key: p.key, owner: ID, lamports: p.lamports, data: pool_bytes(&p.data),
        is_signer: false, is_writable: true, executable: false,
    };
    assert_eq!(load_pool(&raw), Ok(p.clone()));
    let foreign = AccountInfo { owner: [9; 32], ..raw.clone() };
    assert_eq!(load_pool(&foreign), Err(Error::Anchor(ErrorCode::AccountOwnedByWrongProgram)));
    let mut other_type = raw.clone();
    other_type.data[0] ^= 1;
    assert_eq!(load_pool(&other_type), Err(Error::Anchor(ErrorCode::AccountDiscriminatorMismatch)));
    let mut short = raw.clone();
    short.data.truncate(100);
    assert_eq!(load_pool(&short), Err(Error::Anchor(ErrorCode::AccountDidNotDeserialize)));
}

#[test]
fn adding_then_removing_the_minted_lp_returns_no_more_than_deposited() {
    let mut add = add_ctx(pool(1000, 3000, 1000));
    assert!(add_liquidity(&mut add, 333, 1000, 0, 1_000).is_ok());
    let minted = add.pool.data.total_lp_supply - 1000;
    let mut remove = remove_ctx(add.pool.clone());
    let calls = remove_liquidity(&mut remove, minted, 0, 0, 1_000).unwrap();
    let paid: Vec<u64> = calls.iter().skip(1).map(|c| match c {
        TokenInstruction::Transfer { amount, .. } => *amount,
        _ => unreachable!(),
    }).collect();
    assert!(paid[0] <= 333 && paid[1] <= 1000);
}

#[test]
fn first_deposit_comes_back_whole() {
    let mut add = add_ctx(pool(0, 0, 0));
    assert!(add_liquidity(&mut add, 400, 900, 0, 1_000).is_ok());
    assert_eq!(add.pool.data.total_lp_supply, 600);
    let mut remove = remove_ctx(add.pool.clone());
    let calls = remove_liquidity(&mut remove, 600, 400, 900, 1_000).unwrap();
    let paid: Vec<u64> = calls.iter().skip(1).map(|c| match c {
        TokenInstruction::Transfer { amount, .. } => *amount,
        _ => unreachable!(),
    }).collect();
    assert_eq!(paid, vec![400, 900]);
    assert_eq!((remove.pool.data.reserve_a, remove.pool.data.reserve_b, remove.pool.data.total_lp_supply), (0, 0, 0));
}

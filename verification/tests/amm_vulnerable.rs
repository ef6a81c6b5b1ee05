use anchor_lang::prelude::Pubkey as SolPubkey;
use sealevel_checks::challenges::amm_vulnerable::{
    get_price, integer_sqrt, remove_liquidity, swap, swap_unchecked, GetPrice, Pool, RemoveLiquidity, Swap, SwapUnchecked, ID,
    POOL_SEED,
};
use sealevel_checks::framework::{Account, Error, ErrorCode, Mint, TokenAccount, TokenInstruction};
use sealevel_checks::runtime::AccountInfo;

const MINT_A: [u8; 32] = [1; 32];
const MINT_B: [u8; 32] = [2; 32];
const VAULT_A: [u8; 32] = [3; 32];
const VAULT_B: [u8; 32] = [4; 32];
const LP_MINT: [u8; 32] = [5; 32];
const USER: [u8; 32] = [6; 32];
const USER_A: [u8; 32] = [7; 32];
const USER_B: [u8; 32] = [8; 32];
const USER_LP: [u8; 32] = [9; 32];
const VICTIM: [u8; 32] = [10; 32];

fn pool_key() -> [u8; 32] {
    SolPubkey::find_program_address(&[&POOL_SEED, &MINT_A, &MINT_B], &SolPubkey::new_from_array(ID)).0.to_bytes()
}

fn info(key: [u8; 32], is_signer: bool) -> AccountInfo {
    AccountInfo { key, owner: [0; 32], lamports: 1, data: vec![], is_signer, is_writable: true, executable: false }
}

fn token(key: [u8; 32], mint: [u8; 32], owner: [u8; 32]) -> Account<TokenAccount> {
    Account { key, lamports: 1, data: TokenAccount { mint, owner } }
}

fn pool(reserve_a: u64, reserve_b: u64, supply: u64) -> Account<Pool> {
    Account {
        key: pool_key(),
        lamports: 1,
        data: Pool {
            authority: USER,
            token_a_mint: MINT_A,
            token_b_mint: MINT_B,
            token_a_vault: VAULT_A,
            token_b_vault: VAULT_B,
            lp_mint: LP_MINT,
            reserve_a,
            reserve_b,
            total_lp_supply: supply,
            fee_bps: 30,
            last_update: 0,
            price_cumulative: 0,
        },
    }
}

#[test]
fn integer_sqrt_of_small_squares() {
    assert_eq!(integer_sqrt(0), 0);
    assert_eq!(integer_sqrt(1), 1);
    assert_eq!(integer_sqrt(99), 9);
    assert_eq!(integer_sqrt(1_000_000), 1000);
}

#[test]
fn small_swap_pays_no_fee() {
    let mut ctx = Swap {
        pool: pool(1000, 1000, 1000),
        token_a_vault: token(VAULT_A, MINT_A, pool_key()),
        token_b_vault: token(VAULT_B, MINT_B, pool_key()),
        user_token_a: token(USER_A, MINT_A, USER),
        user_token_b: token(USER_B, MINT_B, USER),
        user: info(USER, true),
    };
    // fee = 99 * 30 / 10000 = 0: all 99 join the reserve; new_b = 1_000_000 / 1099 = 909
    let r = swap(&mut ctx, 99, true).unwrap();
    assert_eq!(r[1], TokenInstruction::Transfer { from: VAULT_B, to: USER_B, authority: pool_key(), amount: 91, signed_by_pool: true });
    assert_eq!((ctx.pool.data.reserve_a, ctx.pool.data.reserve_b), (1099, 909));
}

#[test]
fn vulnerable_swap_still_checks_the_pool_address() {
    let mut p = pool(1000, 1000, 1000);
    p.key = [50; 32];
    let mut ctx = Swap {
        pool: p,
        token_a_vault: token(VAULT_A, MINT_A, pool_key()),
        token_b_vault: token(VAULT_B, MINT_B, pool_key()),
        user_token_a: token(USER_A, MINT_A, USER),
        user_token_b: token(USER_B, MINT_B, USER),
        user: info(USER, true),
    };
    assert_eq!(swap(&mut ctx, 99, true), Err(Error::Anchor(ErrorCode::ConstraintSeeds)));
}

#[test]
fn anyone_removes_liquidity_of_any_owner() {
    let mut ctx = RemoveLiquidity {
        pool: pool(1000, 3000, 1000),
        token_a_vault: token(VAULT_A, MINT_A, pool_key()),
        token_b_vault: token(VAULT_B, MINT_B, pool_key()),
        lp_mint: Account { key: LP_MINT, lamports: 1, data: Mint { mint_authority: Some(pool_key()) } },
        user_token_a: token(USER_A, MINT_A, USER),
        user_token_b: token(USER_B, MINT_B, USER),
        user_lp_account: token(USER_LP, LP_MINT, VICTIM),
        lp_owner: info(VICTIM, false),
    };
    let r = remove_liquidity(&mut ctx, 100).unwrap();
    assert_eq!(r[0], TokenInstruction::Burn { mint: LP_MINT, from: USER_LP, authority: VICTIM, amount: 100 });
    assert_eq!(r[2], TokenInstruction::Transfer { from: VAULT_B, to: USER_B, authority: pool_key(), amount: 300, signed_by_pool: true });
}

#[test]
fn unchecked_swap_quotes_from_any_bytes() {
    let mut data = vec![0u8; 89];
    data[73..81].copy_from_slice(&1000u64.to_le_bytes());
    data[81..89].copy_from_slice(&2000u64.to_le_bytes());
    let ctx = SwapUnchecked {
        pool: AccountInfo { data, ..info([60; 32], false) },
        token_a_vault: token(VAULT_A, MINT_A, USER),
        token_b_vault: token(VAULT_B, MINT_B, USER),
        user_token_a: token(USER_A, MINT_A, USER),
        user_token_b: token(USER_B, MINT_B, USER),
        user: info(USER, true),
    };
    assert_eq!(swap_unchecked(&ctx, 1000, true), Ok(1000));
}

#[test]
fn spot_price_moves_with_the_reserves() {
    assert_eq!(get_price(&GetPrice { pool: pool(1000, 2000, 1) }), Ok(2_000_000));
    assert_eq!(get_price(&GetPrice { pool: pool(0, 2000, 1) }), Ok(0));
}

//! A constant-product market maker (`x * y = k`) with the classic mistakes: no
//! slippage limit, 64-bit products, a fee rounded down, a spot-price oracle, no
//! signer on withdrawals, and a pool read from unchecked bytes.
use crate::bytes::{le_u64_at, read_u64_le};
use crate::framework::{
    check_seeds, check_signer, check_uninitialized, in_use_error, is_pda, is_unused, Account,
    Error, ErrorCode, Mint, TokenAccount, TokenInstruction,
};
use crate::math::{
    floor_sqrt, is_floor_sqrt, lemma_floor_sqrt_is, lemma_newton_fixpoint,
    lemma_newton_step_stays_above, lemma_quotient_bound,
};
use crate::runtime::{AccountInfo, Pubkey};
use vstd::prelude::*;

verus! {

/// The program's address, `Amm1VuLnErabLe111111111111111111111111111111`.
pub const ID: Pubkey = [
    145, 48, 127, 164, 227, 45, 3, 218, 206, 101, 97, 146, 111, 200, 171, 220, 144, 128, 56, 21,
    164, 169, 90, 185, 248, 27, 213, 142, 192, 0, 0, 0,
];

/// The default fee, 0.3% in basis points.
pub const FEE_BPS: u64 = 30;

/// The bytes of `"pool"`.
pub const POOL_SEED: [u8; 4] = [112, 111, 111, 108];

#[derive(Clone, Copy, Debug, PartialEq, Eq)]
pub struct Pool {
    pub authority: Pubkey,
    pub token_a_mint: Pubkey,
    pub token_b_mint: Pubkey,
    pub token_a_vault: Pubkey,
    pub token_b_vault: Pubkey,
    pub lp_mint: Pubkey,
    pub reserve_a: u64,
    pub reserve_b: u64,
    pub total_lp_supply: u64,
    pub fee_bps: u64,
    pub last_update: i64,
    pub price_cumulative: u128,
}

#[derive(Clone, Copy, Debug, PartialEq, Eq)]
pub enum AmmError {
    SlippageExceeded,
    InsufficientLiquidity,
    Overflow,
    InvalidPool,
    Unauthorized,
}

/// The seeds of a pool's address: `"pool"` and the two mints.
pub open spec fn pool_seeds(mint_a: Seq<u8>, mint_b: Seq<u8>) -> Seq<Seq<u8>> {
    seq![POOL_SEED@, mint_a, mint_b]
}

/// Whether a pool account sits at the address derived from its mints.
pub open spec fn pool_at_address(pool: Account<Pool>) -> bool {
    is_pda(pool.key@, pool_seeds(pool.data.token_a_mint@, pool.data.token_b_mint@), ID@)
}

fn pool_seed_list(mint_a: &Pubkey, mint_b: &Pubkey) -> (s: Vec<Vec<u8>>)
    ensures
        crate::outside::seeds_view(s@) == pool_seeds(mint_a@, mint_b@),
{
    let mut s: Vec<Vec<u8>> = Vec::new();
    s.push(crate::framework::seed(&POOL_SEED));
    s.push(crate::framework::seed(mint_a));
    s.push(crate::framework::seed(mint_b));
    assert(crate::outside::seeds_view(s@) =~= pool_seeds(mint_a@, mint_b@));
    s
}

/// The integer square root of `n`, by Newton's method; its first step computes
/// `n + 1`, so `u64::MAX` itself would overflow.
pub fn integer_sqrt(n: u64) -> (r: u64)
    requires
        n < u64::MAX,
    ensures
        is_floor_sqrt(n as int, r as int),
        r == floor_sqrt(n as int),
{
    if n == 0 {
        proof {
            lemma_floor_sqrt_is(0, 0);
        }
        return 0;
    }
    let mut x = n;
    let mut y = (x + 1) / 2;
    proof {
        assert(y == (x + n / x) / 2) by (nonlinear_arith)
            requires
                x == n,
                n > 0,
                y == (x + 1) / 2,
        ;
        lemma_newton_step_stays_above(n as int, x as int);
        assert((x + 1) * (x + 1) > n) by (nonlinear_arith)
            requires
                x == n,
                n > 0,
        ;
    }
    while y < x
        invariant
            0 < n < u64::MAX,
            0 < x <= n,
            (x + 1) * (x + 1) > n,
            y == (x + n / x) / 2,
            (y + 1) * (y + 1) > n,
            y < x ==> y <= n / 2 + 1,
        decreases x,
    {
        assert(y > 0) by (nonlinear_arith)
            requires
                (y + 1) * (y + 1) > n,
                n > 0,
                y >= 0,
        ;
        x = y;
        proof {
            lemma_quotient_bound(n as int, x as int);
            if x >= 2 {
                assert(n / x <= n / 2) by (nonlinear_arith)
                    requires
                        x >= 2,
                        n > 0,
                ;
            }
        }
        y = (x + n / x) / 2;
        proof {
            lemma_newton_step_stays_above(n as int, x as int);
        }
    }
    proof {
        lemma_newton_fixpoint(n as int, x as int);
        lemma_floor_sqrt_is(n as int, x as int);
    }
    x
}

pub struct Initialize {
    pub pool: AccountInfo,
    pub token_a_mint: Account<Mint>,
    pub token_b_mint: Account<Mint>,
    pub token_a_vault: Account<TokenAccount>,
    pub token_b_vault: Account<TokenAccount>,
    pub lp_mint: Account<Mint>,
    pub authority: AccountInfo,
}

pub struct AddLiquidity {
    pub pool: Account<Pool>,
    pub token_a_vault: Account<TokenAccount>,
    pub token_b_vault: Account<TokenAccount>,
    pub lp_mint: Account<Mint>,
    pub user_token_a: Account<TokenAccount>,
    pub user_token_b: Account<TokenAccount>,
    pub user_lp_account: Account<TokenAccount>,
    pub user: AccountInfo,
}

/// Accounts of `remove_liquidity`: the LP owner is not required to sign.
pub struct RemoveLiquidity {
    pub pool: Account<Pool>,
    pub token_a_vault: Account<TokenAccount>,
    pub token_b_vault: Account<TokenAccount>,
    pub lp_mint: Account<Mint>,
    pub user_token_a: Account<TokenAccount>,
    pub user_token_b: Account<TokenAccount>,
    pub user_lp_account: Account<TokenAccount>,
    pub lp_owner: AccountInfo,
}

pub struct Swap {
    pub pool: Account<Pool>,
    pub token_a_vault: Account<TokenAccount>,
    pub token_b_vault: Account<TokenAccount>,
    pub user_token_a: Account<TokenAccount>,
    pub user_token_b: Account<TokenAccount>,
    pub user: AccountInfo,
}

/// Accounts of `swap_unchecked`: the pool is any account at all.
pub struct SwapUnchecked {
    pub pool: AccountInfo,
    pub token_a_vault: Account<TokenAccount>,
    pub token_b_vault: Account<TokenAccount>,
    pub user_token_a: Account<TokenAccount>,
    pub user_token_b: Account<TokenAccount>,
    pub user: AccountInfo,
}

pub struct GetPrice {
    pub pool: Account<Pool>,
}

/// What `initialize` returns: an empty pool recording the accounts and any fee
/// at all, wherever the pool account is; or the first failed check.
pub open spec fn initialize_result(ctx: Initialize, fee_bps: u64) -> Result<Pool, Error<AmmError>> {
    if !ctx.authority.is_signer {
        Err(Error::Anchor(ErrorCode::AccountNotSigner))
    } else if !is_unused(ctx.pool) {
        Err(in_use_error())
    } else {
        Ok(Pool {
            authority: ctx.authority.key,
            token_a_mint: ctx.token_a_mint.key,
            token_b_mint: ctx.token_b_mint.key,
            token_a_vault: ctx.token_a_vault.key,
            token_b_vault: ctx.token_b_vault.key,
            lp_mint: ctx.lp_mint.key,
            reserve_a: 0,
            reserve_b: 0,
            total_lp_supply: 0,
            fee_bps,
            last_update: 0,
            price_cumulative: 0,
        })
    }
}

/// Creates a pool for whoever calls first.
pub fn initialize(ctx: &Initialize, fee_bps: u64) -> (r: Result<Pool, Error<AmmError>>)
    ensures
        r == initialize_result(*ctx, fee_bps),
{
    check_signer(&ctx.authority)?;
    check_uninitialized(&ctx.pool)?;
    Ok(Pool {
        authority: ctx.authority.key,
        token_a_mint: ctx.token_a_mint.key,
        token_b_mint: ctx.token_b_mint.key,
        token_a_vault: ctx.token_a_vault.key,
        token_b_vault: ctx.token_b_vault.key,
        lp_mint: ctx.lp_mint.key,
        reserve_a: 0,
        reserve_b: 0,
        total_lp_supply: 0,
        fee_bps,
        last_update: 0,
        price_cumulative: 0,
    })
}

/// The LP tokens minted for a deposit: the square root of the 64-bit product for
/// the first one, else the smaller proportional share (cut to 64 bits).
pub open spec fn lp_tokens_for(pool: Pool, amount_a: u64, amount_b: u64) -> u64 {
    if pool.total_lp_supply == 0 {
        floor_sqrt(amount_a * amount_b) as u64
    } else {
        let lp_a = ((amount_a * pool.total_lp_supply) / pool.reserve_a as int) as u64;
        let lp_b = ((amount_b * pool.total_lp_supply) / pool.reserve_b as int) as u64;
        if lp_a <= lp_b { lp_a } else { lp_b }
    }
}

/// Whether `add_liquidity` runs without a panic: the first product must fit in
/// 64 bits (and stay below its maximum, for the square root), the reserves must
/// be non-empty for a later deposit, and nothing may overflow.
pub open spec fn add_liquidity_safe(pool: Pool, amount_a: u64, amount_b: u64) -> bool {
    &&& pool.total_lp_supply == 0 ==> amount_a * amount_b < u64::MAX
    &&& pool.total_lp_supply != 0 ==> pool.reserve_a > 0 && pool.reserve_b > 0
    &&& pool.reserve_a + amount_a <= u64::MAX
    &&& pool.reserve_b + amount_b <= u64::MAX
    &&& pool.total_lp_supply + lp_tokens_for(pool, amount_a, amount_b) <= u64::MAX
}

/// The token calls of a deposit: both amounts into the vaults and the LP tokens
/// minted by the pool.
pub open spec fn add_liquidity_calls(ctx: AddLiquidity, amount_a: u64, amount_b: u64, lp: u64) -> Seq<TokenInstruction> {
    seq![
        TokenInstruction::Transfer { from: ctx.user_token_a.key, to: ctx.token_a_vault.key,
            authority: ctx.user.key, amount: amount_a, signed_by_pool: false },
        TokenInstruction::Transfer { from: ctx.user_token_b.key, to: ctx.token_b_vault.key,
            authority: ctx.user.key, amount: amount_b, signed_by_pool: false },
        TokenInstruction::MintTo { mint: ctx.lp_mint.key, to: ctx.user_lp_account.key,
            authority: ctx.pool.key, amount: lp },
    ]
}

/// Adds a deposit to the reserves and mints LP tokens for it, with no lower limit.
pub fn add_liquidity(ctx: &mut AddLiquidity, amount_a: u64, amount_b: u64) -> (r: Result<Vec<TokenInstruction>, Error<AmmError>>)
    requires
        old(ctx).user.is_signer ==> add_liquidity_safe(old(ctx).pool.data, amount_a, amount_b),
    ensures
        !old(ctx).user.is_signer ==> (r == Err::<Vec<TokenInstruction>, Error<AmmError>>(Error::Anchor(ErrorCode::AccountNotSigner))
            && *final(ctx) == *old(ctx)),
        old(ctx).user.is_signer && !pool_at_address(old(ctx).pool) ==> (r == Err::<Vec<TokenInstruction>, Error<AmmError>>(
            Error::Anchor(ErrorCode::ConstraintSeeds)) && *final(ctx) == *old(ctx)),
        old(ctx).user.is_signer && pool_at_address(old(ctx).pool) ==> {
            let p = old(ctx).pool.data;
            let lp = lp_tokens_for(p, amount_a, amount_b);
            &&& final(ctx).pool.key == old(ctx).pool.key
            &&& final(ctx).pool.data == Pool {
                reserve_a: (p.reserve_a + amount_a) as u64,
                reserve_b: (p.reserve_b + amount_b) as u64,
                total_lp_supply: (p.total_lp_supply + lp) as u64,
                ..p
            }
            &&& r matches Ok(calls)
            &&& calls@ == add_liquidity_calls(*old(ctx), amount_a, amount_b, lp)
        },
{
    check_signer(&ctx.user)?;
    check_seeds(&ctx.pool.key, &pool_seed_list(&ctx.pool.data.token_a_mint, &ctx.pool.data.token_b_mint), &ID)?;
    let pool = &ctx.pool.data;
    let lp_tokens = if pool.total_lp_supply == 0 {
        let k = amount_a * amount_b;
        integer_sqrt(k)
    } else {
        proof {
            crate::challenges::amm_fixed::lemma_u64_product_fits(amount_a, pool.total_lp_supply);
            crate::challenges::amm_fixed::lemma_u64_product_fits(amount_b, pool.total_lp_supply);
        }
        let lp_a = (amount_a as u128 * pool.total_lp_supply as u128 / pool.reserve_a as u128) as u64;
        let lp_b = (amount_b as u128 * pool.total_lp_supply as u128 / pool.reserve_b as u128) as u64;
        if lp_a <= lp_b { lp_a } else { lp_b }
    };
    let mut calls: Vec<TokenInstruction> = Vec::new();
    calls.push(TokenInstruction::Transfer { from: ctx.user_token_a.key, to: ctx.token_a_vault.key,
        authority: ctx.user.key, amount: amount_a, signed_by_pool: false });
    calls.push(TokenInstruction::Transfer { from: ctx.user_token_b.key, to: ctx.token_b_vault.key,
        authority: ctx.user.key, amount: amount_b, signed_by_pool: false });
    calls.push(TokenInstruction::MintTo { mint: ctx.lp_mint.key, to: ctx.user_lp_account.key,
        authority: ctx.pool.key, amount: lp_tokens });
    ctx.pool.data.reserve_a = ctx.pool.data.reserve_a + amount_a;
    ctx.pool.data.reserve_b = ctx.pool.data.reserve_b + amount_b;
    ctx.pool.data.total_lp_supply = ctx.pool.data.total_lp_supply + lp_tokens;
    Ok(calls)
}

/// The amounts paid out for burning `lp_amount`: the LP share of each reserve,
/// rounded down and cut to 64 bits.
pub open spec fn removal_amounts(pool: Pool, lp_amount: u64) -> (u64, u64) {
    (
        ((lp_amount * pool.reserve_a) / pool.total_lp_supply as int) as u64,
        ((lp_amount * pool.reserve_b) / pool.total_lp_supply as int) as u64,
    )
}

/// Whether `remove_liquidity` runs without a panic: a non-empty supply, and no
/// subtraction below zero.
pub open spec fn remove_liquidity_safe(pool: Pool, lp_amount: u64) -> bool {
    &&& pool.total_lp_supply > 0
    &&& removal_amounts(pool, lp_amount).0 <= pool.reserve_a
    &&& removal_amounts(pool, lp_amount).1 <= pool.reserve_b
    &&& lp_amount <= pool.total_lp_supply
}

/// The token calls of a withdrawal: the LP tokens burnt in the owner's name and
/// both amounts paid from the vaults by the pool.
pub open spec fn remove_liquidity_calls(ctx: RemoveLiquidity, lp_amount: u64, amount_a: u64, amount_b: u64) -> Seq<TokenInstruction> {
    seq![
        TokenInstruction::Burn { mint: ctx.lp_mint.key, from: ctx.user_lp_account.key,
            authority: ctx.lp_owner.key, amount: lp_amount },
        TokenInstruction::Transfer { from: ctx.token_a_vault.key, to: ctx.user_token_a.key,
            authority: ctx.pool.key, amount: amount_a, signed_by_pool: true },
        TokenInstruction::Transfer { from: ctx.token_b_vault.key, to: ctx.user_token_b.key,
            authority: ctx.pool.key, amount: amount_b, signed_by_pool: true },
    ]
}

/// Burns `lp_amount` LP tokens named by any owner, signed or not, and pays out
/// their share of both reserves, with no lower limit.
pub fn remove_liquidity(ctx: &mut RemoveLiquidity, lp_amount: u64) -> (r: Result<Vec<TokenInstruction>, Error<AmmError>>)
    requires
        remove_liquidity_safe(old(ctx).pool.data, lp_amount),
    ensures
        !pool_at_address(old(ctx).pool) ==> (r == Err::<Vec<TokenInstruction>, Error<AmmError>>(
            Error::Anchor(ErrorCode::ConstraintSeeds)) && *final(ctx) == *old(ctx)),
        pool_at_address(old(ctx).pool) ==> {
            let p = old(ctx).pool.data;
            let (amount_a, amount_b) = removal_amounts(p, lp_amount);
            &&& final(ctx).pool.key == old(ctx).pool.key
            &&& final(ctx).pool.data == Pool {
                reserve_a: (p.reserve_a - amount_a) as u64,
                reserve_b: (p.reserve_b - amount_b) as u64,
                total_lp_supply: (p.total_lp_supply - lp_amount) as u64,
                ..p
            }
            &&& r matches Ok(calls)
            &&& calls@ == remove_liquidity_calls(*old(ctx), lp_amount, amount_a, amount_b)
        },
{
    check_seeds(&ctx.pool.key, &pool_seed_list(&ctx.pool.data.token_a_mint, &ctx.pool.data.token_b_mint), &ID)?;
    let pool = &ctx.pool.data;
    proof {
        crate::challenges::amm_fixed::lemma_u64_product_fits(lp_amount, pool.reserve_a);
        crate::challenges::amm_fixed::lemma_u64_product_fits(lp_amount, pool.reserve_b);
    }
    let amount_a = (lp_amount as u128 * pool.reserve_a as u128 / pool.total_lp_supply as u128) as u64;
    let amount_b = (lp_amount as u128 * pool.reserve_b as u128 / pool.total_lp_supply as u128) as u64;
    let mut calls: Vec<TokenInstruction> = Vec::new();
    calls.push(TokenInstruction::Burn { mint: ctx.lp_mint.key, from: ctx.user_lp_account.key,
        authority: ctx.lp_owner.key, amount: lp_amount });
    calls.push(TokenInstruction::Transfer { from: ctx.token_a_vault.key, to: ctx.user_token_a.key,
        authority: ctx.pool.key, amount: amount_a, signed_by_pool: true });
    calls.push(TokenInstruction::Transfer { from: ctx.token_b_vault.key, to: ctx.user_token_b.key,
        authority: ctx.pool.key, amount: amount_b, signed_by_pool: true });
    ctx.pool.data.reserve_a = ctx.pool.data.reserve_a - amount_a;
    ctx.pool.data.reserve_b = ctx.pool.data.reserve_b - amount_b;
    ctx.pool.data.total_lp_supply = ctx.pool.data.total_lp_supply - lp_amount;
    Ok(calls)
}

/// The quantities of a swap of `amount_in` on `pool`: the fee (rounded down),
/// the new input reserve, the new output reserve, and the amount paid out.
pub open spec fn swap_amounts(pool: Pool, amount_in: u64, is_a_to_b: bool) -> (int, int, int, int) {
    let reserve_in = if is_a_to_b { pool.reserve_a } else { pool.reserve_b };
    let reserve_out = if is_a_to_b { pool.reserve_b } else { pool.reserve_a };
    let fee = (amount_in * pool.fee_bps) / 10000;
    let new_in = reserve_in + (amount_in - fee);
    let new_out = (reserve_in * reserve_out) / new_in;
    (fee, new_in, new_out, reserve_out - new_out)
}

/// Whether `swap` runs without a panic: every 64-bit product and sum fits, the fee
/// does not exceed the input, and the new input reserve is not zero.
pub open spec fn swap_safe(pool: Pool, amount_in: u64, is_a_to_b: bool) -> bool {
    let reserve_in = if is_a_to_b { pool.reserve_a } else { pool.reserve_b };
    let reserve_out = if is_a_to_b { pool.reserve_b } else { pool.reserve_a };
    let (fee, new_in, new_out, out) = swap_amounts(pool, amount_in, is_a_to_b);
    &&& amount_in * pool.fee_bps <= u64::MAX
    &&& fee <= amount_in
    &&& reserve_in * reserve_out <= u64::MAX
    &&& new_in <= u64::MAX
    &&& new_in > 0
}

/// The token calls of a swap: the input into its vault, signed by the user, and
/// the output to the user, signed by the pool.
pub open spec fn swap_calls(ctx: Swap, amount_in: u64, amount_out: u64, is_a_to_b: bool) -> Seq<TokenInstruction> {
    if is_a_to_b {
        seq![
            TokenInstruction::Transfer { from: ctx.user_token_a.key, to: ctx.token_a_vault.key,
                authority: ctx.user.key, amount: amount_in, signed_by_pool: false },
            TokenInstruction::Transfer { from: ctx.token_b_vault.key, to: ctx.user_token_b.key,
                authority: ctx.pool.key, amount: amount_out, signed_by_pool: true },
        ]
    } else {
        seq![
            TokenInstruction::Transfer { from: ctx.user_token_b.key, to: ctx.token_b_vault.key,
                authority: ctx.user.key, amount: amount_in, signed_by_pool: false },
            TokenInstruction::Transfer { from: ctx.token_a_vault.key, to: ctx.user_token_a.key,
                authority: ctx.pool.key, amount: amount_out, signed_by_pool: true },
        ]
    }
}

/// Swaps `amount_in` at the constant-product rate after a fee rounded down,
/// with no lower limit on the output.
pub fn swap(ctx: &mut Swap, amount_in: u64, is_a_to_b: bool) -> (r: Result<Vec<TokenInstruction>, Error<AmmError>>)
    requires
        old(ctx).user.is_signer ==> swap_safe(old(ctx).pool.data, amount_in, is_a_to_b),
    ensures
        !old(ctx).user.is_signer ==> (r == Err::<Vec<TokenInstruction>, Error<AmmError>>(Error::Anchor(ErrorCode::AccountNotSigner))
            && *final(ctx) == *old(ctx)),
        old(ctx).user.is_signer && !pool_at_address(old(ctx).pool) ==> (r == Err::<Vec<TokenInstruction>, Error<AmmError>>(
            Error::Anchor(ErrorCode::ConstraintSeeds)) && *final(ctx) == *old(ctx)),
        old(ctx).user.is_signer && pool_at_address(old(ctx).pool) ==> {
            let p = old(ctx).pool.data;
            let (fee, new_in, new_out, out) = swap_amounts(p, amount_in, is_a_to_b);
            &&& final(ctx).pool.key == old(ctx).pool.key
            &&& final(ctx).pool.data == if is_a_to_b {
                Pool { reserve_a: new_in as u64, reserve_b: new_out as u64, ..p }
            } else {
                Pool { reserve_b: new_in as u64, reserve_a: new_out as u64, ..p }
            }
            &&& r matches Ok(calls)
            &&& calls@ == swap_calls(*old(ctx), amount_in, out as u64, is_a_to_b)
        },
{
    check_signer(&ctx.user)?;
    check_seeds(&ctx.pool.key, &pool_seed_list(&ctx.pool.data.token_a_mint, &ctx.pool.data.token_b_mint), &ID)?;
    let pool = &ctx.pool.data;
    let (reserve_in, reserve_out) = if is_a_to_b {
        (pool.reserve_a, pool.reserve_b)
    } else {
        (pool.reserve_b, pool.reserve_a)
    };
    let fee = amount_in * pool.fee_bps / 10000;
    let amount_in_after_fee = amount_in - fee;
    let k = reserve_in * reserve_out;
    let new_reserve_in = reserve_in + amount_in_after_fee;
    let new_reserve_out = k / new_reserve_in;
    proof {
        if reserve_in > 0 {
            crate::challenges::amm_fixed::lemma_new_reserve_out_bound(reserve_in as int, reserve_out as int, new_reserve_in as int);
        } else {
            assert(k == 0) by (nonlinear_arith)
                requires
                    reserve_in == 0,
                    k == reserve_in * reserve_out,
            ;
            assert(0int / (new_reserve_in as int) == 0) by (nonlinear_arith)
                requires
                    new_reserve_in > 0,
            ;
        }
    }
    let amount_out = reserve_out - new_reserve_out;
    let mut calls: Vec<TokenInstruction> = Vec::new();
    if is_a_to_b {
        calls.push(TokenInstruction::Transfer { from: ctx.user_token_a.key, to: ctx.token_a_vault.key,
            authority: ctx.user.key, amount: amount_in, signed_by_pool: false });
        calls.push(TokenInstruction::Transfer { from: ctx.token_b_vault.key, to: ctx.user_token_b.key,
            authority: ctx.pool.key, amount: amount_out, signed_by_pool: true });
        ctx.pool.data.reserve_a = new_reserve_in;
        ctx.pool.data.reserve_b = new_reserve_out;
    } else {
        calls.push(TokenInstruction::Transfer { from: ctx.user_token_b.key, to: ctx.token_b_vault.key,
            authority: ctx.user.key, amount: amount_in, signed_by_pool: false });
        calls.push(TokenInstruction::Transfer { from: ctx.token_a_vault.key, to: ctx.user_token_a.key,
            authority: ctx.pool.key, amount: amount_out, signed_by_pool: true });
        ctx.pool.data.reserve_b = new_reserve_in;
        ctx.pool.data.reserve_a = new_reserve_out;
    }
    Ok(calls)
}

/// The reserves `swap_unchecked` reads from raw pool bytes: little-endian `u64`s at
/// 73..81 and 81..89 (where no reserve of a real pool lies).
pub open spec fn raw_reserves(data: Seq<u8>) -> (u64, u64) {
    (le_u64_at(data, 73), le_u64_at(data, 81))
}

/// The output `swap_unchecked` quotes: `reserve_out * amount_in / (reserve_in + amount_in)`.
pub open spec fn unchecked_quote(data: Seq<u8>, amount_in: u64, is_a_to_b: bool) -> int {
    let (ra, rb) = raw_reserves(data);
    let (reserve_in, reserve_out) = if is_a_to_b { (ra, rb) } else { (rb, ra) };
    (reserve_out * amount_in) / (reserve_in + amount_in)
}

/// Quotes a swap from whatever bytes the given "pool" account holds, owned by any
/// program; the quote is returned (and only logged, never settled).
pub fn swap_unchecked(ctx: &SwapUnchecked, amount_in: u64, is_a_to_b: bool) -> (r: Result<u64, Error<AmmError>>)
    requires
        ctx.user.is_signer ==> {
            let (ra, rb) = raw_reserves(ctx.pool.data@);
            let (reserve_in, reserve_out) = if is_a_to_b { (ra, rb) } else { (rb, ra) };
            &&& ctx.pool.data@.len() >= 89
            &&& reserve_out * amount_in <= u64::MAX
            &&& 0 < reserve_in + amount_in <= u64::MAX
        },
    ensures
        !ctx.user.is_signer ==> r == Err::<u64, Error<AmmError>>(Error::Anchor(ErrorCode::AccountNotSigner)),
        ctx.user.is_signer ==> r == Ok::<u64, Error<AmmError>>(unchecked_quote(ctx.pool.data@, amount_in, is_a_to_b) as u64),
{
    check_signer(&ctx.user)?;
    let reserve_a = read_u64_le(&ctx.pool.data, 73);
    let reserve_b = read_u64_le(&ctx.pool.data, 81);
    let (reserve_in, reserve_out) = if is_a_to_b {
        (reserve_a, reserve_b)
    } else {
        (reserve_b, reserve_a)
    };
    let amount_out = reserve_out * amount_in / (reserve_in + amount_in);
    Ok(amount_out)
}

/// The spot price of token A in token B with six decimals, zero for an empty
/// reserve: the current ratio, which a single large trade can move.
pub open spec fn spot_price(pool: Pool) -> int {
    if pool.reserve_a > 0 { (pool.reserve_b * 1_000_000) / pool.reserve_a as int } else { 0 }
}

pub fn get_price(ctx: &GetPrice) -> (r: Result<u64, Error<AmmError>>)
    requires
        ctx.pool.data.reserve_b * 1_000_000 <= u64::MAX,
    ensures
        r == Ok::<u64, Error<AmmError>>(spot_price(ctx.pool.data) as u64),
{
    let pool = &ctx.pool.data;
    let price = if pool.reserve_a > 0 {
        pool.reserve_b * 1_000_000 / pool.reserve_a
    } else {
        0
    };
    Ok(price)
}

} // verus!

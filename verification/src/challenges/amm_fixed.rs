//! A constant-product market maker (`x * y = k`) with slippage limits, 128-bit
//! products, rounded-up fees, a time-weighted price and derived pool addresses.
use crate::bytes::keys_eq;
use crate::bytes::{bytes_at, le_u64_at, read_key, read_u64_le};
use crate::framework::{
    account_load_error, check_account, check_seeds, check_seeds_with_bump, check_signer, check_uninitialized, in_use_error,
    is_created_address, is_pda, is_unused, pda_bump, Account, Error, ErrorCode, Mint,
    TokenAccount, TokenInstruction,
};
use crate::math::{
    floor_sqrt, is_floor_sqrt, lemma_floor_sqrt_exists, lemma_floor_sqrt_is, lemma_newton_fixpoint,
    lemma_newton_step_stays_above, lemma_quotient_bound, lemma_sqrt_u128_fits,
};
use crate::runtime::{AccountInfo, Pubkey};
use vstd::prelude::*;

verus! {

/// The program's address, `AmmF1xed111111111111111111111111111111111111`.
pub const ID: Pubkey = [
    145, 48, 195, 28, 0, 147, 102, 37, 193, 87, 12, 59, 192, 37, 89, 253, 128, 72, 31, 208, 98,
    241, 162, 80, 215, 39, 252, 32, 0, 0, 0, 0,
];

/// The default fee, 0.3% in basis points.
pub const FEE_BPS: u64 = 30;

/// Prices are scaled by this factor (six decimals).
pub const PRECISION: u64 = 1_000_000;

/// The bytes of `"pool"`.
pub const POOL_SEED: [u8; 4] = [112, 111, 111, 108];

/// A pool of two tokens, its LP token, reserves, fee and price accumulators.
#[derive(Clone, Copy, Debug, PartialEq, Eq)]
pub struct Pool {
    pub authority: Pubkey,
    pub token_a_mint: Pubkey,
    pub token_b_mint: Pubkey,
    pub token_a_vault: Pubkey,
    pub token_b_vault: Pubkey,
    pub lp_mint: Pubkey,
    pub reserve_a: u64,
    pub reserve_b: u64,
    pub total_lp_supply: u64,
    pub fee_bps: u64,
    pub bump: u8,
    pub last_update: i64,
    pub price_cumulative_a: u128,
    pub price_cumulative_b: u128,
}

#[derive(Clone, Copy, Debug, PartialEq, Eq)]
pub enum AmmError {
    SlippageExceeded,
    InsufficientLiquidity,
    Overflow,
    InvalidPool,
    Unauthorized,
    InvalidFee,
}

/// The first eight bytes of a `Pool` account: the start of SHA-256 of `"account:Pool"`.
pub const POOL_DISCRIMINATOR: [u8; 8] = [241, 154, 109, 4, 17, 177, 109, 188];

/// The bytes a pool's fields take after the discriminator.
pub const POOL_SIZE: usize = 265;

/// The `u128` whose little-endian encoding starts at `o` in `s`.
pub open spec fn le_u128_at(s: Seq<u8>, o: int) -> int {
    le_u64_at(s, o) + le_u64_at(s, o + 8) * 0x1_0000_0000_0000_0000
}

/// Whether `p` is the pool whose fields follow the discriminator in `d`, in
/// declaration order, integers little-endian.
pub open spec fn pool_decodes_to(d: Seq<u8>, p: Pool) -> bool {
    &&& p.authority@ == bytes_at(d, 8, 32)
    &&& p.token_a_mint@ == bytes_at(d, 40, 32)
    &&& p.token_b_mint@ == bytes_at(d, 72, 32)
    &&& p.token_a_vault@ == bytes_at(d, 104, 32)
    &&& p.token_b_vault@ == bytes_at(d, 136, 32)
    &&& p.lp_mint@ == bytes_at(d, 168, 32)
    &&& p.reserve_a == le_u64_at(d, 200)
    &&& p.reserve_b == le_u64_at(d, 208)
    &&& p.total_lp_supply == le_u64_at(d, 216)
    &&& p.fee_bps == le_u64_at(d, 224)
    &&& p.bump == d[232]
    &&& p.last_update == le_u64_at(d, 233) as i64
    &&& p.price_cumulative_a == le_u128_at(d, 241)
    &&& p.price_cumulative_b == le_u128_at(d, 257)
}

fn read_u128_le(data: &[u8], o: usize) -> (v: u128)
    requires
        o + 16 <= data@.len(),
    ensures
        v == le_u128_at(data@, o as int),
{
    assert(o + 8 < data.len());
    let lo = read_u64_le(data, o);
    let hi = read_u64_le(data, o + 8);
    assert(lo + hi * 0x1_0000_0000_0000_0000 <= u128::MAX) by (nonlinear_arith)
        requires lo <= u64::MAX, hi <= u64::MAX;
    lo as u128 + hi as u128 * 0x1_0000_0000_0000_0000u128
}

/// Loads a typed pool account the way `Account<Pool>` does: the account must
/// exist, belong to this program, start with the pool discriminator and hold the
/// pool's fields; then those fields are read from its bytes. Another program's
/// account, or an account of another type, never loads as a pool.
pub fn load_pool(account: &AccountInfo) -> (r: Result<Account<Pool>, Error<AmmError>>)
    ensures
        match account_load_error(*account, ID@, POOL_DISCRIMINATOR@, POOL_SIZE as int) {
            Some(e) => r == Err::<Account<Pool>, Error<AmmError>>(Error::Anchor(e)),
            None => r matches Ok(a) && a.key == account.key && a.lamports == account.lamports
                && pool_decodes_to(account.data@, a.data),
        },
{
    check_account(account, &ID, &POOL_DISCRIMINATOR, POOL_SIZE)?;
    let d = account.data.as_slice();
    Ok(Account {
        key: account.key,
        lamports: account.lamports,
        data: Pool {
            authority: read_key(d, 8),
            token_a_mint: read_key(d, 40),
            token_b_mint: read_key(d, 72),
            token_a_vault: read_key(d, 104),
            token_b_vault: read_key(d, 136),
            lp_mint: read_key(d, 168),
            reserve_a: read_u64_le(d, 200),
            reserve_b: read_u64_le(d, 208),
            total_lp_supply: read_u64_le(d, 216),
            fee_bps: read_u64_le(d, 224),
            bump: d[232],
            last_update: read_u64_le(d, 233) as i64,
            price_cumulative_a: read_u128_le(d, 241),
            price_cumulative_b: read_u128_le(d, 257),
        },
    })
}

/// The seeds of a pool's address: `"pool"` and the two mints.
pub open spec fn pool_seeds(mint_a: Seq<u8>, mint_b: Seq<u8>) -> Seq<Seq<u8>> {
    seq![POOL_SEED@, mint_a, mint_b]
}

/// Whether a pool account sits at the address created from its mints and stored bump.
pub open spec fn pool_at_address(pool: Account<Pool>) -> bool {
    is_created_address(pool.key@, pool_seeds(pool.data.token_a_mint@, pool.data.token_b_mint@), pool.data.bump, ID@)
}

fn pool_seed_list(mint_a: &Pubkey, mint_b: &Pubkey) -> (s: Vec<Vec<u8>>)
    ensures
        crate::outside::seeds_view(s@) == pool_seeds(mint_a@, mint_b@),
{
    let mut s: Vec<Vec<u8>> = Vec::new();
    s.push(crate::framework::seed(&POOL_SEED));
    s.push(crate::framework::seed(mint_a));
    s.push(crate::framework::seed(mint_b));
    assert(crate::outside::seeds_view(s@) =~= pool_seeds(mint_a@, mint_b@));
    s
}

/// The price of one unit of the first reserve in the second, scaled by `PRECISION`.
pub open spec fn scaled_price(num: u64, den: u64) -> int {
    (num as int * PRECISION as int) / den as int
}

/// Whether the accumulators can be brought up to `now` without an arithmetic panic.
pub open spec fn twap_safe(pool: Pool, now: i64) -> bool {
    let elapsed = now - pool.last_update;
    &&& i64::MIN <= elapsed <= i64::MAX
    &&& elapsed > 0 && pool.reserve_a > 0 && pool.reserve_b > 0 ==> {
        &&& scaled_price(pool.reserve_b, pool.reserve_a) * elapsed <= u128::MAX
        &&& scaled_price(pool.reserve_a, pool.reserve_b) * elapsed <= u128::MAX
    }
}

/// The pool after its price accumulators are brought up to `now`: when time has
/// passed and both reserves are non-empty, each accumulator grows by its spot
/// price times the elapsed seconds (kept as it was if that would overflow);
/// the update time becomes `now` in any case.
pub open spec fn twap_updated(pool: Pool, now: i64) -> Pool {
    let elapsed = now - pool.last_update;
    if elapsed > 0 && pool.reserve_a > 0 && pool.reserve_b > 0 {
        let grow_a = pool.price_cumulative_a + scaled_price(pool.reserve_b, pool.reserve_a) * elapsed;
        let grow_b = pool.price_cumulative_b + scaled_price(pool.reserve_a, pool.reserve_b) * elapsed;
        Pool {
            price_cumulative_a: if grow_a <= u128::MAX { grow_a as u128 } else { pool.price_cumulative_a },
            price_cumulative_b: if grow_b <= u128::MAX { grow_b as u128 } else { pool.price_cumulative_b },
            last_update: now,
            ..pool
        }
    } else {
        Pool { last_update: now, ..pool }
    }
}

/// Brings the price accumulators up to `now` (the current cluster time).
fn update_twap(pool: &mut Pool, now: i64)
    requires
        twap_safe(*old(pool), now),
    ensures
        *final(pool) == twap_updated(*old(pool), now),
{
    let time_elapsed = now - pool.last_update;
    if time_elapsed > 0 && pool.reserve_a > 0 && pool.reserve_b > 0 {
        let price_a = (pool.reserve_b as u128 * PRECISION as u128) / pool.reserve_a as u128;
        let price_b = (pool.reserve_a as u128 * PRECISION as u128) / pool.reserve_b as u128;
        pool.price_cumulative_a = match pool.price_cumulative_a.checked_add(price_a * time_elapsed as u128) {
            Some(c) => c,
            None => pool.price_cumulative_a,
        };
        pool.price_cumulative_b = match pool.price_cumulative_b.checked_add(price_b * time_elapsed as u128) {
            Some(c) => c,
            None => pool.price_cumulative_b,
        };
    }
    pool.last_update = now;
}

/// The product of two `u64` values fits in a `u128`.
pub proof fn lemma_u64_product_fits(a: u64, b: u64)
    ensures
        0 <= a * b <= u128::MAX,
{
    assert(0 <= a * b <= u64::MAX * u64::MAX) by (nonlinear_arith)
        requires
            0 <= a <= u64::MAX,
            0 <= b <= u64::MAX,
    ;
}

/// The integer square root of `n`, by Newton's method.
pub fn integer_sqrt_u128(n: u128) -> (r: u64)
    ensures
        is_floor_sqrt(n as int, r as int),
        r == floor_sqrt(n as int),
{
    if n == 0 {
        proof {
            lemma_floor_sqrt_is(0, 0);
        }
        return 0;
    }
    let mut x = n;
    let mut y = x / 2 + x % 2;
    proof {
        assert(y == (x + n / x) / 2) by (nonlinear_arith)
            requires
                x == n,
                n > 0,
                y == x / 2 + x % 2,
        ;
        lemma_newton_step_stays_above(n as int, x as int);
        assert((x + 1) * (x + 1) > n) by (nonlinear_arith)
            requires
                x == n,
                n > 0,
        ;
    }
    while y < x
        invariant
            0 < n,
            0 < x <= n,
            (x + 1) * (x + 1) > n,
            y == (x + n / x) / 2,
            (y + 1) * (y + 1) > n,
            y < x ==> y <= n / 2 + 1,
        decreases x,
    {
        assert(y > 0) by (nonlinear_arith)
            requires
                (y + 1) * (y + 1) > n,
                n > 0,
                y >= 0,
        ;
        x = y;
        proof {
            lemma_quotient_bound(n as int, x as int);
            if x >= 2 {
                assert(n / x <= n / 2) by (nonlinear_arith)
                    requires
                        x >= 2,
                        n > 0,
                ;
            }
        }
        y = (x + n / x) / 2;
        proof {
            lemma_newton_step_stays_above(n as int, x as int);
        }
    }
    proof {
        lemma_newton_fixpoint(n as int, x as int);
        lemma_sqrt_u128_fits(n as int, x as int);
        lemma_floor_sqrt_is(n as int, x as int);
    }
    if x < u64::MAX as u128 {
        x as u64
    } else {
        u64::MAX
    }
}

/// Accounts of `initialize`: the pool to create at its derived address, the two
/// mints, the pool's vaults for them, the LP mint, and the paying authority.
pub struct Initialize {
    pub pool: AccountInfo,
    pub token_a_mint: Account<Mint>,
    pub token_b_mint: Account<Mint>,
    pub token_a_vault: Account<TokenAccount>,
    pub token_b_vault: Account<TokenAccount>,
    pub lp_mint: Account<Mint>,
    pub authority: AccountInfo,
}

pub struct AddLiquidity {
    pub pool: Account<Pool>,
    pub token_a_vault: Account<TokenAccount>,
    pub token_b_vault: Account<TokenAccount>,
    pub lp_mint: Account<Mint>,
    pub user_token_a: Account<TokenAccount>,
    pub user_token_b: Account<TokenAccount>,
    pub user_lp_account: Account<TokenAccount>,
    pub user: AccountInfo,
}

pub struct RemoveLiquidity {
    pub pool: Account<Pool>,
    pub token_a_vault: Account<TokenAccount>,
    pub token_b_vault: Account<TokenAccount>,
    pub lp_mint: Account<Mint>,
    pub user_token_a: Account<TokenAccount>,
    pub user_token_b: Account<TokenAccount>,
    pub user_lp_account: Account<TokenAccount>,
    pub lp_owner: AccountInfo,
}

pub struct Swap {
    pub pool: Account<Pool>,
    pub token_a_vault: Account<TokenAccount>,
    pub token_b_vault: Account<TokenAccount>,
    pub user_token_a: Account<TokenAccount>,
    pub user_token_b: Account<TokenAccount>,
    pub user: AccountInfo,
}

pub struct GetPrice {
    pub pool: Account<Pool>,
}

pub open spec fn invalid_pool() -> Error<AmmError> {
    Error::Program(AmmError::InvalidPool)
}

/// The first account check of `initialize` that fails, if any.
pub open spec fn initialize_account_error(ctx: Initialize) -> Option<Error<AmmError>> {
    if !ctx.authority.is_signer {
        Some(Error::Anchor(ErrorCode::AccountNotSigner))
    } else if !is_pda(ctx.pool.key@, pool_seeds(ctx.token_a_mint.key@, ctx.token_b_mint.key@), ID@) {
        Some(Error::Anchor(ErrorCode::ConstraintSeeds))
    } else if !is_unused(ctx.pool) {
        Some(in_use_error())
    } else if ctx.token_a_vault.data.mint@ != ctx.token_a_mint.key@ || ctx.token_a_vault.data.owner@ != ctx.pool.key@
        || ctx.token_b_vault.data.mint@ != ctx.token_b_mint.key@ || ctx.token_b_vault.data.owner@ != ctx.pool.key@
        || ctx.lp_mint.data.mint_authority.unwrap()@ != ctx.pool.key@ {
        Some(invalid_pool())
    } else {
        None
    }
}

/// What `initialize` returns: the empty pool recording the accounts, the fee, the
/// bump of its address and the current time; or the first failed check, and
/// `InvalidFee` for a fee above 100%.
pub open spec fn initialize_result(ctx: Initialize, fee_bps: u64, now: i64) -> Result<Pool, Error<AmmError>> {
    match initialize_account_error(ctx) {
        Some(e) => Err(e),
        None => if fee_bps > 10000 {
            Err(Error::Program(AmmError::InvalidFee))
        } else {
            Ok(Pool {
                authority: ctx.authority.key,
                token_a_mint: ctx.token_a_mint.key,
                token_b_mint: ctx.token_b_mint.key,
                token_a_vault: ctx.token_a_vault.key,
                token_b_vault: ctx.token_b_vault.key,
                lp_mint: ctx.lp_mint.key,
                reserve_a: 0,
                reserve_b: 0,
                total_lp_supply: 0,
                fee_bps,
                bump: pda_bump(pool_seeds(ctx.token_a_mint.key@, ctx.token_b_mint.key@), ID@),
                last_update: now,
                price_cumulative_a: 0,
                price_cumulative_b: 0,
            })
        },
    }
}

/// Creates the pool; `now` is the cluster's current time.
pub fn initialize(ctx: &Initialize, fee_bps: u64, now: i64) -> (r: Result<Pool, Error<AmmError>>)
    requires
        ctx.authority.is_signer ==> ctx.lp_mint.data.mint_authority is Some,
    ensures
        r == initialize_result(*ctx, fee_bps, now),
{
    check_signer(&ctx.authority)?;
    let bump = check_seeds(&ctx.pool.key, &pool_seed_list(&ctx.token_a_mint.key, &ctx.token_b_mint.key), &ID)?;
    check_uninitialized(&ctx.pool)?;
    if !keys_eq(&ctx.token_a_vault.data.mint, &ctx.token_a_mint.key) || !keys_eq(&ctx.token_a_vault.data.owner, &ctx.pool.key)
        || !keys_eq(&ctx.token_b_vault.data.mint, &ctx.token_b_mint.key) || !keys_eq(&ctx.token_b_vault.data.owner, &ctx.pool.key) {
        return Err(Error::Program(AmmError::InvalidPool));
    }
    let lp_authority = match ctx.lp_mint.data.mint_authority {
        Some(a) => a,
        None => { return Err(Error::Program(AmmError::InvalidPool)); },
    };
    if !keys_eq(&lp_authority, &ctx.pool.key) {
        return Err(Error::Program(AmmError::InvalidPool));
    }
    if fee_bps > 10000 {
        return Err(Error::Program(AmmError::InvalidFee));
    }
    Ok(Pool {
        authority: ctx.authority.key,
        token_a_mint: ctx.token_a_mint.key,
        token_b_mint: ctx.token_b_mint.key,
        token_a_vault: ctx.token_a_vault.key,
        token_b_vault: ctx.token_b_vault.key,
        lp_mint: ctx.lp_mint.key,
        reserve_a: 0,
        reserve_b: 0,
        total_lp_supply: 0,
        fee_bps,
        bump,
        last_update: now,
        price_cumulative_a: 0,
        price_cumulative_b: 0,
    })
}

/// The first account check of `add_liquidity` that fails, if any.
pub open spec fn add_liquidity_account_error(ctx: AddLiquidity) -> Option<Error<AmmError>> {
    let pool = ctx.pool.data;
    if !ctx.user.is_signer {
        Some(Error::Anchor(ErrorCode::AccountNotSigner))
    } else if !pool_at_address(ctx.pool) {
        Some(Error::Anchor(ErrorCode::ConstraintSeeds))
    } else if ctx.token_a_vault.key@ != pool.token_a_vault@ || ctx.token_b_vault.key@ != pool.token_b_vault@
        || ctx.lp_mint.key@ != pool.lp_mint@ || ctx.user_token_a.data.mint@ != pool.token_a_mint@
        || ctx.user_token_b.data.mint@ != pool.token_b_mint@ || ctx.user_lp_account.data.mint@ != pool.lp_mint@ {
        Some(invalid_pool())
    } else {
        None
    }
}

fn validate_add_liquidity(ctx: &AddLiquidity) -> (r: Result<(), Error<AmmError>>)
    ensures
        match add_liquidity_account_error(*ctx) {
            Some(e) => r == Err::<(), Error<AmmError>>(e),
            None => r is Ok,
        },
{
    check_signer(&ctx.user)?;
    let pool = &ctx.pool.data;
    check_seeds_with_bump(&ctx.pool.key, pool_seed_list(&pool.token_a_mint, &pool.token_b_mint), pool.bump, &ID)?;
    if !keys_eq(&ctx.token_a_vault.key, &pool.token_a_vault) || !keys_eq(&ctx.token_b_vault.key, &pool.token_b_vault)
        || !keys_eq(&ctx.lp_mint.key, &pool.lp_mint) || !keys_eq(&ctx.user_token_a.data.mint, &pool.token_a_mint)
        || !keys_eq(&ctx.user_token_b.data.mint, &pool.token_b_mint) || !keys_eq(&ctx.user_lp_account.data.mint, &pool.lp_mint) {
        return Err(Error::Program(AmmError::InvalidPool));
    }
    Ok(())
}

/// The LP tokens minted for depositing `amount_a` and `amount_b`: the square root
/// of their product for the first deposit; otherwise the smaller of the two
/// proportional shares of the supply, rounded down. `None` when a reserve is
/// empty or that share does not fit in 64 bits.
pub open spec fn lp_tokens_for(pool: Pool, amount_a: u64, amount_b: u64) -> Option<u64> {
    if pool.total_lp_supply == 0 {
        Some(floor_sqrt(amount_a * amount_b) as u64)
    } else if pool.reserve_a == 0 || pool.reserve_b == 0 {
        None
    } else {
        let lp_a = (amount_a * pool.total_lp_supply) / pool.reserve_a as int;
        let lp_b = (amount_b * pool.total_lp_supply) / pool.reserve_b as int;
        let lp = if lp_a <= lp_b { lp_a } else { lp_b };
        if lp > u64::MAX { None } else { Some(lp as u64) }
    }
}

/// What `add_liquidity` does once the accounts pass, on the pool `p` with its
/// accumulators already brought up to date.
pub open spec fn add_liquidity_result(p: Pool, amount_a: u64, amount_b: u64, min_lp_tokens: u64) -> Result<(Pool, u64), AmmError> {
    match lp_tokens_for(p, amount_a, amount_b) {
        None => Err(AmmError::Overflow),
        Some(lp) => if lp < min_lp_tokens {
            Err(AmmError::SlippageExceeded)
        } else if p.reserve_a + amount_a > u64::MAX || p.reserve_b + amount_b > u64::MAX
            || p.total_lp_supply + lp > u64::MAX {
            Err(AmmError::Overflow)
        } else {
            Ok((Pool {
                reserve_a: (p.reserve_a + amount_a) as u64,
                reserve_b: (p.reserve_b + amount_b) as u64,
                total_lp_supply: (p.total_lp_supply + lp) as u64,
                ..p
            }, lp))
        },
    }
}

/// The token calls of a deposit: both amounts into the vaults, signed by the
/// user, and `lp` LP tokens minted to the user by the pool.
pub open spec fn add_liquidity_calls(ctx: AddLiquidity, amount_a: u64, amount_b: u64, lp: u64) -> Seq<TokenInstruction> {
    seq![
        TokenInstruction::Transfer { from: ctx.user_token_a.key, to: ctx.token_a_vault.key,
            authority: ctx.user.key, amount: amount_a, signed_by_pool: false },
        TokenInstruction::Transfer { from: ctx.user_token_b.key, to: ctx.token_b_vault.key,
            authority: ctx.user.key, amount: amount_b, signed_by_pool: false },
        TokenInstruction::MintTo { mint: ctx.lp_mint.key, to: ctx.user_lp_account.key,
            authority: ctx.pool.key, amount: lp },
    ]
}

/// Adds `amount_a` and `amount_b` to the reserves and mints LP tokens for them,
/// refusing fewer than `min_lp_tokens`; returns the token calls that move the
/// deposit into the vaults and mint the LP tokens. `now` is the cluster's time.
pub fn add_liquidity(ctx: &mut AddLiquidity, amount_a: u64, amount_b: u64, min_lp_tokens: u64, now: i64) -> (r: Result<Vec<TokenInstruction>, Error<AmmError>>)
    requires
        add_liquidity_account_error(*old(ctx)) is None ==> twap_safe(old(ctx).pool.data, now),
    ensures
        r is Err ==> *final(ctx) == *old(ctx),
        add_liquidity_account_error(*old(ctx)) matches Some(e) ==> r == Err::<Vec<TokenInstruction>, Error<AmmError>>(e),
        add_liquidity_account_error(*old(ctx)) is None ==> {
            let p = twap_updated(old(ctx).pool.data, now);
            match add_liquidity_result(p, amount_a, amount_b, min_lp_tokens) {
                Err(e) => r == Err::<Vec<TokenInstruction>, Error<AmmError>>(Error::Program(e)),
                Ok((np, lp)) => {
                    &&& *final(ctx) == (AddLiquidity { pool: (Account { data: np, ..old(ctx).pool }), ..*old(ctx) })
                    &&& r matches Ok(calls)
                    &&& calls@ == add_liquidity_calls(*old(ctx), amount_a, amount_b, lp)
                },
            }
        },
{
    validate_add_liquidity(ctx)?;
    let mut pool = ctx.pool.data;
    update_twap(&mut pool, now);
    proof {
        lemma_u64_product_fits(amount_a, amount_b);
        lemma_u64_product_fits(amount_a, pool.total_lp_supply);
        lemma_u64_product_fits(amount_b, pool.total_lp_supply);
    }
    let lp_tokens = if pool.total_lp_supply == 0 {
        let k: u128 = match (amount_a as u128).checked_mul(amount_b as u128) {
            Some(k) => k,
            None => { return Err(Error::Program(AmmError::Overflow)); },
        };
        integer_sqrt_u128(k)
    } else {
        let lp_a: u128 = match (amount_a as u128).checked_mul(pool.total_lp_supply as u128) {
            Some(m) => match m.checked_div(pool.reserve_a as u128) {
                Some(q) => q,
                None => { return Err(Error::Program(AmmError::Overflow)); },
            },
            None => { return Err(Error::Program(AmmError::Overflow)); },
        };
        let lp_b: u128 = match (amount_b as u128).checked_mul(pool.total_lp_supply as u128) {
            Some(m) => match m.checked_div(pool.reserve_b as u128) {
                Some(q) => q,
                None => { return Err(Error::Program(AmmError::Overflow)); },
            },
            None => { return Err(Error::Program(AmmError::Overflow)); },
        };
        let lp: u128 = if lp_a <= lp_b { lp_a } else { lp_b };
        if lp > u64::MAX as u128 {
            return Err(Error::Program(AmmError::Overflow));
        }
        lp as u64
    };
    if lp_tokens < min_lp_tokens {
        return Err(Error::Program(AmmError::SlippageExceeded));
    }
    let reserve_a = match pool.reserve_a.checked_add(amount_a) {
        Some(v) => v,
        None => { return Err(Error::Program(AmmError::Overflow)); },
    };
    let reserve_b = match pool.reserve_b.checked_add(amount_b) {
        Some(v) => v,
        None => { return Err(Error::Program(AmmError::Overflow)); },
    };
    let supply = match pool.total_lp_supply.checked_add(lp_tokens) {
        Some(v) => v,
        None => { return Err(Error::Program(AmmError::Overflow)); },
    };
    pool.reserve_a = reserve_a;
    pool.reserve_b = reserve_b;
    pool.total_lp_supply = supply;
    ctx.pool.data = pool;
    let mut calls: Vec<TokenInstruction> = Vec::new();
    calls.push(TokenInstruction::Transfer { from: ctx.user_token_a.key, to: ctx.token_a_vault.key,
        authority: ctx.user.key, amount: amount_a, signed_by_pool: false });
    calls.push(TokenInstruction::Transfer { from: ctx.user_token_b.key, to: ctx.token_b_vault.key,
        authority: ctx.user.key, amount: amount_b, signed_by_pool: false });
    calls.push(TokenInstruction::MintTo { mint: ctx.lp_mint.key, to: ctx.user_lp_account.key,
        authority: ctx.pool.key, amount: lp_tokens });
    Ok(calls)
}

/// The first account check of `remove_liquidity` that fails, if any.
pub open spec fn remove_liquidity_account_error(ctx: RemoveLiquidity) -> Option<Error<AmmError>> {
    let pool = ctx.pool.data;
    if !ctx.lp_owner.is_signer {
        Some(Error::Anchor(ErrorCode::AccountNotSigner))
    } else if !pool_at_address(ctx.pool) {
        Some(Error::Anchor(ErrorCode::ConstraintSeeds))
    } else if ctx.token_a_vault.key@ != pool.token_a_vault@ || ctx.token_b_vault.key@ != pool.token_b_vault@
        || ctx.lp_mint.key@ != pool.lp_mint@ || ctx.user_token_a.data.mint@ != pool.token_a_mint@
        || ctx.user_token_b.data.mint@ != pool.token_b_mint@ || ctx.user_lp_account.data.mint@ != pool.lp_mint@ {
        Some(invalid_pool())
    } else if ctx.user_lp_account.data.owner@ != ctx.lp_owner.key@ {
        Some(Error::Program(AmmError::Unauthorized))
    } else {
        None
    }
}

fn validate_remove_liquidity(ctx: &RemoveLiquidity) -> (r: Result<(), Error<AmmError>>)
    ensures
        match remove_liquidity_account_error(*ctx) {
            Some(e) => r == Err::<(), Error<AmmError>>(e),
            None => r is Ok,
        },
{
    check_signer(&ctx.lp_owner)?;
    let pool = &ctx.pool.data;
    check_seeds_with_bump(&ctx.pool.key, pool_seed_list(&pool.token_a_mint, &pool.token_b_mint), pool.bump, &ID)?;
    if !keys_eq(&ctx.token_a_vault.key, &pool.token_a_vault) || !keys_eq(&ctx.token_b_vault.key, &pool.token_b_vault)
        || !keys_eq(&ctx.lp_mint.key, &pool.lp_mint) || !keys_eq(&ctx.user_token_a.data.mint, &pool.token_a_mint)
        || !keys_eq(&ctx.user_token_b.data.mint, &pool.token_b_mint) || !keys_eq(&ctx.user_lp_account.data.mint, &pool.lp_mint) {
        return Err(Error::Program(AmmError::InvalidPool));
    }
    if !keys_eq(&ctx.user_lp_account.data.owner, &ctx.lp_owner.key) {
        return Err(Error::Program(AmmError::Unauthorized));
    }
    Ok(())
}

/// What `remove_liquidity` does once the accounts pass, on the pool `p` with its
/// accumulators brought up to date: the pool after, and the amounts paid out.
/// Each amount is the LP share of its reserve, rounded down (in 128 bits, cut to 64).
pub open spec fn remove_liquidity_result(p: Pool, lp_amount: u64, min_amount_a: u64, min_amount_b: u64) -> Result<(Pool, u64, u64), AmmError> {
    if p.total_lp_supply == 0 {
        Err(AmmError::Overflow)
    } else {
        let amount_a = ((lp_amount * p.reserve_a) / p.total_lp_supply as int) as u64;
        let amount_b = ((lp_amount * p.reserve_b) / p.total_lp_supply as int) as u64;
        if amount_a < min_amount_a || amount_b < min_amount_b {
            Err(AmmError::SlippageExceeded)
        } else if p.reserve_a < amount_a || p.reserve_b < amount_b || p.total_lp_supply < lp_amount {
            Err(AmmError::InsufficientLiquidity)
        } else {
            Ok((Pool {
                reserve_a: (p.reserve_a - amount_a) as u64,
                reserve_b: (p.reserve_b - amount_b) as u64,
                total_lp_supply: (p.total_lp_supply - lp_amount) as u64,
                ..p
            }, amount_a, amount_b))
        }
    }
}

/// The token calls of a withdrawal: the LP tokens burnt by their owner, and both
/// amounts paid from the vaults by the pool.
pub open spec fn remove_liquidity_calls(ctx: RemoveLiquidity, lp_amount: u64, amount_a: u64, amount_b: u64) -> Seq<TokenInstruction> {
    seq![
        TokenInstruction::Burn { mint: ctx.lp_mint.key, from: ctx.user_lp_account.key,
            authority: ctx.lp_owner.key, amount: lp_amount },
        TokenInstruction::Transfer { from: ctx.token_a_vault.key, to: ctx.user_token_a.key,
            authority: ctx.pool.key, amount: amount_a, signed_by_pool: true },
        TokenInstruction::Transfer { from: ctx.token_b_vault.key, to: ctx.user_token_b.key,
            authority: ctx.pool.key, amount: amount_b, signed_by_pool: true },
    ]
}

/// Burns `lp_amount` LP tokens of their signing owner and pays out their share of
/// both reserves, refusing less than `min_amount_a` or `min_amount_b`.
pub fn remove_liquidity(ctx: &mut RemoveLiquidity, lp_amount: u64, min_amount_a: u64, min_amount_b: u64, now: i64) -> (r: Result<Vec<TokenInstruction>, Error<AmmError>>)
    requires
        remove_liquidity_account_error(*old(ctx)) is None ==> twap_safe(old(ctx).pool.data, now),
    ensures
        r is Err ==> *final(ctx) == *old(ctx),
        remove_liquidity_account_error(*old(ctx)) matches Some(e) ==> r == Err::<Vec<TokenInstruction>, Error<AmmError>>(e),
        remove_liquidity_account_error(*old(ctx)) is None ==> {
            let p = twap_updated(old(ctx).pool.data, now);
            match remove_liquidity_result(p, lp_amount, min_amount_a, min_amount_b) {
                Err(e) => r == Err::<Vec<TokenInstruction>, Error<AmmError>>(Error::Program(e)),
                Ok((np, amount_a, amount_b)) => {
                    &&& *final(ctx) == (RemoveLiquidity { pool: (Account { data: np, ..old(ctx).pool }), ..*old(ctx) })
                    &&& r matches Ok(calls)
                    &&& calls@ == remove_liquidity_calls(*old(ctx), lp_amount, amount_a, amount_b)
                },
            }
        },
{
    validate_remove_liquidity(ctx)?;
    let mut pool = ctx.pool.data;
    update_twap(&mut pool, now);
    proof {
        lemma_u64_product_fits(lp_amount, pool.reserve_a);
        lemma_u64_product_fits(lp_amount, pool.reserve_b);
    }
    let amount_a = match (lp_amount as u128).checked_mul(pool.reserve_a as u128) {
        Some(m) => match m.checked_div(pool.total_lp_supply as u128) {
            Some(q) => q as u64,
            None => { return Err(Error::Program(AmmError::Overflow)); },
        },
        None => { return Err(Error::Program(AmmError::Overflow)); },
    };
    let amount_b = match (lp_amount as u128).checked_mul(pool.reserve_b as u128) {
        Some(m) => match m.checked_div(pool.total_lp_supply as u128) {
            Some(q) => q as u64,
            None => { return Err(Error::Program(AmmError::Overflow)); },
        },
        None => { return Err(Error::Program(AmmError::Overflow)); },
    };
    if amount_a < min_amount_a {
        return Err(Error::Program(AmmError::SlippageExceeded));
    }
    if amount_b < min_amount_b {
        return Err(Error::Program(AmmError::SlippageExceeded));
    }
    let reserve_a = match pool.reserve_a.checked_sub(amount_a) {
        Some(v) => v,
        None => { return Err(Error::Program(AmmError::InsufficientLiquidity)); },
    };
    let reserve_b = match pool.reserve_b.checked_sub(amount_b) {
        Some(v) => v,
        None => { return Err(Error::Program(AmmError::InsufficientLiquidity)); },
    };
    let supply = match pool.total_lp_supply.checked_sub(lp_amount) {
        Some(v) => v,
        None => { return Err(Error::Program(AmmError::InsufficientLiquidity)); },
    };
    pool.reserve_a = reserve_a;
    pool.reserve_b = reserve_b;
    pool.total_lp_supply = supply;
    ctx.pool.data = pool;
    let mut calls: Vec<TokenInstruction> = Vec::new();
    calls.push(TokenInstruction::Burn { mint: ctx.lp_mint.key, from: ctx.user_lp_account.key,
        authority: ctx.lp_owner.key, amount: lp_amount });
    calls.push(TokenInstruction::Transfer { from: ctx.token_a_vault.key, to: ctx.user_token_a.key,
        authority: ctx.pool.key, amount: amount_a, signed_by_pool: true });
    calls.push(TokenInstruction::Transfer { from: ctx.token_b_vault.key, to: ctx.user_token_b.key,
        authority: ctx.pool.key, amount: amount_b, signed_by_pool: true });
    Ok(calls)
}

/// The first account check of `swap` that fails, if any.
pub open spec fn swap_account_error(ctx: Swap) -> Option<Error<AmmError>> {
    let pool = ctx.pool.data;
    if !ctx.user.is_signer {
        Some(Error::Anchor(ErrorCode::AccountNotSigner))
    } else if !pool_at_address(ctx.pool) {
        Some(Error::Anchor(ErrorCode::ConstraintSeeds))
    } else if ctx.token_a_vault.key@ != pool.token_a_vault@ || ctx.token_b_vault.key@ != pool.token_b_vault@
        || ctx.user_token_a.data.mint@ != pool.token_a_mint@ || ctx.user_token_b.data.mint@ != pool.token_b_mint@ {
        Some(invalid_pool())
    } else {
        None
    }
}

fn validate_swap(ctx: &Swap) -> (r: Result<(), Error<AmmError>>)
    ensures
        match swap_account_error(*ctx) {
            Some(e) => r == Err::<(), Error<AmmError>>(e),
            None => r is Ok,
        },
{
    check_signer(&ctx.user)?;
    let pool = &ctx.pool.data;
    check_seeds_with_bump(&ctx.pool.key, pool_seed_list(&pool.token_a_mint, &pool.token_b_mint), pool.bump, &ID)?;
    if !keys_eq(&ctx.token_a_vault.key, &pool.token_a_vault) || !keys_eq(&ctx.token_b_vault.key, &pool.token_b_vault)
        || !keys_eq(&ctx.user_token_a.data.mint, &pool.token_a_mint) || !keys_eq(&ctx.user_token_b.data.mint, &pool.token_b_mint) {
        return Err(Error::Program(AmmError::InvalidPool));
    }
    Ok(())
}

/// The fee on `amount_in` at `fee_bps` basis points, rounded up.
pub open spec fn swap_fee(amount_in: u64, fee_bps: u64) -> int {
    (amount_in * fee_bps + 9999) / 10000
}

/// What `swap` does once the accounts pass, on the pool `p` with its accumulators
/// brought up to date: the pool after, the fee and the amount paid out. The fee
/// stays out of the reserves; the rest of the input joins the input reserve, and
/// the output reserve drops to the constant product divided by the new input
/// reserve, rounded down.
pub open spec fn swap_result(p: Pool, amount_in: u64, min_amount_out: u64, is_a_to_b: bool) -> Result<(Pool, u64, u64), AmmError> {
    let reserve_in = if is_a_to_b { p.reserve_a } else { p.reserve_b };
    let reserve_out = if is_a_to_b { p.reserve_b } else { p.reserve_a };
    if reserve_in == 0 || reserve_out == 0 {
        Err(AmmError::InsufficientLiquidity)
    } else if amount_in * p.fee_bps + 9999 > u64::MAX || swap_fee(amount_in, p.fee_bps) > amount_in {
        Err(AmmError::Overflow)
    } else {
        let fee = swap_fee(amount_in, p.fee_bps);
        let new_in = reserve_in + (amount_in - fee);
        let new_out = (reserve_in * reserve_out) / new_in;
        let amount_out = reserve_out - new_out;
        if new_in > u64::MAX {
            Err(AmmError::Overflow)
        } else if amount_out < min_amount_out {
            Err(AmmError::SlippageExceeded)
        } else {
            let np = if is_a_to_b {
                Pool { reserve_a: new_in as u64, reserve_b: new_out as u64, ..p }
            } else {
                Pool { reserve_b: new_in as u64, reserve_a: new_out as u64, ..p }
            };
            Ok((np, fee as u64, amount_out as u64))
        }
    }
}

/// The token calls of a swap: the input from the user into its vault, signed by
/// the user, and the output from the other vault to the user, signed by the pool.
pub open spec fn swap_calls(ctx: Swap, amount_in: u64, amount_out: u64, is_a_to_b: bool) -> Seq<TokenInstruction> {
    if is_a_to_b {
        seq![
            TokenInstruction::Transfer { from: ctx.user_token_a.key, to: ctx.token_a_vault.key,
                authority: ctx.user.key, amount: amount_in, signed_by_pool: false },
            TokenInstruction::Transfer { from: ctx.token_b_vault.key, to: ctx.user_token_b.key,
                authority: ctx.pool.key, amount: amount_out, signed_by_pool: true },
        ]
    } else {
        seq![
            TokenInstruction::Transfer { from: ctx.user_token_b.key, to: ctx.token_b_vault.key,
                authority: ctx.user.key, amount: amount_in, signed_by_pool: false },
            TokenInstruction::Transfer { from: ctx.token_a_vault.key, to: ctx.user_token_a.key,
                authority: ctx.pool.key, amount: amount_out, signed_by_pool: true },
        ]
    }
}

/// Dividing the constant product by a larger input reserve leaves at most the
/// output reserve.
pub proof fn lemma_new_reserve_out_bound(reserve_in: int, reserve_out: int, new_in: int)
    requires
        0 < reserve_in <= new_in,
        0 <= reserve_out,
    ensures
        (reserve_in * reserve_out) / new_in <= reserve_out,
        0 <= (reserve_in * reserve_out) / new_in,
{
    assert((reserve_in * reserve_out) / new_in <= reserve_out) by (nonlinear_arith)
        requires
            0 < reserve_in <= new_in,
            0 <= reserve_out,
    ;
    assert(0 <= (reserve_in * reserve_out) / new_in) by (nonlinear_arith)
        requires
            0 < reserve_in <= new_in,
            0 <= reserve_out,
    ;
}

/// Swaps `amount_in` of one token for the other at the constant-product rate,
/// after a fee rounded up, refusing less than `min_amount_out`.
pub fn swap(ctx: &mut Swap, amount_in: u64, min_amount_out: u64, is_a_to_b: bool, now: i64) -> (r: Result<Vec<TokenInstruction>, Error<AmmError>>)
    requires
        swap_account_error(*old(ctx)) is None ==> twap_safe(old(ctx).pool.data, now),
    ensures
        r is Err ==> *final(ctx) == *old(ctx),
        swap_account_error(*old(ctx)) matches Some(e) ==> r == Err::<Vec<TokenInstruction>, Error<AmmError>>(e),
        swap_account_error(*old(ctx)) is None ==> {
            let p = twap_updated(old(ctx).pool.data, now);
            match swap_result(p, amount_in, min_amount_out, is_a_to_b) {
                Err(e) => r == Err::<Vec<TokenInstruction>, Error<AmmError>>(Error::Program(e)),
                Ok((np, fee, amount_out)) => {
                    &&& *final(ctx) == (Swap { pool: (Account { data: np, ..old(ctx).pool }), ..*old(ctx) })
                    &&& r matches Ok(calls)
                    &&& calls@ == swap_calls(*old(ctx), amount_in, amount_out, is_a_to_b)
                },
            }
        },
{
    validate_swap(ctx)?;
    let mut pool = ctx.pool.data;
    update_twap(&mut pool, now);
    let (reserve_in, reserve_out) = if is_a_to_b {
        (pool.reserve_a, pool.reserve_b)
    } else {
        (pool.reserve_b, pool.reserve_a)
    };
    if !(reserve_in > 0 && reserve_out > 0) {
        return Err(Error::Program(AmmError::InsufficientLiquidity));
    }
    let scaled = match amount_in.checked_mul(pool.fee_bps) {
        Some(v) => v,
        None => { return Err(Error::Program(AmmError::Overflow)); },
    };
    let rounded = match scaled.checked_add(9999) {
        Some(v) => v,
        None => { return Err(Error::Program(AmmError::Overflow)); },
    };
    let fee = rounded / 10000;
    let amount_in_after_fee = match amount_in.checked_sub(fee) {
        Some(v) => v,
        None => { return Err(Error::Program(AmmError::Overflow)); },
    };
    proof {
        lemma_u64_product_fits(reserve_in, reserve_out);
        lemma_new_reserve_out_bound(reserve_in as int, reserve_out as int, reserve_in + amount_in_after_fee);
    }
    let k: u128 = reserve_in as u128 * reserve_out as u128;
    let new_reserve_in: u128 = reserve_in as u128 + amount_in_after_fee as u128;
    let new_reserve_out: u128 = k / new_reserve_in;
    let amount_out = (reserve_out as u128 - new_reserve_out) as u64;
    if new_reserve_in > u64::MAX as u128 {
        return Err(Error::Program(AmmError::Overflow));
    }
    if amount_out < min_amount_out {
        return Err(Error::Program(AmmError::SlippageExceeded));
    }
    if is_a_to_b {
        pool.reserve_a = new_reserve_in as u64;
        pool.reserve_b = new_reserve_out as u64;
    } else {
        pool.reserve_b = new_reserve_in as u64;
        pool.reserve_a = new_reserve_out as u64;
    }
    ctx.pool.data = pool;
    let mut calls: Vec<TokenInstruction> = Vec::new();
    if is_a_to_b {
        calls.push(TokenInstruction::Transfer { from: ctx.user_token_a.key, to: ctx.token_a_vault.key,
            authority: ctx.user.key, amount: amount_in, signed_by_pool: false });
        calls.push(TokenInstruction::Transfer { from: ctx.token_b_vault.key, to: ctx.user_token_b.key,
            authority: ctx.pool.key, amount: amount_out, signed_by_pool: true });
    } else {
        calls.push(TokenInstruction::Transfer { from: ctx.user_token_b.key, to: ctx.token_b_vault.key,
            authority: ctx.user.key, amount: amount_in, signed_by_pool: false });
        calls.push(TokenInstruction::Transfer { from: ctx.token_a_vault.key, to: ctx.user_token_a.key,
            authority: ctx.pool.key, amount: amount_out, signed_by_pool: true });
    }
    Ok(calls)
}

/// The spot prices of the pool, scaled by `PRECISION` (cut to 64 bits), zero for
/// an empty reserve.
pub open spec fn spot_prices(pool: Pool) -> (u64, u64) {
    (
        if pool.reserve_a > 0 { scaled_price(pool.reserve_b, pool.reserve_a) as u64 } else { 0 },
        if pool.reserve_b > 0 { scaled_price(pool.reserve_a, pool.reserve_b) as u64 } else { 0 },
    )
}

fn spot(pool: &Pool) -> (r: (u64, u64))
    ensures
        r == spot_prices(*pool),
{
    proof {
        lemma_u64_product_fits(pool.reserve_a, PRECISION);
        lemma_u64_product_fits(pool.reserve_b, PRECISION);
    }
    let price_a = if pool.reserve_a > 0 {
        (pool.reserve_b as u128 * PRECISION as u128 / pool.reserve_a as u128) as u64
    } else {
        0
    };
    let price_b = if pool.reserve_b > 0 {
        (pool.reserve_a as u128 * PRECISION as u128 / pool.reserve_b as u128) as u64
    } else {
        0
    };
    (price_a, price_b)
}

fn validate_price(ctx: &GetPrice) -> (r: Result<(), Error<AmmError>>)
    ensures
        pool_at_address(ctx.pool) ==> r is Ok,
        !pool_at_address(ctx.pool) ==> r == Err::<(), Error<AmmError>>(Error::Anchor(ErrorCode::ConstraintSeeds)),
{
    let pool = &ctx.pool.data;
    check_seeds_with_bump(&ctx.pool.key, pool_seed_list(&pool.token_a_mint, &pool.token_b_mint), pool.bump, &ID)
}

/// The prices `get_twap` answers: the spot prices when no time has passed since
/// the accumulators were last brought up to date (counted as an unsigned number
/// of seconds) or no period is asked for; otherwise each price accumulator
/// divided by those elapsed seconds, cut to 64 bits. The accumulators hold the
/// running sum of spot price times seconds since the pool was created.
pub open spec fn accumulated_prices(pool: Pool, seconds: u64, now: i64) -> (u64, u64) {
    let elapsed = (now - pool.last_update) as u64;
    if elapsed == 0 || seconds == 0 {
        spot_prices(pool)
    } else {
        ((pool.price_cumulative_a / elapsed as u128) as u64, (pool.price_cumulative_b / elapsed as u128) as u64)
    }
}

/// Answers the prices from the accumulators, as `accumulated_prices` says; `now`
/// is the cluster's time.
pub fn get_twap(ctx: &GetPrice, seconds: u64, now: i64) -> (r: Result<(u64, u64), Error<AmmError>>)
    requires
        i64::MIN <= now - ctx.pool.data.last_update <= i64::MAX,
    ensures
        !pool_at_address(ctx.pool) ==> r == Err::<(u64, u64), Error<AmmError>>(Error::Anchor(ErrorCode::ConstraintSeeds)),
        pool_at_address(ctx.pool) ==> r == Ok::<(u64, u64), Error<AmmError>>(accumulated_prices(ctx.pool.data, seconds, now)),
{
    validate_price(ctx)?;
    let pool = &ctx.pool.data;
    let time_elapsed = (now - pool.last_update) as u64;
    if time_elapsed == 0 || seconds == 0 {
        return Ok(spot(pool));
    }
    let twap_a = (pool.price_cumulative_a / time_elapsed as u128) as u64;
    let twap_b = (pool.price_cumulative_b / time_elapsed as u128) as u64;
    Ok((twap_a, twap_b))
}

/// The spot prices, for display only: they move with every trade.
pub fn get_spot_price(ctx: &GetPrice) -> (r: Result<(u64, u64), Error<AmmError>>)
    ensures
        !pool_at_address(ctx.pool) ==> r == Err::<(u64, u64), Error<AmmError>>(Error::Anchor(ErrorCode::ConstraintSeeds)),
        pool_at_address(ctx.pool) ==> r == Ok::<(u64, u64), Error<AmmError>>(spot_prices(ctx.pool.data)),
{
    validate_price(ctx)?;
    Ok(spot(&ctx.pool.data))
}

/// The swap fee is the exact fee rounded up: never below `amount_in * fee_bps /
/// 10000`, less than one unit above it, and positive whenever that product is.
pub proof fn swap_fee_rounds_up(amount_in: u64, fee_bps: u64)
    ensures
        swap_fee(amount_in, fee_bps) * 10000 >= amount_in * fee_bps,
        swap_fee(amount_in, fee_bps) * 10000 < amount_in * fee_bps + 10000,
        amount_in * fee_bps > 0 ==> swap_fee(amount_in, fee_bps) > 0,
{
    assert(amount_in * fee_bps >= 0) by (nonlinear_arith);
}

/// A swap that goes through pays at least `min_amount_out`, at most the whole
/// output reserve, keeps the fee out of the reserves, and leaves a constant
/// product that is the old one rounded down to a multiple of the new input
/// reserve.
pub proof fn swap_respects_slippage_and_reserves(p: Pool, amount_in: u64, min_amount_out: u64, is_a_to_b: bool)
    requires
        swap_result(p, amount_in, min_amount_out, is_a_to_b) is Ok,
    ensures
        ({
            let (np, fee, amount_out) = swap_result(p, amount_in, min_amount_out, is_a_to_b).unwrap();
            let reserve_in = if is_a_to_b { p.reserve_a } else { p.reserve_b };
            let reserve_out = if is_a_to_b { p.reserve_b } else { p.reserve_a };
            let new_in = if is_a_to_b { np.reserve_a } else { np.reserve_b };
            let new_out = if is_a_to_b { np.reserve_b } else { np.reserve_a };
            &&& amount_out >= min_amount_out
            &&& amount_out <= reserve_out
            &&& new_out + amount_out == reserve_out
            &&& new_in + fee == reserve_in + amount_in
            &&& fee == swap_fee(amount_in, p.fee_bps)
            &&& new_in * new_out <= reserve_in * reserve_out
            &&& reserve_in * reserve_out < new_in * (new_out + 1)
        }),
{
    let reserve_in = if is_a_to_b { p.reserve_a } else { p.reserve_b };
    let reserve_out = if is_a_to_b { p.reserve_b } else { p.reserve_a };
    let fee = swap_fee(amount_in, p.fee_bps);
    let new_in = reserve_in + (amount_in - fee);
    let k = reserve_in * reserve_out;
    let new_out = k / new_in;
    lemma_new_reserve_out_bound(reserve_in as int, reserve_out as int, new_in);
    assert(new_in * new_out <= k && k < new_in * (new_out + 1)) by (nonlinear_arith)
        requires
            new_in > 0,
            new_out == k / new_in,
    ;
}

/// A withdrawal that goes through pays each token at most the burnt LP tokens'
/// share of its reserve, rounded down.
pub proof fn remove_liquidity_pays_at_most_share(p: Pool, lp_amount: u64, min_amount_a: u64, min_amount_b: u64)
    requires
        remove_liquidity_result(p, lp_amount, min_amount_a, min_amount_b) is Ok,
    ensures
        ({
            let (np, amount_a, amount_b) = remove_liquidity_result(p, lp_amount, min_amount_a, min_amount_b).unwrap();
            &&& amount_a * p.total_lp_supply <= lp_amount * p.reserve_a
            &&& amount_b * p.total_lp_supply <= lp_amount * p.reserve_b
            &&& amount_a >= min_amount_a && amount_b >= min_amount_b
            &&& np.reserve_a + amount_a == p.reserve_a
            &&& np.reserve_b + amount_b == p.reserve_b
            &&& np.total_lp_supply + lp_amount == p.total_lp_supply
        }),
{
    let t = p.total_lp_supply as int;
    let l = lp_amount as int;
    let ra = p.reserve_a as int;
    let rb = p.reserve_b as int;
    assert((l * ra) / t <= ra && (l * ra / t) * t <= l * ra) by (nonlinear_arith)
        requires
            0 <= l <= t,
            t > 0,
            ra >= 0,
    ;
    assert((l * rb) / t <= rb && (l * rb / t) * t <= l * rb) by (nonlinear_arith)
        requires
            0 <= l <= t,
            t > 0,
            rb >= 0,
    ;
}

/// Bringing the accumulators up to date never lowers them, changes nothing but
/// them and the update time, and records `now` as the update time.
pub proof fn twap_accumulators_never_decrease(pool: Pool, now: i64)
    requires
        twap_safe(pool, now),
    ensures
        twap_updated(pool, now).price_cumulative_a >= pool.price_cumulative_a,
        twap_updated(pool, now).price_cumulative_b >= pool.price_cumulative_b,
        twap_updated(pool, now).last_update == now,
        twap_updated(pool, now) == (Pool {
            price_cumulative_a: twap_updated(pool, now).price_cumulative_a,
            price_cumulative_b: twap_updated(pool, now).price_cumulative_b,
            last_update: now,
            ..pool
        }),
{
    let elapsed = now - pool.last_update;
    if elapsed > 0 && pool.reserve_a > 0 && pool.reserve_b > 0 {
        let pa = scaled_price(pool.reserve_b, pool.reserve_a);
        let pb = scaled_price(pool.reserve_a, pool.reserve_b);
        assert(pa >= 0 && pb >= 0) by (nonlinear_arith)
            requires
                pa == (pool.reserve_b as int * PRECISION as int) / pool.reserve_a as int,
                pb == (pool.reserve_a as int * PRECISION as int) / pool.reserve_b as int,
                pool.reserve_a > 0,
                pool.reserve_b > 0,
        ;
        assert(pa * elapsed >= 0 && pb * elapsed >= 0) by (nonlinear_arith)
            requires
                pa >= 0,
                pb >= 0,
                elapsed > 0,
        ;
    }
}


/// Adding liquidity to a pool that already has LP holders and then burning
/// exactly the LP tokens that the deposit minted succeeds and pays back at most
/// what was deposited of each token: a round trip never gains.
pub proof fn add_then_remove_never_gains(p: Pool, amount_a: u64, amount_b: u64, min_lp_tokens: u64)
    requires
        p.total_lp_supply > 0,
        add_liquidity_result(p, amount_a, amount_b, min_lp_tokens) is Ok,
    ensures
        ({
            let (np, lp) = add_liquidity_result(p, amount_a, amount_b, min_lp_tokens).unwrap();
            &&& remove_liquidity_result(np, lp, 0, 0) is Ok
            &&& remove_liquidity_result(np, lp, 0, 0).unwrap().1 <= amount_a
            &&& remove_liquidity_result(np, lp, 0, 0).unwrap().2 <= amount_b
        }),
{
    let (np, lp) = add_liquidity_result(p, amount_a, amount_b, min_lp_tokens).unwrap();
    let s = p.total_lp_supply as int;
    let ra = p.reserve_a as int;
    let rb = p.reserve_b as int;
    let a = amount_a as int;
    let b = amount_b as int;
    let l = lp as int;
    let la = (a * s) / ra;
    let lb = (b * s) / rb;
    assert(l <= la && l <= lb);
    assert(l * ra <= a * s) by (nonlinear_arith)
        requires l <= la, la == (a * s) / ra, ra > 0, a >= 0, s >= 0, l >= 0;
    assert(l * rb <= b * s) by (nonlinear_arith)
        requires l <= lb, lb == (b * s) / rb, rb > 0, b >= 0, s >= 0, l >= 0;
    assert((l * (ra + a)) / (s + l) <= a) by (nonlinear_arith)
        requires l * ra <= a * s, s > 0, l >= 0, a >= 0, ra >= 0;
    assert((l * (rb + b)) / (s + l) <= b) by (nonlinear_arith)
        requires l * rb <= b * s, s > 0, l >= 0, b >= 0, rb >= 0;
    assert((l * (ra + a)) / (s + l) <= ra + a) by (nonlinear_arith)
        requires s > 0, l >= 0, a >= 0, ra >= 0;
    assert((l * (rb + b)) / (s + l) <= rb + b) by (nonlinear_arith)
        requires s > 0, l >= 0, b >= 0, rb >= 0;
    assert(np.reserve_a == ra + a && np.reserve_b == rb + b && np.total_lp_supply == s + l);
}


/// The first deposit into an empty pool can be taken back whole: burning all
/// the LP tokens it minted pays back exactly the two amounts deposited and
/// leaves the pool empty again.
pub proof fn first_deposit_round_trip(p: Pool, amount_a: u64, amount_b: u64, min_lp_tokens: u64)
    requires
        p.total_lp_supply == 0,
        p.reserve_a == 0,
        p.reserve_b == 0,
        add_liquidity_result(p, amount_a, amount_b, min_lp_tokens) matches Ok((np, lp)) && lp > 0,
    ensures
        ({
            let (np, lp) = add_liquidity_result(p, amount_a, amount_b, min_lp_tokens).unwrap();
            let out = remove_liquidity_result(np, lp, amount_a, amount_b);
            &&& out is Ok
            &&& out.unwrap().1 == amount_a
            &&& out.unwrap().2 == amount_b
            &&& out.unwrap().0.reserve_a == 0
            &&& out.unwrap().0.reserve_b == 0
            &&& out.unwrap().0.total_lp_supply == 0
        }),
{
    let (np, lp) = add_liquidity_result(p, amount_a, amount_b, min_lp_tokens).unwrap();
    let l = lp as int;
    let a = amount_a as int;
    let b = amount_b as int;
    assert(np.reserve_a == a && np.reserve_b == b && np.total_lp_supply == l);
    assert((l * a) / l == a) by (nonlinear_arith)
        requires l > 0;
    assert((l * b) / l == b) by (nonlinear_arith)
        requires l > 0;
}


/// A swap goes through whenever nothing in it overflows 64 bits and the payout
/// meets the slippage limit: on non-empty reserves, with a fee that can be
/// computed and does not exceed the input, a new input reserve that fits in 64
/// bits and an output of at least `min_amount_out`, the swap succeeds. The
/// product of the reserves is taken in 128 bits and is never a reason to refuse.
/// The output is the old output reserve less the constant product divided by
/// the new input reserve, rounded down, and the fee is the exact fee rounded up.
pub proof fn swap_goes_through(p: Pool, amount_in: u64, min_amount_out: u64, is_a_to_b: bool)
    requires
        p.reserve_a > 0,
        p.reserve_b > 0,
        amount_in * p.fee_bps + 9999 <= u64::MAX,
        (amount_in * p.fee_bps + 9999) / 10000 <= amount_in,
        (if is_a_to_b { p.reserve_a } else { p.reserve_b }) + amount_in - (amount_in * p.fee_bps + 9999) / 10000 <= u64::MAX,
        ({
            let reserve_in = if is_a_to_b { p.reserve_a } else { p.reserve_b };
            let reserve_out = if is_a_to_b { p.reserve_b } else { p.reserve_a };
            let new_in = reserve_in + amount_in - (amount_in * p.fee_bps + 9999) / 10000;
            reserve_out - (reserve_in * reserve_out) / new_in >= min_amount_out
        }),
    ensures
        ({
            let reserve_in = if is_a_to_b { p.reserve_a } else { p.reserve_b };
            let reserve_out = if is_a_to_b { p.reserve_b } else { p.reserve_a };
            let fee = (amount_in * p.fee_bps + 9999) / 10000;
            let new_in = reserve_in + amount_in - fee;
            &&& swap_result(p, amount_in, min_amount_out, is_a_to_b) is Ok
            &&& swap_result(p, amount_in, min_amount_out, is_a_to_b).unwrap().1 == fee
            &&& swap_result(p, amount_in, min_amount_out, is_a_to_b).unwrap().2 == reserve_out - (reserve_in * reserve_out) / new_in
        }),
{
    let reserve_in = if is_a_to_b { p.reserve_a } else { p.reserve_b };
    let reserve_out = if is_a_to_b { p.reserve_b } else { p.reserve_a };
    let fee = swap_fee(amount_in, p.fee_bps);
    let new_in = reserve_in + (amount_in - fee);
    lemma_new_reserve_out_bound(reserve_in as int, reserve_out as int, new_in);
}

/// The first deposit into a pool without LP tokens mints the integer square
/// root of the product of the two amounts, whatever their size (the product of
/// two 64-bit amounts fits in 128 bits, and so its root in 64); the deposit
/// goes through whenever the reserves can take the amounts and the root meets
/// `min_lp_tokens`.
pub proof fn first_deposit_mints_the_square_root(p: Pool, amount_a: u64, amount_b: u64, min_lp_tokens: u64)
    requires
        p.total_lp_supply == 0,
    ensures
        lp_tokens_for(p, amount_a, amount_b) matches Some(l)
            && l * l <= amount_a * amount_b < (l + 1) * (l + 1),
        ({
            let l = lp_tokens_for(p, amount_a, amount_b).unwrap();
            p.reserve_a + amount_a <= u64::MAX && p.reserve_b + amount_b <= u64::MAX && l >= min_lp_tokens
                ==> add_liquidity_result(p, amount_a, amount_b, min_lp_tokens) == Ok::<(Pool, u64), AmmError>((Pool {
                    reserve_a: (p.reserve_a + amount_a) as u64,
                    reserve_b: (p.reserve_b + amount_b) as u64,
                    total_lp_supply: l,
                    ..p
                }, l))
        }),
{
    let n = amount_a * amount_b;
    assert(0 <= n <= u128::MAX) by (nonlinear_arith)
        requires
            n == amount_a * amount_b,
            amount_a <= u64::MAX,
            amount_b <= u64::MAX,
    ;
    lemma_floor_sqrt_exists(n);
    lemma_sqrt_u128_fits(n, floor_sqrt(n));
}

/// The answer of `get_twap` does not depend on the period asked for, only on
/// whether one is asked for: once time has passed since the last update, every
/// positive `seconds` gives the same prices, each the accumulator divided by the
/// seconds elapsed since that update, rounded down.
pub proof fn twap_reads_the_elapsed_time(pool: Pool, s1: u64, s2: u64, now: i64)
    requires
        s1 > 0,
        s2 > 0,
        now > pool.last_update,
    ensures
        accumulated_prices(pool, s1, now) == accumulated_prices(pool, s2, now),
        ({
            let e = now - pool.last_update;
            let (a, b) = accumulated_prices(pool, s1, now);
            &&& (pool.price_cumulative_a as int) / e <= u64::MAX ==> a * e <= pool.price_cumulative_a < (a + 1) * e
            &&& (pool.price_cumulative_b as int) / e <= u64::MAX ==> b * e <= pool.price_cumulative_b < (b + 1) * e
        }),
{
    let e = now - pool.last_update;
    let ca = pool.price_cumulative_a as int;
    let cb = pool.price_cumulative_b as int;
    assert((ca / e) * e <= ca < (ca / e + 1) * e) by (nonlinear_arith)
        requires e > 0, ca >= 0;
    assert((cb / e) * e <= cb < (cb / e + 1) * e) by (nonlinear_arith)
        requires e > 0, cb >= 0;
}

} // verus!

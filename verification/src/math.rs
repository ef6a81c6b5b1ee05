//! Integer square roots by Newton's method, and the facts that make them exact;
//! what fixed-width arithmetic keeps of a number.
use vstd::prelude::*;

verus! {

/// `r` is the integer square root of `n`: the largest number whose square is at most `n`.
pub open spec fn is_floor_sqrt(n: int, r: int) -> bool {
    0 <= r && r * r <= n && n < (r + 1) * (r + 1)
}

/// One Newton step from `x` stays at or above the square root: if `x` is
/// positive then `(y + 1)^2 > n` for `y = (x + n / x) / 2`.
pub proof fn lemma_newton_step_stays_above(n: int, x: int)
    requires
        0 <= n,
        0 < x,
    ensures
        ((x + n / x) / 2 + 1) * ((x + n / x) / 2 + 1) > n,
{
    let q = n / x;
    let y = (x + q) / 2;
    assert(n == q * x + n % x && 0 <= n % x < x) by (nonlinear_arith)
        requires
            0 < x,
            q == n / x,
    ;
    assert(x * (q + 1) > n) by (nonlinear_arith)
        requires
            n == q * x + n % x,
            0 <= n % x < x,
    ;
    assert(2 * (y + 1) >= x + q + 1);
    assert((x + q + 1) * (x + q + 1) >= 4 * (x * (q + 1))) by (nonlinear_arith);
    assert(q >= 0) by (nonlinear_arith)
        requires
            0 < x,
            0 <= n,
            q == n / x,
    ;
    assert((2 * (y + 1)) * (2 * (y + 1)) >= (x + q + 1) * (x + q + 1)) by (nonlinear_arith)
        requires
            2 * (y + 1) >= x + q + 1,
            x + q + 1 >= 0,
    ;
    assert((y + 1) * (y + 1) > n) by (nonlinear_arith)
        requires
            (2 * (y + 1)) * (2 * (y + 1)) >= (x + q + 1) * (x + q + 1),
            (x + q + 1) * (x + q + 1) >= 4 * (x * (q + 1)),
            x * (q + 1) > n,
    ;
}

/// When a Newton step from `x` does not go below `x`, `x` squared is at most `n`.
pub proof fn lemma_newton_fixpoint(n: int, x: int)
    requires
        0 <= n,
        0 < x,
        (x + n / x) / 2 >= x,
    ensures
        x * x <= n,
{
    if x * x > n {
        assert(n / x < x) by (nonlinear_arith)
            requires
                0 < x,
                0 <= n,
                x * x > n,
        ;
    }
}

/// Above the square root, `n / x` is at most `x + 2`.
pub proof fn lemma_quotient_bound(n: int, x: int)
    requires
        0 <= n,
        0 < x,
        (x + 1) * (x + 1) > n,
    ensures
        n / x <= x + 2,
{
    assert(n / x <= x + 2) by (nonlinear_arith)
        requires
            0 < x,
            0 <= n,
            (x + 1) * (x + 1) > n,
    ;
}

/// The integer square root of a number below `2^128` is below `2^64`.
pub proof fn lemma_sqrt_u128_fits(n: int, r: int)
    requires
        0 <= n <= u128::MAX,
        is_floor_sqrt(n, r),
    ensures
        r <= u64::MAX,
{
    if r > u64::MAX {
        assert(r * r >= 0x1_0000_0000_0000_0000 * 0x1_0000_0000_0000_0000) by (nonlinear_arith)
            requires
                r >= 0x1_0000_0000_0000_0000,
        ;
    }
}

/// The integer square root of `n` is unique.
pub proof fn lemma_floor_sqrt_unique(n: int, r1: int, r2: int)
    requires
        is_floor_sqrt(n, r1),
        is_floor_sqrt(n, r2),
    ensures
        r1 == r2,
{
    if r1 < r2 {
        assert((r1 + 1) * (r1 + 1) <= r2 * r2) by (nonlinear_arith)
            requires
                0 <= r1 < r2,
        ;
    } else if r2 < r1 {
        assert((r2 + 1) * (r2 + 1) <= r1 * r1) by (nonlinear_arith)
            requires
                0 <= r2 < r1,
        ;
    }
}

/// The integer square root of `n`.
pub open spec fn floor_sqrt(n: int) -> int {
    choose|r: int| is_floor_sqrt(n, r)
}

/// Any integer square root is the one `floor_sqrt` names.
pub proof fn lemma_floor_sqrt_is(n: int, r: int)
    requires
        is_floor_sqrt(n, r),
    ensures
        floor_sqrt(n) == r,
{
    let c = choose|c: int| is_floor_sqrt(n, c);
    assert(is_floor_sqrt(n, c));
    lemma_floor_sqrt_unique(n, r, c);
}

/// Every natural number has an integer square root.
pub proof fn lemma_floor_sqrt_exists(n: int)
    requires
        0 <= n,
    ensures
        is_floor_sqrt(n, floor_sqrt(n)),
    decreases n,
{
    if n == 0 {
        assert(is_floor_sqrt(0, 0));
        lemma_floor_sqrt_is(0, 0);
    } else {
        lemma_floor_sqrt_exists(n - 1);
        let r = floor_sqrt(n - 1);
        if (r + 1) * (r + 1) <= n {
            assert(n < (r + 2) * (r + 2)) by (nonlinear_arith)
                requires
                    n - 1 < (r + 1) * (r + 1),
                    r >= 0,
            ;
            assert(is_floor_sqrt(n, r + 1));
            lemma_floor_sqrt_is(n, r + 1);
        } else {
            assert(is_floor_sqrt(n, r));
            lemma_floor_sqrt_is(n, r);
        }
    }
}

/// `x` reduced modulo 2^64: what 64-bit wrapping arithmetic and truncating
/// casts keep of it.
pub open spec fn wrap_u64(x: int) -> u64 {
    (x % 0x1_0000_0000_0000_0000) as u64
}

/// Casting a `u128` to `u64` keeps its value modulo 2^64.
pub proof fn lemma_truncate_u128(x: u128)
    ensures
        x as u64 == wrap_u64(x as int),
{
    assert(x as u64 == x % 0x1_0000_0000_0000_0000) by (bit_vector);
}

} // verus!

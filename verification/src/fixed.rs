//! Fixed-point arithmetic shared by the whole simulation.
//!
//! Every quantity of the game is an integer. Lengths, speeds and the
//! components of headings carry three decimal places (`UNIT` stands for
//! 1.0), time is counted in microseconds, and angles in 1/65536 of a turn.
//! Products are formed in 128 bits and divided with truncation toward zero,
//! so that a quantity and its negation are rounded alike.

use vstd::prelude::*;

verus! {

/// The integer that stands for 1.0 in lengths, speeds and headings.
pub const UNIT: u64 = 1000;

/// Microseconds in one second: what a rate is divided by after it has been
/// multiplied by an elapsed time.
pub const MICROS_PER_SECOND: u64 = 1_000_000;

/// Largest magnitude a coordinate may have when something is added to it.
pub const REACH: i64 = 0x2000_0000_0000_0000;

/// Absolute value of a mathematical integer.
pub open spec fn magnitude(a: int) -> int {
    if a >= 0 {
        a
    } else {
        -a
    }
}

/// Quotient of `a` by a positive `d`, rounded toward zero.
pub open spec fn div_trunc(a: int, d: int) -> int {
    if a >= 0 {
        a / d
    } else {
        -((-a) / d)
    }
}

/// `r` is the least natural number whose square reaches `n`.
pub open spec fn is_sqrt_ceil(n: int, r: int) -> bool {
    &&& r >= 0
    &&& r * r >= n
    &&& r > 0 ==> (r - 1) * (r - 1) < n
}

/// The square root of `n`, rounded up.
pub open spec fn sqrt_ceil(n: int) -> int {
    choose|r: int| is_sqrt_ceil(n, r)
}

/// Squares grow with their non-negative argument.
pub proof fn lemma_square_monotonic(a: int, b: int)
    requires
        0 <= a <= b,
    ensures
        a * a <= b * b,
        a < b ==> a * a < b * b,
{
    assert(a * a <= b * b) by (nonlinear_arith)
        requires
            0 <= a <= b,
    ;
    if a < b {
        assert(a * a < b * b) by (nonlinear_arith)
            requires
                0 <= a < b,
        ;
    }
}

/// At most one number is the rounded-up square root of `n`, so that one is
/// `sqrt_ceil(n)`.
pub proof fn lemma_sqrt_ceil_unique(n: int, r: int)
    requires
        is_sqrt_ceil(n, r),
    ensures
        sqrt_ceil(n) == r,
{
    let s = sqrt_ceil(n);
    assert(is_sqrt_ceil(n, s));
    if s < r {
        lemma_square_monotonic(s, r - 1);
    }
    if r < s {
        lemma_square_monotonic(r, s - 1);
    }
}

/// A truncated quotient keeps the sign of the dividend and lies within one
/// divisor of it.
pub proof fn lemma_div_trunc_bounds(a: int, d: int)
    requires
        d > 0,
    ensures
        magnitude(div_trunc(a, d)) == magnitude(a) / d,
        magnitude(div_trunc(a, d)) * d <= magnitude(a),
        magnitude(a) < (magnitude(div_trunc(a, d)) + 1) * d,
        a >= 0 ==> div_trunc(a, d) >= 0,
        a <= 0 ==> div_trunc(a, d) <= 0,
{
    let m = magnitude(a);
    let q = m / d;
    vstd::arithmetic::div_mod::lemma_fundamental_div_mod(m, d);
    vstd::arithmetic::div_mod::lemma_mod_bound(m, d);
    vstd::arithmetic::div_mod::lemma_div_pos_is_pos(m, d);
    assert(d * q == q * d) by (nonlinear_arith);
    assert((q + 1) * d == q * d + d) by (nonlinear_arith);
}

/// Dividing something of magnitude at most `k * d` leaves at most `k`.
pub proof fn lemma_div_trunc_within(a: int, d: int, k: int)
    requires
        d > 0,
        k >= 0,
        magnitude(a) <= k * d,
    ensures
        magnitude(div_trunc(a, d)) <= k,
{
    lemma_div_trunc_bounds(a, d);
    let q = magnitude(div_trunc(a, d));
    if q > k {
        assert(q * d >= (k + 1) * d) by (nonlinear_arith)
            requires
                q >= k + 1,
                d > 0,
        ;
        assert((k + 1) * d == k * d + d) by (nonlinear_arith);
    }
}

/// `a * b / d`, the product formed without loss and the quotient rounded
/// toward zero.
pub fn mul_div(a: i64, b: i64, d: u64) -> (r: i64)
    requires
        d > 0,
        i64::MIN <= div_trunc(a * b, d as int) <= i64::MAX,
    ensures
        r == div_trunc(a * b, d as int),
{
    let wide_a: i128 = a as i128;
    let wide_b: i128 = b as i128;
    assert(-0x4000_0000_0000_0000_0000_0000_0000_0000 <= wide_a * wide_b
        <= 0x4000_0000_0000_0000_0000_0000_0000_0000) by (nonlinear_arith)
        requires
            -0x8000_0000_0000_0000 <= wide_a < 0x8000_0000_0000_0000,
            -0x8000_0000_0000_0000 <= wide_b < 0x8000_0000_0000_0000,
    ;
    let product: i128 = wide_a * wide_b;
    let quotient: i128 = product / (d as i128);
    quotient as i64
}

/// The square root of `n`, rounded up.
pub fn isqrt_ceil(n: u128) -> (r: u128)
    ensures
        r == sqrt_ceil(n as int),
        r <= 0x1_0000_0000_0000_0000,
{
    if n == 0 {
        proof {
            lemma_sqrt_ceil_unique(0, 0);
        }
        return 0;
    }
    let mut low: u128 = 0;
    let mut high: u128 = 0x1_0000_0000_0000_0000;
    assert(high * high > n) by (nonlinear_arith)
        requires
            high == 0x1_0000_0000_0000_0000,
            n <= u128::MAX,
    ;
    while high - low > 1
        invariant
            low < high <= 0x1_0000_0000_0000_0000,
            low * low < n,
            high * high >= n,
        decreases high - low,
    {
        let mid: u128 = low + (high - low) / 2;
        assert(mid * mid <= 0xffff_ffff_ffff_ffff * 0xffff_ffff_ffff_ffff) by (nonlinear_arith)
            requires
                0 <= mid <= 0xffff_ffff_ffff_ffff,
        ;
        if mid * mid >= n {
            high = mid;
        } else {
            low = mid;
        }
    }
    proof {
        lemma_sqrt_ceil_unique(n as int, high as int);
    }
    high
}

} // verus!

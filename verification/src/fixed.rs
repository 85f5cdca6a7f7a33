//! Fixed-point scalar arithmetic for the simulation core.
//!
//! World coordinates, velocities and matrix entries are `i64` values scaled
//! by `FX_ONE`. Every division truncates toward zero, which is exactly what
//! `/` does on `i64`.

use vstd::prelude::*;

verus! {

use vstd::arithmetic::div_mod::{
    lemma_div_pos_is_pos, lemma_fundamental_div_mod, lemma_div_nonincreasing,
};
use vstd::arithmetic::mul::lemma_mul_inequality;

/// One world unit in fixed-point form (2^16).
pub const FX_ONE: i64 = 65536;

/// Magnitude of an integer.
pub open spec fn abs_i(a: int) -> int {
    if a >= 0 {
        a
    } else {
        -a
    }
}

/// Division that rounds toward zero; the meaning of `/` on `i64` when the
/// divisor is positive.
pub open spec fn tdiv(a: int, d: int) -> int {
    if a >= 0 {
        a / d
    } else {
        -((-a) / d)
    }
}

/// `r` is the floor of the square root of `n`.
pub open spec fn is_sqrt_floor(n: int, r: int) -> bool {
    0 <= r && r * r <= n && n < (r + 1) * (r + 1)
}

/// The floor of the square root of a nonnegative integer.
pub closed spec fn sqrt_floor(n: int) -> int {
    choose|r: int| is_sqrt_floor(n, r)
}

/// The ceiling of the square root of a nonnegative integer.
pub open spec fn sqrt_ceil(n: int) -> int {
    if sqrt_floor(n) * sqrt_floor(n) == n {
        sqrt_floor(n)
    } else {
        sqrt_floor(n) + 1
    }
}

/// Clamping into a closed interval.
pub open spec fn spec_clamp(x: int, lo: int, hi: int) -> int {
    if x < lo {
        lo
    } else if x > hi {
        hi
    } else {
        x
    }
}

/// Every nonnegative integer has a floor square root.
proof fn lemma_sqrt_floor_exists(n: nat)
    ensures
        exists|r: int| is_sqrt_floor(n as int, r),
    decreases n,
{
    if n == 0 {
        assert(is_sqrt_floor(0, 0));
    } else {
        lemma_sqrt_floor_exists((n - 1) as nat);
        let r = choose|r: int| #[trigger] is_sqrt_floor(n - 1, r);
        if n < (r + 1) * (r + 1) {
            assert(is_sqrt_floor(n as int, r));
        } else {
            assert((r + 1) * (r + 1) <= n);
            assert(n < (r + 2) * (r + 2)) by (nonlinear_arith)
                requires
                    n - 1 < (r + 1) * (r + 1),
                    0 <= r,
            ;
            assert(is_sqrt_floor(n as int, r + 1));
        }
    }
}

/// The floor square root is unique, so any witness equals `sqrt_floor`.
pub proof fn lemma_sqrt_floor_unique(n: int, r: int)
    requires
        is_sqrt_floor(n, r),
    ensures
        r == sqrt_floor(n),
{
    lemma_sqrt_floor_exists(n as nat);
    let s = sqrt_floor(n);
    assert(is_sqrt_floor(n, s));
    assert(r == s) by (nonlinear_arith)
        requires
            is_sqrt_floor(n, r),
            is_sqrt_floor(n, s),
    ;
}

/// `sqrt_floor` deserves its name.
pub proof fn lemma_sqrt_floor_is_sqrt(n: int)
    requires
        n >= 0,
    ensures
        is_sqrt_floor(n, sqrt_floor(n)),
{
    lemma_sqrt_floor_exists(n as nat);
}

/// Floor square root, by binary search.
pub fn isqrt(n: u64) -> (r: u64)
    requires
        n < 0x4000_0000_0000_0000,
    ensures
        r == sqrt_floor(n as int),
        is_sqrt_floor(n as int, r as int),
        r < 0x8000_0000,
{
    let mut lo: u64 = 0;
    let mut hi: u64 = 0x8000_0000;
    assert((hi as int) * (hi as int) > n as int);
    while lo + 1 < hi
        invariant
            lo < hi <= 0x8000_0000,
            (lo as int) * (lo as int) <= n as int,
            (n as int) < (hi as int) * (hi as int),
        decreases hi - lo,
    {
        let mid: u64 = lo + (hi - lo) / 2;
        assert(lo < mid < hi);
        proof {
            assert((mid as int) * (mid as int) <= 0x4000_0000_0000_0000) by (nonlinear_arith)
                requires
                    mid <= 0x8000_0000,
            ;
        }
        if mid * mid <= n {
            lo = mid;
        } else {
            hi = mid;
        }
    }
    proof {
        assert(hi == lo + 1);
        lemma_sqrt_floor_unique(n as int, lo as int);
    }
    lo
}

/// Ceiling square root.
pub fn isqrt_ceil(n: u64) -> (r: u64)
    requires
        n < 0x4000_0000_0000_0000,
    ensures
        r == sqrt_ceil(n as int),
        (r as int) * (r as int) >= n,
        n > 0 ==> r >= 1,
        r <= 0x8000_0000,
{
    let f: u64 = isqrt(n);
    proof {
        assert(f < 0x8000_0000) by (nonlinear_arith)
            requires
                (f as int) * (f as int) <= n < 0x4000_0000_0000_0000,
        ;
    }
    if f * f == n {
        f
    } else {
        f + 1
    }
}

/// Clamp `x` into `[lo, hi]`.
pub fn clamp_i64(x: i64, lo: i64, hi: i64) -> (r: i64)
    requires
        lo <= hi,
    ensures
        r == spec_clamp(x as int, lo as int, hi as int),
{
    if x < lo {
        lo
    } else if x > hi {
        hi
    } else {
        x
    }
}

/// `a * m / d`, truncating toward zero: the scaling step of the fixed-point
/// arithmetic.
pub fn mul_div(a: i64, m: i64, d: i64) -> (r: i64)
    requires
        d > 0,
        -0x7fff_ffff_ffff_ffff <= a * m <= 0x7fff_ffff_ffff_ffff,
    ensures
        r == tdiv(a * m, d as int),
{
    let p: i64 = a * m;
    proof {
        lemma_tdiv_bounds(p as int, d as int);
    }
    p / d
}

/// Truncating division by a positive divisor never grows the magnitude, and
/// its magnitude is exactly the floor quotient of the magnitudes.
pub proof fn lemma_tdiv_bounds(a: int, d: int)
    requires
        d > 0,
    ensures
        abs_i(tdiv(a, d)) == abs_i(a) / d,
        abs_i(tdiv(a, d)) <= abs_i(a),
        a >= 0 ==> tdiv(a, d) >= 0,
        a <= 0 ==> tdiv(a, d) <= 0,
        abs_i(tdiv(a, d)) * d <= abs_i(a),
{
    let m = abs_i(a);
    lemma_div_pos_is_pos(m, d);
    lemma_fundamental_div_mod(m, d);
    assert((m / d) * d <= m) by (nonlinear_arith)
        requires
            d > 0,
            m >= 0,
            m == d * (m / d) + m % d,
            m % d >= 0,
    ;
    lemma_div_nonincreasing(m, d);
}

/// `|a| <= ba` and `|b| <= bb` bound the product `a * b` by `ba * bb`.
pub proof fn lemma_mul_abs_range(a: int, b: int, ba: int, bb: int)
    requires
        abs_i(a) <= ba,
        abs_i(b) <= bb,
    ensures
        abs_i(a * b) <= ba * bb,
        -(ba * bb) <= a * b <= ba * bb,
{
    assert(abs_i(a * b) <= ba * bb && -(ba * bb) <= a * b <= ba * bb) by (nonlinear_arith)
        requires
            abs_i(a) <= ba,
            abs_i(b) <= bb,
    ;
}

/// Squaring is monotone on nonnegative integers.
pub proof fn lemma_square_monotone(a: int, b: int)
    requires
        0 <= a <= b,
    ensures
        a * a <= b * b,
{
    lemma_mul_inequality(a, b, a);
    lemma_mul_inequality(a, b, b);
    assert(a * a <= b * a == a * b <= b * b);
}

} // verus!

//! Fixed-point scalar arithmetic for the simulation.
//!
//! Every quantity in the engine is an `i64` holding `SCALE` units per 1.0.
//! This module provides the few arithmetic primitives the physics needs:
//! truncating division, a range-checked multiplication, coordinate clamping
//! and an integer square root, each with an exact contract so the rest of
//! the engine can pin its results bit for bit.

use vstd::prelude::*;
use vstd::math::abs;

verus! {

/// Fixed-point units per 1.0.
pub const SCALE: i64 = 1024;

/// Largest magnitude a stored coordinate may take (about 524288 units).
pub const COORD_LIMIT: i64 = 0x2000_0000;

/// Largest rest length a constraint may ask for.
pub const REST_LIMIT: i64 = 0x2000_0000;

/// Largest inverse mass a particle may carry (16.0 in fixed point).
pub const INV_MASS_LIMIT: i64 = 16384;

/// Largest magnitude accepted for a gravity component or an impulse component.
pub const FORCE_LIMIT: i64 = 0x100_0000;

/// Coordinates are kept inside `[-COORD_LIMIT, COORD_LIMIT]` by this clamp.
pub open spec fn spec_clamp(v: int) -> int {
    if v < -COORD_LIMIT {
        -COORD_LIMIT as int
    } else if v > COORD_LIMIT {
        COORD_LIMIT as int
    } else {
        v
    }
}

/// Division that truncates toward zero, as the executable code computes it.
pub open spec fn spec_tdiv(a: int, b: int) -> int {
    if a >= 0 {
        a / b
    } else {
        -((-a) / b)
    }
}

/// Rotation components are kept inside `[-SCALE, SCALE]` by this clamp.
pub open spec fn spec_clamp_unit(v: int) -> int {
    if v < -SCALE {
        -SCALE as int
    } else if v > SCALE {
        SCALE as int
    } else {
        v
    }
}

/// Clamp a value into the rotation-component range.
pub fn clamp_unit(v: i64) -> (r: i64)
    ensures
        r as int == spec_clamp_unit(v as int),
{
    if v < -SCALE {
        -SCALE
    } else if v > SCALE {
        SCALE
    } else {
        v
    }
}

/// Clamp a value into the coordinate range.
pub fn clamp_coord(v: i64) -> (r: i64)
    ensures
        r as int == spec_clamp(v as int),
{
    if v < -COORD_LIMIT {
        -COORD_LIMIT
    } else if v > COORD_LIMIT {
        COORD_LIMIT
    } else {
        v
    }
}

/// The product of two values whose magnitudes stay within `2^31`.
pub fn mul64(a: i64, b: i64) -> (r: i64)
    requires
        abs(a as int) <= 0x8000_0000,
        abs(b as int) <= 0x8000_0000,
    ensures
        r as int == a as int * b as int,
{
    proof {
        lemma_abs_mul_bound(a as int, b as int, 0x8000_0000, 0x8000_0000);
    }
    a * b
}

/// `abs(a * b) <= bound_a * bound_b` whenever the factors respect the bounds.
pub proof fn lemma_abs_mul_bound(a: int, b: int, bound_a: int, bound_b: int)
    requires
        abs(a) <= bound_a,
        abs(b) <= bound_b,
    ensures
        abs(a * b) <= bound_a * bound_b,
{
    assert(abs(a * b) <= bound_a * bound_b) by (nonlinear_arith)
        requires
            abs(a) <= bound_a,
            abs(b) <= bound_b,
    ;
}

/// Truncating division never grows the magnitude of the dividend.
pub proof fn lemma_tdiv_abs_le(a: int, b: int)
    requires
        b >= 1,
    ensures
        abs(spec_tdiv(a, b)) <= abs(a),
        a >= 0 ==> 0 <= spec_tdiv(a, b),
        a <= 0 ==> spec_tdiv(a, b) <= 0,
{
    assert(abs(spec_tdiv(a, b)) <= abs(a) && (a >= 0 ==> 0 <= spec_tdiv(a, b)) && (a <= 0
        ==> spec_tdiv(a, b) <= 0)) by (nonlinear_arith)
        requires
            b >= 1,
    ;
}

/// A dividend no larger than `b * k` gives a quotient no larger than `k`.
pub proof fn lemma_tdiv_quotient_bound(a: int, b: int, k: int)
    requires
        b >= 1,
        abs(a) <= b * k,
    ensures
        abs(spec_tdiv(a, b)) <= k,
{
    assert(abs(spec_tdiv(a, b)) <= k) by (nonlinear_arith)
        requires
            b >= 1,
            abs(a) <= b * k,
    ;
}

/// Scaling `x` by a factor `m / d` with `abs(m) <= d` never grows `x`.
pub proof fn lemma_tdiv_scaled(x: int, m: int, d: int)
    requires
        d >= 1,
        abs(m) <= d,
    ensures
        abs(spec_tdiv(x * m, d)) <= abs(x),
{
    assert(abs(spec_tdiv(x * m, d)) <= abs(x)) by (nonlinear_arith)
        requires
            d >= 1,
            abs(m) <= d,
    ;
}

/// When the divisor divides the dividend, truncating division is exact.
pub proof fn lemma_tdiv_exact(k: int, b: int)
    requires
        b > 0,
    ensures
        spec_tdiv(k * b, b) == k,
{
    assert(spec_tdiv(k * b, b) == k) by (nonlinear_arith)
        requires
            b > 0,
    ;
}

/// Division truncating toward zero, exactly `spec_tdiv`.
pub fn tdiv(a: i64, b: i64) -> (q: i64)
    requires
        b > 0,
        a != i64::MIN,
    ensures
        q as int == spec_tdiv(a as int, b as int),
{
    proof {
        lemma_tdiv_abs_le(a as int, b as int);
    }
    if a >= 0 {
        let q0: u64 = (a as u64) / (b as u64);
        q0 as i64
    } else {
        let q0: u64 = ((-a) as u64) / (b as u64);
        -(q0 as i64)
    }
}

/// `r` is the floor of the square root of `n`.
pub open spec fn is_isqrt(n: int, r: int) -> bool {
    &&& 0 <= r
    &&& r * r <= n
    &&& n < (r + 1) * (r + 1)
}

/// The floor of the square root of a nonnegative value.
pub open spec fn spec_sqrt(n: int) -> int {
    choose|r: int| is_isqrt(n, r)
}

/// A floor square root exists for every nonnegative value, and `spec_sqrt`
/// denotes it.
pub proof fn lemma_sqrt_exists(n: int)
    requires
        n >= 0,
    ensures
        is_isqrt(n, spec_sqrt(n)),
    decreases n,
{
    if n == 0 {
        assert(is_isqrt(0, 0));
    } else {
        lemma_sqrt_exists(n - 1);
        let p = spec_sqrt(n - 1);
        if (p + 1) * (p + 1) <= n {
            assert((p + 2) * (p + 2) > n) by (nonlinear_arith)
                requires
                    n - 1 < (p + 1) * (p + 1),
                    0 <= p,
            ;
            assert(is_isqrt(n, p + 1));
        } else {
            assert(is_isqrt(n, p));
        }
    }
}

/// The floor square root is unique.
pub proof fn lemma_sqrt_unique(n: int, r1: int, r2: int)
    requires
        is_isqrt(n, r1),
        is_isqrt(n, r2),
    ensures
        r1 == r2,
{
    assert(r1 == r2) by (nonlinear_arith)
        requires
            0 <= r1 && r1 * r1 <= n && n < (r1 + 1) * (r1 + 1),
            0 <= r2 && r2 * r2 <= n && n < (r2 + 1) * (r2 + 1),
    ;
}

/// Floor integer square root by bisection.
pub fn isqrt(n: u64) -> (r: u64)
    ensures
        r as int == spec_sqrt(n as int),
        is_isqrt(n as int, r as int),
{
    proof {
        lemma_sqrt_exists(n as int);
    }
    if n == 0 {
        proof {
            lemma_sqrt_unique(n as int, 0, spec_sqrt(n as int));
        }
        return 0;
    }
    let mut lo: u64 = 0;
    let mut hi: u64 = 0x1_0000_0000;
    while lo + 1 < hi
        invariant
            lo < hi <= 0x1_0000_0000,
            (lo as int) * (lo as int) <= n as int,
            (n as int) < (hi as int) * (hi as int),
        decreases hi - lo,
    {
        let mid: u64 = lo + (hi - lo) / 2;
        proof {
            assert((mid as int) * (mid as int) <= 0x1_0000_0000_0000_0000) by (nonlinear_arith)
                requires
                    mid <= 0x1_0000_0000,
            ;
        }
        if (mid as u128) * (mid as u128) <= n as u128 {
            lo = mid;
        } else {
            hi = mid;
        }
    }
    proof {
        lemma_sqrt_unique(n as int, lo as int, spec_sqrt(n as int));
    }
    lo
}

} // verus!

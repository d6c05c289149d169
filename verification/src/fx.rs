//! Saturating fixed-point arithmetic on 64-bit integers.
//!
//! A quantity is an `i64` holding the real value scaled by [`FX_ONE`]
//! (nine decimal places). Products and quotients truncate toward zero, as
//! Rust's integer division does, and every operation saturates at the `i64`
//! range, so each function is total and carries an exact specification.

use vstd::prelude::*;

verus! {

/// Fixed-point steps per whole unit.
pub const FX_ONE: i64 = 1_000_000_000;

/// Magnitude of an integer.
pub open spec fn iabs(a: int) -> int {
    if a >= 0 {
        a
    } else {
        -a
    }
}

/// The value of `x` saturated to the `i64` range.
pub open spec fn sat64(x: int) -> int {
    if x > i64::MAX {
        i64::MAX as int
    } else if x < i64::MIN {
        i64::MIN as int
    } else {
        x
    }
}

/// Quotient truncated toward zero, as Rust's `/` computes it; 0 when `b == 0`.
pub open spec fn quot(a: int, b: int) -> int {
    if b == 0 {
        0
    } else if (a >= 0) == (b >= 0) {
        iabs(a) / iabs(b)
    } else {
        -(iabs(a) / iabs(b))
    }
}

/// Saturating sum of two fixed-point values.
pub open spec fn fx_add_s(a: int, b: int) -> int {
    sat64(a + b)
}

/// Saturating difference of two fixed-point values.
pub open spec fn fx_sub_s(a: int, b: int) -> int {
    sat64(a - b)
}

/// Saturating fixed-point product: `a * b` rescaled back by `FX_ONE`.
pub open spec fn fx_mul_s(a: int, b: int) -> int {
    sat64(quot(a * b, FX_ONE as int))
}

/// Saturating fixed-point quotient: `a / b` kept at scale `FX_ONE`;
/// 0 when `b == 0`.
pub open spec fn fx_div_s(a: int, b: int) -> int {
    if b == 0 {
        0
    } else {
        sat64(quot(a * (FX_ONE as int), b))
    }
}

/// Magnitude of `a` as an unsigned value; total, unlike `i64::abs`.
pub fn abs_mag(a: i64) -> (r: u64)
    ensures
        r == iabs(a as int),
{
    if a >= 0 {
        a as u64
    } else if a == i64::MIN {
        9_223_372_036_854_775_808u64
    } else {
        (-a) as u64
    }
}

/// Reassembles a sign and a magnitude into an `i64`, saturating.
fn sat_from_parts(neg: bool, mag: u128) -> (r: i64)
    ensures
        r as int == sat64(if neg { -(mag as int) } else { mag as int }),
{
    if neg {
        if mag >= 9_223_372_036_854_775_808u128 {
            i64::MIN
        } else {
            -(mag as i64)
        }
    } else {
        if mag > i64::MAX as u128 {
            i64::MAX
        } else {
            mag as i64
        }
    }
}

/// Saturating addition.
pub fn fx_add(a: i64, b: i64) -> (r: i64)
    ensures
        r as int == fx_add_s(a as int, b as int),
{
    let s: i128 = a as i128 + b as i128;
    if s > i64::MAX as i128 {
        i64::MAX
    } else if s < i64::MIN as i128 {
        i64::MIN
    } else {
        s as i64
    }
}

/// Saturating subtraction.
pub fn fx_sub(a: i64, b: i64) -> (r: i64)
    ensures
        r as int == fx_sub_s(a as int, b as int),
{
    let s: i128 = a as i128 - b as i128;
    if s > i64::MAX as i128 {
        i64::MAX
    } else if s < i64::MIN as i128 {
        i64::MIN
    } else {
        s as i64
    }
}

/// The magnitude of a product is the product of the magnitudes, and the
/// product is nonnegative exactly when the signs agree or a factor is zero.
proof fn lemma_mul_abs_sign(a: int, b: int)
    ensures
        iabs(a * b) == iabs(a) * iabs(b),
        (a * b >= 0) <==> (a == 0 || b == 0 || ((a > 0) == (b > 0))),
{
    broadcast use {
        vstd::arithmetic::mul::lemma_mul_strictly_positive,
        vstd::arithmetic::mul::lemma_mul_unary_negation,
        vstd::arithmetic::mul::lemma_mul_cancels_negatives,
        vstd::arithmetic::mul::lemma_mul_by_zero_is_zero,
        vstd::arithmetic::mul::lemma_mul_is_commutative,
    };

    if a == 0 || b == 0 {
    } else if a > 0 && b > 0 {
        assert(a * b > 0);
    } else if a < 0 && b < 0 {
        assert(a * b == (-a) * (-b));
        assert((-a) * (-b) > 0);
    } else if a > 0 && b < 0 {
        assert(a * (-b) > 0);
        assert(a * b == -(a * (-b)));
    } else {
        assert((-a) * b > 0);
        assert(a * b == -((-a) * b));
    }
}

/// Truncating division of one plain integer by another, computed on
/// magnitudes so that the rounding direction is explicit; 0 when `b == 0`.
pub fn sdiv(a: i64, b: i64) -> (r: i64)
    ensures
        r as int == sat64(quot(a as int, b as int)),
{
    if b == 0 {
        return 0;
    }
    let neg: bool = (a < 0) != (b < 0);
    let q: u128 = (abs_mag(a) as u128) / (abs_mag(b) as u128);
    proof {
        let ai = a as int;
        let bi = b as int;
        if (ai >= 0) == (bi >= 0) {
            assert(!neg);
            assert(q == iabs(ai) / iabs(bi));
        } else {
            assert(neg);
            assert(q == iabs(ai) / iabs(bi));
        }
    }
    sat_from_parts(neg, q)
}

/// Saturating fixed-point multiplication.
pub fn fx_mul(a: i64, b: i64) -> (r: i64)
    ensures
        r as int == fx_mul_s(a as int, b as int),
{
    let neg: bool = (a < 0) != (b < 0);
    let ma: u128 = abs_mag(a) as u128;
    let mb: u128 = abs_mag(b) as u128;
    proof {
        vstd::arithmetic::mul::lemma_mul_upper_bound(ma as int, u64::MAX as int, mb as int, u64::MAX as int);
    }
    let mag: u128 = ma * mb;
    let q: u128 = mag / (FX_ONE as u128);
    proof {
        lemma_mul_abs_sign(a as int, b as int);
        let p = (a as int) * (b as int);
        assert(mag == iabs(p));
        if p == 0 {
            vstd::arithmetic::div_mod::lemma_div_of0(FX_ONE as int);
        } else if p > 0 {
            assert(!neg);
        } else {
            assert(neg);
        }
        assert(q == iabs(p) / (FX_ONE as int));
    }
    sat_from_parts(neg, q)
}

/// Saturating fixed-point division; 0 when the divisor is 0.
pub fn fx_div(a: i64, b: i64) -> (r: i64)
    ensures
        r as int == fx_div_s(a as int, b as int),
{
    if b == 0 {
        return 0;
    }
    let neg: bool = (a < 0) != (b < 0);
    let ma: u128 = abs_mag(a) as u128;
    let mag: u128 = ma * (FX_ONE as u128);
    let q: u128 = mag / (abs_mag(b) as u128);
    proof {
        vstd::arithmetic::mul::lemma_mul_upper_bound(ma as int, u64::MAX as int, FX_ONE as int, FX_ONE as int);
        lemma_mul_abs_sign(a as int, FX_ONE as int);
        let p = (a as int) * (FX_ONE as int);
        assert(mag == iabs(p));
        let bi = b as int;
        if p == 0 {
            assert(a == 0);
            vstd::arithmetic::div_mod::lemma_div_of0(iabs(bi));
            assert(q == 0);
            assert(quot(p, bi) == 0);
        } else if p > 0 {
            assert(a > 0);
            assert(((p >= 0) == (bi >= 0)) == !neg);
        } else {
            assert(a < 0);
            assert(((p >= 0) == (bi >= 0)) == !neg);
        }
        assert(q == iabs(p) / iabs(bi));
    }
    sat_from_parts(neg, q)
}

/// The floor of the square root of a nonnegative integer.
pub open spec fn sqrt_floor(n: int) -> int
    recommends
        n >= 0,
{
    choose|r: int| 0 <= r && #[trigger] (r * r) <= n && n < (r + 1) * (r + 1)
}

/// A value meeting the square-root bounds is the floor square root.
pub proof fn lemma_sqrt_floor_unique(n: int, r: int)
    requires
        0 <= r,
        r * r <= n,
        n < (r + 1) * (r + 1),
    ensures
        sqrt_floor(n) == r,
{
    assert(exists|q: int| 0 <= q && #[trigger] (q * q) <= n && n < (q + 1) * (q + 1)) by {
        assert(0 <= r && #[trigger] (r * r) <= n && n < (r + 1) * (r + 1));
    }
    let q = sqrt_floor(n);
    assert(0 <= q && #[trigger] (q * q) <= n && n < (q + 1) * (q + 1));
    if q < r {
        assert((q + 1) * (q + 1) <= r * r) by (nonlinear_arith)
            requires
                0 <= q,
                q < r;
    }
    if r < q {
        assert((r + 1) * (r + 1) <= q * q) by (nonlinear_arith)
            requires
                0 <= r,
                r < q;
    }
}

/// Floor square root of a 128-bit integer, by binary search over the result.
pub fn isqrt_u128(n: u128) -> (r: u64)
    ensures
        (r as int) * (r as int) <= n as int,
        (n as int) < (r as int + 1) * (r as int + 1),
{
    let mut lo: u128 = 0;
    let mut hi: u128 = 1u128 << 64;
    proof {
        assert((1u128 << 64) as int == 0x1_0000_0000_0000_0000int) by (bit_vector);
        assert((n as int) < ((1u128 << 64) as int) * ((1u128 << 64) as int)) by (nonlinear_arith)
            requires
                (1u128 << 64) as int == 0x1_0000_0000_0000_0000int,
                n as int <= u128::MAX as int;
    }
    while lo + 1 < hi
        invariant
            lo < hi,
            hi <= 1u128 << 64,
            (1u128 << 64) as int == 0x1_0000_0000_0000_0000int,
            (lo as int) * (lo as int) <= n as int,
            (n as int) < (hi as int) * (hi as int),
        decreases hi - lo,
    {
        let mid: u128 = lo + (hi - lo) / 2;
        proof {
            assert((mid as int) * (mid as int) < 0x1_0000_0000_0000_0000_0000_0000_0000_0000int)
                by (nonlinear_arith)
                requires
                    (mid as int) < 0x1_0000_0000_0000_0000int;
        }
        let sq: u128 = mid * mid;
        if sq <= n {
            lo = mid;
        } else {
            hi = mid;
        }
    }
    proof {
        assert(hi == lo + 1);
    }
    lo as u64
}

/// Floor square root of a fixed-point value at fixed-point scale;
/// 0 for nonpositive input.
pub open spec fn fx_sqrt_s(a: int) -> int {
    if a <= 0 {
        0
    } else {
        sqrt_floor(a * (FX_ONE as int))
    }
}

/// Fixed-point square root.
pub fn fx_sqrt(a: i64) -> (r: i64)
    ensures
        r as int == fx_sqrt_s(a as int),
        r >= 0,
{
    if a <= 0 {
        return 0;
    }
    proof {
        vstd::arithmetic::mul::lemma_mul_upper_bound(
            a as int,
            i64::MAX as int,
            FX_ONE as int,
            FX_ONE as int,
        );
    }
    let n: u128 = (a as u128) * (FX_ONE as u128);
    let s: u64 = isqrt_u128(n);
    proof {
        lemma_sqrt_floor_unique(n as int, s as int);
        assert(s as int <= 4_000_000_000_000_000int) by (nonlinear_arith)
            requires
                (s as int) * (s as int) <= n as int,
                n as int <= (i64::MAX as int) * (FX_ONE as int);
    }
    s as i64
}

/// A whole number lifted to fixed-point scale, saturating.
pub open spec fn fx_from_int_s(k: int) -> int {
    sat64(k * (FX_ONE as int))
}

/// Lifts a whole number of units to fixed point.
pub fn fx_from_int(k: i64) -> (r: i64)
    ensures
        r as int == fx_from_int_s(k as int),
{
    proof {
        assert((k as int) * (FX_ONE as int) <= i128::MAX && (k as int) * (FX_ONE as int)
            >= i128::MIN) by (nonlinear_arith)
            requires
                i64::MIN <= k <= i64::MAX;
    }
    let p: i128 = (k as i128) * (FX_ONE as i128);
    if p > i64::MAX as i128 {
        i64::MAX
    } else if p < i64::MIN as i128 {
        i64::MIN
    } else {
        p as i64
    }
}

/// One half turn (pi) at fixed-point scale, rounded to the nearest step.
pub const FX_PI: i64 = 3_141_592_654;

/// One full turn (two pi) at fixed-point scale.
pub const FX_TAU: i64 = 6_283_185_307;

/// One quarter turn (pi over two) at fixed-point scale.
pub const FX_HALF_PI: i64 = 1_570_796_327;

/// `x` clamped to the closed interval `[lo, hi]`.
pub open spec fn clamp_s(x: int, lo: int, hi: int) -> int {
    if x < lo {
        lo
    } else if x > hi {
        hi
    } else {
        x
    }
}

/// Clamps a value to a closed interval.
pub fn fx_clamp(x: i64, lo: i64, hi: i64) -> (r: i64)
    requires
        lo <= hi,
    ensures
        r as int == clamp_s(x as int, lo as int, hi as int),
{
    if x < lo {
        lo
    } else if x > hi {
        hi
    } else {
        x
    }
}

/// An angle reduced to `[-FX_PI, FX_PI)` by whole turns.
pub open spec fn angle_norm_s(a: int) -> int {
    let m = a % (FX_TAU as int);
    if m >= FX_PI {
        m - FX_TAU
    } else {
        m
    }
}

/// An angle in `[-FX_PI, FX_PI)` folded into `[-FX_HALF_PI, FX_HALF_PI]`,
/// mirroring around the quarter turns as the sine is symmetric.
pub open spec fn angle_fold_s(m: int) -> int {
    if m > FX_HALF_PI {
        FX_PI - m
    } else if m < -FX_HALF_PI {
        -FX_PI - m
    } else {
        m
    }
}

/// Degree-seven sine polynomial on a folded angle, in fixed point.
pub open spec fn sin_poly_s(x: int) -> int {
    let x2 = fx_mul_s(x, x);
    let x3 = fx_mul_s(x2, x);
    let x5 = fx_mul_s(x3, x2);
    let x7 = fx_mul_s(x5, x2);
    let t = fx_sub_s(fx_add_s(fx_sub_s(x, quot(x3, 6)), quot(x5, 120)), quot(x7, 5040));
    clamp_s(t, -(FX_ONE as int), FX_ONE as int)
}

/// Fixed-point sine of a fixed-point angle in radians.
pub open spec fn fx_sin_s(a: int) -> int {
    sin_poly_s(angle_fold_s(angle_norm_s(a)))
}

/// Fixed-point cosine, phase-shifted sine.
pub open spec fn fx_cos_s(a: int) -> int {
    fx_sin_s(fx_add_s(a, FX_HALF_PI as int))
}

/// Reduces an angle by whole turns to `[0, FX_TAU)` (the Euclidean remainder).
fn emod_tau(a: i64) -> (m: i64)
    ensures
        m as int == (a as int) % (FX_TAU as int),
{
    broadcast use vstd::arithmetic::mul::lemma_mul_unary_negation;

    if a >= 0 {
        let m: u64 = (a as u64) % (FX_TAU as u64);
        m as i64
    } else {
        let r: u64 = abs_mag(a) % (FX_TAU as u64);
        proof {
            let na = iabs(a as int);
            let tau = FX_TAU as int;
            vstd::arithmetic::div_mod::lemma_fundamental_div_mod(na, tau);
            let q = na / tau;
            assert(na == tau * q + r);
            assert(a as int == (-q) * tau + (-(r as int)));
            if r == 0 {
                vstd::arithmetic::div_mod::lemma_fundamental_div_mod_converse_mod(
                    a as int,
                    tau,
                    -q,
                    0,
                );
            } else {
                assert(a as int == (-q - 1) * tau + (tau - r)) by {
                    assert((-q - 1) * tau == (-q) * tau - tau) by (nonlinear_arith);
                }
                vstd::arithmetic::div_mod::lemma_fundamental_div_mod_converse_mod(
                    a as int,
                    tau,
                    -q - 1,
                    tau - r,
                );
            }
        }
        if r == 0 {
            0
        } else {
            FX_TAU - (r as i64)
        }
    }
}

/// Fixed-point sine.
pub fn fx_sin(a: i64) -> (r: i64)
    ensures
        r as int == fx_sin_s(a as int),
        -FX_ONE <= r <= FX_ONE,
{
    let m0: i64 = emod_tau(a);
    let m1: i64 = if m0 >= FX_PI {
        m0 - FX_TAU
    } else {
        m0
    };
    let x: i64 = if m1 > FX_HALF_PI {
        FX_PI - m1
    } else if m1 < -FX_HALF_PI {
        -FX_PI - m1
    } else {
        m1
    };
    let x2: i64 = fx_mul(x, x);
    let x3: i64 = fx_mul(x2, x);
    let x5: i64 = fx_mul(x3, x2);
    let x7: i64 = fx_mul(x5, x2);
    let t: i64 = fx_sub(fx_add(fx_sub(x, sdiv(x3, 6)), sdiv(x5, 120)), sdiv(x7, 5040));
    fx_clamp(t, -FX_ONE, FX_ONE)
}

/// Fixed-point cosine.
pub fn fx_cos(a: i64) -> (r: i64)
    ensures
        r as int == fx_cos_s(a as int),
        -FX_ONE <= r <= FX_ONE,
{
    fx_sin(fx_add(a, FX_HALF_PI))
}

} // verus!

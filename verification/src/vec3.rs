//! Three-component vectors of fixed-point scalars.
//!
//! Every operation is defined componentwise from the saturating scalar
//! arithmetic in [`crate::fx`], so each executable function returns exactly
//! the vector its specification names.

use vstd::prelude::*;

use crate::fx::{
    fx_add, fx_add_s, fx_div, fx_div_s, fx_mul, fx_mul_s, fx_sqrt, fx_sqrt_s, fx_sub, fx_sub_s,
    quot, sat64, sdiv,
};

verus! {

/// A point or direction in simulation space, in fixed-point world units.
#[derive(Clone, Copy, Debug, PartialEq, Eq, Structural)]
pub struct V3 {
    pub x: i64,
    pub y: i64,
    pub z: i64,
}

/// The zero vector.
pub open spec fn v3_zero_s() -> V3 {
    V3 { x: 0, y: 0, z: 0 }
}

/// Componentwise saturating sum.
pub open spec fn v3_add_s(a: V3, b: V3) -> V3 {
    V3 {
        x: fx_add_s(a.x as int, b.x as int) as i64,
        y: fx_add_s(a.y as int, b.y as int) as i64,
        z: fx_add_s(a.z as int, b.z as int) as i64,
    }
}

/// Componentwise saturating difference.
pub open spec fn v3_sub_s(a: V3, b: V3) -> V3 {
    V3 {
        x: fx_sub_s(a.x as int, b.x as int) as i64,
        y: fx_sub_s(a.y as int, b.y as int) as i64,
        z: fx_sub_s(a.z as int, b.z as int) as i64,
    }
}

/// Each component scaled by the fixed-point factor `s`.
pub open spec fn v3_scale_s(a: V3, s: int) -> V3 {
    V3 {
        x: fx_mul_s(a.x as int, s) as i64,
        y: fx_mul_s(a.y as int, s) as i64,
        z: fx_mul_s(a.z as int, s) as i64,
    }
}

/// Each component divided by the plain integer `k` (an average over `k`
/// samples); the zero vector when `k == 0`.
pub open spec fn v3_sdiv_s(a: V3, k: int) -> V3 {
    V3 {
        x: sat64(quot(a.x as int, k)) as i64,
        y: sat64(quot(a.y as int, k)) as i64,
        z: sat64(quot(a.z as int, k)) as i64,
    }
}

/// Componentwise cross product in saturating fixed point.
pub open spec fn v3_cross_s(a: V3, b: V3) -> V3 {
    V3 {
        x: fx_sub_s(fx_mul_s(a.y as int, b.z as int), fx_mul_s(a.z as int, b.y as int)) as i64,
        y: fx_sub_s(fx_mul_s(a.z as int, b.x as int), fx_mul_s(a.x as int, b.z as int)) as i64,
        z: fx_sub_s(fx_mul_s(a.x as int, b.y as int), fx_mul_s(a.y as int, b.x as int)) as i64,
    }
}

/// Saturating squared length at fixed-point scale.
pub open spec fn v3_len_sq_s(a: V3) -> int {
    fx_add_s(
        fx_add_s(fx_mul_s(a.x as int, a.x as int), fx_mul_s(a.y as int, a.y as int)),
        fx_mul_s(a.z as int, a.z as int),
    )
}

/// Length: fixed-point square root of the squared length.
pub open spec fn v3_len_s(a: V3) -> int {
    fx_sqrt_s(v3_len_sq_s(a))
}

/// The unit vector along `a` at fixed-point scale; zero when the length
/// rounds to zero.
pub open spec fn v3_normalize_s(a: V3) -> V3 {
    let len = v3_len_s(a);
    if len == 0 {
        v3_zero_s()
    } else {
        V3 {
            x: fx_div_s(a.x as int, len) as i64,
            y: fx_div_s(a.y as int, len) as i64,
            z: fx_div_s(a.z as int, len) as i64,
        }
    }
}

/// `a` rescaled to length at most `m`: untouched when already within, else
/// scaled by the fixed-point ratio `m / len`.
pub open spec fn v3_clamp_mag_s(a: V3, m: int) -> V3 {
    let len = v3_len_s(a);
    if len > m {
        v3_scale_s(a, fx_div_s(m, len))
    } else {
        a
    }
}

impl V3 {
    /// The zero vector.
    pub fn zero() -> (r: V3)
        ensures
            r == v3_zero_s(),
    {
        V3 { x: 0, y: 0, z: 0 }
    }

    /// Builds a vector from its components.
    pub fn new(x: i64, y: i64, z: i64) -> (r: V3)
        ensures
            r == (V3 { x, y, z }),
    {
        V3 { x, y, z }
    }
}

/// Componentwise saturating sum.
pub fn v3_add(a: V3, b: V3) -> (r: V3)
    ensures
        r == v3_add_s(a, b),
{
    V3 { x: fx_add(a.x, b.x), y: fx_add(a.y, b.y), z: fx_add(a.z, b.z) }
}

/// Componentwise saturating difference.
pub fn v3_sub(a: V3, b: V3) -> (r: V3)
    ensures
        r == v3_sub_s(a, b),
{
    V3 { x: fx_sub(a.x, b.x), y: fx_sub(a.y, b.y), z: fx_sub(a.z, b.z) }
}

/// Scales a vector by a fixed-point factor.
pub fn v3_scale(a: V3, s: i64) -> (r: V3)
    ensures
        r == v3_scale_s(a, s as int),
{
    V3 { x: fx_mul(a.x, s), y: fx_mul(a.y, s), z: fx_mul(a.z, s) }
}

/// Divides each component by a plain integer count.
pub fn v3_sdiv(a: V3, k: i64) -> (r: V3)
    ensures
        r == v3_sdiv_s(a, k as int),
{
    V3 { x: sdiv(a.x, k), y: sdiv(a.y, k), z: sdiv(a.z, k) }
}

/// Cross product of two vectors.
pub fn v3_cross(a: V3, b: V3) -> (r: V3)
    ensures
        r == v3_cross_s(a, b),
{
    V3 {
        x: fx_sub(fx_mul(a.y, b.z), fx_mul(a.z, b.y)),
        y: fx_sub(fx_mul(a.z, b.x), fx_mul(a.x, b.z)),
        z: fx_sub(fx_mul(a.x, b.y), fx_mul(a.y, b.x)),
    }
}

/// Saturating squared length.
pub fn v3_len_sq(a: V3) -> (r: i64)
    ensures
        r as int == v3_len_sq_s(a),
{
    fx_add(fx_add(fx_mul(a.x, a.x), fx_mul(a.y, a.y)), fx_mul(a.z, a.z))
}

/// Fixed-point length.
pub fn v3_len(a: V3) -> (r: i64)
    ensures
        r as int == v3_len_s(a),
        r >= 0,
{
    fx_sqrt(v3_len_sq(a))
}

/// Unit vector along `a`; zero when the length rounds to zero.
pub fn v3_normalize(a: V3) -> (r: V3)
    ensures
        r == v3_normalize_s(a),
{
    let len: i64 = v3_len(a);
    if len == 0 {
        V3::zero()
    } else {
        V3 { x: fx_div(a.x, len), y: fx_div(a.y, len), z: fx_div(a.z, len) }
    }
}

/// Clamps a vector to length at most `m`.
pub fn v3_clamp_mag(a: V3, m: i64) -> (r: V3)
    ensures
        r == v3_clamp_mag_s(a, m as int),
{
    let len: i64 = v3_len(a);
    if len > m {
        v3_scale(a, fx_div(m, len))
    } else {
        a
    }
}

} // verus!

//! Integer 2D points and affine transforms for the overlay.
//!
//! All coordinates are fixed-point: `UNITS_PER_WORLD` coordinate units make
//! one world unit, so fractional world lengths (a contact marker's
//! 0.3-unit arm, say) stay exact integers.

use vstd::prelude::*;

verus! {

/// Fixed-point scale: coordinate units per world unit.
pub const UNITS_PER_WORLD: i64 = 1000;

/// A 2D point or vector in fixed-point overlay coordinates.
#[derive(Clone, Copy, PartialEq, Eq, Structural, Debug)]
pub struct Vec2 {
    pub x: i64,
    pub y: i64,
}

/// An affine map from a collider's local space into world space.
///
/// The linear part (rotation, scale, shear) is stored row-major and scaled
/// by `UNITS_PER_WORLD`, so the identity map has
/// `m00 == m11 == UNITS_PER_WORLD`. The translation is in fixed-point
/// coordinates.
#[derive(Clone, Copy, PartialEq, Eq, Structural, Debug)]
pub struct Transform2 {
    pub m00: i32,
    pub m01: i32,
    pub m10: i32,
    pub m11: i32,
    pub tx: i64,
    pub ty: i64,
}

/// Truncating (round-toward-zero) division by the fixed-point scale.
pub open spec fn unscale(v: int) -> int {
    if v >= 0 {
        v / (UNITS_PER_WORLD as int)
    } else {
        -((-v) / (UNITS_PER_WORLD as int))
    }
}

/// The world-space x coordinate of local point `p` under transform `t`.
pub open spec fn world_x(t: Transform2, p: Vec2) -> int {
    unscale(t.m00 * p.x + t.m01 * p.y) + t.tx
}

/// The world-space y coordinate of local point `p` under transform `t`.
pub open spec fn world_y(t: Transform2, p: Vec2) -> int {
    unscale(t.m10 * p.x + t.m11 * p.y) + t.ty
}

/// Whether a mathematical coordinate fits the fixed-point range.
pub open spec fn fits_i64(v: int) -> bool {
    i64::MIN <= v <= i64::MAX
}

/// The transform maps `p` to coordinates inside the fixed-point range.
pub open spec fn maps_in_range(t: Transform2, p: Vec2) -> bool {
    fits_i64(world_x(t, p)) && fits_i64(world_y(t, p))
}

/// The world-space image of `p` under `t`, as a point.
pub open spec fn world_point(t: Transform2, p: Vec2) -> Vec2 {
    Vec2 { x: world_x(t, p) as i64, y: world_y(t, p) as i64 }
}

/// Divides by the fixed-point scale, rounding toward zero.
fn unscale_i128(v: i128) -> (r: i128)
    requires
        i128::MIN < v,
    ensures
        r == unscale(v as int),
{
    if v >= 0 {
        let q: u128 = (v as u128) / (UNITS_PER_WORLD as u128);
        q as i128
    } else {
        let m: u128 = ((-v) as u128) / (UNITS_PER_WORLD as u128);
        -(m as i128)
    }
}

impl Transform2 {
    /// The identity map: no rotation, unit scale, zero translation.
    pub fn identity() -> (r: Transform2)
        ensures
            r == (Transform2 {
                m00: UNITS_PER_WORLD as i32,
                m01: 0,
                m10: 0,
                m11: UNITS_PER_WORLD as i32,
                tx: 0,
                ty: 0,
            }),
    {
        Transform2 {
            m00: UNITS_PER_WORLD as i32,
            m01: 0,
            m10: 0,
            m11: UNITS_PER_WORLD as i32,
            tx: 0,
            ty: 0,
        }
    }

    /// A pure translation by `(tx, ty)`, with the identity linear part.
    pub fn from_translation(tx: i64, ty: i64) -> (r: Transform2)
        ensures
            r == (Transform2 {
                m00: UNITS_PER_WORLD as i32,
                m01: 0,
                m10: 0,
                m11: UNITS_PER_WORLD as i32,
                tx,
                ty,
            }),
    {
        Transform2 { m00: UNITS_PER_WORLD as i32, m01: 0, m10: 0, m11: UNITS_PER_WORLD as i32, tx, ty }
    }
}

/// Maps the local-space point `p` into world space through `t`.
pub fn transform_point(t: &Transform2, p: Vec2) -> (r: Vec2)
    requires
        maps_in_range(*t, p),
    ensures
        r == world_point(*t, p),
        r.x == world_x(*t, p),
        r.y == world_y(*t, p),
{
    proof {
        lemma_linear_part_bounded(t.m00 as int, p.x as int);
        lemma_linear_part_bounded(t.m01 as int, p.y as int);
        lemma_linear_part_bounded(t.m10 as int, p.x as int);
        lemma_linear_part_bounded(t.m11 as int, p.y as int);
    }
    let xl: i128 = (t.m00 as i128) * (p.x as i128) + (t.m01 as i128) * (p.y as i128);
    let yl: i128 = (t.m10 as i128) * (p.x as i128) + (t.m11 as i128) * (p.y as i128);
    let xs: i128 = unscale_i128(xl);
    let ys: i128 = unscale_i128(yl);
    proof {
        lemma_unscale_bounded(xl as int);
        lemma_unscale_bounded(yl as int);
    }
    let wx: i128 = xs + (t.tx as i128);
    let wy: i128 = ys + (t.ty as i128);
    Vec2 { x: wx as i64, y: wy as i64 }
}

/// A product of a scaled linear coefficient and a fixed-point coordinate
/// stays well inside the 128-bit range.
proof fn lemma_linear_part_bounded(m: int, v: int)
    requires
        i32::MIN <= m <= i32::MAX,
        i64::MIN <= v <= i64::MAX,
    ensures
        -0x4000_0000_0000_0000_0000_0000 <= m * v <= 0x4000_0000_0000_0000_0000_0000,
{
    assert(-0x4000_0000_0000_0000_0000_0000 <= m * v <= 0x4000_0000_0000_0000_0000_0000)
        by (nonlinear_arith)
        requires
            i32::MIN <= m <= i32::MAX,
            i64::MIN <= v <= i64::MAX,
    ;
}

/// Unscaling never grows a value's magnitude.
proof fn lemma_unscale_bounded(v: int)
    ensures
        v >= 0 ==> 0 <= unscale(v) <= v,
        v < 0 ==> v <= unscale(v) <= 0,
{
    if v >= 0 {
        vstd::arithmetic::div_mod::lemma_fundamental_div_mod(v, UNITS_PER_WORLD as int);
    } else {
        vstd::arithmetic::div_mod::lemma_fundamental_div_mod(-v, UNITS_PER_WORLD as int);
    }
}

} // verus!

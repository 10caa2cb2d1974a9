//! Fixed-point angles and trigonometry.
//!
//! An angle is a number of microturns: `TURN` microturns make one full
//! rotation.  Sine and cosine are scaled by `UNIT`, so they range over
//! `[-UNIT, UNIT]`.  The sine is a rational approximation that is exact at
//! every quarter turn and stays within the unit interval everywhere.

use vstd::prelude::*;

verus! {

/// One full rotation, in microturns.
pub const TURN: i64 = 1_000_000;

/// Half a rotation, in microturns.
pub const HALF_TURN: i64 = 500_000;

/// A quarter rotation, in microturns.
pub const QUARTER_TURN: i64 = 250_000;

/// The fixed-point scale: 1000 steps per world unit.
pub const UNIT: i64 = 1000;

/// Sine over the first half turn, scaled by `UNIT`: with
/// `p = h * (HALF_TURN - h)`, the value is `16000 p / (5 HALF_TURN^2 - 4 p)`.
pub open spec fn sin_half_spec(h: int) -> int {
    (16000 * (h * (500_000 - h))) / (1_250_000_000_000 - 4 * (h * (500_000 - h)))
}

/// Sine of an angle in `[0, TURN)`, scaled by `UNIT`.
pub open spec fn sin_spec(a: int) -> int {
    if a < 500_000 {
        sin_half_spec(a)
    } else {
        -sin_half_spec(a - 500_000)
    }
}

/// Cosine of an angle in `[0, TURN)`, scaled by `UNIT`.
pub open spec fn cos_spec(a: int) -> int {
    sin_spec(if a + 250_000 < 1_000_000 {
        a + 250_000
    } else {
        a + 250_000 - 1_000_000
    })
}

/// An angle reduced to one rotation.
pub open spec fn angle_ok(a: int) -> bool {
    0 <= a < 1_000_000
}

fn sin_half(h: i64) -> (r: i64)
    requires
        0 <= h <= 500_000,
    ensures
        r == sin_half_spec(h as int),
        0 <= r <= 1000,
{
    proof {
        assert(0 <= h * (500_000 - h) <= 62_500_000_000) by (nonlinear_arith)
            requires 0 <= h <= 500_000;
    }
    let p: i64 = h * (500_000 - h);
    let num: u64 = (16000 * p) as u64;
    let den: u64 = (1_250_000_000_000 - 4 * p) as u64;
    let q: u64 = num / den;
    proof {
        assert(num <= 1000 * den);
        assert(num / den <= 1000) by (nonlinear_arith)
            requires num <= 1000 * den, den >= 1;
    }
    q as i64
}

/// Fixed-point sine of an angle in microturns.
pub fn sin_fix(a: i64) -> (r: i64)
    requires
        angle_ok(a as int),
    ensures
        r == sin_spec(a as int),
        -1000 <= r <= 1000,
{
    if a < HALF_TURN {
        sin_half(a)
    } else {
        -sin_half(a - HALF_TURN)
    }
}

/// Fixed-point cosine of an angle in microturns.
pub fn cos_fix(a: i64) -> (r: i64)
    requires
        angle_ok(a as int),
    ensures
        r == cos_spec(a as int),
        -1000 <= r <= 1000,
{
    let b: i64 = if a + QUARTER_TURN < TURN {
        a + QUARTER_TURN
    } else {
        a + QUARTER_TURN - TURN
    };
    sin_fix(b)
}

/// Rotates a vector by an angle in microturns, in fixed point:
/// `(x cos a - y sin a, x sin a + y cos a)`, rescaled by the unit.
pub fn vector2_rotate(v: &crate::geometry::Vec2, angle: i64) -> (r: crate::geometry::Vec2)
    requires
        angle_ok(angle as int),
        -2_000_000_000 <= v.x <= 2_000_000_000,
        -2_000_000_000 <= v.y <= 2_000_000_000,
    ensures
        r.x == (v.x * cos_spec(angle as int) - v.y * sin_spec(angle as int)) / 1000,
        r.y == (v.x * sin_spec(angle as int) + v.y * cos_spec(angle as int)) / 1000,
{
    let c: i64 = cos_fix(angle);
    let s: i64 = sin_fix(angle);
    proof {
        assert(-2_000_000_000_000 <= v.x * c <= 2_000_000_000_000 && -2_000_000_000_000 <= v.y * s
            <= 2_000_000_000_000 && -2_000_000_000_000 <= v.x * s <= 2_000_000_000_000
            && -2_000_000_000_000 <= v.y * c <= 2_000_000_000_000) by (nonlinear_arith)
            requires
                -2_000_000_000 <= v.x <= 2_000_000_000,
                -2_000_000_000 <= v.y <= 2_000_000_000,
                -1000 <= c <= 1000,
                -1000 <= s <= 1000;
    }
    let rx: i64 = crate::geometry::fdiv(v.x * c - v.y * s, 1000);
    let ry: i64 = crate::geometry::fdiv(v.x * s + v.y * c, 1000);
    crate::geometry::Vec2 { x: rx, y: ry }
}

/// The angle `a + d` reduced back into one rotation.
pub open spec fn angle_add_spec(a: int, d: int) -> int {
    if a + d >= 1_000_000 {
        a + d - 1_000_000
    } else if a + d < 0 {
        a + d + 1_000_000
    } else {
        a + d
    }
}

/// Turns an angle by `d` microturns, staying within one rotation.
pub fn angle_add(a: i64, d: i64) -> (r: i64)
    requires
        angle_ok(a as int),
        -1_000_000 <= d <= 1_000_000,
    ensures
        r == angle_add_spec(a as int, d as int),
        angle_ok(r as int),
{
    let s: i64 = a + d;
    if s >= TURN {
        s - TURN
    } else if s < 0 {
        s + TURN
    } else {
        s
    }
}

} // verus!

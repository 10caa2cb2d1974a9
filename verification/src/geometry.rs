//! Plane vectors in fixed point, distance, and the positive-edge wrap.
//!
//! Coordinates carry `UNIT` (1000) steps per world unit.  The playfield
//! wraps only on positive overflow: a coordinate that passes a dimension
//! has that dimension subtracted once, while negative coordinates drift
//! freely down to a deep defensive floor `COORD_FLOOR` that keeps every
//! product of two coordinate differences inside a machine word.

use vstd::prelude::*;
use vstd::arithmetic::div_mod::lemma_fundamental_div_mod;
use vstd::arithmetic::div_mod::lemma_fundamental_div_mod_converse;
use vstd::arithmetic::div_mod::lemma_div_is_ordered;
use vstd::arithmetic::div_mod::lemma_div_multiples_vanish;

verus! {

/// Lowest value a coordinate is ever allowed to take.
pub const COORD_FLOOR: i64 = -1_000_000_000;

/// A 2D vector in fixed point: 1000 steps per world unit.
#[derive(Clone, Copy, PartialEq, Eq, Structural, Debug)]
pub struct Vec2 {
    pub x: i64,
    pub y: i64,
}

/// Bounds inside which all coordinate arithmetic below stays exact.
pub open spec fn coord_ok(c: int) -> bool {
    -1_100_000_000 <= c <= 4_000_000
}

/// Both components of a vector are in range.
pub open spec fn vec2_ok(v: Vec2) -> bool {
    coord_ok(v.x as int) && coord_ok(v.y as int)
}

/// The squared distance between two points.
pub open spec fn dist_sq_spec(a: Vec2, b: Vec2) -> int {
    (a.x - b.x) * (a.x - b.x) + (a.y - b.y) * (a.y - b.y)
}

/// Two points lie strictly closer than `r` to each other.
pub open spec fn within(a: Vec2, b: Vec2, r: int) -> bool {
    dist_sq_spec(a, b) < r * r
}

/// `r` is the integer square root of `n`.
pub open spec fn is_isqrt(n: int, r: int) -> bool {
    0 <= r && r * r <= n && n < (r + 1) * (r + 1)
}

/// The squared distance, exactly.
pub fn dist_sq(a: Vec2, b: Vec2) -> (r: i64)
    requires
        vec2_ok(a),
        vec2_ok(b),
    ensures
        r == dist_sq_spec(a, b),
        0 <= r <= 2_500_000_000_000_000_000,
{
    let dx: i64 = a.x - b.x;
    let dy: i64 = a.y - b.y;
    proof {
        assert(0 <= dx * dx <= 1_250_000_000_000_000_000 && 0 <= dy * dy
            <= 1_250_000_000_000_000_000) by (nonlinear_arith)
            requires -1_104_000_000 <= dx <= 1_104_000_000, -1_104_000_000 <= dy <= 1_104_000_000;
    }
    dx * dx + dy * dy
}

/// Whether two points collide at radius `r`.
pub fn hits(a: Vec2, b: Vec2, r: i64) -> (res: bool)
    requires
        vec2_ok(a),
        vec2_ok(b),
        0 <= r <= 1_000_000,
    ensures
        res == within(a, b, r as int),
{
    proof {
        assert(0 <= r * r <= 1_000_000_000_000) by (nonlinear_arith)
            requires 0 <= r <= 1_000_000;
    }
    dist_sq(a, b) < r * r
}

/// Integer square root by bisection.
pub fn isqrt(n: u64) -> (r: u64)
    requires
        n <= 4_000_000_000_000_000_000,
    ensures
        is_isqrt(n as int, r as int),
        r <= 2_100_000_000,
{
    let mut lo: u64 = 0;
    let mut hi: u64 = 2_100_000_000;
    proof {
        assert((2_100_000_000 as int) * (2_100_000_000 as int) > n as int);
    }
    while hi - lo > 1
        invariant
            lo < hi <= 2_100_000_000,
            (lo as int) * (lo as int) <= n as int,
            (n as int) < (hi as int) * (hi as int),
        decreases hi - lo,
    {
        let mid: u64 = lo + (hi - lo) / 2;
        proof {
            assert(mid * mid <= 4_410_000_000_000_000_000) by (nonlinear_arith)
                requires mid <= 2_100_000_000;
        }
        if mid * mid <= n {
            lo = mid;
        } else {
            hi = mid;
        }
    }
    lo
}

/// The straight-line distance, rounded down to whole fixed-point steps.
pub fn vector2_distance(v: &Vec2, w: &Vec2) -> (r: i64)
    requires
        vec2_ok(*v),
        vec2_ok(*w),
    ensures
        is_isqrt(dist_sq_spec(*v, *w), r as int),
{
    let s: i64 = dist_sq(*v, *w);
    let r: u64 = isqrt(s as u64);
    r as i64
}

/// Floor division by a positive divisor (rounds toward minus infinity).
pub fn fdiv(a: i64, d: i64) -> (r: i64)
    requires
        1 <= d <= 2_200_000_000,
        -4_600_000_000_000_000_000 <= a <= 4_600_000_000_000_000_000,
    ensures
        r == (a as int) / (d as int),
{
    if a >= 0 {
        let q: u64 = (a as u64) / (d as u64);
        q as i64
    } else {
        let m: u64 = (-a) as u64;
        let du: u64 = d as u64;
        let q: u64 = (m + (du - 1)) / du;
        proof {
            let mi = m as int;
            let di = d as int;
            let qi = q as int;
            lemma_fundamental_div_mod(mi + di - 1, di);
            assert(0 <= (mi + di - 1) % di < di);
            assert(di * qi == qi * di) by (nonlinear_arith);
            assert(qi * di >= mi && qi * di < mi + di);
            assert((-qi) * di == -(qi * di)) by (nonlinear_arith);
            lemma_fundamental_div_mod_converse(-mi, di, -qi, qi * di - mi);
        }
        -(q as i64)
    }
}

/// Multiplies two fixed-point values and rescales by the unit, rounding
/// toward minus infinity.
pub fn scale1000(a: i64, b: i64) -> (r: i64)
    requires
        -2_000_000_000 <= a <= 2_000_000_000,
        -2_000_000_000 <= b <= 2_000_000_000,
    ensures
        r == (a as int * b as int) / 1000,
{
    proof {
        assert(-4_000_000_000_000_000_000 <= a * b <= 4_000_000_000_000_000_000)
            by (nonlinear_arith)
            requires -2_000_000_000 <= a <= 2_000_000_000, -2_000_000_000 <= b <= 2_000_000_000;
    }
    fdiv(a * b, 1000)
}

/// `d` is `v` rescaled to (at most) unit length: zero for the zero
/// vector, otherwise each component times 1000 over the rounded length.
pub open spec fn is_unit_of(d: Vec2, v: Vec2) -> bool {
    if v.x == 0 && v.y == 0 {
        d == (Vec2 { x: 0, y: 0 })
    } else {
        exists|l: int|
            is_isqrt(dist_sq_spec(v, Vec2 { x: 0, y: 0 }), l) && l >= 1 && d.x == (v.x * 1000) / l
                && d.y == (v.y * 1000) / l
    }
}

/// The direction of `v` as a unit vector in fixed point; the zero vector
/// normalizes to zero.
pub fn normalized(v: &Vec2) -> (r: Vec2)
    requires
        -1_400_000_000 <= v.x <= 1_400_000_000,
        -1_400_000_000 <= v.y <= 1_400_000_000,
    ensures
        is_unit_of(r, *v),
        -1000 <= r.x <= 1000,
        -1000 <= r.y <= 1000,
{
    let zero = Vec2 { x: 0, y: 0 };
    proof {
        assert(0 <= v.x * v.x <= 1_960_000_000_000_000_000 && 0 <= v.y * v.y
            <= 1_960_000_000_000_000_000) by (nonlinear_arith)
            requires -1_400_000_000 <= v.x <= 1_400_000_000, -1_400_000_000 <= v.y <= 1_400_000_000;
    }
    let sq: i64 = v.x * v.x + v.y * v.y;
    proof {
        assert(sq == dist_sq_spec(*v, zero));
    }
    let l: u64 = isqrt(sq as u64);
    if l == 0 {
        proof {
            assert(sq < 1) by (nonlinear_arith)
                requires
                    is_isqrt(sq as int, 0);
            assert(v.x == 0 && v.y == 0) by (nonlinear_arith)
                requires
                    (v.x as int) * (v.x as int) + (v.y as int) * (v.y as int) < 1;
        }
        zero
    } else {
        let li: i64 = l as i64;
        proof {
            let xi = v.x as int;
            let yi = v.y as int;
            let ll = li as int;
            assert(-ll <= xi <= ll && -ll <= yi <= ll) by (nonlinear_arith)
                requires
                    sq == xi * xi + yi * yi,
                    sq < (ll + 1) * (ll + 1),
                    ll >= 1;
            assert(xi * 1000 <= 1000 * ll && -(1000 * ll) <= xi * 1000 && yi * 1000 <= 1000 * ll
                && -(1000 * ll) <= yi * 1000) by (nonlinear_arith)
                requires -ll <= xi <= ll, -ll <= yi <= ll;
            lemma_div_bounds_for_unit(xi, ll);
            lemma_div_bounds_for_unit(yi, ll);
        }
        let rx: i64 = fdiv(v.x * 1000, li);
        let ry: i64 = fdiv(v.y * 1000, li);
        let r = Vec2 { x: rx, y: ry };
        proof {
            assert(is_isqrt(dist_sq_spec(*v, Vec2 { x: 0, y: 0 }), li as int) && li >= 1 && r.x == (
            v.x * 1000) / (li as int) && r.y == (v.y * 1000) / (li as int));
        }
        r
    }
}

/// A component no larger than the length, scaled by 1000 and divided by
/// the length, lies within the unit range.
proof fn lemma_div_bounds_for_unit(c: int, l: int)
    requires
        l >= 1,
        -l <= c <= l,
    ensures
        -1000 <= (c * 1000) / l <= 1000,
{
    assert(c * 1000 <= 1000 * l && -(1000 * l) <= c * 1000) by (nonlinear_arith)
        requires -l <= c <= l;
    lemma_div_is_ordered(c * 1000, 1000 * l, l);
    lemma_div_is_ordered(-(1000 * l), c * 1000, l);
    assert(1000 * l == l * 1000 && -(1000 * l) == l * -1000) by (nonlinear_arith);
    lemma_div_multiples_vanish(1000, l);
    lemma_div_multiples_vanish(-1000, l);
}

/// A coordinate after one frame: add the velocity, hold it above the
/// defensive floor, and wrap once on positive overflow of the dimension.
pub open spec fn wrap_coord(p: int, v: int, dim: int) -> int {
    let s = if p + v < -1_000_000_000 {
        -1_000_000_000
    } else {
        p + v
    };
    if s > dim {
        s - dim
    } else {
        s
    }
}

/// Integrates one coordinate and applies the positive-edge wrap.
pub fn integrate_coord(p: i64, v: i64, dim: i64) -> (r: i64)
    requires
        -1_100_000_000 <= p <= 4_000_000,
        -1_000_000 <= v <= 1_000_000,
        900_000 <= dim <= 1_300_000,
    ensures
        r == wrap_coord(p as int, v as int, dim as int),
        -1_000_000_000 <= r,
{
    let s0: i64 = p + v;
    let s: i64 = if s0 < COORD_FLOOR {
        COORD_FLOOR
    } else {
        s0
    };
    if s > dim {
        s - dim
    } else {
        s
    }
}

} // verus!

//! Points in pixel space and the exact part of the Euclidean distance.
//!
//! The Euclidean distance between two points is the square root of an
//! integer, so the crate works with that integer — the squared distance —
//! which it can compute exactly for the whole coordinate range, and with
//! its integer square root, the whole-pixel part of the distance.

use vstd::prelude::*;

verus! {

/// A location in 2D pixel coordinates, in global screen space or in local
/// drawing-surface space.
#[derive(Clone, Copy, PartialEq, Eq, Structural, Debug)]
pub struct Point {
    pub x: i32,
    pub y: i32,
}

/// The square of the Euclidean distance between `a` and `b`:
/// `(b.x - a.x)^2 + (b.y - a.y)^2`.
pub open spec fn squared_distance_spec(a: Point, b: Point) -> int {
    (b.x - a.x) * (b.x - a.x) + (b.y - a.y) * (b.y - a.y)
}

/// The squared distance from a point to itself is zero, so the distance
/// itself is too.
pub proof fn lemma_squared_distance_self(p: Point)
    ensures
        squared_distance_spec(p, p) == 0,
{
}

/// The squared distance is symmetric in its two endpoints, so the distance
/// itself is too.
pub proof fn lemma_squared_distance_symmetric(a: Point, b: Point)
    ensures
        squared_distance_spec(a, b) == squared_distance_spec(b, a),
{
    assert((b.x - a.x) * (b.x - a.x) == (a.x - b.x) * (a.x - b.x)) by (nonlinear_arith);
    assert((b.y - a.y) * (b.y - a.y) == (a.y - b.y) * (a.y - b.y)) by (nonlinear_arith);
}

/// The squared distance is zero exactly when the two points coincide.
pub proof fn lemma_squared_distance_zero_iff(a: Point, b: Point)
    ensures
        squared_distance_spec(a, b) == 0 <==> a == b,
{
    let dx = b.x - a.x;
    let dy = b.y - a.y;
    assert(dx * dx + dy * dy == 0 <==> dx == 0 && dy == 0) by (nonlinear_arith);
}

/// Squared Euclidean pixel distance between `start` and `end`, exact over
/// the whole `i32` coordinate range.
pub fn squared_distance(start: Point, end: Point) -> (r: u128)
    ensures
        r == squared_distance_spec(start, end),
        r == 0 <==> start == end,
{
    let dx: i64 = end.x as i64 - start.x as i64;
    let dy: i64 = end.y as i64 - start.y as i64;
    proof {
        assert(0 <= dx * dx < 0x1_0000_0000_0000_0000) by (nonlinear_arith)
            requires
                -0x1_0000_0000 < dx < 0x1_0000_0000,
        ;
        assert(0 <= dy * dy < 0x1_0000_0000_0000_0000) by (nonlinear_arith)
            requires
                -0x1_0000_0000 < dy < 0x1_0000_0000,
        ;
        lemma_squared_distance_zero_iff(start, end);
    }
    let sx: i128 = (dx as i128) * (dx as i128);
    let sy: i128 = (dy as i128) * (dy as i128);
    let total: i128 = sx + sy;
    total as u128
}

/// Integer square root: the largest integer whose square does not exceed `n`.
pub fn isqrt(n: u128) -> (r: u128)
    ensures
        r * r <= n,
        n < (r + 1) * (r + 1),
{
    let mut lo: u128 = 0;
    let mut hi: u128 = 0x1_0000_0000_0000_0000;
    while lo + 1 < hi
        invariant
            lo < hi <= 0x1_0000_0000_0000_0000,
            lo * lo <= n,
            n < hi * hi,
        decreases hi - lo,
    {
        let mid: u128 = lo + (hi - lo) / 2;
        proof {
            assert(mid * mid < 0x1_0000_0000_0000_0000_0000_0000_0000_0000) by (nonlinear_arith)
                requires
                    0 <= mid < 0x1_0000_0000_0000_0000,
            ;
        }
        if mid * mid <= n {
            lo = mid;
        } else {
            hi = mid;
        }
    }
    lo
}

/// The whole-pixel part of the Euclidean distance between `start` and `end`:
/// the largest `r` whose square does not exceed the squared distance. The
/// distance is exactly `r` pixels when `r * r` equals the squared distance.
pub fn distance_floor(start: Point, end: Point) -> (r: u64)
    ensures
        r * r <= squared_distance_spec(start, end),
        squared_distance_spec(start, end) < (r + 1) * (r + 1),
{
    let sq: u128 = squared_distance(start, end);
    let root: u128 = isqrt(sq);
    proof {
        assert(root <= 0xffff_ffff_ffff_ffff) by (nonlinear_arith)
            requires
                0 <= root,
                root * root <= 0xffff_ffff_ffff_ffff_ffff_ffff_ffff_ffff,
        ;
    }
    root as u64
}

} // verus!

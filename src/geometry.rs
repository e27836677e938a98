//! Points of the arena and squared Euclidean distance between them.
use vstd::prelude::*;

verus! {

/// A point of the arena in integer world units.
#[derive(Clone, Copy, Debug, PartialEq, Eq, Structural)]
pub struct Position {
    pub x: i32,
    pub y: i32,
}

impl Position {
    pub fn new(x: i32, y: i32) -> (r: Position)
        ensures
            r.x == x,
            r.y == y,
    {
        Position { x, y }
    }

    /// The origin of the arena.
    pub fn origin() -> (r: Position)
        ensures
            r.x == 0,
            r.y == 0,
    {
        Position { x: 0, y: 0 }
    }
}

/// Squared Euclidean distance between two points.
pub open spec fn dist_sq(a: Position, b: Position) -> int {
    (a.x - b.x) * (a.x - b.x) + (a.y - b.y) * (a.y - b.y)
}

/// `b` lies strictly closer than `radius` to `a`. For a non-negative radius,
/// `|a - b| < radius` holds exactly when `|a - b|^2 < radius^2`.
pub open spec fn within(a: Position, b: Position, radius: nat) -> bool {
    dist_sq(a, b) < radius * radius
}

/// Absolute difference of two coordinates.
fn abs_diff(a: i32, b: i32) -> (r: u64)
    ensures
        r == if a >= b { a - b } else { b - a },
        r <= u32::MAX,
{
    if a >= b {
        (a as i64 - b as i64) as u64
    } else {
        (b as i64 - a as i64) as u64
    }
}

/// Squared Euclidean distance, computed without overflow.
pub fn distance_sq(a: Position, b: Position) -> (r: u128)
    ensures
        r == dist_sq(a, b),
{
    let dx = abs_diff(a.x, b.x) as u128;
    let dy = abs_diff(a.y, b.y) as u128;
    proof {
        assert(dx * dx <= 0xffff_ffffu128 * 0xffff_ffffu128) by (nonlinear_arith)
            requires dx <= 0xffff_ffffu128;
        assert(dy * dy <= 0xffff_ffffu128 * 0xffff_ffffu128) by (nonlinear_arith)
            requires dy <= 0xffff_ffffu128;
        assert(dx * dx == (a.x - b.x) * (a.x - b.x)) by (nonlinear_arith)
            requires dx == a.x - b.x || dx == b.x - a.x;
        assert(dy * dy == (a.y - b.y) * (a.y - b.y)) by (nonlinear_arith)
            requires dy == a.y - b.y || dy == b.y - a.y;
    }
    dx * dx + dy * dy
}

/// Whether `b` lies strictly closer than `radius` to `a`.
pub fn is_within(a: Position, b: Position, radius: u32) -> (r: bool)
    ensures
        r == within(a, b, radius as nat),
{
    let rr = radius as u128;
    assert(rr * rr <= 0xffff_ffffu128 * 0xffff_ffffu128) by (nonlinear_arith)
        requires rr <= 0xffff_ffffu128;
    let r2 = rr * rr;
    distance_sq(a, b) < r2
}

} // verus!

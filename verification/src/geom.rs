//! 2D points, four-way directions and viewport clamping.

use vstd::prelude::*;

verus! {

/// Largest viewport dimension the simulation accepts, in viewport units.
pub const VIEWPORT_MAX: i64 = 1_000_000;

/// Smallest viewport dimension the simulation accepts: every clamped entity
/// must fit between `radius` and `dimension - radius` on both axes.
pub const VIEWPORT_MIN: i64 = 60;

/// Largest time step, in milliseconds, that one simulation tick may advance.
pub const MAX_TICK_MS: i64 = 10_000;

/// A point of the viewport plane, in viewport units.
#[derive(Clone, Copy, PartialEq, Eq, Structural, Debug)]
pub struct Position {
    pub x: i64,
    pub y: i64,
}

/// A travel or facing direction. `North` decreases `y`, `South` increases it,
/// `West` decreases `x`, `East` increases it; the last direction set wins,
/// there is no diagonal composition.
#[derive(Clone, Copy, PartialEq, Eq, Structural, Debug)]
pub enum Direction {
    North,
    South,
    East,
    West,
}

impl Position {
    pub fn new(x: i64, y: i64) -> (p: Position)
        ensures
            p.x == x,
            p.y == y,
    {
        Position { x, y }
    }
}

/// Value `v` clamped to `[lo, hi]`, lower bound applied first.
pub open spec fn clamped(v: int, lo: int, hi: int) -> int {
    if v < lo {
        lo
    } else if v > hi {
        hi
    } else {
        v
    }
}

/// Clamps `pos` so that a body of half-width `bounds[0]` and half-height
/// `bounds[1]` stays inside a viewport of width `bounds[2]` and height
/// `bounds[3]`.
pub fn restrict_to_bounds(pos: &mut Position, bounds: [i64; 4])
    requires
        0 <= bounds[0],
        2 * bounds[0] <= bounds[2] <= VIEWPORT_MAX,
        0 <= bounds[1],
        2 * bounds[1] <= bounds[3] <= VIEWPORT_MAX,
        -10_000_000 <= old(pos).x <= 10_000_000,
        -10_000_000 <= old(pos).y <= 10_000_000,
    ensures
        final(pos).x == clamped(old(pos).x as int, bounds[0] as int, bounds[2] - bounds[0]),
        final(pos).y == clamped(old(pos).y as int, bounds[1] as int, bounds[3] - bounds[1]),
{
    if pos.x < bounds[0] {
        pos.x = bounds[0];
    }
    if pos.y < bounds[1] {
        pos.y = bounds[1];
    }
    if pos.x + bounds[0] > bounds[2] {
        pos.x = bounds[2] - bounds[0];
    }
    if pos.y + bounds[1] > bounds[3] {
        pos.y = bounds[3] - bounds[1];
    }
}

} // verus!

//! The entity kinds of the match — player, enemy, bullet — and the collision
//! test they share.

use vstd::prelude::*;

use crate::geom::Position;

pub mod bullet;
pub mod enemy;
pub mod player;

verus! {

/// Coordinates handed to the collision test stay within this magnitude;
/// every entity the simulation keeps is far inside it.
pub const COLLISION_COORD_LIMIT: i64 = 2_000_000;

/// Radii handed to the collision test stay within this magnitude.
pub const COLLISION_RADIUS_LIMIT: i64 = 1_000;

/// The annulus test over raw coordinates: two circular bodies collide when
/// the squared distance between their centers lies between `(ra - rb)^2` and
/// `(ra + rb)^2`.
pub open spec fn spec_collides_at(ax: int, ay: int, ra: int, bx: int, by: int, rb: int) -> bool {
    let dx = ax - bx;
    let dy = ay - by;
    let sums = dx * dx + dy * dy;
    (ra - rb) * (ra - rb) <= sums && sums <= (ra + rb) * (ra + rb)
}

/// Two circular bodies collide when the squared distance between their
/// centers lies in the annulus between `(ra - rb)^2` and `(ra + rb)^2`.
/// This is a ring-overlap test, not disk intersection: bodies of near-equal
/// radius register contact only near exact edge contact.
pub open spec fn spec_collides(a: Position, ra: int, b: Position, rb: int) -> bool {
    spec_collides_at(a.x as int, a.y as int, ra, b.x as int, b.y as int, rb)
}

/// The annulus collision test between a body at `a` of radius `ra` and a
/// body at `b` of radius `rb`, compared via squared distances.
pub fn tabrakan(a: &Position, ra: i64, b: &Position, rb: i64) -> (r: bool)
    requires
        -COLLISION_COORD_LIMIT <= a.x <= COLLISION_COORD_LIMIT,
        -COLLISION_COORD_LIMIT <= a.y <= COLLISION_COORD_LIMIT,
        -COLLISION_COORD_LIMIT <= b.x <= COLLISION_COORD_LIMIT,
        -COLLISION_COORD_LIMIT <= b.y <= COLLISION_COORD_LIMIT,
        0 <= ra <= COLLISION_RADIUS_LIMIT,
        0 <= rb <= COLLISION_RADIUS_LIMIT,
    ensures
        r == spec_collides(*a, ra as int, *b, rb as int),
{
    let dx = a.x - b.x;
    let dy = a.y - b.y;
    proof {
        assert(0 <= dx * dx <= 16_000_000_000_000) by (nonlinear_arith)
            requires
                -4_000_000 <= dx <= 4_000_000,
        ;
        assert(0 <= dy * dy <= 16_000_000_000_000) by (nonlinear_arith)
            requires
                -4_000_000 <= dy <= 4_000_000,
        ;
    }
    let sums = dx * dx + dy * dy;
    let radius_start = ra - rb;
    let radius_end = ra + rb;
    proof {
        assert(0 <= radius_start * radius_start <= 4_000_000) by (nonlinear_arith)
            requires
                -2_000 <= radius_start <= 2_000,
        ;
        assert(0 <= radius_end * radius_end <= 4_000_000) by (nonlinear_arith)
            requires
                -2_000 <= radius_end <= 2_000,
        ;
    }
    radius_start * radius_start <= sums && sums <= radius_end * radius_end
}

/// The collision test does not depend on the order of its two bodies.
pub proof fn lemma_tabrakan_symmetric(a: Position, ra: int, b: Position, rb: int)
    ensures
        spec_collides(a, ra, b, rb) == spec_collides(b, rb, a, ra),
{
    assert((a.x - b.x) * (a.x - b.x) == (b.x - a.x) * (b.x - a.x)) by (nonlinear_arith);
    assert((a.y - b.y) * (a.y - b.y) == (b.y - a.y) * (b.y - a.y)) by (nonlinear_arith);
    assert((ra - rb) * (ra - rb) == (rb - ra) * (rb - ra)) by (nonlinear_arith);
}

} // verus!

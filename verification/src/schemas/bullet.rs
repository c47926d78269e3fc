//! Projectiles: fired by the player, or by a fighter enemy in retaliation.

use vstd::prelude::*;

use crate::geom::{Direction, Position, MAX_TICK_MS, VIEWPORT_MAX};
use crate::util::get_random_number;

verus! {

/// Distance a live bullet travels per tick, in viewport units.
pub const BULLET_SPEED: i64 = 4;

/// Body size of a bullet; its collision radius equals the full size.
pub const BULLET_SIZE: i64 = 40;

/// Time a fresh bullet stays live, in milliseconds.
pub const BULLET_LIFETIME_MS: i64 = 2_000;

/// Smallest damage a bullet can roll.
pub const BULLET_DAMAGE_MIN: u64 = 5;

/// All bullet damage rolls are strictly below this.
pub const BULLET_DAMAGE_MAX: u64 = 20;

/// How far from the viewport a bullet can ever get before its lifetime runs
/// out: `VIEWPORT_MAX` plus the distance covered in `BULLET_LIFETIME_MS`
/// ticks of at least one millisecond each.
pub const BULLET_COORD_LIMIT: i64 = 1_008_000;

/// One `BULLET_SPEED` step from `pre` along `dir` lands at `post`.
pub open spec fn stepped_pos(pre: Position, dir: Direction, post: Position) -> bool {
    match dir {
        Direction::East => post.x == pre.x + BULLET_SPEED && post.y == pre.y,
        Direction::West => post.x == pre.x - BULLET_SPEED && post.y == pre.y,
        Direction::North => post.y == pre.y - BULLET_SPEED && post.x == pre.x,
        Direction::South => post.y == pre.y + BULLET_SPEED && post.x == pre.x,
    }
}

/// Exactly what one tick does to a bullet. A live bullet's time-to-live
/// drops by `dt` — floored at zero, the value at which the pruning pass
/// removes it — and it advances one step along its fixed direction; an
/// expired bullet no longer changes. Holding an expired bullet still is a
/// deliberate divergence from letting it glide on unpruned forever while a
/// finished match idles: a bullet is destroyed when its time-to-live reaches
/// zero, and the freeze is what keeps every coordinate inside
/// `BULLET_COORD_LIMIT` (see `Bullet::wf`) over any number of ticks.
pub open spec fn bullet_moved(pre: Bullet, post: Bullet, dt: int) -> bool {
    &&& post.direction == pre.direction
    &&& post.size == pre.size
    &&& post.damage_count == pre.damage_count
    &&& post.attacker == pre.attacker
    &&& post.ttl == if pre.ttl > dt {
        pre.ttl - dt
    } else {
        0
    }
    &&& if pre.ttl > 0 {
        stepped_pos(pre.pos, pre.direction, post.pos)
    } else {
        post.pos == pre.pos
    }
}

/// Who fired a bullet; player bullets hurt enemies, monster bullets hurt the
/// player.
#[derive(Clone, Copy, PartialEq, Eq, Structural, Debug)]
pub enum Attacker {
    Monster,
    Player,
}

/// A projectile with a fixed travel direction, a damage roll made at
/// creation, and a time-to-live countdown.
#[derive(Clone, Copy, Debug)]
pub struct Bullet {
    pub pos: Position,
    pub direction: Direction,
    pub size: i64,
    pub ttl: i64,
    pub damage_count: u64,
    pub attacker: Attacker,
}

impl Bullet {
    /// A bullet never strays beyond `BULLET_COORD_LIMIT`: each move costs at
    /// least one millisecond of the remaining time-to-live, so the slack
    /// `BULLET_SPEED * ttl` always covers the travel still possible.
    pub open spec fn wf(self) -> bool {
        &&& self.size == BULLET_SIZE
        &&& 0 <= self.ttl <= BULLET_LIFETIME_MS
        &&& self.pos.x + BULLET_SPEED * self.ttl <= BULLET_COORD_LIMIT
        &&& self.pos.x - BULLET_SPEED * self.ttl >= -BULLET_COORD_LIMIT
        &&& self.pos.y + BULLET_SPEED * self.ttl <= BULLET_COORD_LIMIT
        &&& self.pos.y - BULLET_SPEED * self.ttl >= -BULLET_COORD_LIMIT
    }

    /// A fresh bullet at `(x, y)`: full lifetime, and a fresh damage roll in
    /// `[BULLET_DAMAGE_MIN, BULLET_DAMAGE_MAX)`.
    pub fn new(x: i64, y: i64, direction: Direction, attacker: Attacker) -> (b: Bullet)
        requires
            0 <= x <= VIEWPORT_MAX,
            0 <= y <= VIEWPORT_MAX,
        ensures
            b.wf(),
            b.pos.x == x,
            b.pos.y == y,
            b.direction == direction,
            b.size == BULLET_SIZE,
            b.ttl == BULLET_LIFETIME_MS,
            BULLET_DAMAGE_MIN <= b.damage_count < BULLET_DAMAGE_MAX,
            b.attacker == attacker,
    {
        let damage = get_random_number(BULLET_DAMAGE_MIN as i64, BULLET_DAMAGE_MAX as i64);
        Bullet {
            pos: Position::new(x, y),
            direction,
            size: BULLET_SIZE,
            ttl: BULLET_LIFETIME_MS,
            damage_count: damage as u64,
            attacker,
        }
    }

    pub fn position(&self) -> (p: Position)
        ensures
            p == self.pos,
    {
        self.pos
    }

    /// Half the body size; the collision radius of a bullet is the full
    /// `size` instead.
    pub fn radius(&self) -> (r: i64)
        requires
            0 <= self.size,
        ensures
            r == self.size as int / 2,
    {
        self.size / 2
    }

    /// One tick for a live bullet: the time-to-live drops by `dt` (never
    /// below zero) and the bullet advances one `BULLET_SPEED` step along its
    /// fixed direction. An expired bullet no longer changes — the deliberate
    /// freeze that `bullet_moved` documents.
    pub fn update(&mut self, dt: i64)
        requires
            old(self).wf(),
            1 <= dt <= MAX_TICK_MS,
        ensures
            final(self).wf(),
            bullet_moved(*old(self), *final(self), dt as int),
            final(self).direction == old(self).direction,
            final(self).size == old(self).size,
            final(self).damage_count == old(self).damage_count,
            final(self).attacker == old(self).attacker,
            final(self).ttl == if old(self).ttl > dt {
                old(self).ttl - dt
            } else {
                0
            },
            old(self).ttl > 0 ==> {
                &&& old(self).direction == Direction::East ==> final(self).pos.x == old(self).pos.x
                    + BULLET_SPEED && final(self).pos.y == old(self).pos.y
                &&& old(self).direction == Direction::West ==> final(self).pos.x == old(self).pos.x
                    - BULLET_SPEED && final(self).pos.y == old(self).pos.y
                &&& old(self).direction == Direction::North ==> final(self).pos.y == old(self).pos.y
                    - BULLET_SPEED && final(self).pos.x == old(self).pos.x
                &&& old(self).direction == Direction::South ==> final(self).pos.y == old(self).pos.y
                    + BULLET_SPEED && final(self).pos.x == old(self).pos.x
            },
            old(self).ttl == 0 ==> final(self).pos == old(self).pos,
    {
        if self.ttl > 0 {
            self.ttl = if self.ttl > dt {
                self.ttl - dt
            } else {
                0
            };
            match self.direction {
                Direction::East => self.pos.x = self.pos.x + BULLET_SPEED,
                Direction::North => self.pos.y = self.pos.y - BULLET_SPEED,
                Direction::West => self.pos.x = self.pos.x - BULLET_SPEED,
                Direction::South => self.pos.y = self.pos.y + BULLET_SPEED,
            }
        }
    }
}

} // verus!

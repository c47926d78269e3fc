//! Enemies: passive "Kind" wanderers and "Fighter" retaliators.

use vstd::prelude::*;

use crate::geom::{clamped, Position, MAX_TICK_MS, VIEWPORT_MAX, VIEWPORT_MIN};
use crate::util::get_random_number;

verus! {

/// Half-width of the random wander jitter, in viewport units.
pub const MOVE_RADIUS: i64 = 20;

/// Milliseconds between two wander steps of an enemy.
pub const MOVE_TTL_MS: i64 = 100;

/// Body size of an enemy; its collision radius is half of it.
pub const ENEMY_SIZE: i64 = 60;

/// Health rolls of a `Kind` enemy lie in `[KIND_HEALTH_MIN, KIND_HEALTH_MAX)`.
pub const KIND_HEALTH_MIN: u64 = 10;

pub const KIND_HEALTH_MAX: u64 = 100;

/// Health rolls of a `Fighter` lie in `[FIGHTER_HEALTH_MIN, FIGHTER_HEALTH_MAX)`.
pub const FIGHTER_HEALTH_MIN: u64 = 20;

pub const FIGHTER_HEALTH_MAX: u64 = 1_000;

/// Damage rolls of a `Fighter` lie in `[FIGHTER_DAMAGE_MIN, FIGHTER_DAMAGE_MAX)`.
pub const FIGHTER_DAMAGE_MIN: u64 = 10;

pub const FIGHTER_DAMAGE_MAX: u64 = 60;

/// One wander landing: the enemy stepped by `(jx - MOVE_RADIUS,
/// jy - MOVE_RADIUS)` for some rolls `jx`, `jy` below `2 * MOVE_RADIUS`, and
/// the landing point was clamped to the viewport band.
pub open spec fn jitter_landing(
    pre: Position,
    post: Position,
    jx: int,
    jy: int,
    width: int,
    height: int,
) -> bool {
    &&& 0 <= jx < 2 * MOVE_RADIUS
    &&& 0 <= jy < 2 * MOVE_RADIUS
    &&& post.x == clamped(pre.x + jx - MOVE_RADIUS, ENEMY_SIZE as int / 2, width - ENEMY_SIZE as int / 2)
    &&& post.y == clamped(
        pre.y + jy - MOVE_RADIUS,
        ENEMY_SIZE as int / 2,
        height - ENEMY_SIZE as int / 2,
    )
}

/// Exactly what one tick does to an enemy: the stats never change; while the
/// movement cooldown is still running the enemy stands still and the cooldown
/// drops by `dt`; once it runs out the enemy takes one bounded random jitter
/// step, clamped to the viewport, and the cooldown restarts.
pub open spec fn wander_step(pre: Enemy, post: Enemy, dt: int, width: int, height: int) -> bool {
    &&& post.health == pre.health
    &&& post.size == pre.size
    &&& post.enemy_type == pre.enemy_type
    &&& post.damage_count == pre.damage_count
    &&& if pre.move_ttl - dt > 0 {
        post.pos == pre.pos && post.move_ttl == pre.move_ttl - dt
    } else {
        post.move_ttl == MOVE_TTL_MS && (exists|jx: int, jy: int|
            jitter_landing(pre.pos, post.pos, jx, jy, width, height))
    }
}

/// The enemy subtypes: `Kind` never attacks, `Fighter` shoots back when hit.
#[derive(Clone, Copy, PartialEq, Eq, Structural, Debug)]
pub enum EnemyType {
    Kind,
    Fighter,
}

/// A wandering enemy with a health pool rolled at spawn time.
#[derive(Clone, Copy, Debug)]
pub struct Enemy {
    pub health: u64,
    pub pos: Position,
    pub size: i64,
    pub move_ttl: i64,
    pub enemy_type: EnemyType,
    pub damage_count: u64,
}

pub type Monster = Enemy;

impl Enemy {
    /// An enemy stays inside the largest viewport, and only a `Fighter`
    /// carries a damage stat.
    pub open spec fn wf(self) -> bool {
        &&& 0 <= self.pos.x <= VIEWPORT_MAX
        &&& 0 <= self.pos.y <= VIEWPORT_MAX
        &&& self.size == ENEMY_SIZE
        &&& -MAX_TICK_MS <= self.move_ttl <= MOVE_TTL_MS
        &&& self.enemy_type == EnemyType::Kind ==> self.damage_count == 0
    }

    /// A fresh enemy at `(x, y)`. The subtype is drawn at random; the health
    /// pool and, for a `Fighter`, the damage stat are rolled in the ranges of
    /// the subtype.
    pub fn new(x: i64, y: i64) -> (e: Enemy)
        requires
            0 <= x <= VIEWPORT_MAX,
            0 <= y <= VIEWPORT_MAX,
        ensures
            e.wf(),
            e.pos.x == x,
            e.pos.y == y,
            e.size == ENEMY_SIZE,
            e.move_ttl == MOVE_TTL_MS,
            e.enemy_type == EnemyType::Kind || e.enemy_type == EnemyType::Fighter,
            e.enemy_type == EnemyType::Kind ==> {
                &&& KIND_HEALTH_MIN <= e.health < KIND_HEALTH_MAX
                &&& e.damage_count == 0
            },
            e.enemy_type == EnemyType::Fighter ==> {
                &&& FIGHTER_HEALTH_MIN <= e.health < FIGHTER_HEALTH_MAX
                &&& FIGHTER_DAMAGE_MIN <= e.damage_count < FIGHTER_DAMAGE_MAX
            },
    {
        let enemy_type: EnemyType = match get_random_number(0, 2) {
            0 => EnemyType::Kind,
            1 => EnemyType::Fighter,
            _ => EnemyType::Kind,
        };

        let health: u64 = if enemy_type == EnemyType::Kind {
            get_random_number(KIND_HEALTH_MIN as i64, KIND_HEALTH_MAX as i64) as u64
        } else {
            get_random_number(FIGHTER_HEALTH_MIN as i64, FIGHTER_HEALTH_MAX as i64) as u64
        };

        let damage_count: u64 = if enemy_type == EnemyType::Fighter {
            get_random_number(FIGHTER_DAMAGE_MIN as i64, FIGHTER_DAMAGE_MAX as i64) as u64
        } else {
            0
        };

        Enemy {
            health,
            move_ttl: MOVE_TTL_MS,
            pos: Position::new(x, y),
            size: ENEMY_SIZE,
            enemy_type,
            damage_count,
        }
    }

    /// A fresh enemy at a random position in `[0, max_x) x [0, max_y)`.
    pub fn new_rand(max_x: i64, max_y: i64) -> (e: Enemy)
        requires
            0 < max_x <= VIEWPORT_MAX,
            0 < max_y <= VIEWPORT_MAX,
        ensures
            e.wf(),
            0 <= e.pos.x < max_x,
            0 <= e.pos.y < max_y,
            e.size == ENEMY_SIZE,
            e.move_ttl == MOVE_TTL_MS,
            e.enemy_type == EnemyType::Kind ==> {
                &&& KIND_HEALTH_MIN <= e.health < KIND_HEALTH_MAX
                &&& e.damage_count == 0
            },
            e.enemy_type == EnemyType::Fighter ==> {
                &&& FIGHTER_HEALTH_MIN <= e.health < FIGHTER_HEALTH_MAX
                &&& FIGHTER_DAMAGE_MIN <= e.damage_count < FIGHTER_DAMAGE_MAX
            },
    {
        let randx = get_random_number(0, max_x);
        let randy = get_random_number(0, max_y);
        Enemy::new(randx, randy)
    }

    pub fn position(&self) -> (p: Position)
        ensures
            p == self.pos,
    {
        self.pos
    }

    pub fn radius(&self) -> (r: i64)
        requires
            0 <= self.size,
        ensures
            r == self.size as int / 2,
    {
        self.size / 2
    }

    /// One tick of wandering: the movement cooldown drops by `dt`; once it
    /// runs out, the enemy takes one random jitter step of at most
    /// `MOVE_RADIUS` per axis, is clamped to the viewport, and the cooldown
    /// restarts. Between steps the position does not change.
    pub fn update(&mut self, dt: i64, width: i64, height: i64)
        requires
            old(self).wf(),
            1 <= dt <= MAX_TICK_MS,
            VIEWPORT_MIN <= width <= VIEWPORT_MAX,
            VIEWPORT_MIN <= height <= VIEWPORT_MAX,
        ensures
            final(self).wf(),
            wander_step(*old(self), *final(self), dt as int, width as int, height as int),
            old(self).move_ttl - dt <= 0 ==> {
                &&& ENEMY_SIZE / 2 <= final(self).pos.x <= width - ENEMY_SIZE / 2
                &&& ENEMY_SIZE / 2 <= final(self).pos.y <= height - ENEMY_SIZE / 2
            },
    {
        self.move_ttl = self.move_ttl - dt;
        if self.move_ttl <= 0 {
            let radius = self.size / 2;
            let jx = get_random_number(0, MOVE_RADIUS * 2);
            let jy = get_random_number(0, MOVE_RADIUS * 2);
            self.pos.x = self.pos.x + jx - MOVE_RADIUS;
            self.pos.y = self.pos.y + jy - MOVE_RADIUS;

            crate::geom::restrict_to_bounds(&mut self.pos, [radius, radius, width, height]);
            self.move_ttl = MOVE_TTL_MS;
            proof {
                assert(jitter_landing(
                    old(self).pos,
                    self.pos,
                    jx as int,
                    jy as int,
                    width as int,
                    height as int,
                ));
            }
        }
    }
}

} // verus!

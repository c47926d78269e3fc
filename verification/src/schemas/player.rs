//! The player avatar: movement with residual drift, life and health pools,
//! ammunition and score.

use vstd::prelude::*;

use crate::geom::{clamped, Direction, Position, MAX_TICK_MS, VIEWPORT_MAX, VIEWPORT_MIN};

verus! {

/// Milliseconds of residual drift after a movement key is released.
pub const PLAYER_DRIFT_MS: i64 = 200;

/// Distance the player moves per tick while a movement key is held, in
/// viewport units.
pub const PLAYER_SPEED: i64 = 10;

/// Distance per tick while drifting: half the held-key speed.
pub const PLAYER_DRIFT_SPEED: i64 = 5;

/// Body size of the player; the collision radius is half of it.
pub const PLAYER_SIZE: i64 = 10;

/// The player's collision radius.
pub const PLAYER_RADIUS: i64 = 5;

/// The full health pool, restored when a life is lost.
pub const PLAYER_HEALTH: u64 = 100;

/// Lives at the start of a match.
pub const PLAYER_LIFE: u8 = 3;

/// Ammunition at the start of a match.
pub const PLAYER_AMUNITION: u64 = 500;

/// Ammunition granted by a reload.
pub const RELOAD_AMUNITION: u64 = 100;

/// The player avatar and its stats.
pub struct Player {
    pub name: String,
    pub pos: Position,
    pub move_offset: Position,
    pub drift_ttl: i64,
    pub direction: Direction,
    pub size: i64,
    pub life: u8,
    pub health: u64,
    pub amunition: u64,
    pub shooting: bool,
    pub reloading: bool,
    pub score: u64,
}

impl Player {
    /// The player stays inside the largest viewport, each movement offset is
    /// either zero or one key-speed step, and the drift timer stays within
    /// one drift window.
    pub open spec fn wf(self) -> bool {
        &&& 0 <= self.pos.x <= VIEWPORT_MAX
        &&& 0 <= self.pos.y <= VIEWPORT_MAX
        &&& (self.move_offset.x == 0 || self.move_offset.x == PLAYER_SPEED || self.move_offset.x
            == -PLAYER_SPEED)
        &&& (self.move_offset.y == 0 || self.move_offset.y == PLAYER_SPEED || self.move_offset.y
            == -PLAYER_SPEED)
        &&& -MAX_TICK_MS <= self.drift_ttl <= PLAYER_DRIFT_MS
        &&& self.size == PLAYER_SIZE
    }

    /// A fresh player at `(x, y)` with full stats, facing east.
    pub fn new(name: &String, x: &i64, y: &i64) -> (p: Player)
        requires
            0 <= *x <= VIEWPORT_MAX,
            0 <= *y <= VIEWPORT_MAX,
        ensures
            p.wf(),
            p.name == name,
            p.pos.x == x,
            p.pos.y == y,
            p.move_offset == (Position { x: 0, y: 0 }),
            p.drift_ttl == 0,
            p.direction == Direction::East,
            p.size == PLAYER_SIZE,
            p.life == PLAYER_LIFE,
            p.health == PLAYER_HEALTH,
            p.amunition == PLAYER_AMUNITION,
            p.shooting == false,
            p.reloading == false,
            p.score == 0,
    {
        let position = Position::new(*x, *y);
        Player {
            name: name.clone(),
            pos: position,
            move_offset: Position::new(0, 0),
            drift_ttl: 0,
            direction: Direction::East,
            size: PLAYER_SIZE,
            life: PLAYER_LIFE,
            health: PLAYER_HEALTH,
            amunition: PLAYER_AMUNITION,
            shooting: false,
            reloading: false,
            score: 0,
        }
    }

    /// A pressed movement key: the player faces `dir` and the matching axis
    /// offset is set to one key-speed step.
    pub fn start_move(&mut self, dir: Direction)
        ensures
            final(self).direction == dir,
            dir == Direction::West ==> final(self).move_offset.x == -PLAYER_SPEED
                && final(self).move_offset.y == old(self).move_offset.y,
            dir == Direction::East ==> final(self).move_offset.x == PLAYER_SPEED
                && final(self).move_offset.y == old(self).move_offset.y,
            dir == Direction::North ==> final(self).move_offset.y == -PLAYER_SPEED
                && final(self).move_offset.x == old(self).move_offset.x,
            dir == Direction::South ==> final(self).move_offset.y == PLAYER_SPEED
                && final(self).move_offset.x == old(self).move_offset.x,
            final(self).name == old(self).name,
            final(self).pos == old(self).pos,
            final(self).drift_ttl == old(self).drift_ttl,
            final(self).size == old(self).size,
            final(self).life == old(self).life,
            final(self).health == old(self).health,
            final(self).amunition == old(self).amunition,
            final(self).shooting == old(self).shooting,
            final(self).reloading == old(self).reloading,
            final(self).score == old(self).score,
    {
        self.direction = dir;
        match dir {
            Direction::West => self.move_offset.x = -PLAYER_SPEED,
            Direction::North => self.move_offset.y = -PLAYER_SPEED,
            Direction::East => self.move_offset.x = PLAYER_SPEED,
            Direction::South => self.move_offset.y = PLAYER_SPEED,
        }
    }

    /// A released movement key: the matching axis offset is cleared and the
    /// drift window starts, so the player keeps sliding at half speed in the
    /// facing direction until it expires.
    pub fn stop_move(&mut self, dir: Direction)
        ensures
            final(self).drift_ttl == PLAYER_DRIFT_MS,
            (dir == Direction::West || dir == Direction::East) ==> final(self).move_offset
                == (Position { x: 0, y: old(self).move_offset.y }),
            (dir == Direction::North || dir == Direction::South) ==> final(self).move_offset
                == (Position { x: old(self).move_offset.x, y: 0 }),
            final(self).name == old(self).name,
            final(self).pos == old(self).pos,
            final(self).direction == old(self).direction,
            final(self).size == old(self).size,
            final(self).life == old(self).life,
            final(self).health == old(self).health,
            final(self).amunition == old(self).amunition,
            final(self).shooting == old(self).shooting,
            final(self).reloading == old(self).reloading,
            final(self).score == old(self).score,
    {
        self.drift_ttl = PLAYER_DRIFT_MS;
        match dir {
            Direction::West => self.move_offset.x = 0,
            Direction::North => self.move_offset.y = 0,
            Direction::East => self.move_offset.x = 0,
            Direction::South => self.move_offset.y = 0,
        }
    }

    pub fn position(&self) -> (p: Position)
        ensures
            p == self.pos,
    {
        self.pos
    }

    pub fn radius(&self) -> (r: i64)
        requires
            0 <= self.size,
        ensures
            r == self.size as int / 2,
    {
        self.size / 2
    }

    /// Where one tick of movement carries the player on the x axis, before
    /// clamping: the held-key offset, plus half-speed drift while the drift
    /// window is open and the player faces east or west.
    pub open spec fn moved_x(self) -> int {
        self.pos.x + self.move_offset.x + if self.drift_ttl > 0 {
            if self.direction == Direction::East {
                PLAYER_DRIFT_SPEED as int
            } else if self.direction == Direction::West {
                -PLAYER_DRIFT_SPEED as int
            } else {
                0
            }
        } else {
            0
        }
    }

    /// The y-axis twin of `moved_x`.
    pub open spec fn moved_y(self) -> int {
        self.pos.y + self.move_offset.y + if self.drift_ttl > 0 {
            if self.direction == Direction::South {
                PLAYER_DRIFT_SPEED as int
            } else if self.direction == Direction::North {
                -PLAYER_DRIFT_SPEED as int
            } else {
                0
            }
        } else {
            0
        }
    }

    /// One movement tick: apply the held-key offsets, slide at half speed
    /// while the drift window is open, then clamp to the viewport. The final
    /// position always lies in `[PLAYER_RADIUS, dimension - PLAYER_RADIUS]`
    /// on both axes.
    pub fn update(&mut self, dt: i64, width: i64, height: i64)
        requires
            old(self).wf(),
            1 <= dt <= MAX_TICK_MS,
            VIEWPORT_MIN <= width <= VIEWPORT_MAX,
            VIEWPORT_MIN <= height <= VIEWPORT_MAX,
        ensures
            final(self).wf(),
            final(self).pos.x == clamped(old(self).moved_x(), PLAYER_RADIUS as int, width - PLAYER_RADIUS),
            final(self).pos.y == clamped(old(self).moved_y(), PLAYER_RADIUS as int, height - PLAYER_RADIUS),
            PLAYER_RADIUS <= final(self).pos.x <= width - PLAYER_RADIUS,
            PLAYER_RADIUS <= final(self).pos.y <= height - PLAYER_RADIUS,
            final(self).drift_ttl == if old(self).drift_ttl > 0 {
                old(self).drift_ttl - dt
            } else {
                old(self).drift_ttl as int
            },
            final(self).name == old(self).name,
            final(self).move_offset == old(self).move_offset,
            final(self).direction == old(self).direction,
            final(self).size == old(self).size,
            final(self).life == old(self).life,
            final(self).health == old(self).health,
            final(self).amunition == old(self).amunition,
            final(self).shooting == old(self).shooting,
            final(self).reloading == old(self).reloading,
            final(self).score == old(self).score,
    {
        let radius = self.size / 2;
        self.pos.x = self.pos.x + self.move_offset.x;
        self.pos.y = self.pos.y + self.move_offset.y;

        if self.drift_ttl > 0 {
            self.drift_ttl = self.drift_ttl - dt;
            let drift_speed = PLAYER_DRIFT_SPEED;
            match self.direction {
                Direction::North => self.pos.y = self.pos.y - drift_speed,
                Direction::East => self.pos.x = self.pos.x + drift_speed,
                Direction::South => self.pos.y = self.pos.y + drift_speed,
                Direction::West => self.pos.x = self.pos.x - drift_speed,
            }
        }

        crate::geom::restrict_to_bounds(&mut self.pos, [radius, radius, width, height]);
    }
}

} // verus!

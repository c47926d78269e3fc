//! The match core: owns the player, the enemy and bullet collections, and the
//! Fight / Win / Lose state machine, and advances them one tick at a time.

use vstd::prelude::*;

use vstd::pervasive::VecAdditionalExecFns;
use vstd::string::StringExecFns;

use crate::geom::{clamped, Direction, Position, MAX_TICK_MS, VIEWPORT_MAX, VIEWPORT_MIN};
use crate::schemas::bullet::{
    bullet_moved, stepped_pos, Attacker, Bullet, BULLET_DAMAGE_MAX, BULLET_DAMAGE_MIN,
    BULLET_LIFETIME_MS, BULLET_SIZE,
};
use crate::schemas::enemy::{
    wander_step, Enemy, EnemyType, ENEMY_SIZE, FIGHTER_DAMAGE_MAX, FIGHTER_DAMAGE_MIN,
    FIGHTER_HEALTH_MAX, FIGHTER_HEALTH_MIN, KIND_HEALTH_MAX, KIND_HEALTH_MIN, MOVE_TTL_MS,
};
use crate::schemas::player::{
    Player, PLAYER_AMUNITION, PLAYER_DRIFT_MS, PLAYER_HEALTH, PLAYER_LIFE, PLAYER_RADIUS,
    PLAYER_SIZE, PLAYER_SPEED, RELOAD_AMUNITION,
};
use crate::schemas::{spec_collides, spec_collides_at, tabrakan};

verus! {

/// Milliseconds that must pass between two granted fire presses.
pub const FIRE_COOLDOWN_MS: i64 = 100;

/// Enemies spawned in one batch when the collection is empty.
pub const ENEMY_SPAWN_COUNT: usize = 9;

/// The match status: `Fight` is the initial state; `Win` and `Lose` are
/// terminal until an explicit restart.
#[derive(Clone, Copy, PartialEq, Eq, Structural, Debug)]
pub enum GameStatus {
    Fight,
    Win,
    Lose,
}

/// The logical keys the input mapper understands.
#[derive(Clone, Copy, PartialEq, Eq, Structural, Debug)]
pub enum GameKey {
    Up,
    Down,
    Left,
    Right,
    Fire,
    Reload,
    Restart,
}

/// The whole match state: the player, the live enemies and bullets in
/// insertion order, the match status, and the fire cooldown timer.
pub struct GunScoreApp {
    pub player: Player,
    pub monsters: Vec<Enemy>,
    pub bullets: Vec<Bullet>,
    pub status: GameStatus,
    pub bullets_cooldown: i64,
}

/// How the fire cooldown advances over one tick of `dt` milliseconds: it
/// counts down only while it is still running.
pub open spec fn cooldown_after(cd: int, dt: int) -> int {
    if cd > 0 {
        cd - dt
    } else {
        cd
    }
}

/// Whether a fire press is granted: only once the cooldown has elapsed.
pub open spec fn fire_intent_granted(cd: int) -> bool {
    cd <= 0
}

/// The fire cooldown after a sequence of ticks of the given durations.
pub open spec fn cooldown_after_ticks(cd: int, dts: Seq<int>) -> int
    decreases dts.len(),
{
    if dts.len() == 0 {
        cd
    } else {
        cooldown_after_ticks(cooldown_after(cd, dts[0]), dts.subrange(1, dts.len() as int))
    }
}

/// Total duration of a sequence of ticks.
pub open spec fn total_elapsed(dts: Seq<int>) -> int
    decreases dts.len(),
{
    if dts.len() == 0 {
        0
    } else {
        dts[0] + total_elapsed(dts.subrange(1, dts.len() as int))
    }
}

/// While less time has passed than the cooldown that was set, the cooldown
/// stays above its starting value minus the elapsed time.
proof fn lemma_cooldown_lower_bound(cd: int, dts: Seq<int>)
    requires
        forall|i: int| 0 <= i < dts.len() ==> dts[i] >= 0,
        total_elapsed(dts) < cd,
    ensures
        cooldown_after_ticks(cd, dts) >= cd - total_elapsed(dts),
    decreases dts.len(),
{
    if dts.len() > 0 {
        let rest = dts.subrange(1, dts.len() as int);
        assert(forall|i: int| 0 <= i < rest.len() ==> rest[i] >= 0);
        assert(total_elapsed(rest) >= 0) by {
            lemma_total_elapsed_nonneg(rest);
        }
        assert(cooldown_after(cd, dts[0]) == cd - dts[0]);
        lemma_cooldown_lower_bound(cd - dts[0], rest);
    }
}

proof fn lemma_total_elapsed_nonneg(dts: Seq<int>)
    requires
        forall|i: int| 0 <= i < dts.len() ==> dts[i] >= 0,
    ensures
        total_elapsed(dts) >= 0,
    decreases dts.len(),
{
    if dts.len() > 0 {
        let rest = dts.subrange(1, dts.len() as int);
        assert(forall|i: int| 0 <= i < rest.len() ==> rest[i] >= 0);
        lemma_total_elapsed_nonneg(rest);
    }
}

/// Firing is rate-limited. A granted fire press sets the cooldown to
/// `FIRE_COOLDOWN_MS` (see `input`), each tick advances it by
/// `cooldown_after` (see `update`), and a press is granted only when
/// `fire_intent_granted` holds. So after a granted press, a second press
/// within any ticks whose total duration is under the cooldown window is not
/// granted, and the two presses yield at most one bullet.
pub proof fn lemma_fire_rate_limited(dts: Seq<int>)
    requires
        forall|i: int| 0 <= i < dts.len() ==> dts[i] >= 0,
        total_elapsed(dts) < FIRE_COOLDOWN_MS,
    ensures
        !fire_intent_granted(cooldown_after_ticks(FIRE_COOLDOWN_MS as int, dts)),
{
    lemma_cooldown_lower_bound(FIRE_COOLDOWN_MS as int, dts);
}

/// Applying `damage` to a health pool: health never drops below zero.
pub open spec fn damage_applied(health: u64, damage: u64) -> u64 {
    if health >= damage {
        (health - damage) as u64
    } else {
        0
    }
}

/// Awarding `damage` as score: the score never wraps.
pub open spec fn score_awarded(score: u64, damage: u64) -> u64 {
    if score + damage <= u64::MAX {
        (score + damage) as u64
    } else {
        u64::MAX
    }
}

/// A live player bullet overlapping an enemy body; the bullet's collision
/// radius is its full size, the enemy's is half its size. A consumed bullet
/// (time-to-live zero) hits nothing: a bullet is spent by its first strike
/// and deals its damage once.
pub open spec fn bullet_hits_monster(b: Bullet, m: Enemy) -> bool {
    b.ttl > 0 && b.attacker == Attacker::Player && spec_collides(
        b.pos,
        b.size as int,
        m.pos,
        m.size as int / 2,
    )
}

/// A live monster bullet overlapping the player's body.
pub open spec fn bullet_hits_player(b: Bullet, p: Player) -> bool {
    b.ttl > 0 && b.attacker == Attacker::Monster && spec_collides(
        b.pos,
        b.size as int,
        p.pos,
        p.size as int / 2,
    )
}

/// The bullets of a collection whose time-to-live has not run out, in order.
pub open spec fn live_bullets(s: Seq<Bullet>) -> Seq<Bullet> {
    s.filter(|b: Bullet| b.ttl > 0)
}

/// The enemies of a collection whose health has not run out, in order.
pub open spec fn live_monsters(s: Seq<Enemy>) -> Seq<Enemy> {
    s.filter(|m: Enemy| m.health > 0)
}

/// What the bullet pass does to a bullet it scans: the bullet advances one
/// tick as `bullet_moved` says, and its time-to-live may additionally be
/// consumed to zero by a strike.
pub open spec fn bullet_scanned(pre: Bullet, post: Bullet, dt: int) -> bool {
    &&& post.direction == pre.direction
    &&& post.size == pre.size
    &&& post.damage_count == pre.damage_count
    &&& post.attacker == pre.attacker
    &&& (post.ttl == (if pre.ttl > dt {
        pre.ttl - dt
    } else {
        0
    }) || post.ttl == 0)
    &&& if pre.ttl > 0 {
        stepped_pos(pre.pos, pre.direction, post.pos)
    } else {
        post.pos == pre.pos
    }
}

/// The bullet's collision body (its full size) overlaps the enemy's (half
/// its size).
pub open spec fn bullet_overlaps_enemy(b: Bullet, m: Enemy) -> bool {
    spec_collides_at(
        b.pos.x as int,
        b.pos.y as int,
        b.size as int,
        m.pos.x as int,
        m.pos.y as int,
        m.size as int / 2,
    )
}

/// A bullet consumed during the scan had a reason: a player bullet
/// overlapped some enemy at its final placement, or a monster bullet
/// overlapped the player at `(px, py)`.
pub open spec fn consumed_for_cause(b: Bullet, monsters: Seq<Enemy>, px: int, py: int) -> bool {
    ||| (b.attacker == Attacker::Player && exists|j: int|
        0 <= j < monsters.len() && bullet_overlaps_enemy(b, #[trigger] monsters[j]))
    ||| (b.attacker == Attacker::Monster && spec_collides_at(
        b.pos.x as int,
        b.pos.y as int,
        b.size as int,
        px,
        py,
        PLAYER_RADIUS as int,
    ))
}

/// The stats a freshly spawned enemy can carry, inside a `width` x `height`
/// viewport.
pub open spec fn spawned_enemy(e: Enemy, width: int, height: int) -> bool {
    &&& 0 <= e.pos.x < width
    &&& 0 <= e.pos.y < height
    &&& e.size == ENEMY_SIZE
    &&& e.move_ttl == MOVE_TTL_MS
    &&& (e.enemy_type == EnemyType::Kind || e.enemy_type == EnemyType::Fighter)
    &&& e.enemy_type == EnemyType::Kind ==> KIND_HEALTH_MIN <= e.health < KIND_HEALTH_MAX
        && e.damage_count == 0
    &&& e.enemy_type == EnemyType::Fighter ==> FIGHTER_HEALTH_MIN <= e.health < FIGHTER_HEALTH_MAX
        && FIGHTER_DAMAGE_MIN <= e.damage_count < FIGHTER_DAMAGE_MAX
}

/// Where the movement phase of a tick leaves the player on the x axis: the
/// key offsets and drift applied, then clamped to the viewport band.
pub open spec fn post_move_x(p: Player, width: int) -> int {
    clamped(p.moved_x(), PLAYER_RADIUS as int, width - PLAYER_RADIUS)
}

/// The y-axis twin of `post_move_x`.
pub open spec fn post_move_y(p: Player, height: int) -> int {
    clamped(p.moved_y(), PLAYER_RADIUS as int, height - PLAYER_RADIUS)
}

/// Whether the health-depletion penalty fires this tick: the health pool ran
/// out while a life remains.
pub open spec fn penalty_applies(p: Player) -> bool {
    p.health < 1 && p.life >= 1
}

/// The player's life after the health-depletion penalty.
pub open spec fn pen_life(p: Player) -> int {
    if penalty_applies(p) {
        p.life - 1
    } else {
        p.life as int
    }
}

/// The player's x position after movement and the health-depletion penalty:
/// the penalty respawns the player at the origin.
pub open spec fn pen_x(p: Player, width: int) -> int {
    if penalty_applies(p) {
        0
    } else {
        post_move_x(p, width)
    }
}

/// The y-axis twin of `pen_x`.
pub open spec fn pen_y(p: Player, height: int) -> int {
    if penalty_applies(p) {
        0
    } else {
        post_move_y(p, height)
    }
}

/// The player's health after the health-depletion penalty: restored to full
/// on a life loss.
pub open spec fn pen_health(p: Player) -> int {
    if penalty_applies(p) {
        PLAYER_HEALTH as int
    } else {
        p.health as int
    }
}

/// The status after the life check that follows the penalty: exhausted life
/// forces `Lose`.
pub open spec fn pen_status(p: Player) -> GameStatus {
    if pen_life(p) < 1 {
        GameStatus::Lose
    } else {
        GameStatus::Fight
    }
}

/// One step of the enemy collision scan: an enemy overlapping the player at
/// `(px, py)` costs one life and respawns the player at the origin, or turns
/// the status to `Lose` when no life remains.
pub open spec fn collision_step(m: Enemy, life: int, px: int, py: int, status: GameStatus) -> (
    int,
    int,
    int,
    GameStatus,
) {
    if spec_collides_at(m.pos.x as int, m.pos.y as int, m.size as int / 2, px, py, PLAYER_RADIUS as int) {
        if life < 1 {
            (life, px, py, GameStatus::Lose)
        } else {
            (life - 1, 0, 0, status)
        }
    } else {
        (life, px, py, status)
    }
}

/// The enemy collision scan in order: the life, position and status that the
/// enemy pass leaves, given the enemies' post-wander placements.
pub open spec fn collision_scan(ms: Seq<Enemy>, life: int, px: int, py: int, status: GameStatus) -> (
    int,
    int,
    int,
    GameStatus,
)
    decreases ms.len(),
{
    if ms.len() == 0 {
        (life, px, py, status)
    } else {
        let n = collision_step(ms[0], life, px, py, status);
        collision_scan(ms.subrange(1, ms.len() as int), n.0, n.1, n.2, n.3)
    }
}

/// Extending the scan by one enemy at the back applies one more step.
proof fn lemma_collision_scan_push(
    ms: Seq<Enemy>,
    m: Enemy,
    life: int,
    px: int,
    py: int,
    status: GameStatus,
)
    ensures
        collision_scan(ms.push(m), life, px, py, status) == collision_step(
            m,
            collision_scan(ms, life, px, py, status).0,
            collision_scan(ms, life, px, py, status).1,
            collision_scan(ms, life, px, py, status).2,
            collision_scan(ms, life, px, py, status).3,
        ),
    decreases ms.len(),
{
    if ms.len() == 0 {
        let n = collision_step(m, life, px, py, status);
        assert(ms.push(m)[0] == m);
        assert(ms.push(m).subrange(1, 1) =~= Seq::<Enemy>::empty());
        assert(collision_scan(ms.push(m), life, px, py, status) == collision_scan(
            ms.push(m).subrange(1, 1),
            n.0,
            n.1,
            n.2,
            n.3,
        ));
        assert(collision_scan(ms.push(m).subrange(1, 1), n.0, n.1, n.2, n.3) == n);
        assert(collision_scan(ms, life, px, py, status) == (life, px, py, status));
    } else {
        let n = collision_step(ms[0], life, px, py, status);
        let tail = ms.subrange(1, ms.len() as int);
        assert(ms.push(m)[0] == ms[0]);
        assert(ms.push(m).subrange(1, ms.push(m).len() as int) =~= tail.push(m));
        lemma_collision_scan_push(tail, m, n.0, n.1, n.2, n.3);
        assert(collision_scan(ms.push(m), life, px, py, status) == collision_scan(
            tail.push(m),
            n.0,
            n.1,
            n.2,
            n.3,
        ));
        assert(collision_scan(ms, life, px, py, status) == collision_scan(
            tail,
            n.0,
            n.1,
            n.2,
            n.3,
        ));
    }
}

/// The bullet that a granted fire intent enqueues: at the player's
/// post-movement position, along the player's facing, with a fresh lifetime
/// and damage roll.
pub open spec fn fired_bullet(fb: Bullet, p: Player, width: int, height: int) -> bool {
    &&& fb.pos.x == post_move_x(p, width)
    &&& fb.pos.y == post_move_y(p, height)
    &&& fb.direction == p.direction
    &&& fb.size == BULLET_SIZE
    &&& fb.ttl == BULLET_LIFETIME_MS
    &&& BULLET_DAMAGE_MIN <= fb.damage_count < BULLET_DAMAGE_MAX
    &&& fb.attacker == Attacker::Player
}

/// The fighter `m` is where the retaliatory bullet `b` came from: `b` sits
/// at the fighter's position and aims at the player.
pub open spec fn retaliation_source(b: Bullet, m: Enemy, player_pos: Position) -> bool {
    &&& m.enemy_type == EnemyType::Fighter
    &&& b.pos == m.pos
    &&& b.direction == spec_aim(m.pos, player_pos)
}

/// A retaliatory bullet staged during the scan: monster-owned and fresh,
/// fired from the position of some fighter on the field, aimed at the
/// player.
pub open spec fn retaliation_bullet(b: Bullet, monsters: Seq<Enemy>, player_pos: Position) -> bool {
    &&& b.attacker == Attacker::Monster
    &&& b.ttl == BULLET_LIFETIME_MS
    &&& b.size == BULLET_SIZE
    &&& BULLET_DAMAGE_MIN <= b.damage_count < BULLET_DAMAGE_MAX
    &&& exists|j: int|
        0 <= j < monsters.len() && retaliation_source(b, #[trigger] monsters[j], player_pos)
}

/// A player bullet that accounts for an enemy's health loss: it overlaps the
/// enemy's placement.
pub open spec fn player_hit_evidence(b: Bullet, m: Enemy) -> bool {
    b.attacker == Attacker::Player && bullet_overlaps_enemy(b, m)
}

/// The cause facts read only an enemy's placement, size and subtype, so they
/// survive updates that touch nothing but health.
proof fn lemma_causes_stable(ms1: Seq<Enemy>, ms2: Seq<Enemy>)
    requires
        ms1.len() == ms2.len(),
        forall|j: int|
            0 <= j < ms1.len() ==> (#[trigger] ms2[j]).pos == ms1[j].pos && ms2[j].size == ms1[j].size
                && ms2[j].enemy_type == ms1[j].enemy_type,
    ensures
        forall|b: Bullet, px: int, py: int|
            #[trigger] consumed_for_cause(b, ms1, px, py) ==> consumed_for_cause(b, ms2, px, py),
        forall|b: Bullet, ppos: Position|
            #[trigger] retaliation_bullet(b, ms1, ppos) ==> retaliation_bullet(b, ms2, ppos),
{
    assert forall|b: Bullet, px: int, py: int|
        #[trigger] consumed_for_cause(b, ms1, px, py) implies consumed_for_cause(
        b,
        ms2,
        px,
        py,
    ) by {
        if b.attacker == Attacker::Player && exists|j: int|
            0 <= j < ms1.len() && bullet_overlaps_enemy(b, #[trigger] ms1[j]) {
            let j = choose|j: int| 0 <= j < ms1.len() && bullet_overlaps_enemy(b, #[trigger] ms1[j]);
            assert(bullet_overlaps_enemy(b, ms2[j]));
        }
    }
    assert forall|b: Bullet, ppos: Position|
        #[trigger] retaliation_bullet(b, ms1, ppos) implies retaliation_bullet(b, ms2, ppos) by {
        let j = choose|j: int| 0 <= j < ms1.len() && retaliation_source(b, #[trigger] ms1[j], ppos);
        assert(retaliation_source(b, ms2[j], ppos));
    }
}

/// One fighting tick, witnessed by its intermediate collections: the enemies
/// that entered combat (`entered`), their wander landings (`moved`), their
/// health after the bullet strikes (`mid`), and the bullets the scan
/// processed (`scanned`). The tick's outcome is fixed by these witnesses:
/// the survivors of the pruning pass are exactly the live images of the old
/// entities, the collision scan over the landed enemies fixes life, position
/// and status, enemies lose health only to an overlapping player bullet, and
/// bullets are consumed only by a strike.
pub open spec fn fight_tick_witness(
    pre: GunScoreApp,
    post: GunScoreApp,
    dt: int,
    width: int,
    height: int,
    entered: Seq<Enemy>,
    moved: Seq<Enemy>,
    mid: Seq<Enemy>,
    scanned: Seq<Bullet>,
) -> bool {
    let fired = pre.player.shooting && pre.player.amunition >= 1;
    let fired_n: int = if fired {
        1
    } else {
        0
    };
    let scan = collision_scan(
        moved,
        pen_life(pre.player),
        pen_x(pre.player, width),
        pen_y(pre.player, height),
        pen_status(pre.player),
    );

    // What entered combat: the old field, or a spawned batch of nine.
    &&& (pre.monsters@.len() > 0 ==> entered == pre.monsters@)
    &&& (pre.monsters@.len() == 0 ==> entered.len() == ENEMY_SPAWN_COUNT && (forall|k: int|
        0 <= k < entered.len() ==> spawned_enemy(#[trigger] entered[k], width, height)))
    // Each enemy wandered exactly one step...
    &&& moved.len() == entered.len()
    &&& forall|k: int|
        0 <= k < moved.len() ==> wander_step(entered[k], #[trigger] moved[k], dt, width, height)
    // ...then lost only health, and only to an overlapping player bullet.
    &&& mid.len() == moved.len()
    &&& forall|k: int|
        0 <= k < mid.len() ==> {
            &&& (#[trigger] mid[k]).health <= moved[k].health
            &&& mid[k].pos == moved[k].pos
            &&& mid[k].size == moved[k].size
            &&& mid[k].move_ttl == moved[k].move_ttl
            &&& mid[k].enemy_type == moved[k].enemy_type
            &&& mid[k].damage_count == moved[k].damage_count
        }
    &&& forall|k: int|
        0 <= k < mid.len() && (#[trigger] mid[k]).health < moved[k].health ==> exists|n: int|
            0 <= n < scanned.len() && player_hit_evidence(#[trigger] scanned[n], mid[k])
    // The dead are pruned; the survivors keep their order.
    &&& post.monsters@ == live_monsters(mid)
    // The collision scan over the landed enemies, starting from the player
    // as movement and the health penalty left it, fixes life, position and
    // the status; clearing the field turns the status to Win.
    &&& post.player.life as int == scan.0
    &&& post.player.pos.x as int == scan.1
    &&& post.player.pos.y as int == scan.2
    &&& post.status == (if live_monsters(mid).len() == 0 {
        GameStatus::Win
    } else {
        scan.3
    })
    // The scanned bullets: per-index images of the old ones, then the fired
    // one, then the staged retaliation of struck fighters.
    &&& scanned.len() >= pre.bullets@.len() + fired_n
    &&& forall|k: int|
        0 <= k < pre.bullets@.len() ==> bullet_scanned(pre.bullets@[k], #[trigger] scanned[k], dt)
    &&& (fired ==> exists|fb: Bullet|
        fired_bullet(fb, pre.player, width, height) && bullet_scanned(
            fb,
            scanned[pre.bullets@.len() as int],
            dt,
        ))
    &&& forall|k: int|
        pre.bullets@.len() + fired_n <= k < scanned.len() ==> retaliation_bullet(
            #[trigger] scanned[k],
            mid,
            post.player.pos,
        )
    // A bullet that would still be live was consumed only by a strike.
    &&& forall|k: int|
        0 <= k < pre.bullets@.len() && (#[trigger] scanned[k]).ttl == 0 && pre.bullets@[k].ttl > dt
            ==> consumed_for_cause(scanned[k], mid, scan.1, scan.2)
    &&& (fired && dt < BULLET_LIFETIME_MS && scanned[pre.bullets@.len() as int].ttl == 0
        ==> consumed_for_cause(scanned[pre.bullets@.len() as int], mid, scan.1, scan.2))
    // Expired and consumed bullets are pruned; the rest keep their order.
    &&& post.bullets@ == live_bullets(scanned)
    // The player's health is what the penalty left, less monster-bullet
    // strikes; with no monster bullet on the field it is exact.
    &&& post.player.health as int <= pen_health(pre.player)
    &&& ((forall|k: int|
        0 <= k < pre.bullets@.len() ==> (#[trigger] pre.bullets@[k]).attacker != Attacker::Monster)
        ==> post.player.health as int == pen_health(pre.player))
    // Score rises only through player bullets: a tick without any stands
    // still.
    &&& ((forall|k: int|
        0 <= k < pre.bullets@.len() ==> (#[trigger] pre.bullets@[k]).attacker != Attacker::Player)
        && !fired ==> post.player.score == pre.player.score)
}

/// One fighting tick: some batch of entered enemies, wander landings, bullet
/// strikes and staged retaliation as `fight_tick_witness` describes ties the
/// old state to the new one.
pub open spec fn fight_tick_rel(
    pre: GunScoreApp,
    post: GunScoreApp,
    dt: int,
    width: int,
    height: int,
) -> bool {
    exists|entered: Seq<Enemy>, moved: Seq<Enemy>, mid: Seq<Enemy>, scanned: Seq<Bullet>|
        fight_tick_witness(pre, post, dt, width, height, entered, moved, mid, scanned)
}

/// A tick in which no player bullet can strike: none is on the field and no
/// fire intent is pending.
pub open spec fn no_player_shots(pre: GunScoreApp) -> bool {
    &&& forall|k: int|
        0 <= k < pre.bullets@.len() ==> (#[trigger] pre.bullets@[k]).attacker != Attacker::Player
    &&& !(pre.player.shooting && pre.player.amunition >= 1)
}

/// Pruning removes nothing from a collection whose members are all live.
proof fn lemma_live_monsters_all(s: Seq<Enemy>)
    requires
        forall|k: int| 0 <= k < s.len() ==> (#[trigger] s[k]).health > 0,
    ensures
        live_monsters(s) == s,
    decreases s.len(),
{
    reveal_with_fuel(Seq::filter, 1);
    if s.len() == 0 {
        assert(live_monsters(s) =~= s);
    } else {
        assert(forall|k: int| 0 <= k < s.drop_last().len() ==> (#[trigger] s.drop_last()[k]).health
            > 0);
        lemma_live_monsters_all(s.drop_last());
        assert(s[s.len() - 1].health > 0);
        assert(live_monsters(s) =~= s);
    }
}

/// An enemy that spawned this tick and then took its first wander step.
pub open spec fn spawned_then_wandered(m: Enemy, dt: int, width: int, height: int) -> bool {
    exists|e: Enemy|
        #[trigger] spawned_enemy(e, width, height) && wander_step(e, m, dt, width, height)
}

/// One tick outside of fighting: the world idles exactly. An empty field
/// refills with a spawned batch; every enemy takes one wander step, every
/// bullet (the fired one included) advances one tick, the player only moves,
/// and no combat happens.
pub open spec fn idle_tick_rel(
    pre: GunScoreApp,
    post: GunScoreApp,
    dt: int,
    width: int,
    height: int,
) -> bool {
    let fired = pre.player.shooting && pre.player.amunition >= 1;
    let fired_n: int = if fired {
        1
    } else {
        0
    };

    &&& (pre.monsters@.len() > 0 ==> post.monsters@.len() == pre.monsters@.len() && (forall|k: int|
        0 <= k < post.monsters@.len() ==> wander_step(
            pre.monsters@[k],
            #[trigger] post.monsters@[k],
            dt,
            width,
            height,
        )))
    &&& (pre.monsters@.len() == 0 ==> post.monsters@.len() == ENEMY_SPAWN_COUNT && (forall|k: int|
        0 <= k < post.monsters@.len() ==> spawned_then_wandered(
            #[trigger] post.monsters@[k],
            dt,
            width,
            height,
        )))
    &&& post.bullets@.len() == pre.bullets@.len() + fired_n
    &&& forall|k: int|
        0 <= k < pre.bullets@.len() ==> bullet_moved(pre.bullets@[k], #[trigger] post.bullets@[k], dt)
    &&& (fired ==> exists|fb: Bullet|
        fired_bullet(fb, pre.player, width, height) && bullet_moved(
            fb,
            post.bullets@[pre.bullets@.len() as int],
            dt,
        ))
    &&& post.player.pos.x as int == post_move_x(pre.player, width)
    &&& post.player.pos.y as int == post_move_y(pre.player, height)
}

/// Fields of the player that neither movement keys nor the fire or reload
/// keys ever touch.
pub open spec fn same_player_identity(a: Player, b: Player) -> bool {
    &&& b.name == a.name
    &&& b.pos == a.pos
    &&& b.size == a.size
    &&& b.life == a.life
    &&& b.health == a.health
    &&& b.reloading == a.reloading
    &&& b.score == a.score
}

/// The dominant-axis direction from `from` toward `to`: retaliatory bullets
/// travel toward the player's position at the moment of the hit. Ties and a
/// zero offset resolve to the horizontal axis, east.
pub open spec fn spec_aim(from: Position, to: Position) -> Direction {
    let dx = to.x - from.x;
    let dy = to.y - from.y;
    let ax = if dx >= 0 {
        dx
    } else {
        -dx
    };
    let ay = if dy >= 0 {
        dy
    } else {
        -dy
    };
    if ax >= ay {
        if dx >= 0 {
            Direction::East
        } else {
            Direction::West
        }
    } else {
        if dy >= 0 {
            Direction::South
        } else {
            Direction::North
        }
    }
}

/// The direction a retaliatory bullet takes: toward `to` along the dominant
/// axis.
pub fn aim_at(from: &Position, to: &Position) -> (d: Direction)
    requires
        -VIEWPORT_MAX <= from.x <= VIEWPORT_MAX,
        -VIEWPORT_MAX <= from.y <= VIEWPORT_MAX,
        -2 * VIEWPORT_MAX <= to.x <= 2 * VIEWPORT_MAX,
        -2 * VIEWPORT_MAX <= to.y <= 2 * VIEWPORT_MAX,
    ensures
        d == spec_aim(*from, *to),
{
    let dx = to.x - from.x;
    let dy = to.y - from.y;
    let ax = if dx >= 0 {
        dx
    } else {
        -dx
    };
    let ay = if dy >= 0 {
        dy
    } else {
        -dy
    };
    if ax >= ay {
        if dx >= 0 {
            Direction::East
        } else {
            Direction::West
        }
    } else {
        if dy >= 0 {
            Direction::South
        } else {
            Direction::North
        }
    }
}

impl GunScoreApp {
    /// Every entity is well-formed and the fire cooldown stays within one
    /// cooldown window.
    pub open spec fn wf(self) -> bool {
        &&& self.player.wf()
        &&& forall|i: int| 0 <= i < self.monsters@.len() ==> (#[trigger] self.monsters@[i]).wf()
        &&& forall|i: int| 0 <= i < self.bullets@.len() ==> (#[trigger] self.bullets@[i]).wf()
        &&& -MAX_TICK_MS <= self.bullets_cooldown <= FIRE_COOLDOWN_MS
    }

    /// A fresh match: a fresh player at the origin, no enemies, no bullets,
    /// fighting status, and an elapsed fire cooldown.
    pub fn new() -> (app: GunScoreApp)
        ensures
            app.wf(),
            app.player.name@ == "Tono"@,
            app.player.pos == (Position { x: 0, y: 0 }),
            app.player.life == PLAYER_LIFE,
            app.player.health == PLAYER_HEALTH,
            app.player.amunition == PLAYER_AMUNITION,
            app.player.shooting == false,
            app.player.reloading == false,
            app.player.score == 0,
            app.player.direction == Direction::East,
            app.player.move_offset == (Position { x: 0, y: 0 }),
            app.player.drift_ttl == 0,
            app.player.size == PLAYER_SIZE,
            app.monsters@.len() == 0,
            app.bullets@.len() == 0,
            app.status == GameStatus::Fight,
            app.bullets_cooldown == 0,
    {
        GunScoreApp {
            player: Player::new(&String::from_str("Tono"), &0, &0),
            monsters: Vec::new(),
            status: GameStatus::Fight,
            bullets: Vec::new(),
            bullets_cooldown: 0,
        }
    }

    /// The explicit restart: a fresh player, cleared collections, fighting
    /// status. The fire cooldown keeps running.
    fn reset(&mut self)
        requires
            old(self).wf(),
        ensures
            final(self).wf(),
            final(self).player.name@ == "You"@,
            final(self).player.pos == (Position { x: 0, y: 0 }),
            final(self).player.move_offset == (Position { x: 0, y: 0 }),
            final(self).player.drift_ttl == 0,
            final(self).player.direction == Direction::East,
            final(self).player.life == PLAYER_LIFE,
            final(self).player.health == PLAYER_HEALTH,
            final(self).player.amunition == PLAYER_AMUNITION,
            final(self).player.shooting == false,
            final(self).player.reloading == false,
            final(self).player.score == 0,
            final(self).monsters@.len() == 0,
            final(self).bullets@.len() == 0,
            final(self).status == GameStatus::Fight,
            final(self).bullets_cooldown == old(self).bullets_cooldown,
    {
        self.player = Player::new(&String::from_str("You"), &0, &0);

        self.status = GameStatus::Fight;
        self.monsters.clear();
        self.bullets.clear();
    }

    /// The input mapper: translates one key press or release into player
    /// intents. Movement keys set or clear an axis offset, the fire key sets
    /// the shooting intent when the cooldown has elapsed, the reload key
    /// refills ammunition only when it is depleted, and the restart key
    /// re-initializes the match whatever the status.
    pub fn input(&mut self, key: GameKey, is_press: bool)
        requires
            old(self).wf(),
        ensures
            final(self).wf(),
            key != GameKey::Restart ==> {
                &&& final(self).monsters@ == old(self).monsters@
                &&& final(self).bullets@ == old(self).bullets@
                &&& final(self).status == old(self).status
            },
            (key == GameKey::Up || key == GameKey::Down || key == GameKey::Left || key
                == GameKey::Right) ==> {
                &&& same_player_identity(old(self).player, final(self).player)
                &&& final(self).player.shooting == old(self).player.shooting
                &&& final(self).player.amunition == old(self).player.amunition
                &&& final(self).bullets_cooldown == old(self).bullets_cooldown
            },
            key == GameKey::Up && is_press ==> final(self).player.direction == Direction::North
                && final(self).player.move_offset.y == -PLAYER_SPEED
                && final(self).player.move_offset.x == old(self).player.move_offset.x
                && final(self).player.drift_ttl == old(self).player.drift_ttl,
            key == GameKey::Down && is_press ==> final(self).player.direction == Direction::South
                && final(self).player.move_offset.y == PLAYER_SPEED
                && final(self).player.move_offset.x == old(self).player.move_offset.x
                && final(self).player.drift_ttl == old(self).player.drift_ttl,
            key == GameKey::Left && is_press ==> final(self).player.direction == Direction::West
                && final(self).player.move_offset.x == -PLAYER_SPEED
                && final(self).player.move_offset.y == old(self).player.move_offset.y
                && final(self).player.drift_ttl == old(self).player.drift_ttl,
            key == GameKey::Right && is_press ==> final(self).player.direction == Direction::East
                && final(self).player.move_offset.x == PLAYER_SPEED
                && final(self).player.move_offset.y == old(self).player.move_offset.y
                && final(self).player.drift_ttl == old(self).player.drift_ttl,
            (key == GameKey::Up || key == GameKey::Down) && !is_press ==> final(self).player.move_offset.y == 0 && final(self).player.move_offset.x == old(self).player.move_offset.x && final(self).player.drift_ttl
                == PLAYER_DRIFT_MS && final(self).player.direction == old(self).player.direction,
            (key == GameKey::Left || key == GameKey::Right) && !is_press ==> final(self).player.move_offset.x == 0 && final(self).player.move_offset.y == old(self).player.move_offset.y && final(self).player.drift_ttl
                == PLAYER_DRIFT_MS && final(self).player.direction == old(self).player.direction,
            key == GameKey::Fire ==> {
                &&& same_player_identity(old(self).player, final(self).player)
                &&& final(self).player.amunition == old(self).player.amunition
                &&& final(self).player.direction == old(self).player.direction
                &&& final(self).player.move_offset == old(self).player.move_offset
                &&& final(self).player.drift_ttl == old(self).player.drift_ttl
            },
            key == GameKey::Fire && is_press && fire_intent_granted(
                old(self).bullets_cooldown as int,
            ) ==> final(self).player.shooting == true && final(self).bullets_cooldown
                == FIRE_COOLDOWN_MS,
            key == GameKey::Fire && !(is_press && fire_intent_granted(
                old(self).bullets_cooldown as int,
            )) ==> final(self).player.shooting == old(self).player.shooting && final(self).bullets_cooldown == old(self).bullets_cooldown,
            key == GameKey::Reload ==> {
                &&& same_player_identity(old(self).player, final(self).player)
                &&& final(self).player.direction == old(self).player.direction
                &&& final(self).player.move_offset == old(self).player.move_offset
                &&& final(self).player.drift_ttl == old(self).player.drift_ttl
                &&& final(self).bullets_cooldown == old(self).bullets_cooldown
            },
            key == GameKey::Reload && is_press && old(self).player.amunition == 0 ==> final(self).player.amunition == RELOAD_AMUNITION && final(self).player.shooting == false,
            key == GameKey::Reload && !(is_press && old(self).player.amunition == 0) ==> final(self).player.amunition == old(self).player.amunition && final(self).player.shooting == old(self).player.shooting,
            key == GameKey::Restart ==> {
                &&& final(self).status == GameStatus::Fight
                &&& final(self).monsters@.len() == 0
                &&& final(self).bullets@.len() == 0
                &&& final(self).bullets_cooldown == old(self).bullets_cooldown
                &&& final(self).player.name@ == "You"@
                &&& final(self).player.pos == (Position { x: 0, y: 0 })
                &&& final(self).player.life == PLAYER_LIFE
                &&& final(self).player.health == PLAYER_HEALTH
                &&& final(self).player.amunition == PLAYER_AMUNITION
                &&& final(self).player.shooting == false
                &&& final(self).player.score == 0
                &&& final(self).player.direction == Direction::East
            },
    {
        match key {
            GameKey::Up => {
                if is_press {
                    self.player.start_move(Direction::North)
                } else {
                    self.player.stop_move(Direction::North)
                }
            },
            GameKey::Down => {
                if is_press {
                    self.player.start_move(Direction::South)
                } else {
                    self.player.stop_move(Direction::South)
                }
            },
            GameKey::Left => {
                if is_press {
                    self.player.start_move(Direction::West)
                } else {
                    self.player.stop_move(Direction::West)
                }
            },
            GameKey::Right => {
                if is_press {
                    self.player.start_move(Direction::East)
                } else {
                    self.player.stop_move(Direction::East)
                }
            },
            GameKey::Fire => {
                if is_press && self.bullets_cooldown <= 0 {
                    self.bullets_cooldown = FIRE_COOLDOWN_MS;
                    self.player.shooting = true;
                }
            },
            GameKey::Reload => {
                if is_press && self.player.amunition == 0 {
                    self.player.shooting = false;
                    self.player.amunition = RELOAD_AMUNITION;
                }
            },
            GameKey::Restart => {
                self.reset();
            },
        }
    }

    /// The re-population policy: a batch of `ENEMY_SPAWN_COUNT` enemies
    /// spawns at random positions exactly when the collection is empty;
    /// while any enemy is alive nothing spawns.
    fn spawn_monsters_if_empty(&mut self, width: i64, height: i64)
        requires
            old(self).wf(),
            VIEWPORT_MIN <= width <= VIEWPORT_MAX,
            VIEWPORT_MIN <= height <= VIEWPORT_MAX,
        ensures
            final(self).wf(),
            final(self).player == old(self).player,
            final(self).bullets@ == old(self).bullets@,
            final(self).status == old(self).status,
            final(self).bullets_cooldown == old(self).bullets_cooldown,
            old(self).monsters@.len() > 0 ==> final(self).monsters@ == old(self).monsters@,
            old(self).monsters@.len() == 0 ==> final(self).monsters@.len() == ENEMY_SPAWN_COUNT && (
            forall|k: int|
                0 <= k < final(self).monsters@.len() ==> spawned_enemy(
                    #[trigger] final(self).monsters@[k],
                    width as int,
                    height as int,
                )),
    {
        if self.monsters.len() == 0 {
            let mut i: usize = 0;
            while i < ENEMY_SPAWN_COUNT
                invariant
                    i <= ENEMY_SPAWN_COUNT,
                    self.monsters@.len() == i,
                    forall|k: int|
                        0 <= k < self.monsters@.len() ==> (#[trigger] self.monsters@[k]).wf(),
                    forall|k: int|
                        0 <= k < self.monsters@.len() ==> spawned_enemy(
                            #[trigger] self.monsters@[k],
                            width as int,
                            height as int,
                        ),
                    self.player == old(self).player,
                    self.bullets@ == old(self).bullets@,
                    self.status == old(self).status,
                    self.bullets_cooldown == old(self).bullets_cooldown,
                    VIEWPORT_MIN <= width <= VIEWPORT_MAX,
                    VIEWPORT_MIN <= height <= VIEWPORT_MAX,
                decreases ENEMY_SPAWN_COUNT - i,
            {
                self.monsters.push(Enemy::new_rand(width, height));
                i = i + 1;
            }
        }
    }

    /// Fire resolution: a pending shooting intent is always consumed; when
    /// ammunition remains, one unit is spent and one player bullet is queued
    /// at the player's position, travelling along its facing direction.
    fn handle_fire(&mut self)
        requires
            old(self).wf(),
        ensures
            final(self).wf(),
            final(self).player.shooting == false,
            final(self).monsters@ == old(self).monsters@,
            final(self).status == old(self).status,
            final(self).bullets_cooldown == old(self).bullets_cooldown,
            same_player_identity(old(self).player, final(self).player),
            final(self).player.direction == old(self).player.direction,
            final(self).player.move_offset == old(self).player.move_offset,
            final(self).player.drift_ttl == old(self).player.drift_ttl,
            old(self).player.shooting && old(self).player.amunition >= 1 ==> {
                &&& final(self).player.amunition == old(self).player.amunition - 1
                &&& final(self).bullets@.len() == old(self).bullets@.len() + 1
                &&& final(self).bullets@.subrange(0, old(self).bullets@.len() as int) == old(self).bullets@
                &&& final(self).bullets@.last().attacker == Attacker::Player
                &&& final(self).bullets@.last().pos == old(self).player.pos
                &&& final(self).bullets@.last().direction == old(self).player.direction
                &&& final(self).bullets@.last().ttl == BULLET_LIFETIME_MS
                &&& final(self).bullets@.last().size == BULLET_SIZE
                &&& BULLET_DAMAGE_MIN <= final(self).bullets@.last().damage_count
                    < BULLET_DAMAGE_MAX
            },
            !(old(self).player.shooting && old(self).player.amunition >= 1) ==> {
                &&& final(self).bullets@ == old(self).bullets@
                &&& final(self).player.amunition == old(self).player.amunition
            },
    {
        if self.player.shooting {
            self.player.shooting = false;
            if self.player.amunition >= 1 {
                let b = Bullet::new(
                    self.player.pos.x,
                    self.player.pos.y,
                    self.player.direction,
                    Attacker::Player,
                );
                self.bullets.push(b);
                self.player.amunition = self.player.amunition - 1;
                proof {
                    assert(self.bullets@.subrange(0, old(self).bullets@.len() as int) =~= old(self).bullets@);
                }
            }
        }
    }

    /// The health-depletion penalty: once the health pool is empty and a
    /// life remains, one life is lost, the player respawns at the origin,
    /// and the health pool is restored to full.
    fn apply_health_penalty(&mut self)
        requires
            old(self).wf(),
        ensures
            final(self).wf(),
            final(self).monsters@ == old(self).monsters@,
            final(self).bullets@ == old(self).bullets@,
            final(self).status == old(self).status,
            final(self).bullets_cooldown == old(self).bullets_cooldown,
            final(self).player.name == old(self).player.name,
            final(self).player.move_offset == old(self).player.move_offset,
            final(self).player.drift_ttl == old(self).player.drift_ttl,
            final(self).player.direction == old(self).player.direction,
            final(self).player.size == old(self).player.size,
            final(self).player.amunition == old(self).player.amunition,
            final(self).player.shooting == old(self).player.shooting,
            final(self).player.reloading == old(self).player.reloading,
            final(self).player.score == old(self).player.score,
            old(self).player.health < 1 && old(self).player.life >= 1 ==> {
                &&& final(self).player.life == old(self).player.life - 1
                &&& final(self).player.pos == (Position { x: 0, y: 0 })
                &&& final(self).player.health == PLAYER_HEALTH
            },
            !(old(self).player.health < 1 && old(self).player.life >= 1) ==> {
                &&& final(self).player.life == old(self).player.life
                &&& final(self).player.pos == old(self).player.pos
                &&& final(self).player.health == old(self).player.health
            },
    {
        if self.player.health < 1 && self.player.life >= 1 {
            self.player.life = self.player.life - 1;
            self.player.pos = Position::new(0, 0);
            self.player.health = PLAYER_HEALTH;
        }
    }

    /// The enemy pass while fighting: each enemy wanders one tick in order;
    /// an enemy overlapping the player then costs one life and respawns the
    /// player at the origin, or ends the match in `Lose` when no life
    /// remains. Each enemy takes exactly one `wander_step`, and the player's
    /// life, position and the status afterwards are exactly what the
    /// `collision_scan` over the landed enemies yields.
    fn monsters_pass(&mut self, dt: i64, width: i64, height: i64)
        requires
            old(self).wf(),
            1 <= dt <= MAX_TICK_MS,
            VIEWPORT_MIN <= width <= VIEWPORT_MAX,
            VIEWPORT_MIN <= height <= VIEWPORT_MAX,
        ensures
            final(self).wf(),
            final(self).bullets@ == old(self).bullets@,
            final(self).bullets_cooldown == old(self).bullets_cooldown,
            final(self).monsters@.len() == old(self).monsters@.len(),
            forall|k: int|
                0 <= k < final(self).monsters@.len() ==> wander_step(
                    old(self).monsters@[k],
                    #[trigger] final(self).monsters@[k],
                    dt as int,
                    width as int,
                    height as int,
                ),
            (
                final(self).player.life as int,
                final(self).player.pos.x as int,
                final(self).player.pos.y as int,
                final(self).status,
            ) == collision_scan(
                final(self).monsters@,
                old(self).player.life as int,
                old(self).player.pos.x as int,
                old(self).player.pos.y as int,
                old(self).status,
            ),
            forall|k: int|
                0 <= k < final(self).monsters@.len() ==> {
                    &&& (#[trigger] final(self).monsters@[k]).health == old(self).monsters@[k].health
                    &&& final(self).monsters@[k].enemy_type == old(self).monsters@[k].enemy_type
                    &&& final(self).monsters@[k].damage_count == old(self).monsters@[k].damage_count
                    &&& final(self).monsters@[k].size == old(self).monsters@[k].size
                },
            final(self).status == old(self).status || final(self).status == GameStatus::Lose,
            final(self).status != old(self).status ==> final(self).player.life == 0,
            final(self).player.life <= old(self).player.life,
            final(self).player.pos == old(self).player.pos || final(self).player.pos == (Position {
                x: 0,
                y: 0,
            }),
            final(self).player.name == old(self).player.name,
            final(self).player.move_offset == old(self).player.move_offset,
            final(self).player.drift_ttl == old(self).player.drift_ttl,
            final(self).player.direction == old(self).player.direction,
            final(self).player.size == old(self).player.size,
            final(self).player.health == old(self).player.health,
            final(self).player.amunition == old(self).player.amunition,
            final(self).player.shooting == old(self).player.shooting,
            final(self).player.reloading == old(self).player.reloading,
            final(self).player.score == old(self).player.score,
    {
        let mut i: usize = 0;
        proof {
            assert(self.monsters@.subrange(0, 0) =~= Seq::<Enemy>::empty());
        }
        while i < self.monsters.len()
            invariant
                i <= self.monsters@.len(),
                self.wf(),
                self.bullets@ == old(self).bullets@,
                self.bullets_cooldown == old(self).bullets_cooldown,
                self.monsters@.len() == old(self).monsters@.len(),
                forall|k: int|
                    0 <= k < self.monsters@.len() ==> {
                        &&& (#[trigger] self.monsters@[k]).health == old(self).monsters@[k].health
                        &&& self.monsters@[k].enemy_type == old(self).monsters@[k].enemy_type
                        &&& self.monsters@[k].damage_count == old(self).monsters@[k].damage_count
                        &&& self.monsters@[k].size == old(self).monsters@[k].size
                    },
                forall|k: int|
                    0 <= k < i ==> wander_step(
                        old(self).monsters@[k],
                        #[trigger] self.monsters@[k],
                        dt as int,
                        width as int,
                        height as int,
                    ),
                forall|k: int|
                    i <= k < self.monsters@.len() ==> self.monsters@[k] == old(self).monsters@[k],
                (
                    self.player.life as int,
                    self.player.pos.x as int,
                    self.player.pos.y as int,
                    self.status,
                ) == collision_scan(
                    self.monsters@.subrange(0, i as int),
                    old(self).player.life as int,
                    old(self).player.pos.x as int,
                    old(self).player.pos.y as int,
                    old(self).status,
                ),
                self.status == old(self).status || self.status == GameStatus::Lose,
                self.status != old(self).status ==> self.player.life == 0,
                self.player.life <= old(self).player.life,
                self.player.pos == old(self).player.pos || self.player.pos == (Position {
                    x: 0,
                    y: 0,
                }),
                self.player.name == old(self).player.name,
                self.player.move_offset == old(self).player.move_offset,
                self.player.drift_ttl == old(self).player.drift_ttl,
                self.player.direction == old(self).player.direction,
                self.player.size == old(self).player.size,
                self.player.health == old(self).player.health,
                self.player.amunition == old(self).player.amunition,
                self.player.shooting == old(self).player.shooting,
                self.player.reloading == old(self).player.reloading,
                self.player.score == old(self).player.score,
                1 <= dt <= MAX_TICK_MS,
                VIEWPORT_MIN <= width <= VIEWPORT_MAX,
                VIEWPORT_MIN <= height <= VIEWPORT_MAX,
            decreases self.monsters@.len() - i,
        {
            let ghost prev_life = self.player.life as int;
            let ghost prev_px = self.player.pos.x as int;
            let ghost prev_py = self.player.pos.y as int;
            let ghost prev_status = self.status;
            let ghost scanned_prefix = self.monsters@.subrange(0, i as int);

            let mut m = self.monsters[i];
            m.update(dt, width, height);
            if tabrakan(&m.pos, m.size / 2, &self.player.pos, self.player.size / 2) {
                if self.player.life < 1 {
                    self.status = GameStatus::Lose;
                } else {
                    self.player.life = self.player.life - 1;
                    self.player.pos = Position::new(0, 0);
                }
            }
            self.monsters.set(i, m);
            proof {
                assert((
                    self.player.life as int,
                    self.player.pos.x as int,
                    self.player.pos.y as int,
                    self.status,
                ) == collision_step(m, prev_life, prev_px, prev_py, prev_status));
                lemma_collision_scan_push(
                    scanned_prefix,
                    m,
                    old(self).player.life as int,
                    old(self).player.pos.x as int,
                    old(self).player.pos.y as int,
                    old(self).status,
                );
                assert(self.monsters@.subrange(0, i + 1 as int) =~= scanned_prefix.push(m));
            }
            i = i + 1;
        }
        proof {
            assert(self.monsters@.subrange(0, self.monsters@.len() as int) =~= self.monsters@);
        }
    }

    /// One bullet-versus-enemy resolution step of the collision scan. A live
    /// player bullet overlapping the enemy is consumed (its time-to-live
    /// drops to zero) and deals its damage roll; when that empties the
    /// enemy's health pool the same damage is awarded as score, and a
    /// `Fighter` stages one retaliatory bullet aimed at the player.
    /// Otherwise a live monster bullet overlapping the player is consumed
    /// and deals its damage roll to the player's health. A bullet already
    /// consumed strikes nothing more — each bullet is spent by its first
    /// strike and deals its damage exactly once. Nothing else changes.
    pub fn resolve_bullet_pair(
        b: &mut Bullet,
        m: &mut Enemy,
        player: &mut Player,
        enem_bulls: &mut Vec<Bullet>,
    )
        requires
            old(b).wf(),
            old(m).wf(),
            old(player).wf(),
            forall|k: int|
                0 <= k < old(enem_bulls)@.len() ==> (#[trigger] old(enem_bulls)@[k]).wf(),
        ensures
            final(b).wf(),
            final(m).wf(),
            final(player).wf(),
            forall|k: int|
                0 <= k < final(enem_bulls)@.len() ==> (#[trigger] final(enem_bulls)@[k]).wf(),
            final(b).pos == old(b).pos,
            final(b).direction == old(b).direction,
            final(b).size == old(b).size,
            final(b).damage_count == old(b).damage_count,
            final(b).attacker == old(b).attacker,
            final(b).ttl <= old(b).ttl,
            final(m).pos == old(m).pos,
            final(m).size == old(m).size,
            final(m).move_ttl == old(m).move_ttl,
            final(m).enemy_type == old(m).enemy_type,
            final(m).damage_count == old(m).damage_count,
            final(player).name == old(player).name,
            final(player).pos == old(player).pos,
            final(player).move_offset == old(player).move_offset,
            final(player).drift_ttl == old(player).drift_ttl,
            final(player).direction == old(player).direction,
            final(player).size == old(player).size,
            final(player).life == old(player).life,
            final(player).amunition == old(player).amunition,
            final(player).shooting == old(player).shooting,
            final(player).reloading == old(player).reloading,
            final(player).score >= old(player).score,
            final(player).health <= old(player).health,
            bullet_hits_monster(*old(b), *old(m)) ==> {
                &&& final(b).ttl == 0
                &&& final(m).health == damage_applied(old(m).health, old(b).damage_count)
                &&& final(player).health == old(player).health
                &&& final(player).score == if damage_applied(old(m).health, old(b).damage_count)
                    == 0 {
                    score_awarded(old(player).score, old(b).damage_count)
                } else {
                    old(player).score
                }
                &&& old(m).enemy_type == EnemyType::Fighter ==> {
                    &&& final(enem_bulls)@.len() == old(enem_bulls)@.len() + 1
                    &&& final(enem_bulls)@.subrange(0, old(enem_bulls)@.len() as int) == old(enem_bulls)@
                    &&& final(enem_bulls)@.last().attacker == Attacker::Monster
                    &&& final(enem_bulls)@.last().pos == old(m).pos
                    &&& final(enem_bulls)@.last().direction == spec_aim(old(m).pos, old(player).pos)
                    &&& final(enem_bulls)@.last().ttl == BULLET_LIFETIME_MS
                    &&& BULLET_DAMAGE_MIN <= final(enem_bulls)@.last().damage_count
                        < BULLET_DAMAGE_MAX
                }
                &&& old(m).enemy_type != EnemyType::Fighter ==> final(enem_bulls)@ == old(enem_bulls)@
            },
            !bullet_hits_monster(*old(b), *old(m)) && bullet_hits_player(
                *old(b),
                *old(player),
            ) ==> {
                &&& final(b).ttl == 0
                &&& final(player).health == damage_applied(old(player).health, old(b).damage_count)
                &&& final(player).score == old(player).score
                &&& final(m).health == old(m).health
                &&& final(enem_bulls)@ == old(enem_bulls)@
            },
            !bullet_hits_monster(*old(b), *old(m)) && !bullet_hits_player(
                *old(b),
                *old(player),
            ) ==> {
                &&& final(b).ttl == old(b).ttl
                &&& final(m).health == old(m).health
                &&& final(player).health == old(player).health
                &&& final(player).score == old(player).score
                &&& final(enem_bulls)@ == old(enem_bulls)@
            },
    {
        if b.ttl > 0 && tabrakan(&b.pos, b.size, &m.pos, m.size / 2) && b.attacker
            == Attacker::Player {
            if m.enemy_type == EnemyType::Fighter {
                let d = aim_at(&m.pos, &player.pos);
                enem_bulls.push(Bullet::new(m.pos.x, m.pos.y, d, Attacker::Monster));
                proof {
                    assert(enem_bulls@.subrange(0, old(enem_bulls)@.len() as int) =~= old(enem_bulls)@);
                }
            }
            b.ttl = 0;
            let dmg = b.damage_count;
            m.health = if m.health >= dmg {
                m.health - dmg
            } else {
                0
            };
            if m.health == 0 {
                player.score = if player.score <= u64::MAX - dmg {
                    player.score + dmg
                } else {
                    u64::MAX
                };
            }
        } else if b.ttl > 0 && tabrakan(&b.pos, b.size, &player.pos, player.size / 2) && b.attacker
            == Attacker::Monster {
            b.ttl = 0;
            player.health = if player.health >= b.damage_count {
                player.health - b.damage_count
            } else {
                0
            };
        }
    }

    /// The bullet pass while fighting: each bullet advances one tick and
    /// then scans the enemies in order, resolving hits pair by pair against
    /// the live player state. Retaliatory bullets created during the scan
    /// are staged in a side buffer and merged only after the scan completes,
    /// so the collection under iteration is never mutated. The bullets that
    /// come out are per-index images of the bullets that went in, consumed
    /// only where a strike explains it, followed by the staged retaliation;
    /// enemies lose health only where an overlapping player bullet explains
    /// it.
    fn bullets_pass(&mut self, dt: i64)
        requires
            old(self).wf(),
            1 <= dt <= MAX_TICK_MS,
        ensures
            final(self).wf(),
            final(self).status == old(self).status,
            final(self).bullets_cooldown == old(self).bullets_cooldown,
            final(self).bullets@.len() >= old(self).bullets@.len(),
            final(self).monsters@.len() == old(self).monsters@.len(),
            forall|k: int|
                0 <= k < final(self).monsters@.len() ==> {
                    &&& (#[trigger] final(self).monsters@[k]).health <= old(self).monsters@[k].health
                    &&& final(self).monsters@[k].pos == old(self).monsters@[k].pos
                    &&& final(self).monsters@[k].size == old(self).monsters@[k].size
                    &&& final(self).monsters@[k].move_ttl == old(self).monsters@[k].move_ttl
                    &&& final(self).monsters@[k].enemy_type == old(self).monsters@[k].enemy_type
                    &&& final(self).monsters@[k].damage_count == old(self).monsters@[k].damage_count
                },
            forall|k: int|
                0 <= k < old(self).bullets@.len() ==> bullet_scanned(
                    old(self).bullets@[k],
                    #[trigger] final(self).bullets@[k],
                    dt as int,
                ),
            forall|k: int|
                old(self).bullets@.len() <= k < final(self).bullets@.len() ==> retaliation_bullet(
                    #[trigger] final(self).bullets@[k],
                    final(self).monsters@,
                    old(self).player.pos,
                ),
            forall|k: int|
                0 <= k < old(self).bullets@.len() && (#[trigger] final(self).bullets@[k]).ttl == 0
                    && old(self).bullets@[k].ttl > dt ==> consumed_for_cause(
                    final(self).bullets@[k],
                    final(self).monsters@,
                    old(self).player.pos.x as int,
                    old(self).player.pos.y as int,
                ),
            forall|k: int|
                0 <= k < final(self).monsters@.len() && (#[trigger] final(self).monsters@[k]).health
                    < old(self).monsters@[k].health ==> exists|n: int|
                    0 <= n < final(self).bullets@.len() && player_hit_evidence(
                        #[trigger] final(self).bullets@[n],
                        final(self).monsters@[k],
                    ),
            (forall|k: int|
                0 <= k < old(self).bullets@.len() ==> (#[trigger] old(self).bullets@[k]).attacker
                    != Attacker::Monster) ==> final(self).player.health == old(self).player.health,
            (forall|k: int|
                0 <= k < old(self).bullets@.len() ==> (#[trigger] old(self).bullets@[k]).attacker
                    != Attacker::Player) ==> final(self).player.score == old(self).player.score
                && final(self).bullets@.len() == old(self).bullets@.len() && (forall|k: int|
                0 <= k < final(self).monsters@.len() ==> (#[trigger] final(self).monsters@[k]).health
                    == old(self).monsters@[k].health),
            final(self).player.score >= old(self).player.score,
            final(self).player.health <= old(self).player.health,
            final(self).player.name == old(self).player.name,
            final(self).player.pos == old(self).player.pos,
            final(self).player.move_offset == old(self).player.move_offset,
            final(self).player.drift_ttl == old(self).player.drift_ttl,
            final(self).player.direction == old(self).player.direction,
            final(self).player.size == old(self).player.size,
            final(self).player.life == old(self).player.life,
            final(self).player.amunition == old(self).player.amunition,
            final(self).player.shooting == old(self).player.shooting,
            final(self).player.reloading == old(self).player.reloading,
    {
        let mut enem_bulls: Vec<Bullet> = Vec::new();

        let mut i: usize = 0;
        while i < self.bullets.len()
            invariant
                self.wf(),
                i <= self.bullets@.len(),
                self.bullets@.len() == old(self).bullets@.len(),
                self.status == old(self).status,
                self.bullets_cooldown == old(self).bullets_cooldown,
                self.monsters@.len() == old(self).monsters@.len(),
                forall|k: int|
                    0 <= k < self.monsters@.len() ==> {
                        &&& (#[trigger] self.monsters@[k]).health <= old(self).monsters@[k].health
                        &&& self.monsters@[k].pos == old(self).monsters@[k].pos
                        &&& self.monsters@[k].size == old(self).monsters@[k].size
                        &&& self.monsters@[k].move_ttl == old(self).monsters@[k].move_ttl
                        &&& self.monsters@[k].enemy_type == old(self).monsters@[k].enemy_type
                        &&& self.monsters@[k].damage_count == old(self).monsters@[k].damage_count
                    },
                forall|k: int|
                    0 <= k < i ==> bullet_scanned(
                        old(self).bullets@[k],
                        #[trigger] self.bullets@[k],
                        dt as int,
                    ),
                forall|k: int|
                    i <= k < self.bullets@.len() ==> self.bullets@[k] == old(self).bullets@[k],
                forall|k: int|
                    0 <= k < i && (#[trigger] self.bullets@[k]).ttl == 0 && old(self).bullets@[k].ttl > dt ==> consumed_for_cause(
                        self.bullets@[k],
                        self.monsters@,
                        old(self).player.pos.x as int,
                        old(self).player.pos.y as int,
                    ),
                forall|k: int|
                    0 <= k < enem_bulls@.len() ==> retaliation_bullet(
                        #[trigger] enem_bulls@[k],
                        self.monsters@,
                        old(self).player.pos,
                    ),
                forall|k: int| 0 <= k < enem_bulls@.len() ==> (#[trigger] enem_bulls@[k]).wf(),
                forall|k: int|
                    0 <= k < self.monsters@.len() && (#[trigger] self.monsters@[k]).health < old(self).monsters@[k].health ==> exists|n: int|
                        0 <= n < i && player_hit_evidence(
                            #[trigger] self.bullets@[n],
                            self.monsters@[k],
                        ),
                (forall|k: int|
                    0 <= k < old(self).bullets@.len() ==> (
                    #[trigger] old(self).bullets@[k]).attacker != Attacker::Monster)
                    ==> self.player.health == old(self).player.health,
                (forall|k: int|
                    0 <= k < old(self).bullets@.len() ==> (
                    #[trigger] old(self).bullets@[k]).attacker != Attacker::Player)
                    ==> self.player.score == old(self).player.score && enem_bulls@.len() == 0 && (
                forall|k: int|
                    0 <= k < self.monsters@.len() ==> (#[trigger] self.monsters@[k]).health == old(self).monsters@[k].health),
                self.player.score >= old(self).player.score,
                self.player.health <= old(self).player.health,
                self.player.name == old(self).player.name,
                self.player.pos == old(self).player.pos,
                self.player.move_offset == old(self).player.move_offset,
                self.player.drift_ttl == old(self).player.drift_ttl,
                self.player.direction == old(self).player.direction,
                self.player.size == old(self).player.size,
                self.player.life == old(self).player.life,
                self.player.amunition == old(self).player.amunition,
                self.player.shooting == old(self).player.shooting,
                self.player.reloading == old(self).player.reloading,
                1 <= dt <= MAX_TICK_MS,
            decreases self.bullets@.len() - i,
        {
            let mut b = self.bullets[i];
            b.update(dt);

            let mut j: usize = 0;
            while j < self.monsters.len()
                invariant
                    self.wf(),
                    b.wf(),
                    j <= self.monsters@.len(),
                    i < self.bullets@.len(),
                    self.bullets@.len() == old(self).bullets@.len(),
                    self.status == old(self).status,
                    self.bullets_cooldown == old(self).bullets_cooldown,
                    self.monsters@.len() == old(self).monsters@.len(),
                    forall|k: int|
                        0 <= k < self.monsters@.len() ==> {
                            &&& (#[trigger] self.monsters@[k]).health <= old(self).monsters@[k].health
                            &&& self.monsters@[k].pos == old(self).monsters@[k].pos
                            &&& self.monsters@[k].size == old(self).monsters@[k].size
                            &&& self.monsters@[k].move_ttl == old(self).monsters@[k].move_ttl
                            &&& self.monsters@[k].enemy_type == old(self).monsters@[k].enemy_type
                            &&& self.monsters@[k].damage_count == old(self).monsters@[k].damage_count
                        },
                    bullet_scanned(old(self).bullets@[i as int], b, dt as int),
                    b.ttl == 0 && old(self).bullets@[i as int].ttl > dt ==> consumed_for_cause(
                        b,
                        self.monsters@,
                        old(self).player.pos.x as int,
                        old(self).player.pos.y as int,
                    ),
                    forall|k: int|
                        0 <= k < i ==> bullet_scanned(
                            old(self).bullets@[k],
                            #[trigger] self.bullets@[k],
                            dt as int,
                        ),
                    forall|k: int|
                        i <= k < self.bullets@.len() ==> self.bullets@[k] == old(self).bullets@[k],
                    forall|k: int|
                        0 <= k < i && (#[trigger] self.bullets@[k]).ttl == 0 && old(self).bullets@[k].ttl > dt ==> consumed_for_cause(
                            self.bullets@[k],
                            self.monsters@,
                            old(self).player.pos.x as int,
                            old(self).player.pos.y as int,
                        ),
                    forall|k: int|
                        0 <= k < enem_bulls@.len() ==> retaliation_bullet(
                            #[trigger] enem_bulls@[k],
                            self.monsters@,
                            old(self).player.pos,
                        ),
                    forall|k: int| 0 <= k < enem_bulls@.len() ==> (#[trigger] enem_bulls@[k]).wf(),
                    forall|k: int|
                        0 <= k < self.monsters@.len() && (#[trigger] self.monsters@[k]).health
                            < old(self).monsters@[k].health ==> (exists|n: int|
                            0 <= n < i && player_hit_evidence(
                                #[trigger] self.bullets@[n],
                                self.monsters@[k],
                            )) || player_hit_evidence(b, self.monsters@[k]),
                    (forall|k: int|
                        0 <= k < old(self).bullets@.len() ==> (
                        #[trigger] old(self).bullets@[k]).attacker != Attacker::Monster)
                        ==> self.player.health == old(self).player.health,
                    (forall|k: int|
                        0 <= k < old(self).bullets@.len() ==> (
                        #[trigger] old(self).bullets@[k]).attacker != Attacker::Player)
                        ==> self.player.score == old(self).player.score && enem_bulls@.len() == 0
                        && (forall|k: int|
                        0 <= k < self.monsters@.len() ==> (#[trigger] self.monsters@[k]).health
                            == old(self).monsters@[k].health),
                    self.player.score >= old(self).player.score,
                    self.player.health <= old(self).player.health,
                    self.player.name == old(self).player.name,
                    self.player.pos == old(self).player.pos,
                    self.player.move_offset == old(self).player.move_offset,
                    self.player.drift_ttl == old(self).player.drift_ttl,
                    self.player.direction == old(self).player.direction,
                    self.player.size == old(self).player.size,
                    self.player.life == old(self).player.life,
                    self.player.amunition == old(self).player.amunition,
                    self.player.shooting == old(self).player.shooting,
                    self.player.reloading == old(self).player.reloading,
                    1 <= dt <= MAX_TICK_MS,
                decreases self.monsters@.len() - j,
            {
                let ghost ms_prev = self.monsters@;
                let ghost enb_prev = enem_bulls@;
                let ghost b_prev = b;
                let ghost player_prev = self.player;

                let mut m = self.monsters[j];
                GunScoreApp::resolve_bullet_pair(&mut b, &mut m, &mut self.player, &mut enem_bulls);
                self.monsters.set(j, m);
                proof {
                    lemma_causes_stable(ms_prev, self.monsters@);
                    let pxo = old(self).player.pos.x as int;
                    let pyo = old(self).player.pos.y as int;

                    // A consumption by this resolution step has its cause in
                    // the pair that was just resolved.
                    if b.ttl == 0 && b_prev.ttl != 0 {
                        if bullet_hits_monster(b_prev, ms_prev[j as int]) {
                            assert(bullet_overlaps_enemy(b, self.monsters@[j as int]));
                            assert(consumed_for_cause(b, self.monsters@, pxo, pyo));
                        } else {
                            assert(bullet_hits_player(b_prev, player_prev));
                            assert(consumed_for_cause(b, self.monsters@, pxo, pyo));
                        }
                    }

                    // The staged retaliation bullets: earlier entries carry
                    // over; a fresh one names the fighter it came from.
                    assert forall|k: int|
                        0 <= k < enem_bulls@.len() implies retaliation_bullet(
                        #[trigger] enem_bulls@[k],
                        self.monsters@,
                        old(self).player.pos,
                    ) by {
                        if k < enb_prev.len() {
                            assert(enem_bulls@[k] == enb_prev[k]);
                        } else {
                            assert(retaliation_source(
                                enem_bulls@[k],
                                self.monsters@[j as int],
                                old(self).player.pos,
                            ));
                        }
                    }

                    // Health losses stay accounted for: old evidence reads
                    // only placements, and a fresh loss names this bullet.
                    assert forall|k: int|
                        0 <= k < self.monsters@.len() && (#[trigger] self.monsters@[k]).health
                            < old(self).monsters@[k].health implies ((exists|n: int|
                        0 <= n < i && player_hit_evidence(
                            #[trigger] self.bullets@[n],
                            self.monsters@[k],
                        )) || player_hit_evidence(b, self.monsters@[k])) by {
                        if ms_prev[k].health < old(self).monsters@[k].health {
                            if exists|n: int|
                                0 <= n < i && player_hit_evidence(
                                    #[trigger] self.bullets@[n],
                                    ms_prev[k],
                                ) {
                                let n = choose|n: int|
                                    0 <= n < i && player_hit_evidence(
                                        #[trigger] self.bullets@[n],
                                        ms_prev[k],
                                    );
                                assert(player_hit_evidence(self.bullets@[n], self.monsters@[k]));
                            } else {
                                assert(player_hit_evidence(b_prev, ms_prev[k]));
                                assert(player_hit_evidence(b, self.monsters@[k]));
                            }
                        } else {
                            assert(k == j);
                            assert(bullet_hits_monster(b_prev, ms_prev[j as int]));
                            assert(player_hit_evidence(b, self.monsters@[k]));
                        }
                    }
                }
                j = j + 1;
            }

            let ghost before_write = self.bullets@;
            self.bullets.set(i, b);
            proof {
                // The written-back bullet joins the processed prefix: its
                // consumption cause and any hit evidence it provides now
                // stand at index `i`, and earlier witnesses are untouched by
                // the write.
                assert forall|k: int|
                    0 <= k < self.monsters@.len() && (#[trigger] self.monsters@[k]).health < old(self).monsters@[k].health implies exists|n: int|
                    0 <= n < i + 1 && player_hit_evidence(
                        #[trigger] self.bullets@[n],
                        self.monsters@[k],
                    ) by {
                    if player_hit_evidence(b, self.monsters@[k]) {
                        assert(self.bullets@[i as int] == b);
                        assert(player_hit_evidence(self.bullets@[i as int], self.monsters@[k]));
                    } else {
                        let n = choose|n: int|
                            0 <= n < i && player_hit_evidence(
                                #[trigger] before_write[n],
                                self.monsters@[k],
                            );
                        assert(self.bullets@[n] == before_write[n]);
                        assert(player_hit_evidence(self.bullets@[n], self.monsters@[k]));
                    }
                }
            }
            i = i + 1;
        }

        let ghost scanned = self.bullets@;
        let ghost staged = enem_bulls@;
        self.bullets.append(&mut enem_bulls);
        proof {
            assert forall|k: int| 0 <= k < self.bullets@.len() implies (
            #[trigger] self.bullets@[k]).wf() by {
                if k < scanned.len() {
                    assert(self.bullets@[k] == scanned[k]);
                } else {
                    assert(self.bullets@[k] == staged[k - scanned.len()]);
                }
            }
            assert forall|k: int|
                old(self).bullets@.len() <= k < self.bullets@.len() implies retaliation_bullet(
                #[trigger] self.bullets@[k],
                self.monsters@,
                old(self).player.pos,
            ) by {
                assert(self.bullets@[k] == staged[k - scanned.len()]);
            }
            // The hit-evidence witnesses of the scan sit in the unchanged
            // prefix of the merged collection.
            assert forall|k: int|
                0 <= k < self.monsters@.len() && (#[trigger] self.monsters@[k]).health < old(self).monsters@[k].health implies exists|n: int|
                0 <= n < self.bullets@.len() && player_hit_evidence(
                    #[trigger] self.bullets@[n],
                    self.monsters@[k],
                ) by {
                let n = choose|n: int|
                    0 <= n < scanned.len() && player_hit_evidence(
                        #[trigger] scanned[n],
                        self.monsters@[k],
                    );
                assert(self.bullets@[n] == scanned[n]);
                assert(player_hit_evidence(self.bullets@[n], self.monsters@[k]));
            }
        }
    }

    /// The bullet half of the pruning pass: bullets whose time-to-live ran
    /// out are dropped, keeping the order of the rest.
    fn pruned_bullets(v: &Vec<Bullet>) -> (out: Vec<Bullet>)
        requires
            forall|k: int| 0 <= k < v@.len() ==> (#[trigger] v@[k]).wf(),
        ensures
            out@ == live_bullets(v@),
            out@.len() <= v@.len(),
            forall|k: int| 0 <= k < out@.len() ==> (#[trigger] out@[k]).wf(),
            forall|k: int| 0 <= k < out@.len() ==> (#[trigger] out@[k]).ttl > 0,
    {
        let mut out: Vec<Bullet> = Vec::new();
        let mut i: usize = 0;
        proof {
            reveal_with_fuel(Seq::filter, 1);
            assert(v@.subrange(0, 0) =~= Seq::<Bullet>::empty());
        }
        while i < v.len()
            invariant
                i <= v@.len(),
                out@ == live_bullets(v@.subrange(0, i as int)),
                out@.len() <= i,
                forall|k: int| 0 <= k < v@.len() ==> (#[trigger] v@[k]).wf(),
                forall|k: int| 0 <= k < out@.len() ==> (#[trigger] out@[k]).wf(),
                forall|k: int| 0 <= k < out@.len() ==> (#[trigger] out@[k]).ttl > 0,
            decreases v@.len() - i,
        {
            let b = v[i];
            proof {
                reveal_with_fuel(Seq::filter, 1);
                let s0 = v@.subrange(0, i as int);
                let s1 = v@.subrange(0, i + 1 as int);
                assert(s1.drop_last() =~= s0);
                assert(s1.last() == v@[i as int]);
            }
            if b.ttl > 0 {
                out.push(b);
            }
            i = i + 1;
        }
        proof {
            assert(v@.subrange(0, v@.len() as int) =~= v@);
        }
        out
    }

    /// The enemy half of the pruning pass: enemies whose health pool is
    /// empty are removed, keeping the order of the rest.
    fn pruned_monsters(v: &Vec<Enemy>) -> (out: Vec<Enemy>)
        requires
            forall|k: int| 0 <= k < v@.len() ==> (#[trigger] v@[k]).wf(),
        ensures
            out@ == live_monsters(v@),
            out@.len() <= v@.len(),
            forall|k: int| 0 <= k < out@.len() ==> (#[trigger] out@[k]).wf(),
            forall|k: int| 0 <= k < out@.len() ==> (#[trigger] out@[k]).health > 0,
    {
        let mut out: Vec<Enemy> = Vec::new();
        let mut i: usize = 0;
        proof {
            reveal_with_fuel(Seq::filter, 1);
            assert(v@.subrange(0, 0) =~= Seq::<Enemy>::empty());
        }
        while i < v.len()
            invariant
                i <= v@.len(),
                out@ == live_monsters(v@.subrange(0, i as int)),
                out@.len() <= i,
                forall|k: int| 0 <= k < v@.len() ==> (#[trigger] v@[k]).wf(),
                forall|k: int| 0 <= k < out@.len() ==> (#[trigger] out@[k]).wf(),
                forall|k: int| 0 <= k < out@.len() ==> (#[trigger] out@[k]).health > 0,
            decreases v@.len() - i,
        {
            let m = v[i];
            proof {
                reveal_with_fuel(Seq::filter, 1);
                let s0 = v@.subrange(0, i as int);
                let s1 = v@.subrange(0, i + 1 as int);
                assert(s1.drop_last() =~= s0);
                assert(s1.last() == v@[i as int]);
            }
            if m.health > 0 {
                out.push(m);
            }
            i = i + 1;
        }
        proof {
            assert(v@.subrange(0, v@.len() as int) =~= v@);
        }
        out
    }

    /// Outside of fighting the world only idles: bullets and enemies still
    /// animate, but nothing spawns here, collides, damages or scores, and
    /// the player is untouched.
    fn idle_pass(&mut self, dt: i64, width: i64, height: i64)
        requires
            old(self).wf(),
            1 <= dt <= MAX_TICK_MS,
            VIEWPORT_MIN <= width <= VIEWPORT_MAX,
            VIEWPORT_MIN <= height <= VIEWPORT_MAX,
        ensures
            final(self).wf(),
            final(self).player == old(self).player,
            final(self).status == old(self).status,
            final(self).bullets_cooldown == old(self).bullets_cooldown,
            final(self).monsters@.len() == old(self).monsters@.len(),
            final(self).bullets@.len() == old(self).bullets@.len(),
            forall|k: int|
                0 <= k < final(self).bullets@.len() ==> bullet_moved(
                    old(self).bullets@[k],
                    #[trigger] final(self).bullets@[k],
                    dt as int,
                ),
            forall|k: int|
                0 <= k < final(self).monsters@.len() ==> wander_step(
                    old(self).monsters@[k],
                    #[trigger] final(self).monsters@[k],
                    dt as int,
                    width as int,
                    height as int,
                ),
    {
        let mut i: usize = 0;
        while i < self.bullets.len()
            invariant
                self.wf(),
                i <= self.bullets@.len(),
                self.player == old(self).player,
                self.status == old(self).status,
                self.bullets_cooldown == old(self).bullets_cooldown,
                self.monsters@ == old(self).monsters@,
                self.bullets@.len() == old(self).bullets@.len(),
                forall|k: int|
                    0 <= k < i ==> bullet_moved(
                        old(self).bullets@[k],
                        #[trigger] self.bullets@[k],
                        dt as int,
                    ),
                forall|k: int|
                    i <= k < self.bullets@.len() ==> self.bullets@[k] == old(self).bullets@[k],
                1 <= dt <= MAX_TICK_MS,
            decreases self.bullets@.len() - i,
        {
            let mut b = self.bullets[i];
            b.update(dt);
            self.bullets.set(i, b);
            i = i + 1;
        }

        let mut j: usize = 0;
        while j < self.monsters.len()
            invariant
                self.wf(),
                j <= self.monsters@.len(),
                self.player == old(self).player,
                self.status == old(self).status,
                self.bullets_cooldown == old(self).bullets_cooldown,
                self.monsters@.len() == old(self).monsters@.len(),
                self.bullets@.len() == old(self).bullets@.len(),
                forall|k: int|
                    0 <= k < self.bullets@.len() ==> bullet_moved(
                        old(self).bullets@[k],
                        #[trigger] self.bullets@[k],
                        dt as int,
                    ),
                forall|k: int|
                    0 <= k < j ==> wander_step(
                        old(self).monsters@[k],
                        #[trigger] self.monsters@[k],
                        dt as int,
                        width as int,
                        height as int,
                    ),
                forall|k: int|
                    j <= k < self.monsters@.len() ==> self.monsters@[k] == old(self).monsters@[k],
                1 <= dt <= MAX_TICK_MS,
                VIEWPORT_MIN <= width <= VIEWPORT_MAX,
                VIEWPORT_MIN <= height <= VIEWPORT_MAX,
            decreases self.monsters@.len() - j,
        {
            let mut m = self.monsters[j];
            m.update(dt, width, height);
            self.monsters.set(j, m);
            j = j + 1;
        }
    }

    /// One simulation tick of `dt` milliseconds against the live viewport.
    /// The player moves and is clamped; a batch of enemies spawns only when
    /// the collection is empty; the fire cooldown counts down and a pending
    /// fire intent is resolved. While fighting, the health penalty and the
    /// enemy and bullet passes run, expired bullets and dead enemies are
    /// pruned, and clearing the enemies wins the match; `fight_tick_rel`
    /// pins the whole outcome to the entered enemies, their wander landings
    /// and the scanned bullets. In a terminal state the world idles exactly
    /// as `idle_tick_rel` says, and combat never changes life, score or
    /// health.
    #[verifier::rlimit(100)]
    pub fn update(&mut self, dt: i64, width: i64, height: i64)
        requires
            old(self).wf(),
            1 <= dt <= MAX_TICK_MS,
            VIEWPORT_MIN <= width <= VIEWPORT_MAX,
            VIEWPORT_MIN <= height <= VIEWPORT_MAX,
        ensures
            final(self).wf(),
            (PLAYER_RADIUS <= final(self).player.pos.x <= width
                - PLAYER_RADIUS
                && PLAYER_RADIUS <= final(self).player.pos.y <= height
                - PLAYER_RADIUS) || final(self).player.pos == (Position {
                x: 0,
                y: 0,
            }),
            old(self).monsters@.len() > 0 ==> final(self).monsters@.len() <= old(self).monsters@.len(),
            old(self).monsters@.len() == 0 ==> final(self).monsters@.len() <= ENEMY_SPAWN_COUNT,
            final(self).player.shooting == false,
            final(self).player.amunition == if old(self).player.shooting && old(self).player.amunition >= 1 {
                old(self).player.amunition - 1
            } else {
                old(self).player.amunition as int
            },
            final(self).bullets_cooldown == cooldown_after(
                old(self).bullets_cooldown as int,
                dt as int,
            ),
            final(self).player.score >= old(self).player.score,
            final(self).player.life <= old(self).player.life,
            old(self).status != GameStatus::Fight ==> {
                &&& final(self).status == old(self).status
                &&& final(self).player.life == old(self).player.life
                &&& final(self).player.score == old(self).player.score
                &&& final(self).player.health == old(self).player.health
            },
            old(self).status == GameStatus::Fight ==> (final(self).status == GameStatus::Win
                <==> final(self).monsters@.len() == 0),
            old(self).status == GameStatus::Fight ==> forall|k: int|
                0 <= k < final(self).bullets@.len() ==> (#[trigger] final(self).bullets@[k]).ttl
                    > 0,
            old(self).status == GameStatus::Fight ==> forall|k: int|
                0 <= k < final(self).monsters@.len() ==> (
                #[trigger] final(self).monsters@[k]).health > 0,
            old(self).status == GameStatus::Fight && final(self).status == GameStatus::Lose ==>
                final(self).player.life == 0,
            old(self).status == GameStatus::Fight && final(self).monsters@.len() > 0 && final(self).status != GameStatus::Lose ==> final(self).status == GameStatus::Fight,
            old(self).status == GameStatus::Fight && old(self).player.life < 1 && final(self).monsters@.len() > 0 ==> final(self).status == GameStatus::Lose,
            old(self).status == GameStatus::Fight && no_player_shots(*old(self)) && (forall|k: int|
                0 <= k < old(self).monsters@.len() ==> (#[trigger] old(self).monsters@[k]).health
                    > 0) ==> final(self).monsters@.len() == (if old(self).monsters@.len() == 0 {
                ENEMY_SPAWN_COUNT as int
            } else {
                old(self).monsters@.len() as int
            }),
            old(self).status == GameStatus::Fight ==> fight_tick_rel(
                *old(self),
                *final(self),
                dt as int,
                width as int,
                height as int,
            ),
            old(self).status != GameStatus::Fight ==> idle_tick_rel(
                *old(self),
                *final(self),
                dt as int,
                width as int,
                height as int,
            ),
            final(self).player.name == old(self).player.name,
            final(self).player.direction == old(self).player.direction,
            final(self).player.move_offset == old(self).player.move_offset,
            final(self).player.size == old(self).player.size,
            final(self).player.reloading == old(self).player.reloading,
            final(self).player.drift_ttl == if old(self).player.drift_ttl > 0 {
                old(self).player.drift_ttl - dt
            } else {
                old(self).player.drift_ttl as int
            },
    {
        self.player.update(dt, width, height);

        self.spawn_monsters_if_empty(width, height);

        if self.bullets_cooldown > 0 {
            self.bullets_cooldown = self.bullets_cooldown - dt;
        }

        self.handle_fire();
        let ghost fired_b = self.bullets@.last();
        proof {
            if old(self).player.shooting && old(self).player.amunition >= 1 {
                assert(fired_bullet(fired_b, old(self).player, width as int, height as int));
            }
        }

        if self.status == GameStatus::Fight {
            self.apply_health_penalty();

            if self.player.life < 1 {
                self.status = GameStatus::Lose;
            }
            proof {
                assert(self.player.life as int == pen_life(old(self).player));
                assert(self.player.pos.x as int == pen_x(old(self).player, width as int));
                assert(self.player.pos.y as int == pen_y(old(self).player, height as int));
                assert(self.player.health as int == pen_health(old(self).player));
                assert(self.status == pen_status(old(self).player));
            }

            let ghost entered = self.monsters@;
            let ghost pre_pass_bullets = self.bullets@;
            self.monsters_pass(dt, width, height);
            let ghost moved = self.monsters@;
            self.bullets_pass(dt);
            let ghost mid = self.monsters@;
            let ghost scanned = self.bullets@;

            let live = GunScoreApp::pruned_bullets(&self.bullets);
            self.bullets = live;
            let alive = GunScoreApp::pruned_monsters(&self.monsters);
            self.monsters = alive;

            if self.monsters.len() == 0 {
                self.status = GameStatus::Win;
            }

            proof {
                let dti = dt as int;
                let wi = width as int;
                let hi = height as int;
                let fired = old(self).player.shooting && old(self).player.amunition >= 1;
                let pre_len = old(self).bullets@.len() as int;
                let scan = collision_scan(
                    moved,
                    pen_life(old(self).player),
                    pen_x(old(self).player, wi),
                    pen_y(old(self).player, hi),
                    pen_status(old(self).player),
                );

                // Tie each witness clause down separately before assembling
                // the relation.
                assert(old(self).monsters@.len() > 0 ==> entered == old(self).monsters@);
                assert(old(self).monsters@.len() == 0 ==> entered.len() == ENEMY_SPAWN_COUNT && (
                forall|k: int| 0 <= k < entered.len() ==> spawned_enemy(#[trigger] entered[k], wi, hi)));
                assert(moved.len() == entered.len());
                assert(forall|k: int|
                    0 <= k < moved.len() ==> wander_step(entered[k], #[trigger] moved[k], dti, wi, hi));
                assert(mid.len() == moved.len());
                assert(self.monsters@ == live_monsters(mid));
                assert(self.player.life as int == scan.0);
                assert(self.player.pos.x as int == scan.1);
                assert(self.player.pos.y as int == scan.2);
                assert(self.status == (if live_monsters(mid).len() == 0 {
                    GameStatus::Win
                } else {
                    scan.3
                }));
                assert(scanned.len() >= pre_len + if fired {
                    1int
                } else {
                    0int
                });
                assert forall|k: int| 0 <= k < pre_len implies bullet_scanned(
                    old(self).bullets@[k],
                    #[trigger] scanned[k],
                    dti,
                ) by {
                    assert(pre_pass_bullets.subrange(0, pre_len)[k] == old(self).bullets@[k]);
                    assert(bullet_scanned(pre_pass_bullets[k], scanned[k], dti));
                }
                if fired {
                    assert(pre_pass_bullets[pre_len] == fired_b);
                    assert(bullet_scanned(fired_b, scanned[pre_len], dti));
                }
                assert forall|k: int|
                    0 <= k < pre_len && (#[trigger] scanned[k]).ttl == 0 && old(
                        self,
                    ).bullets@[k].ttl > dt implies consumed_for_cause(
                    scanned[k],
                    mid,
                    scan.1,
                    scan.2,
                ) by {
                    assert(pre_pass_bullets.subrange(0, pre_len)[k] == old(self).bullets@[k]);
                }
                assert(self.bullets@ == live_bullets(scanned));
                if no_player_shots(*old(self)) && (forall|k: int|
                    0 <= k < old(self).monsters@.len() ==> (
                    #[trigger] old(self).monsters@[k]).health > 0) {
                    // A tick without player bullets damages no enemy, so the
                    // pruning pass removes nothing from a live field.
                    assert(pre_pass_bullets == old(self).bullets@);
                    assert forall|k: int| 0 <= k < mid.len() implies (#[trigger] mid[k]).health
                        > 0 by {
                        assert(mid[k].health == moved[k].health);
                        assert(moved[k].health == entered[k].health);
                        if old(self).monsters@.len() == 0 {
                            assert(spawned_enemy(entered[k], wi, hi));
                        }
                    }
                    lemma_live_monsters_all(mid);
                    assert(self.monsters@.len() == entered.len());
                }
                if forall|k: int|
                    0 <= k < pre_len ==> (#[trigger] old(self).bullets@[k]).attacker
                        != Attacker::Monster {
                    // The fired bullet is the player's own, so the whole
                    // scanned field is monster-bullet-free and the health
                    // pool stands exactly where the penalty left it.
                    assert forall|k: int|
                        0 <= k < pre_pass_bullets.len() implies (
                    #[trigger] pre_pass_bullets[k]).attacker != Attacker::Monster by {
                        if k < pre_len {
                            assert(pre_pass_bullets.subrange(0, pre_len)[k] == old(
                                self,
                            ).bullets@[k]);
                        } else {
                            assert(pre_pass_bullets[k] == fired_b);
                        }
                    }
                    assert(self.player.health as int == pen_health(old(self).player));
                }
                assert(fight_tick_witness(
                    *old(self),
                    *self,
                    dti,
                    wi,
                    hi,
                    entered,
                    moved,
                    mid,
                    scanned,
                ));
                assert(fight_tick_rel(*old(self), *self, dti, wi, hi));
            }
        } else {
            let ghost spawned_ms = self.monsters@;
            self.idle_pass(dt, width, height);
            proof {
                if old(self).monsters@.len() == 0 {
                    assert forall|k: int| 0 <= k < self.monsters@.len() implies spawned_then_wandered(
                        #[trigger] self.monsters@[k],
                        dt as int,
                        width as int,
                        height as int,
                    ) by {
                        assert(spawned_enemy(spawned_ms[k], width as int, height as int));
                        assert(wander_step(
                            spawned_ms[k],
                            self.monsters@[k],
                            dt as int,
                            width as int,
                            height as int,
                        ));
                    }
                }
                if old(self).player.shooting && old(self).player.amunition >= 1 {
                    assert(bullet_moved(
                        fired_b,
                        self.bullets@[old(self).bullets@.len() as int],
                        dt as int,
                    ));
                }
                assert forall|k: int| 0 <= k < old(self).bullets@.len() implies bullet_moved(
                    old(self).bullets@[k],
                    #[trigger] self.bullets@[k],
                    dt as int,
                ) by {}
                assert(idle_tick_rel(*old(self), *self, dt as int, width as int, height as int));
            }
        }
    }
}

} // verus!

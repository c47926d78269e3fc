use gun_score::geom::{Direction, Position};
use gun_score::schemas::bullet::{Attacker, Bullet};
use gun_score::schemas::enemy::{Enemy, EnemyType, Monster};
use gun_score::schemas::player::Player;
use gun_score::schemas::tabrakan;
use gun_score::util::get_random_number;

#[test]
fn tabrakan_detects_edge_overlap() {
    // Distance 30 between a radius-5 and a radius-30 body: 625 <= 900 <= 1225.
    let a = Position::new(0, 0);
    let b = Position::new(30, 0);
    assert!(tabrakan(&a, 5, &b, 30));
}

#[test]
fn tabrakan_is_a_ring_not_a_disk() {
    // Concentric bodies of near-equal radius do not register contact: the
    // squared distance 0 lies below the inner bound (30 - 5)^2.
    let a = Position::new(100, 100);
    let b = Position::new(100, 100);
    assert!(!tabrakan(&a, 5, &b, 30));
    // Far apart they do not collide either.
    let c = Position::new(500, 500);
    assert!(!tabrakan(&a, 5, &c, 30));
}

#[test]
fn tabrakan_is_symmetric() {
    let cases = [
        (Position::new(0, 0), 5i64, Position::new(30, 0), 30i64),
        (Position::new(10, 20), 40, Position::new(15, 60), 30),
        (Position::new(100, 100), 5, Position::new(100, 100), 30),
        (Position::new(-50, 3), 20, Position::new(7, -9), 20),
    ];
    for (a, ra, b, rb) in cases {
        assert_eq!(tabrakan(&a, ra, &b, rb), tabrakan(&b, rb, &a, ra));
    }
}

#[test]
fn player_update_clamps_to_viewport() {
    let name = String::from("p");
    let mut p = Player::new(&name, &0, &0);
    p.update(16, 1000, 1000);
    // The origin is pulled up to the body radius on both axes.
    assert_eq!(p.pos, Position::new(5, 5));
    assert!(5 <= p.pos.x && p.pos.x <= 995);
    assert!(5 <= p.pos.y && p.pos.y <= 995);
}

#[test]
fn player_moves_then_drifts_at_half_speed() {
    let name = String::from("p");
    let mut p = Player::new(&name, &500, &500);
    p.start_move(Direction::East);
    p.update(16, 1000, 1000);
    assert_eq!(p.pos, Position::new(510, 500));
    p.stop_move(Direction::East);
    assert_eq!(p.drift_ttl, 200);
    p.update(16, 1000, 1000);
    // Offset cleared; drift carries the player 5 units east.
    assert_eq!(p.pos, Position::new(515, 500));
    assert_eq!(p.drift_ttl, 184);
    // Once the drift window runs out the player stands still.
    p.update(10_000, 1000, 1000);
    assert_eq!(p.pos, Position::new(520, 500));
    p.update(16, 1000, 1000);
    assert_eq!(p.pos, Position::new(520, 500));
}

#[test]
fn bullet_update_moves_and_expires() {
    let mut b = Bullet {
        pos: Position::new(500, 500),
        direction: Direction::East,
        size: 40,
        ttl: 2000,
        damage_count: 7,
        attacker: Attacker::Player,
    };
    b.update(16);
    assert_eq!(b.pos, Position::new(504, 500));
    assert_eq!(b.ttl, 1984);
    // A tick longer than the remaining lifetime floors the countdown at zero
    // but still moves the bullet once.
    b.update(10_000);
    assert_eq!(b.ttl, 0);
    assert_eq!(b.pos, Position::new(508, 500));
    // An expired bullet no longer changes.
    b.update(16);
    assert_eq!(b.ttl, 0);
    assert_eq!(b.pos, Position::new(508, 500));
}

#[test]
fn bullet_new_rolls_damage_in_range() {
    let b = Bullet::new(5, 5, Direction::North, Attacker::Player);
    assert_eq!(b.pos, Position::new(5, 5));
    assert_eq!(b.ttl, 2000);
    assert_eq!(b.size, 40);
    assert!(matches!(b.attacker, Attacker::Player));
    assert!((5..20).contains(&b.damage_count));
    assert_eq!(b.radius(), 20);
    assert_eq!(b.position(), b.pos);
}

#[test]
fn bodies_expose_position_and_radius() {
    let name = String::from("p");
    let p = Player::new(&name, &7, &9);
    assert_eq!(p.position(), Position::new(7, 9));
    assert_eq!(p.radius(), 5);
    let e = Enemy::new(3, 4);
    assert_eq!(e.position(), Position::new(3, 4));
    assert_eq!(e.radius(), 30);
}

#[test]
fn enemy_waits_out_its_cooldown_then_jitters() {
    let mut e: Monster = Enemy {
        health: 50,
        pos: Position::new(500, 500),
        size: 60,
        move_ttl: 100,
        enemy_type: EnemyType::Kind,
        damage_count: 0,
    };
    e.update(16, 1000, 1000);
    // Cooldown still running: no movement.
    assert_eq!(e.pos, Position::new(500, 500));
    assert_eq!(e.move_ttl, 84);
    // A long tick expires the cooldown: one bounded jitter step, clamped.
    e.update(10_000, 1000, 1000);
    assert_eq!(e.move_ttl, 100);
    assert!((480..=520).contains(&e.pos.x));
    assert!((480..=520).contains(&e.pos.y));
    assert!(30 <= e.pos.x && e.pos.x <= 970);
    assert!(30 <= e.pos.y && e.pos.y <= 970);
}

#[test]
fn enemy_new_rolls_stats_by_subtype() {
    for _ in 0..20 {
        let e = Enemy::new(10, 10);
        assert_eq!(e.pos, Position::new(10, 10));
        assert_eq!(e.size, 60);
        assert_eq!(e.move_ttl, 100);
        match e.enemy_type {
            EnemyType::Kind => {
                assert!((10..100).contains(&e.health));
                assert_eq!(e.damage_count, 0);
            }
            EnemyType::Fighter => {
                assert!((20..1000).contains(&e.health));
                assert!((10..60).contains(&e.damage_count));
            }
        }
    }
}

#[test]
fn enemy_new_rand_spawns_inside_the_given_area() {
    for _ in 0..20 {
        let e = Enemy::new_rand(300, 200);
        assert!((0..300).contains(&e.pos.x));
        assert!((0..200).contains(&e.pos.y));
    }
}

#[test]
fn get_random_number_stays_in_range_and_varies() {
    let mut seen = Vec::new();
    for _ in 0..40 {
        let r = get_random_number(0, 1_000_000);
        assert!((0..1_000_000).contains(&r));
        seen.push(r);
    }
    let first = seen[0];
    assert!(seen.iter().any(|&r| r != first));
    // A one-value range has only one possible answer.
    assert_eq!(get_random_number(7, 8), 7);
    assert_eq!(get_random_number(-5, -4), -5);
}

use gun_score::game::{GameKey, GameStatus, GunScoreApp};
use gun_score::geom::{Direction, Position};
use gun_score::schemas::bullet::{Attacker, Bullet};
use gun_score::schemas::enemy::{Enemy, EnemyType};

/// A quiet enemy far from the player and from every bullet path used below.
fn far_monster() -> Enemy {
    Enemy {
        health: 50,
        pos: Position::new(900, 900),
        size: 60,
        move_ttl: 100,
        enemy_type: EnemyType::Kind,
        damage_count: 0,
    }
}

#[test]
fn new_app_starts_fresh() {
    let app = GunScoreApp::new();
    assert_eq!(app.status, GameStatus::Fight);
    assert!(app.monsters.is_empty());
    assert!(app.bullets.is_empty());
    assert_eq!(app.bullets_cooldown, 0);
    assert_eq!(app.player.name, "Tono");
    assert_eq!(app.player.pos, Position::new(0, 0));
    assert_eq!(app.player.life, 3);
    assert_eq!(app.player.health, 100);
    assert_eq!(app.player.amunition, 500);
    assert_eq!(app.player.score, 0);
    assert!(!app.player.shooting);
}

#[test]
fn spawning_happens_only_into_an_empty_collection() {
    // Empty collection: one tick spawns the full batch.
    let mut app = GunScoreApp::new();
    app.update(16, 1000, 1000);
    assert_eq!(app.monsters.len(), 9);
    // Non-empty collection: nothing spawns, tick after tick.
    app.update(16, 1000, 1000);
    assert_eq!(app.monsters.len(), 9);
    let mut one = GunScoreApp::new();
    one.monsters.push(far_monster());
    one.update(16, 1000, 1000);
    assert_eq!(one.monsters.len(), 1);
}

#[test]
fn firing_is_rate_limited() {
    let mut app = GunScoreApp::new();
    app.monsters.push(far_monster());

    // First press: cooldown elapsed, intent granted.
    app.input(GameKey::Fire, true);
    assert!(app.player.shooting);
    assert_eq!(app.bullets_cooldown, 100);
    app.update(16, 1000, 1000);
    assert_eq!(app.bullets.len(), 1);
    assert_eq!(app.player.amunition, 499);

    // Second press 16 ms later: cooldown still running, no intent.
    app.input(GameKey::Fire, true);
    assert!(!app.player.shooting);
    app.update(16, 1000, 1000);
    assert_eq!(app.bullets.len(), 1);
    assert_eq!(app.player.amunition, 499);

    // Once the cooldown window has fully passed, a press is granted again.
    for _ in 0..5 {
        app.update(16, 1000, 1000);
    }
    app.input(GameKey::Fire, true);
    assert!(app.player.shooting);
    app.update(16, 1000, 1000);
    assert_eq!(app.bullets.len(), 2);
    assert_eq!(app.player.amunition, 498);
}

#[test]
fn firing_without_ammunition_is_a_no_op() {
    let mut app = GunScoreApp::new();
    app.monsters.push(far_monster());
    app.player.amunition = 0;
    app.input(GameKey::Fire, true);
    assert!(app.player.shooting);
    app.update(16, 1000, 1000);
    assert!(app.bullets.is_empty());
    assert_eq!(app.player.amunition, 0);
    assert!(!app.player.shooting);
}

#[test]
fn reload_refills_only_when_depleted() {
    let mut app = GunScoreApp::new();
    app.player.amunition = 50;
    app.input(GameKey::Reload, true);
    assert_eq!(app.player.amunition, 50);
    app.player.amunition = 0;
    app.input(GameKey::Reload, true);
    assert_eq!(app.player.amunition, 100);
}

#[test]
fn movement_keys_set_and_clear_intents() {
    let mut app = GunScoreApp::new();
    app.input(GameKey::Right, true);
    assert_eq!(app.player.direction, Direction::East);
    app.input(GameKey::Up, true);
    assert_eq!(app.player.direction, Direction::North);
    app.input(GameKey::Up, false);
    assert_eq!(app.player.drift_ttl, 200);
    assert_eq!(app.player.move_offset.y, 0);
}

#[test]
fn player_bullet_kill_awards_exactly_the_damage() {
    // Scenario: one bullet whose damage equals the enemy's health overlaps
    // the enemy. The enemy is removed, the bullet is removed, the score
    // rises by the damage amount, and clearing the last enemy wins the
    // match on the same tick.
    let mut app = GunScoreApp::new();
    app.monsters.push(Enemy {
        health: 10,
        pos: Position::new(554, 500),
        size: 60,
        move_ttl: 100,
        enemy_type: EnemyType::Kind,
        damage_count: 0,
    });
    app.bullets.push(Bullet {
        pos: Position::new(500, 500),
        direction: Direction::East,
        size: 40,
        ttl: 2000,
        damage_count: 10,
        attacker: Attacker::Player,
    });
    app.update(16, 1000, 1000);
    assert_eq!(app.player.score, 10);
    assert!(app.bullets.is_empty());
    assert!(app.monsters.is_empty());
    assert_eq!(app.status, GameStatus::Win);
    assert_eq!(app.player.health, 100);
    assert_eq!(app.player.life, 3);
}

#[test]
fn wounding_hit_keeps_the_enemy_and_pays_no_score() {
    let mut app = GunScoreApp::new();
    app.monsters.push(Enemy {
        health: 50,
        pos: Position::new(554, 500),
        size: 60,
        move_ttl: 100,
        enemy_type: EnemyType::Kind,
        damage_count: 0,
    });
    app.bullets.push(Bullet {
        pos: Position::new(500, 500),
        direction: Direction::East,
        size: 40,
        ttl: 2000,
        damage_count: 10,
        attacker: Attacker::Player,
    });
    app.update(16, 1000, 1000);
    assert_eq!(app.player.score, 0);
    assert_eq!(app.monsters.len(), 1);
    assert_eq!(app.monsters[0].health, 40);
    assert!(app.bullets.is_empty());
    assert_eq!(app.status, GameStatus::Fight);
}

#[test]
fn monster_bullet_hurts_health_not_score() {
    let mut app = GunScoreApp::new();
    app.monsters.push(far_monster());
    // After the movement tick the player stands at (5, 5); the bullet moves
    // to (45, 5), at distance 40, inside the annulus [35, 45].
    app.bullets.push(Bullet {
        pos: Position::new(41, 5),
        direction: Direction::East,
        size: 40,
        ttl: 2000,
        damage_count: 10,
        attacker: Attacker::Monster,
    });
    app.update(16, 1000, 1000);
    assert_eq!(app.player.health, 90);
    assert_eq!(app.player.score, 0);
    assert_eq!(app.player.life, 3);
    assert!(app.bullets.is_empty());
    assert_eq!(app.status, GameStatus::Fight);
}

#[test]
fn fighter_retaliates_toward_the_player() {
    let mut app = GunScoreApp::new();
    app.monsters.push(Enemy {
        health: 50,
        pos: Position::new(554, 500),
        size: 60,
        move_ttl: 100,
        enemy_type: EnemyType::Fighter,
        damage_count: 30,
    });
    app.bullets.push(Bullet {
        pos: Position::new(500, 500),
        direction: Direction::East,
        size: 40,
        ttl: 2000,
        damage_count: 10,
        attacker: Attacker::Player,
    });
    app.update(16, 1000, 1000);
    assert_eq!(app.monsters.len(), 1);
    assert_eq!(app.monsters[0].health, 40);
    assert_eq!(app.player.score, 0);
    // The striking bullet is consumed; the staged retaliation survives the
    // pruning pass untouched.
    assert_eq!(app.bullets.len(), 1);
    let r = &app.bullets[0];
    assert!(matches!(r.attacker, Attacker::Monster));
    assert_eq!(r.pos, Position::new(554, 500));
    assert_eq!(r.ttl, 2000);
    // Aimed at the player at (5, 5): the dominant axis points west.
    assert_eq!(r.direction, Direction::West);
}

#[test]
fn three_collisions_exhaust_three_lives() {
    // Scenario: a single enemy overlaps the player tick after tick. Each
    // contact costs one life and respawns the player at the origin; once no
    // life remains, the next tick ends the match.
    let mut app = GunScoreApp::new();
    app.monsters.push(Enemy {
        health: 50,
        pos: Position::new(35, 5),
        size: 60,
        move_ttl: 100,
        enemy_type: EnemyType::Kind,
        damage_count: 0,
    });

    app.update(1, 1000, 1000);
    assert_eq!(app.player.life, 2);
    assert_eq!(app.player.pos, Position::new(0, 0));
    assert_eq!(app.status, GameStatus::Fight);

    app.update(1, 1000, 1000);
    assert_eq!(app.player.life, 1);
    assert_eq!(app.player.pos, Position::new(0, 0));
    assert_eq!(app.status, GameStatus::Fight);

    app.update(1, 1000, 1000);
    assert_eq!(app.player.life, 0);
    assert_eq!(app.player.pos, Position::new(0, 0));

    app.update(1, 1000, 1000);
    assert_eq!(app.status, GameStatus::Lose);
}

#[test]
fn terminal_states_idle_but_still_animate() {
    let mut app = GunScoreApp::new();
    app.status = GameStatus::Lose;
    app.monsters.push(Enemy {
        health: 50,
        pos: Position::new(35, 5),
        size: 60,
        move_ttl: 100,
        enemy_type: EnemyType::Kind,
        damage_count: 0,
    });
    app.bullets.push(Bullet {
        pos: Position::new(41, 5),
        direction: Direction::East,
        size: 40,
        ttl: 2000,
        damage_count: 10,
        attacker: Attacker::Monster,
    });
    app.update(16, 1000, 1000);
    // No combat: life, health and score untouched, nothing pruned...
    assert_eq!(app.status, GameStatus::Lose);
    assert_eq!(app.player.life, 3);
    assert_eq!(app.player.health, 100);
    assert_eq!(app.player.score, 0);
    assert_eq!(app.monsters.len(), 1);
    assert_eq!(app.bullets.len(), 1);
    // ...but the world still animates: the bullet advanced its step.
    assert_eq!(app.bullets[0].pos, Position::new(45, 5));
    assert_eq!(app.bullets[0].ttl, 1984);
}

#[test]
fn won_match_still_respawns_scenery_enemies() {
    // The re-population check runs before the status gate, so a cleared
    // field refills even after a win; the status stays terminal and no
    // combat happens.
    let mut app = GunScoreApp::new();
    app.status = GameStatus::Win;
    app.update(16, 1000, 1000);
    assert_eq!(app.monsters.len(), 9);
    assert_eq!(app.status, GameStatus::Win);
    assert_eq!(app.player.life, 3);
    assert_eq!(app.player.score, 0);
}

#[test]
fn every_killing_hit_awards_its_damage() {
    // Two bullets strike the same enemy in one tick. The first empties its
    // health pool and scores; the second still finds the pool at zero and
    // scores its own damage too — scoring follows each killing hit, not the
    // enemy's removal.
    let mut app = GunScoreApp::new();
    app.monsters.push(Enemy {
        health: 10,
        pos: Position::new(554, 500),
        size: 60,
        move_ttl: 100,
        enemy_type: EnemyType::Kind,
        damage_count: 0,
    });
    app.bullets.push(Bullet {
        pos: Position::new(500, 500),
        direction: Direction::East,
        size: 40,
        ttl: 2000,
        damage_count: 10,
        attacker: Attacker::Player,
    });
    app.bullets.push(Bullet {
        pos: Position::new(500, 510),
        direction: Direction::East,
        size: 40,
        ttl: 2000,
        damage_count: 7,
        attacker: Attacker::Player,
    });
    app.update(16, 1000, 1000);
    assert_eq!(app.player.score, 17);
    assert!(app.monsters.is_empty());
    assert!(app.bullets.is_empty());
    assert_eq!(app.status, GameStatus::Win);
}

#[test]
fn a_monster_bullet_strikes_the_player_once() {
    // Two enemies are scanned, but the striking bullet is consumed by its
    // first hit: the player loses the bullet's damage exactly once.
    let mut app = GunScoreApp::new();
    app.monsters.push(far_monster());
    app.monsters.push(Enemy {
        health: 50,
        pos: Position::new(900, 100),
        size: 60,
        move_ttl: 100,
        enemy_type: EnemyType::Kind,
        damage_count: 0,
    });
    app.bullets.push(Bullet {
        pos: Position::new(41, 5),
        direction: Direction::East,
        size: 40,
        ttl: 2000,
        damage_count: 10,
        attacker: Attacker::Monster,
    });
    app.update(16, 1000, 1000);
    assert_eq!(app.player.health, 90);
    assert!(app.bullets.is_empty());
}

#[test]
fn a_spent_bullet_stops_striking() {
    // One player bullet overlaps two enemies; the first strike consumes it,
    // so only the first enemy in order takes damage.
    let mut app = GunScoreApp::new();
    app.monsters.push(Enemy {
        health: 30,
        pos: Position::new(554, 500),
        size: 60,
        move_ttl: 100,
        enemy_type: EnemyType::Kind,
        damage_count: 0,
    });
    app.monsters.push(Enemy {
        health: 30,
        pos: Position::new(504, 550),
        size: 60,
        move_ttl: 100,
        enemy_type: EnemyType::Kind,
        damage_count: 0,
    });
    app.bullets.push(Bullet {
        pos: Position::new(500, 500),
        direction: Direction::East,
        size: 40,
        ttl: 2000,
        damage_count: 10,
        attacker: Attacker::Player,
    });
    app.update(16, 1000, 1000);
    assert_eq!(app.monsters.len(), 2);
    assert_eq!(app.monsters[0].health, 20);
    assert_eq!(app.monsters[1].health, 30);
    assert_eq!(app.player.score, 0);
    assert!(app.bullets.is_empty());
}

#[test]
fn firing_still_works_in_terminal_states() {
    // The fire intent is resolved before the status gate, so a dead player
    // can still shoot; combat stats stay frozen all the same.
    let mut app = GunScoreApp::new();
    app.status = GameStatus::Lose;
    app.monsters.push(far_monster());
    app.input(GameKey::Fire, true);
    app.update(16, 1000, 1000);
    assert_eq!(app.bullets.len(), 1);
    assert_eq!(app.player.amunition, 499);
    assert_eq!(app.status, GameStatus::Lose);
    assert_eq!(app.player.life, 3);
    assert_eq!(app.player.score, 0);
    assert_eq!(app.player.health, 100);
}

#[test]
fn restart_triggers_on_release_too() {
    let mut app = GunScoreApp::new();
    app.status = GameStatus::Win;
    app.player.score = 9;
    app.input(GameKey::Restart, false);
    assert_eq!(app.status, GameStatus::Fight);
    assert_eq!(app.player.score, 0);
    assert_eq!(app.player.name, "You");
}

#[test]
fn restart_from_lose_reinitializes_the_match() {
    let mut app = GunScoreApp::new();
    app.status = GameStatus::Lose;
    app.player.life = 0;
    app.player.score = 70;
    app.player.health = 3;
    app.player.amunition = 17;
    app.monsters.push(far_monster());
    app.bullets.push(Bullet {
        pos: Position::new(41, 5),
        direction: Direction::East,
        size: 40,
        ttl: 2000,
        damage_count: 10,
        attacker: Attacker::Monster,
    });

    app.input(GameKey::Restart, true);

    assert_eq!(app.status, GameStatus::Fight);
    assert!(app.monsters.is_empty());
    assert!(app.bullets.is_empty());
    assert_eq!(app.player.life, 3);
    assert_eq!(app.player.health, 100);
    assert_eq!(app.player.amunition, 500);
    assert_eq!(app.player.score, 0);
    assert_eq!(app.player.pos, Position::new(0, 0));
    assert_eq!(app.player.name, "You");
}

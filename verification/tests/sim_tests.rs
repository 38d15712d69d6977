//! End-to-end and per-stage checks of the arena simulation, all in
//! milliunits (one thousandth of an arena unit): an 800x600 arena is
//! 800_000 x 600_000.

use ball_game::collision::enemy_hit_player;
use ball_game::entity::AudioEvent;
use ball_game::entity::Enemy;
use ball_game::entity::Game;
use ball_game::entity::KeySet;
use ball_game::entity::Player;
use ball_game::geom::clamp_i64;
use ball_game::geom::isqrt;
use ball_game::geom::scale_dir;
use ball_game::geom::Vec2;
use ball_game::movement::constrain_player_movement;
use ball_game::movement::player_movement;
use ball_game::sim::frame;
use ball_game::sim::new_game;
use ball_game::spawn::spawn_enemies;
use ball_game::spawn::spawn_player;
use ball_game::wander::enemy_movement;
use ball_game::wander::update_enemy_direction;

const WIDTH: i64 = 800_000;
const HEIGHT: i64 = 600_000;

fn no_keys() -> KeySet {
    KeySet { up: false, down: false, left: false, right: false }
}

fn is_footstep(ev: &AudioEvent) -> bool {
    matches!(ev, AudioEvent::FootstepGrass | AudioEvent::FootstepSnow)
}

#[test]
fn clamp_exact_values() {
    assert_eq!(clamp_i64(5, 0, 10), 5);
    assert_eq!(clamp_i64(-3, 0, 10), 0);
    assert_eq!(clamp_i64(11, 0, 10), 10);
    assert_eq!(clamp_i64(0, 0, 10), 0);
    assert_eq!(clamp_i64(10, 0, 10), 10);
}

#[test]
fn isqrt_exact_values() {
    assert_eq!(isqrt(0), 0);
    assert_eq!(isqrt(1), 1);
    assert_eq!(isqrt(2), 1);
    assert_eq!(isqrt(3), 1);
    assert_eq!(isqrt(4), 2);
    assert_eq!(isqrt(49), 7);
    assert_eq!(isqrt(50), 7);
    assert_eq!(isqrt(1_250_000_000), 35_355);
}

#[test]
fn scale_dir_exact_values() {
    // A heading component of 500 (half scale) over a 10-unit step.
    assert_eq!(scale_dir(500, 10_000), 5_000);
    assert_eq!(scale_dir(-250, 10_000), -2_500);
    assert_eq!(scale_dir(0, 10_000), 0);
    assert_eq!(scale_dir(1000, 30_000), 30_000);
}

#[test]
fn confinement_idempotent_concrete() {
    let mut player = Some(Player { pos: Vec2 { x: 900_000, y: -5_000 } });
    constrain_player_movement(&mut player, WIDTH, HEIGHT);
    let once = player;
    assert_eq!(once.unwrap().pos, Vec2 { x: 768_000, y: 32_000 });
    constrain_player_movement(&mut player, WIDTH, HEIGHT);
    assert_eq!(player, once);
}

#[test]
fn single_key_full_speed() {
    // Holding only "right" for 1 s at PLAYER_SPEED = 500 moves 500 units.
    let mut player = Some(Player { pos: Vec2 { x: 100_000, y: 300_000 } });
    let keys = KeySet { right: true, ..no_keys() };
    player_movement(&mut player, &keys, 1000);
    assert_eq!(player.unwrap().pos, Vec2 { x: 600_000, y: 300_000 });
}

#[test]
fn opposing_keys_cancel() {
    let mut player = Some(Player { pos: Vec2 { x: 100_000, y: 300_000 } });
    let keys = KeySet { left: true, right: true, up: true, ..no_keys() };
    // left+right cancel, so this is a pure "up" move.
    player_movement(&mut player, &keys, 100);
    assert_eq!(player.unwrap().pos, Vec2 { x: 100_000, y: 350_000 });

    let all = KeySet { up: true, down: true, left: true, right: true };
    let before = player;
    player_movement(&mut player, &all, 1000);
    assert_eq!(player, before);
}

#[test]
fn diagonal_displacement_magnitude() {
    // up+right for 100 ms: step = 50_000, each axis gets
    // floor(50_000 / sqrt(2)) = 35_355.
    let mut player = Some(Player { pos: Vec2 { x: 100_000, y: 100_000 } });
    let keys = KeySet { up: true, right: true, ..no_keys() };
    player_movement(&mut player, &keys, 100);
    let pos = player.unwrap().pos;
    assert_eq!(pos, Vec2 { x: 135_355, y: 135_355 });
    // The squared displacement length is within the proved rounding bound
    // of the squared step length.
    let (dx, dy) = (pos.x - 100_000, pos.y - 100_000);
    let sq = dx * dx + dy * dy;
    let step: i64 = 50_000;
    assert!(sq <= step * step);
    assert!(step * step < sq + 4 * step + 2);
}

#[test]
fn no_keys_no_motion() {
    let mut player = Some(Player { pos: Vec2 { x: 123_456, y: 654_321 } });
    let before = player;
    player_movement(&mut player, &no_keys(), 1000);
    assert_eq!(player, before);
}

#[test]
fn terminal_player_movement_noop() {
    let mut player: Option<Player> = None;
    player_movement(&mut player, &KeySet { right: true, ..no_keys() }, 1000);
    assert!(player.is_none());
    constrain_player_movement(&mut player, WIDTH, HEIGHT);
    assert!(player.is_none());
}

#[test]
fn enemy_movement_exact() {
    let mut enemies = vec![Enemy {
        pos: Vec2 { x: 100_000, y: 200_000 },
        direction: Vec2 { x: 500, y: -250 },
    }];
    // speed 200 units/s for 50 ms: step 10_000 milliunits.
    enemy_movement(&mut enemies, 200, 50);
    assert_eq!(enemies[0].pos, Vec2 { x: 105_000, y: 197_500 });
    assert_eq!(enemies[0].direction, Vec2 { x: 500, y: -250 });
}

#[test]
fn reflection_right_wall() {
    // Half a unit past the right wall, heading right.
    let mut enemies = vec![Enemy {
        pos: Vec2 { x: 768_500, y: 300_000 },
        direction: Vec2 { x: 1000, y: 0 },
    }];
    let events = update_enemy_direction(&mut enemies, WIDTH, HEIGHT);
    assert_eq!(enemies[0].direction, Vec2 { x: -1000, y: 0 });
    assert_eq!(enemies[0].pos, Vec2 { x: 768_000, y: 300_000 });
    assert_eq!(events.len(), 1);
    assert!(is_footstep(&events[0]));
}

#[test]
fn no_bounce_no_event() {
    let mut enemies = vec![Enemy {
        pos: Vec2 { x: 400_000, y: 300_000 },
        direction: Vec2 { x: 700, y: 700 },
    }];
    let before = enemies.clone();
    let events = update_enemy_direction(&mut enemies, WIDTH, HEIGHT);
    assert_eq!(enemies, before);
    assert!(events.is_empty());
}

#[test]
fn corner_bounce_flips_both_axes() {
    let mut enemies = vec![Enemy {
        pos: Vec2 { x: 10_000, y: 590_000 },
        direction: Vec2 { x: -800, y: 600 },
    }];
    let events = update_enemy_direction(&mut enemies, WIDTH, HEIGHT);
    assert_eq!(enemies[0].direction, Vec2 { x: 800, y: -600 });
    assert_eq!(enemies[0].pos, Vec2 { x: 32_000, y: 568_000 });
    // Both axes flipped, but one enemy bounces once: one event.
    assert_eq!(events.len(), 1);
}

#[test]
fn all_entities_inside_after_confinement() {
    let mut player = Some(Player { pos: Vec2 { x: -40_000, y: 700_000 } });
    constrain_player_movement(&mut player, WIDTH, HEIGHT);
    let p = player.unwrap().pos;
    assert!(32_000 <= p.x && p.x <= WIDTH - 32_000);
    assert!(32_000 <= p.y && p.y <= HEIGHT - 32_000);

    let mut enemies = vec![
        Enemy { pos: Vec2 { x: -5_000, y: 300_000 }, direction: Vec2 { x: -100, y: 0 } },
        Enemy { pos: Vec2 { x: 810_000, y: 615_000 }, direction: Vec2 { x: 900, y: 900 } },
        Enemy { pos: Vec2 { x: 400_000, y: 300_000 }, direction: Vec2 { x: 0, y: 0 } },
    ];
    update_enemy_direction(&mut enemies, WIDTH, HEIGHT);
    for e in &enemies {
        assert!(32_000 <= e.pos.x && e.pos.x <= WIDTH - 32_000);
        assert!(32_000 <= e.pos.y && e.pos.y <= HEIGHT - 32_000);
    }
}

#[test]
fn collision_boundary_strict() {
    // Exactly (PLAYER_SIZE + ENEMY_SIZE) / 2 = 64 units apart: no hit.
    let mut player = Some(Player { pos: Vec2 { x: 400_000, y: 300_000 } });
    let enemies = vec![Enemy {
        pos: Vec2 { x: 464_000, y: 300_000 },
        direction: Vec2 { x: 0, y: 0 },
    }];
    let event = enemy_hit_player(&mut player, &enemies);
    assert!(player.is_some());
    assert!(event.is_none());

    // 0.001 units closer: hit, despawn, explosion.
    let enemies = vec![Enemy {
        pos: Vec2 { x: 463_999, y: 300_000 },
        direction: Vec2 { x: 0, y: 0 },
    }];
    let event = enemy_hit_player(&mut player, &enemies);
    assert!(player.is_none());
    assert_eq!(event, Some(AudioEvent::Explosion));
}

#[test]
fn collision_without_player_noop() {
    let mut player: Option<Player> = None;
    let enemies = vec![Enemy {
        pos: Vec2 { x: 400_000, y: 300_000 },
        direction: Vec2 { x: 0, y: 0 },
    }];
    let event = enemy_hit_player(&mut player, &enemies);
    assert!(player.is_none());
    assert!(event.is_none());
}

#[test]
fn terminal_state_absorbs_over_frames() {
    // Player already despawned: any number of further frames keeps the slot
    // empty, never emits an explosion, and keeps the wanderers moving.
    let mut game = Game {
        player: None,
        enemies: vec![Enemy {
            pos: Vec2 { x: 400_000, y: 300_000 },
            direction: Vec2 { x: 900, y: -700 },
        }],
    };
    let keys = KeySet { right: true, ..no_keys() };
    for _ in 0..100 {
        let events = frame(&mut game, &keys, 16, 200, WIDTH, HEIGHT);
        assert!(game.player.is_none());
        assert!(events.iter().all(is_footstep));
    }
}

#[test]
fn scenario_hold_right_one_second() {
    // 800x600 arena, player at the centre (400, 300); holding "right" for
    // 1.0 s at PLAYER_SPEED = 500 overshoots the right wall and confinement
    // pins x to 800 - 32 = 768 units, y unchanged.
    let mut game = Game {
        player: Some(Player { pos: Vec2 { x: 400_000, y: 300_000 } }),
        enemies: Vec::new(),
    };
    let keys = KeySet { right: true, ..no_keys() };
    let events = frame(&mut game, &keys, 1000, 200, WIDTH, HEIGHT);
    assert_eq!(game.player.unwrap().pos, Vec2 { x: 768_000, y: 300_000 });
    assert!(events.is_empty());
}

#[test]
fn scenario_wanderer_bounces_right_wall() {
    // Wanderer at (764, 300) heading (1, 0) at 300 units/s for 0.1 s in an
    // 800-wide arena: the raw step reaches x = 794 > 768, so the heading
    // flips, one bounce event is emitted, and confinement pins x to 768.
    let mut game = Game {
        player: None,
        enemies: vec![Enemy {
            pos: Vec2 { x: 764_000, y: 300_000 },
            direction: Vec2 { x: 1000, y: 0 },
        }],
    };
    let events = frame(&mut game, &no_keys(), 100, 300, WIDTH, HEIGHT);
    assert_eq!(game.enemies[0].direction, Vec2 { x: -1000, y: 0 });
    assert_eq!(game.enemies[0].pos, Vec2 { x: 768_000, y: 300_000 });
    assert_eq!(events.len(), 1);
    assert!(is_footstep(&events[0]));
}

#[test]
fn frame_overlap_despawns_player() {
    let mut game = Game {
        player: Some(Player { pos: Vec2 { x: 400_000, y: 300_000 } }),
        enemies: vec![Enemy {
            pos: Vec2 { x: 410_000, y: 300_000 },
            direction: Vec2 { x: 0, y: 0 },
        }],
    };
    let events = frame(&mut game, &no_keys(), 0, 200, WIDTH, HEIGHT);
    assert!(game.player.is_none());
    assert_eq!(events.last(), Some(&AudioEvent::Explosion));
    assert_eq!(events.len(), 1);
}

#[test]
fn spawn_player_centre() {
    let p = spawn_player(WIDTH, HEIGHT);
    assert_eq!(p.pos, Vec2 { x: 400_000, y: 300_000 });
}

#[test]
fn spawn_enemies_in_bounds() {
    let es = spawn_enemies(WIDTH, HEIGHT);
    assert_eq!(es.len(), 4);
    for e in &es {
        assert!(32_000 <= e.pos.x && e.pos.x <= WIDTH - 32_000);
        assert!(32_000 <= e.pos.y && e.pos.y <= HEIGHT - 32_000);
        assert!(0 <= e.direction.x && e.direction.x < 1000);
        assert!(0 <= e.direction.y && e.direction.y < 1000);
    }
}

#[test]
fn new_game_setup() {
    let g = new_game(WIDTH, HEIGHT);
    let p = g.player.expect("a fresh game has a player");
    assert_eq!(p.pos, Vec2 { x: 400_000, y: 300_000 });
    assert_eq!(g.enemies.len(), 4);
}

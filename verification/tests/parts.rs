//! Unit tests of the individual systems: movement, boundary policy,
//! collision passes, timers, and heading arithmetic.

use ball_game::bounds::{confine_player_movement, update_enemy_direction};
use ball_game::collision::{enermy_hit_player, player_hit_stars};
use ball_game::heading::{isqrt, normalize};
use ball_game::movement::{enemy_movement, player_movement};
use ball_game::spawn::{RawSpawn, enemy_from_raw, spawn_player, star_from_raw};
use ball_game::timer::{StarSpawnTimer, Timer, tick_star_spawn_timer};
use ball_game::{Enemy, KeyState, Player, Score, Star, Vec2, WindowSize};

fn window() -> WindowSize {
    WindowSize { width: 800, height: 600 }
}

fn no_keys() -> KeyState {
    KeyState { up: false, down: false, left: false, right: false }
}

#[test]
fn isqrt_exact_values() {
    assert_eq!(isqrt(0), 0);
    assert_eq!(isqrt(1), 1);
    assert_eq!(isqrt(2), 1);
    assert_eq!(isqrt(24), 4);
    assert_eq!(isqrt(25), 5);
    assert_eq!(isqrt(2_000_000), 1414);
    assert_eq!(isqrt(1_000_000_000_000), 1_000_000);
}

#[test]
fn normalize_exact_values() {
    assert_eq!(normalize(3, 4), Vec2 { x: 600, y: 800 });
    assert_eq!(normalize(-3, 4), Vec2 { x: -600, y: 800 });
    assert_eq!(normalize(3, -4), Vec2 { x: 600, y: -800 });
    assert_eq!(normalize(1, 1), Vec2 { x: 707, y: 707 });
    assert_eq!(normalize(500, 0), Vec2 { x: 1000, y: 0 });
    assert_eq!(normalize(0, -2), Vec2 { x: 0, y: -1000 });
    assert_eq!(normalize(0, 0), Vec2 { x: 1000, y: 0 });
}

#[test]
fn normalize_is_near_unit() {
    for rx in [-500i64, -250, -1, 0, 1, 2, 3, 250, 500] {
        for ry in [-500i64, -33, 0, 1, 7, 499] {
            let h = normalize(rx, ry);
            let norm_sq = h.x * h.x + h.y * h.y;
            assert!(norm_sq >= 998_000, "norm_sq {} for ({}, {})", norm_sq, rx, ry);
            assert!(norm_sq <= 1_000_000, "norm_sq {} for ({}, {})", norm_sq, rx, ry);
        }
    }
}

#[test]
fn player_moves_straight_right() {
    let mut pos = Vec2 { x: 400, y: 300 };
    let keys = KeyState { right: true, ..no_keys() };
    let moved = player_movement(&mut pos, &keys, 16);
    assert!(moved);
    assert_eq!(pos, Vec2 { x: 408, y: 300 });
}

#[test]
fn player_moves_diagonally_scaled() {
    let mut pos = Vec2 { x: 400, y: 300 };
    let keys = KeyState { right: true, up: true, ..no_keys() };
    let moved = player_movement(&mut pos, &keys, 16);
    assert!(moved);
    // 500 * 16 * 707 / 1_000_000 = 5 per axis
    assert_eq!(pos, Vec2 { x: 405, y: 305 });
}

#[test]
fn opposing_keys_cancel() {
    let mut pos = Vec2 { x: 400, y: 300 };
    let keys = KeyState { up: true, down: true, ..no_keys() };
    let moved = player_movement(&mut pos, &keys, 16);
    assert!(!moved);
    assert_eq!(pos, Vec2 { x: 400, y: 300 });
}

#[test]
fn opposing_vertical_keys_still_move_straight_horizontally() {
    let mut pos = Vec2 { x: 400, y: 300 };
    let keys = KeyState { up: true, down: true, right: true, ..no_keys() };
    let moved = player_movement(&mut pos, &keys, 16);
    assert!(moved);
    assert_eq!(pos, Vec2 { x: 408, y: 300 });
}

#[test]
fn confine_clamps_both_axes() {
    let w = window();
    let mut pos = Vec2 { x: -5, y: 1000 };
    confine_player_movement(&mut pos, &w);
    assert_eq!(pos, Vec2 { x: 32, y: 568 });
    let mut center = Vec2 { x: 400, y: 300 };
    confine_player_movement(&mut center, &w);
    assert_eq!(center, Vec2 { x: 400, y: 300 });
}

#[test]
fn enemies_move_along_heading() {
    let mut enemies = vec![
        Enemy { position: Vec2 { x: 100, y: 100 }, direction: Vec2 { x: 1000, y: 0 } },
        Enemy { position: Vec2 { x: 100, y: 100 }, direction: Vec2 { x: -600, y: 800 } },
    ];
    enemy_movement(&mut enemies, 1000);
    assert_eq!(enemies[0].position, Vec2 { x: 300, y: 100 });
    assert_eq!(enemies[0].direction, Vec2 { x: 1000, y: 0 });
    assert_eq!(enemies[1].position, Vec2 { x: -20, y: 260 });
    assert_eq!(enemies[1].direction, Vec2 { x: -600, y: 800 });
}

#[test]
fn reflection_negates_exited_axis_only() {
    let w = window();
    let mut enemies = vec![
        Enemy { position: Vec2 { x: 10, y: 300 }, direction: Vec2 { x: 600, y: 800 } },
        Enemy { position: Vec2 { x: 400, y: 300 }, direction: Vec2 { x: 600, y: 800 } },
        Enemy { position: Vec2 { x: 790, y: 590 }, direction: Vec2 { x: 600, y: 800 } },
    ];
    let bounced = update_enemy_direction(&mut enemies, &w);
    assert_eq!(bounced, 2);
    assert_eq!(enemies[0].direction, Vec2 { x: -600, y: 800 });
    assert_eq!(enemies[0].position, Vec2 { x: 10, y: 300 });
    assert_eq!(enemies[1].direction, Vec2 { x: 600, y: 800 });
    assert_eq!(enemies[2].direction, Vec2 { x: -600, y: -800 });
}

#[test]
fn reflection_preserves_norm_across_many_bounces() {
    let w = window();
    let mut enemies = vec![
        Enemy { position: Vec2 { x: 10, y: 10 }, direction: Vec2 { x: 707, y: 707 } },
    ];
    let before = enemies[0].direction.x * enemies[0].direction.x
        + enemies[0].direction.y * enemies[0].direction.y;
    for _ in 0..100 {
        update_enemy_direction(&mut enemies, &w);
        let d = enemies[0].direction;
        assert_eq!(d.x * d.x + d.y * d.y, before);
    }
}

#[test]
fn enemy_hit_counts_close_enemies() {
    let player = Player { position: Vec2 { x: 400, y: 300 } };
    let enemies = vec![
        Enemy { position: Vec2 { x: 410, y: 300 }, direction: Vec2 { x: 1000, y: 0 } },
        Enemy { position: Vec2 { x: 463, y: 300 }, direction: Vec2 { x: 1000, y: 0 } },
        Enemy { position: Vec2 { x: 464, y: 300 }, direction: Vec2 { x: 1000, y: 0 } },
    ];
    // distances 10 and 63 are below the full player size 64; 64 is not
    assert_eq!(enermy_hit_player(&player, &enemies), 2);
}

#[test]
fn star_pass_scores_one_point_per_removed_star() {
    let player = Player { position: Vec2 { x: 400, y: 300 } };
    let mut stars = vec![
        Star { position: Vec2 { x: 447, y: 300 } },
        Star { position: Vec2 { x: 448, y: 300 } },
        Star { position: Vec2 { x: 400, y: 253 } },
    ];
    let mut score = Score { value: 5 };
    // threshold 32 + 16 = 48: distances 47 and 47 collect, 48 stays
    let collected = player_hit_stars(&player, &mut stars, &mut score);
    assert_eq!(collected, 2);
    assert_eq!(score.value, 7);
    assert_eq!(stars.len(), 1);
    assert_eq!(stars[0].position, Vec2 { x: 448, y: 300 });
}

#[test]
fn timer_fires_once_and_keeps_remainder() {
    let mut t = StarSpawnTimer::default();
    assert_eq!(t.timer.interval_ms, 2000);
    assert!(tick_star_spawn_timer(&mut t, 2500));
    assert_eq!(t.timer.elapsed_ms, 500);
    assert!(!tick_star_spawn_timer(&mut t, 1400));
    assert_eq!(t.timer.elapsed_ms, 1900);
    assert!(tick_star_spawn_timer(&mut t, 100));
    assert_eq!(t.timer.elapsed_ms, 0);
}

#[test]
fn fresh_timer_and_score_defaults() {
    let s = Score::default();
    assert_eq!(s.value, 0);
    let t = Timer::new(2000);
    assert_eq!(t.interval_ms, 2000);
    assert_eq!(t.elapsed_ms, 0);
}

#[test]
fn spawn_player_sits_at_center() {
    let p = spawn_player(&window());
    assert_eq!(p.position, Vec2 { x: 400, y: 300 });
}

#[test]
fn star_from_raw_wraps_onto_window() {
    let w = window();
    let st = star_from_raw(&w, &RawSpawn { px: 801, py: 601, hx: 0, hy: 0 });
    assert_eq!(st.position, Vec2 { x: 0, y: 0 });
    let st2 = star_from_raw(&w, &RawSpawn { px: 800, py: 600, hx: 0, hy: 0 });
    assert_eq!(st2.position, Vec2 { x: 800, y: 600 });
}

#[test]
fn enemy_from_raw_has_normalized_heading() {
    let w = window();
    // 1000 % 1001 - 500 = 500 on both axes: the diagonal
    let e = enemy_from_raw(&w, &RawSpawn { px: 123, py: 456, hx: 1000, hy: 1000 });
    assert_eq!(e.position, Vec2 { x: 123, y: 456 });
    assert_eq!(e.direction, Vec2 { x: 707, y: 707 });
}

//! Whole-round scenarios driven through the tick function.

use ball_game::game::{GameState, TickInput};
use ball_game::spawn::RawSpawn;
use ball_game::timer::{EnemySpawnTimer, StarSpawnTimer};
use ball_game::{Enemy, KeyState, Player, Score, Star, Vec2, WindowSize};

fn window() -> WindowSize {
    WindowSize { width: 800, height: 600 }
}

fn no_keys() -> KeyState {
    KeyState { up: false, down: false, left: false, right: false }
}

fn zero_raw() -> RawSpawn {
    RawSpawn { px: 0, py: 0, hx: 0, hy: 0 }
}

fn quiet_state() -> GameState {
    GameState {
        player: Some(Player { position: Vec2 { x: 400, y: 300 } }),
        enemies: Vec::new(),
        stars: Vec::new(),
        score: Score { value: 0 },
        star_spawn_timer: StarSpawnTimer::default(),
        enemy_spawn_timer: EnemySpawnTimer::default(),
        window: window(),
    }
}

fn input(dt_ms: u64, keys: KeyState) -> TickInput {
    TickInput { dt_ms, keys, star_raw: zero_raw(), enemy_raw: zero_raw() }
}

#[test]
fn enemy_at_distance_ten_despawns_player() {
    let mut s = quiet_state();
    s.enemies.push(Enemy {
        position: Vec2 { x: 410, y: 300 },
        direction: Vec2 { x: 1000, y: 0 },
    });
    let r = s.tick_with(&input(0, no_keys()));
    assert!(r.player_destroyed);
    assert!(s.player.is_none());
    // once gone, the player stays gone
    let r2 = s.tick_with(&input(0, no_keys()));
    assert!(!r2.player_destroyed);
    assert!(s.player.is_none());
}

#[test]
fn star_at_distance_forty_seven_scores() {
    let mut s = quiet_state();
    s.stars.push(Star { position: Vec2 { x: 447, y: 300 } });
    let r = s.tick_with(&input(0, no_keys()));
    assert_eq!(r.stars_collected, 1);
    assert_eq!(s.score.value, 1);
    assert_eq!(s.stars.len(), 0);
    assert!(!r.player_destroyed);
}

#[test]
fn star_at_threshold_distance_stays() {
    let mut s = quiet_state();
    s.stars.push(Star { position: Vec2 { x: 448, y: 300 } });
    let r = s.tick_with(&input(0, no_keys()));
    assert_eq!(r.stars_collected, 0);
    assert_eq!(s.score.value, 0);
    assert_eq!(s.stars.len(), 1);
}

#[test]
fn no_keys_leaves_player_in_place() {
    let mut s = quiet_state();
    let r = s.tick_with(&input(16, no_keys()));
    assert!(!r.player_destroyed);
    assert_eq!(s.player.unwrap().position, Vec2 { x: 400, y: 300 });
}

#[test]
fn one_tick_of_two_and_a_half_seconds_spawns_one_star() {
    let mut s = quiet_state();
    let r = s.tick_with(&input(2500, no_keys()));
    assert!(r.star_spawned);
    assert_eq!(s.stars.len(), 1);
    assert_eq!(s.star_spawn_timer.timer.elapsed_ms, 500);
    // the enemy timer has five-second spacing and must not fire yet
    assert!(!r.enemy_spawned);
    assert_eq!(s.enemies.len(), 0);
}

#[test]
fn player_is_confined_after_movement() {
    let mut s = quiet_state();
    s.player = Some(Player { position: Vec2 { x: 766, y: 300 } });
    let keys = KeyState { right: true, ..no_keys() };
    // 500 * 16 / 1000 = 8 would land at 774, past the band edge 768
    let _ = s.tick_with(&input(16, keys));
    assert_eq!(s.player.unwrap().position, Vec2 { x: 768, y: 300 });
}

#[test]
fn score_is_monotone_over_a_run() {
    let mut s = GameState::new(window());
    assert_eq!(s.score.value, 0);
    assert_eq!(s.enemies.len(), 5);
    assert_eq!(s.stars.len(), 15);
    let mut last = 0u32;
    for _ in 0..200 {
        let keys = KeyState { right: true, up: true, ..no_keys() };
        let r = s.tick(&keys, 16);
        assert!(s.score.value >= last);
        assert_eq!(s.score.value as u64, last as u64 + r.stars_collected);
        last = s.score.value;
        if let Some(p) = &s.player {
            assert!(32 <= p.position.x && p.position.x <= 768);
            assert!(32 <= p.position.y && p.position.y <= 568);
        }
    }
}

#[test]
fn spawned_entities_land_in_window() {
    let mut s = GameState::new(window());
    for e in &s.enemies {
        assert!(0 <= e.position.x && e.position.x <= 800);
        assert!(0 <= e.position.y && e.position.y <= 600);
        let d = e.direction;
        let norm_sq = d.x * d.x + d.y * d.y;
        assert!((998_000..=1_000_000).contains(&norm_sq));
    }
    for st in &s.stars {
        assert!(0 <= st.position.x && st.position.x <= 800);
        assert!(0 <= st.position.y && st.position.y <= 600);
    }
    // run until both timers have fired at least once
    for _ in 0..10 {
        let _ = s.tick(&no_keys(), 1000);
    }
    for e in &s.enemies {
        let d = e.direction;
        let norm_sq = d.x * d.x + d.y * d.y;
        assert!((998_000..=1_000_000).contains(&norm_sq));
    }
}

#[test]
fn deferred_despawn_lets_a_doomed_player_score() {
    // the enemy catches the player and a star is in range in the same
    // tick: both collision passes read the same snapshot, so the
    // pickup still counts
    let mut s = quiet_state();
    s.enemies.push(Enemy {
        position: Vec2 { x: 410, y: 300 },
        direction: Vec2 { x: 1000, y: 0 },
    });
    s.stars.push(Star { position: Vec2 { x: 380, y: 300 } });
    let r = s.tick_with(&input(0, no_keys()));
    assert!(r.player_destroyed);
    assert_eq!(r.stars_collected, 1);
    assert_eq!(s.score.value, 1);
    assert!(s.player.is_none());
}

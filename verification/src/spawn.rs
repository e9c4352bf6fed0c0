//! Spawning.  New entities are placed uniformly over the window
//! rectangle from raw random draws; enemy headings are drawn from the
//! square `[-HALF_RAW, HALF_RAW]^2` and normalized, which favors the
//! diagonals slightly — a quirk of the round's tuning, kept as is.
//! The raw draws
//! come from the process random generator behind a trusted item, and
//! every mapping from draws to entities is a verified function of its
//! arguments alone.

use vstd::prelude::*;
use crate::heading::{normalize, normalize_spec};
use crate::{
    Enemy, NUMBER_OF_ENEMIES, NUMBER_OF_STARS, Player, Star, Vec2, WindowSize, enemy_wf,
    player_in_bounds, pos_in_limits,
};

verus! {

/// Relies on rand::random: one draw of the Standard distribution from
/// the thread-local generator.  Nothing is assumed of the value drawn.
pub assume_specification<T>[ rand::random::<T> ]() -> (r: T)
    where
        rand::distributions::Standard: rand::distributions::Distribution<T>,
;

/// The raw random draws one spawn consumes: two position draws and,
/// for an enemy, two heading draws.
#[derive(Clone, Copy, Debug, PartialEq, Eq, Structural)]
pub struct RawSpawn {
    pub px: u64,
    pub py: u64,
    pub hx: u64,
    pub hy: u64,
}

/// A raw position draw reduced onto `[0, dim]`.
pub open spec fn spawn_coord(r: int, dim: int) -> int {
    r % (dim + 1)
}

/// A raw heading draw reduced onto `[-HALF_RAW, HALF_RAW]`.
pub open spec fn raw_heading_component(r: int) -> int {
    r % 1001 - 500
}

/// The position lies inside the window rectangle.
pub open spec fn in_window(p: Vec2, w: WindowSize) -> bool {
    &&& 0 <= p.x <= w.width
    &&& 0 <= p.y <= w.height
}

/// The star a raw draw lands on: both coordinates reduced onto the
/// window rectangle.
pub open spec fn star_from_raw_spec(w: WindowSize, raw: RawSpawn) -> Star {
    Star {
        position: Vec2 {
            x: spawn_coord(raw.px as int, w.width as int) as i64,
            y: spawn_coord(raw.py as int, w.height as int) as i64,
        },
    }
}

/// The enemy a raw draw lands on: position as for a star, heading the
/// normalized image of the two reduced heading draws.
pub open spec fn enemy_from_raw_spec(w: WindowSize, raw: RawSpawn) -> Enemy {
    Enemy {
        position: Vec2 {
            x: spawn_coord(raw.px as int, w.width as int) as i64,
            y: spawn_coord(raw.py as int, w.height as int) as i64,
        },
        direction: Vec2 {
            x: normalize_spec(
                raw_heading_component(raw.hx as int),
                raw_heading_component(raw.hy as int),
            ).0 as i64,
            y: normalize_spec(
                raw_heading_component(raw.hx as int),
                raw_heading_component(raw.hy as int),
            ).1 as i64,
        },
    }
}

/// Reduce one raw position draw onto `[0, dim]`.
fn reduce_coord(r: u64, dim: i64) -> (c: i64)
    requires
        0 < dim <= crate::DIM_MAX,
    ensures
        c == spawn_coord(r as int, dim as int),
        0 <= c <= dim,
{
    (r % (dim as u64 + 1)) as i64
}

/// Place a star from the given raw draws.
pub fn star_from_raw(window: &WindowSize, raw: &RawSpawn) -> (st: Star)
    requires
        window.wf(),
    ensures
        st == star_from_raw_spec(*window, *raw),
        in_window(st.position, *window),
        pos_in_limits(st.position),
{
    let x = reduce_coord(raw.px, window.width);
    let y = reduce_coord(raw.py, window.height);
    Star { position: Vec2 { x, y } }
}

/// Place an enemy from the given raw draws, heading normalized.
pub fn enemy_from_raw(window: &WindowSize, raw: &RawSpawn) -> (e: Enemy)
    requires
        window.wf(),
    ensures
        e == enemy_from_raw_spec(*window, *raw),
        in_window(e.position, *window),
        enemy_wf(e),
{
    let x = reduce_coord(raw.px, window.width);
    let y = reduce_coord(raw.py, window.height);
    let rx: i64 = (raw.hx % 1001) as i64 - 500;
    let ry: i64 = (raw.hy % 1001) as i64 - 500;
    let direction = normalize(rx, ry);
    Enemy { position: Vec2 { x, y }, direction }
}

/// Draw the raw values one spawn consumes from the process random
/// generator.
pub fn draw_raw_spawn() -> (raw: RawSpawn) {
    RawSpawn {
        px: rand::random::<u64>(),
        py: rand::random::<u64>(),
        hx: rand::random::<u64>(),
        hy: rand::random::<u64>(),
    }
}

/// Place the player at the window center.
pub fn spawn_player(window: &WindowSize) -> (p: Player)
    requires
        window.wf(),
    ensures
        p.position.x == window.width as int / 2,
        p.position.y == window.height as int / 2,
        player_in_bounds(p.position, *window),
        pos_in_limits(p.position),
{
    let x = ((window.width as u64) / 2) as i64;
    let y = ((window.height as u64) / 2) as i64;
    Player { position: Vec2 { x, y } }
}

/// Place one star at a random position in the window.  Each outcome
/// is the image of some raw draw; nothing further is promised of
/// which.
pub fn spawn_star(window: &WindowSize) -> (st: Star)
    requires
        window.wf(),
    ensures
        in_window(st.position, *window),
        pos_in_limits(st.position),
{
    let raw = draw_raw_spawn();
    star_from_raw(window, &raw)
}

/// Place one enemy at a random position in the window, with a random
/// near-unit heading.
pub fn spawn_enemy(window: &WindowSize) -> (e: Enemy)
    requires
        window.wf(),
    ensures
        in_window(e.position, *window),
        enemy_wf(e),
{
    let raw = draw_raw_spawn();
    enemy_from_raw(window, &raw)
}

/// Place the starting set of stars.
pub fn spawn_stars(window: &WindowSize) -> (stars: Vec<Star>)
    requires
        window.wf(),
    ensures
        stars@.len() == NUMBER_OF_STARS,
        forall|i: int| 0 <= i < stars@.len() ==> in_window(
            (#[trigger] stars@[i]).position,
            *window,
        ),
        forall|i: int| 0 <= i < stars@.len() ==> pos_in_limits((#[trigger] stars@[i]).position),
{
    let mut stars: Vec<Star> = Vec::new();
    let mut i: usize = 0;
    while i < NUMBER_OF_STARS
        invariant
            window.wf(),
            0 <= i <= NUMBER_OF_STARS,
            stars@.len() == i,
            forall|j: int| 0 <= j < stars@.len() ==> in_window(
                (#[trigger] stars@[j]).position,
                *window,
            ),
            forall|j: int| 0 <= j < stars@.len() ==> pos_in_limits(
                (#[trigger] stars@[j]).position,
            ),
        decreases NUMBER_OF_STARS - i,
    {
        let st = spawn_star(window);
        stars.push(st);
        i = i + 1;
    }
    stars
}

/// Place the starting set of enemies.
pub fn spawn_enemies(window: &WindowSize) -> (enemies: Vec<Enemy>)
    requires
        window.wf(),
    ensures
        enemies@.len() == NUMBER_OF_ENEMIES,
        forall|i: int| 0 <= i < enemies@.len() ==> in_window(
            (#[trigger] enemies@[i]).position,
            *window,
        ),
        forall|i: int| 0 <= i < enemies@.len() ==> enemy_wf(#[trigger] enemies@[i]),
{
    let mut enemies: Vec<Enemy> = Vec::new();
    let mut i: usize = 0;
    while i < NUMBER_OF_ENEMIES
        invariant
            window.wf(),
            0 <= i <= NUMBER_OF_ENEMIES,
            enemies@.len() == i,
            forall|j: int| 0 <= j < enemies@.len() ==> in_window(
                (#[trigger] enemies@[j]).position,
                *window,
            ),
            forall|j: int| 0 <= j < enemies@.len() ==> enemy_wf(#[trigger] enemies@[j]),
        decreases NUMBER_OF_ENEMIES - i,
    {
        let e = spawn_enemy(window);
        enemies.push(e);
        i = i + 1;
    }
    enemies
}

/// The two spawn-sound variants a bounce may play.
#[derive(Clone, Copy, Debug, PartialEq, Eq, Structural)]
pub enum BounceSound {
    PluckOne,
    PluckTwo,
}

/// Pick one of the two bounce sound variants at random.
pub fn choose_bounce_sound() -> (s: BounceSound) {
    if rand::random::<bool>() {
        BounceSound::PluckOne
    } else {
        BounceSound::PluckTwo
    }
}

} // verus!

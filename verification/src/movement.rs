//! Per-tick movement: the player moves by the normalized sum of the
//! pressed direction keys scaled by speed and frame delta; every enemy
//! moves along its stored heading.  Diagonal player movement uses the
//! fixed-point factor `DIAG_NUM / UNIT` for `1 / sqrt(2)`.

use vstd::prelude::*;
use crate::{
    DIAG_NUM, DT_MAX_MS, ENEMY_SPEED, Enemy, KeyState, PLAYER_SPEED, POS_LIMIT, UNIT, Vec2,
    pos_in_limits,
};

verus! {

/// Largest single-axis player displacement a tick can produce.
pub const PLAYER_STEP_MAX: i64 = 30_000;

/// Largest single-axis enemy displacement a tick can produce.
pub const ENEMY_STEP_MAX: i64 = 12_000;

/// The signed axis contribution of the pressed keys: right minus left,
/// up minus down.
pub open spec fn axis_x(keys: KeyState) -> int {
    (if keys.right { 1int } else { 0int }) - (if keys.left { 1int } else { 0int })
}

/// See `axis_x`; the vertical axis grows upward.
pub open spec fn axis_y(keys: KeyState) -> int {
    (if keys.up { 1int } else { 0int }) - (if keys.down { 1int } else { 0int })
}

/// Player displacement along one active axis when that axis is the
/// only one active.
pub open spec fn straight_step(dt: int) -> int {
    PLAYER_SPEED * dt / 1000
}

/// Player displacement along each axis when both axes are active: the
/// straight step scaled by the fixed-point `1 / sqrt(2)`.
pub open spec fn diagonal_step(dt: int) -> int {
    PLAYER_SPEED * dt * DIAG_NUM / (1000 * UNIT)
}

/// A coordinate shifted by one step in the signed direction `d`.
pub open spec fn shifted(c: int, d: int, step: int) -> int {
    if d == 1 {
        c + step
    } else if d == -1 {
        c - step
    } else {
        c
    }
}

/// The player position after one movement tick: unchanged when the
/// combined direction is zero, otherwise shifted by the per-axis step.
pub open spec fn player_moved(p: Vec2, keys: KeyState, dt: int) -> Vec2 {
    let dx = axis_x(keys);
    let dy = axis_y(keys);
    if dx == 0 && dy == 0 {
        p
    } else {
        let step = if dx != 0 && dy != 0 {
            diagonal_step(dt)
        } else {
            straight_step(dt)
        };
        Vec2 { x: shifted(p.x as int, dx, step) as i64, y: shifted(p.y as int, dy, step) as i64 }
    }
}

/// Move the player by the normalized sum of the pressed direction
/// keys, scaled by `PLAYER_SPEED` and the frame delta.  Opposing keys
/// cancel; with no net direction the position is unchanged.
pub fn player_movement(position: &mut Vec2, keys: &KeyState, dt_ms: u64) -> (moved: bool)
    requires
        pos_in_limits(*old(position)),
        dt_ms <= DT_MAX_MS,
    ensures
        *final(position) == player_moved(*old(position), *keys, dt_ms as int),
        -POS_LIMIT - PLAYER_STEP_MAX <= final(position).x <= POS_LIMIT + PLAYER_STEP_MAX,
        -POS_LIMIT - PLAYER_STEP_MAX <= final(position).y <= POS_LIMIT + PLAYER_STEP_MAX,
        moved == !(axis_x(*keys) == 0 && axis_y(*keys) == 0),
{
    let dx: i64 = (if keys.right { 1i64 } else { 0i64 }) - (if keys.left { 1i64 } else { 0i64 });
    let dy: i64 = (if keys.up { 1i64 } else { 0i64 }) - (if keys.down { 1i64 } else { 0i64 });
    if dx == 0 && dy == 0 {
        false
    } else {
        let step: i64 = if dx != 0 && dy != 0 {
            (500 * dt_ms * 707 / 1_000_000) as i64
        } else {
            (500 * dt_ms / 1000) as i64
        };
        assert(0 <= step <= PLAYER_STEP_MAX);
        assert(dx != 0 && dy != 0 ==> step == diagonal_step(dt_ms as int));
        assert(!(dx != 0 && dy != 0) ==> step == straight_step(dt_ms as int));
        let sx: i64 = if dx == 1 { step } else if dx == -1 { -step } else { 0 };
        let sy: i64 = if dy == 1 { step } else if dy == -1 { -step } else { 0 };
        position.x = position.x + sx;
        position.y = position.y + sy;
        true
    }
}

/// One signed axis of enemy displacement: the heading component scaled
/// by `ENEMY_SPEED` and the frame delta, at heading scale `UNIT`.
pub open spec fn heading_step(h: int, dt: int) -> int {
    if h >= 0 {
        h * ENEMY_SPEED * dt / (1000 * UNIT)
    } else {
        -((-h) * ENEMY_SPEED * dt / (1000 * UNIT))
    }
}

/// Saturate a coordinate at the arena limit `POS_LIMIT`, far beyond
/// any window.
pub open spec fn clamp_limit(x: int) -> i64 {
    if x < -POS_LIMIT {
        (-POS_LIMIT) as i64
    } else if x > POS_LIMIT {
        POS_LIMIT
    } else {
        x as i64
    }
}

/// One enemy after a movement tick: shifted along its heading, each
/// axis saturated at the arena limit; the heading is unchanged.
pub open spec fn enemy_moved(e: Enemy, dt: int) -> Enemy {
    Enemy {
        position: Vec2 {
            x: clamp_limit(e.position.x + heading_step(e.direction.x as int, dt)),
            y: clamp_limit(e.position.y + heading_step(e.direction.y as int, dt)),
        },
        direction: e.direction,
    }
}

/// All enemies after a movement tick.
pub open spec fn enemies_moved(s: Seq<Enemy>, dt: int) -> Seq<Enemy> {
    s.map_values(|e: Enemy| enemy_moved(e, dt))
}

/// One exec axis step; the heading component must be within the
/// fixed-point unit scale.
fn heading_step_exec(h: i64, dt_ms: u64) -> (d: i64)
    requires
        -UNIT <= h <= UNIT,
        dt_ms <= DT_MAX_MS,
    ensures
        d == heading_step(h as int, dt_ms as int),
        -ENEMY_STEP_MAX <= d <= ENEMY_STEP_MAX,
{
    let hu: u64 = if h >= 0 { h as u64 } else { (-h) as u64 };
    proof {
        assert(hu * 200 * dt_ms <= 12_000_000_000) by (nonlinear_arith)
            requires
                0 <= hu <= 1000,
                dt_ms <= 60_000,
        ;
    }
    let q: u64 = hu * 200 * dt_ms / 1_000_000;
    if h >= 0 {
        q as i64
    } else {
        -(q as i64)
    }
}

/// Saturate a shifted coordinate at the arena limit.
fn clamp_limit_exec(x: i64) -> (c: i64)
    ensures
        c == clamp_limit(x as int),
{
    if x < -POS_LIMIT {
        -POS_LIMIT
    } else if x > POS_LIMIT {
        POS_LIMIT
    } else {
        x
    }
}

/// Move every enemy along its stored heading, scaled by `ENEMY_SPEED`
/// and the frame delta.  Headings are untouched.
pub fn enemy_movement(enemies: &mut Vec<Enemy>, dt_ms: u64) -> (count: usize)
    requires
        forall|i: int| 0 <= i < old(enemies)@.len() ==> crate::enemy_wf(#[trigger] old(enemies)@[i]),
        dt_ms <= DT_MAX_MS,
    ensures
        final(enemies)@ == enemies_moved(old(enemies)@, dt_ms as int),
        forall|i: int| 0 <= i < final(enemies)@.len() ==> crate::enemy_wf(#[trigger] final(enemies)@[i]),
        count == final(enemies)@.len(),
{
    let ghost orig = enemies@;
    let ghost dt = dt_ms as int;
    let n = enemies.len();
    let mut i: usize = 0;
    while i < n
        invariant
            n == enemies@.len(),
            n == orig.len(),
            0 <= i <= n,
            dt == dt_ms as int,
            dt_ms <= DT_MAX_MS,
            forall|j: int| 0 <= j < n ==> crate::enemy_wf(#[trigger] orig[j]),
            forall|j: int| i <= j < n ==> enemies@[j] == orig[j],
            forall|j: int| 0 <= j < i ==> enemies@[j] == enemy_moved(#[trigger] orig[j], dt),
        decreases n - i,
    {
        let e = enemies[i];
        proof {
            assert(crate::enemy_wf(orig[i as int]));
            assert(e == orig[i as int]);
        }
        let nx = clamp_limit_exec(e.position.x + heading_step_exec(e.direction.x, dt_ms));
        let ny = clamp_limit_exec(e.position.y + heading_step_exec(e.direction.y, dt_ms));
        let moved = Enemy { position: Vec2 { x: nx, y: ny }, direction: e.direction };
        enemies.set(i, moved);
        i = i + 1;
    }
    proof {
        assert(enemies@ =~= enemies_moved(orig, dt));
    }
    n
}

} // verus!

//! Boundary policy.  After movement, the player is clamped into the
//! window band `[PLAYER_SIZE / 2, dimension - PLAYER_SIZE / 2]` on each
//! axis.  An enemy whose position lies outside that band on an axis has
//! that axis of its heading negated; its position is not clamped, so it
//! may overshoot by up to one frame's displacement before reversing.

use vstd::prelude::*;
use crate::heading::flip_spec;
use crate::{Enemy, PLAYER_SIZE, Vec2, WindowSize, enemy_wf, player_in_bounds};

verus! {

/// A value clamped into `[lo, hi]`.
pub open spec fn clamped(v: int, lo: int, hi: int) -> int {
    if v < lo {
        lo
    } else if v > hi {
        hi
    } else {
        v
    }
}

/// The player position after the boundary step: each axis clamped
/// independently into the window band.
pub open spec fn confined(p: Vec2, w: WindowSize) -> Vec2 {
    Vec2 {
        x: clamped(p.x as int, PLAYER_SIZE / 2, w.width - PLAYER_SIZE / 2) as i64,
        y: clamped(p.y as int, PLAYER_SIZE / 2, w.height - PLAYER_SIZE / 2) as i64,
    }
}

/// Clamp the player into the window band on both axes.
pub fn confine_player_movement(position: &mut Vec2, window: &WindowSize)
    requires
        window.wf(),
    ensures
        *final(position) == confined(*old(position), *window),
        player_in_bounds(*final(position), *window),
{
    let half: i64 = PLAYER_SIZE / 2;
    if position.x < half {
        position.x = half;
    }
    if position.x > window.width - half {
        position.x = window.width - half;
    }
    if position.y < half {
        position.y = half;
    }
    if position.y > window.height - half {
        position.y = window.height - half;
    }
}

/// However the player moved, the boundary step lands it inside the
/// window band; so after every tick of any run the player position
/// lies within `[PLAYER_SIZE / 2, dimension - PLAYER_SIZE / 2]` on
/// both axes.
pub proof fn lemma_confine_in_bounds(p: Vec2, w: WindowSize)
    requires
        w.wf(),
    ensures
        player_in_bounds(confined(p, w), w),
{
}

/// The position lies outside the window band on the x axis.
pub open spec fn exits_x(p: Vec2, w: WindowSize) -> bool {
    p.x < PLAYER_SIZE / 2 || p.x > w.width - PLAYER_SIZE / 2
}

/// The position lies outside the window band on the y axis.
pub open spec fn exits_y(p: Vec2, w: WindowSize) -> bool {
    p.y < PLAYER_SIZE / 2 || p.y > w.height - PLAYER_SIZE / 2
}

/// One enemy after the boundary step: each axis of the heading that
/// finds the position outside the band is negated; the position stays.
pub open spec fn enemy_reflected(e: Enemy, w: WindowSize) -> Enemy {
    Enemy {
        position: e.position,
        direction: flip_spec(e.direction, exits_x(e.position, w), exits_y(e.position, w)),
    }
}

/// The enemy bounced this tick: at least one heading axis was negated.
pub open spec fn enemy_bounced(e: Enemy, w: WindowSize) -> bool {
    exits_x(e.position, w) || exits_y(e.position, w)
}

/// All enemies after the boundary step.
pub open spec fn enemies_reflected(s: Seq<Enemy>, w: WindowSize) -> Seq<Enemy> {
    s.map_values(|e: Enemy| enemy_reflected(e, w))
}

/// How many enemies of the sequence bounce this tick.
pub open spec fn count_bounced(s: Seq<Enemy>, w: WindowSize) -> int
    decreases s.len(),
{
    if s.len() == 0 {
        0
    } else {
        count_bounced(s.drop_last(), w) + if enemy_bounced(s.last(), w) {
            1int
        } else {
            0int
        }
    }
}

/// An enemy that exits the band on an axis has exactly that heading
/// component negated by the boundary step: the other component and the
/// position are untouched.
pub proof fn lemma_reflection_axes(e: Enemy, w: WindowSize)
    requires
        enemy_wf(e),
    ensures
        enemy_reflected(e, w).position == e.position,
        exits_x(e.position, w) ==> enemy_reflected(e, w).direction.x == -e.direction.x,
        !exits_x(e.position, w) ==> enemy_reflected(e, w).direction.x == e.direction.x,
        exits_y(e.position, w) ==> enemy_reflected(e, w).direction.y == -e.direction.y,
        !exits_y(e.position, w) ==> enemy_reflected(e, w).direction.y == e.direction.y,
        enemy_wf(enemy_reflected(e, w)),
{
    crate::heading::lemma_flip_preserves_norm(
        e.direction,
        exits_x(e.position, w),
        exits_y(e.position, w),
    );
}

/// Reflect every enemy whose position lies outside the window band;
/// count how many bounced (each of those owes the round one sound
/// effect, whatever the axis count).
pub fn update_enemy_direction(enemies: &mut Vec<Enemy>, window: &WindowSize) -> (bounced: u64)
    requires
        window.wf(),
        forall|i: int| 0 <= i < old(enemies)@.len() ==> enemy_wf(#[trigger] old(enemies)@[i]),
    ensures
        final(enemies)@ == enemies_reflected(old(enemies)@, *window),
        forall|i: int| 0 <= i < final(enemies)@.len() ==> enemy_wf(#[trigger] final(enemies)@[i]),
        bounced == count_bounced(old(enemies)@, *window),
{
    let ghost orig = enemies@;
    let n = enemies.len();
    let mut bounced: u64 = 0;
    let mut i: usize = 0;
    while i < n
        invariant
            window.wf(),
            n == enemies@.len(),
            n == orig.len(),
            0 <= i <= n,
            bounced == count_bounced(orig.take(i as int), *window),
            bounced <= i,
            forall|j: int| 0 <= j < n ==> enemy_wf(#[trigger] orig[j]),
            forall|j: int| i <= j < n ==> enemies@[j] == orig[j],
            forall|j: int| 0 <= j < i ==> enemies@[j] == enemy_reflected(#[trigger] orig[j], *window),
        decreases n - i,
    {
        let e = enemies[i];
        proof {
            assert(enemy_wf(orig[i as int]));
            assert(e == orig[i as int]);
            lemma_reflection_axes(e, *window);
        }
        let half: i64 = PLAYER_SIZE / 2;
        let out_x = e.position.x < half || e.position.x > window.width - half;
        let out_y = e.position.y < half || e.position.y > window.height - half;
        let dir_x: i64 = if out_x { -e.direction.x } else { e.direction.x };
        let dir_y: i64 = if out_y { -e.direction.y } else { e.direction.y };
        enemies.set(i, Enemy { position: e.position, direction: Vec2 { x: dir_x, y: dir_y } });
        if out_x || out_y {
            bounced = bounced + 1;
        }
        proof {
            assert(orig.take(i as int + 1).drop_last() =~= orig.take(i as int));
            assert(orig.take(i as int + 1).last() == orig[i as int]);
        }
        i = i + 1;
    }
    proof {
        assert(orig.take(n as int) =~= orig);
        assert(enemies@ =~= enemies_reflected(orig, *window));
        assert forall|j: int| 0 <= j < enemies@.len() implies enemy_wf(#[trigger] enemies@[j]) by {
            lemma_reflection_axes(orig[j], *window);
        }
    }
    bounced
}

} // verus!

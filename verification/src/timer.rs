//! Repeating spawn timers.  A timer accumulates elapsed milliseconds;
//! when a tick pushes the accumulator past the interval the timer
//! fires once and keeps only the remainder, so a single tick can fire
//! at most one spawn however large its delta is.

use vstd::prelude::*;
use crate::{DT_MAX_MS, ENEMY_SPAWN_TIME_MS, STAR_SPAWN_TIME_MS};

verus! {

/// Longest accepted timer interval, in milliseconds (one day).
pub const INTERVAL_MAX_MS: u64 = 86_400_000;

/// A repeating timer: a fixed interval and the time elapsed since it
/// last fired.
#[derive(Clone, Copy, Debug, PartialEq, Eq, Structural)]
pub struct Timer {
    pub interval_ms: u64,
    pub elapsed_ms: u64,
}

/// The tick of `dt` milliseconds makes the timer fire.
pub open spec fn timer_fires(t: Timer, dt: int) -> bool {
    t.elapsed_ms + dt >= t.interval_ms
}

/// The timer after a tick of `dt` milliseconds: the accumulator grows
/// by `dt` and, on firing, is reduced modulo the interval.
pub open spec fn timer_after(t: Timer, dt: int) -> Timer {
    Timer {
        interval_ms: t.interval_ms,
        elapsed_ms: if timer_fires(t, dt) {
            ((t.elapsed_ms + dt) % (t.interval_ms as int)) as u64
        } else {
            (t.elapsed_ms + dt) as u64
        },
    }
}

impl Timer {
    /// A positive interval no longer than a day, with the accumulator
    /// strictly below it.
    pub open spec fn wf(self) -> bool {
        &&& 1 <= self.interval_ms <= INTERVAL_MAX_MS
        &&& self.elapsed_ms < self.interval_ms
    }

    /// Make a repeating timer with the given interval.
    pub fn new(interval_ms: u64) -> (t: Timer)
        requires
            1 <= interval_ms <= INTERVAL_MAX_MS,
        ensures
            t.interval_ms == interval_ms,
            t.elapsed_ms == 0,
            t.wf(),
    {
        Timer { interval_ms, elapsed_ms: 0 }
    }

    /// Advance the timer by `dt_ms` milliseconds; report whether it
    /// fired.  At most one firing is reported per tick.
    pub fn tick(&mut self, dt_ms: u64) -> (fired: bool)
        requires
            old(self).wf(),
            dt_ms <= DT_MAX_MS,
        ensures
            final(self).wf(),
            *final(self) == timer_after(*old(self), dt_ms as int),
            fired == timer_fires(*old(self), dt_ms as int),
    {
        let total = self.elapsed_ms + dt_ms;
        if total >= self.interval_ms {
            self.elapsed_ms = total % self.interval_ms;
            true
        } else {
            self.elapsed_ms = total;
            false
        }
    }
}

/// The repeating timer that schedules star spawns.
#[derive(Clone, Copy, Debug, PartialEq, Eq, Structural)]
pub struct StarSpawnTimer {
    pub timer: Timer,
}

impl Default for StarSpawnTimer {
    /// Repeats every `STAR_SPAWN_TIME_MS` milliseconds.
    fn default() -> (t: StarSpawnTimer)
        ensures
            t.timer.interval_ms == STAR_SPAWN_TIME_MS,
            t.timer.elapsed_ms == 0,
            t.timer.wf(),
    {
        StarSpawnTimer { timer: Timer::new(STAR_SPAWN_TIME_MS) }
    }
}

/// The repeating timer that schedules enemy spawns.
#[derive(Clone, Copy, Debug, PartialEq, Eq, Structural)]
pub struct EnemySpawnTimer {
    pub timer: Timer,
}

impl Default for EnemySpawnTimer {
    /// Repeats every `ENEMY_SPAWN_TIME_MS` milliseconds.
    fn default() -> (t: EnemySpawnTimer)
        ensures
            t.timer.interval_ms == ENEMY_SPAWN_TIME_MS,
            t.timer.elapsed_ms == 0,
            t.timer.wf(),
    {
        EnemySpawnTimer { timer: Timer::new(ENEMY_SPAWN_TIME_MS) }
    }
}

/// Advance the star spawn timer; report whether a star is due.
pub fn tick_star_spawn_timer(timer: &mut StarSpawnTimer, dt_ms: u64) -> (fired: bool)
    requires
        old(timer).timer.wf(),
        dt_ms <= DT_MAX_MS,
    ensures
        final(timer).timer.wf(),
        final(timer).timer == timer_after(old(timer).timer, dt_ms as int),
        fired == timer_fires(old(timer).timer, dt_ms as int),
{
    timer.timer.tick(dt_ms)
}

/// Advance the enemy spawn timer; report whether an enemy is due.
pub fn tick_enemy_spawn_timer(timer: &mut EnemySpawnTimer, dt_ms: u64) -> (fired: bool)
    requires
        old(timer).timer.wf(),
        dt_ms <= DT_MAX_MS,
    ensures
        final(timer).timer.wf(),
        final(timer).timer == timer_after(old(timer).timer, dt_ms as int),
        fired == timer_fires(old(timer).timer, dt_ms as int),
{
    timer.timer.tick(dt_ms)
}

} // verus!

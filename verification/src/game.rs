//! The whole round: a state struct threaded through an explicit
//! per-tick driver that runs the systems in their scheduled order —
//! movement, player confinement, enemy reflection, the two collision
//! passes against one snapshot (despawns are deferred to the end of
//! the tick, as the engine's command queue defers them), then the two
//! spawn timers.

use vstd::prelude::*;
use crate::bounds::{
    confine_player_movement, confined, count_bounced, enemies_reflected, update_enemy_direction,
};
use crate::collision::{
    count_collected, count_hits, enermy_hit_player, player_hit_stars, surviving_stars,
};
use crate::movement::{enemies_moved, enemy_movement, player_moved, player_movement};
use crate::spawn::{
    RawSpawn, draw_raw_spawn, enemy_from_raw, enemy_from_raw_spec, spawn_enemies, spawn_player,
    spawn_stars, star_from_raw, star_from_raw_spec,
};
use crate::timer::{
    EnemySpawnTimer, StarSpawnTimer, tick_enemy_spawn_timer, tick_star_spawn_timer, timer_after,
    timer_fires,
};
use crate::{
    DT_MAX_MS, Enemy, KeyState, NUMBER_OF_ENEMIES, NUMBER_OF_STARS, Player, Score, Star, Vec2,
    WindowSize, enemy_wf, player_in_bounds, pos_in_limits,
};

verus! {

/// Everything one tick consumes besides the state: the frame delta,
/// the pressed keys, and the raw random draws used if a spawn timer
/// fires this tick.
#[derive(Clone, Copy, Debug, PartialEq, Eq, Structural)]
pub struct TickInput {
    pub dt_ms: u64,
    pub keys: KeyState,
    pub star_raw: RawSpawn,
    pub enemy_raw: RawSpawn,
}

/// What one tick did: how many enemies bounced (each owes a bounce
/// sound), whether the player was caught, how many stars were picked
/// up (each owes a pickup sound and a score line), and which spawn
/// timers fired.
#[derive(Clone, Copy, Debug, PartialEq, Eq, Structural)]
pub struct TickReport {
    pub bounces: u64,
    pub player_destroyed: bool,
    pub stars_collected: u64,
    pub star_spawned: bool,
    pub enemy_spawned: bool,
}

/// The player position carried through a whole run of ticks, each
/// step a pair of pressed keys and a frame delta.
pub open spec fn run_player(p: Vec2, steps: Seq<(KeyState, int)>, w: WindowSize) -> Vec2
    decreases steps.len(),
{
    if steps.len() == 0 {
        p
    } else {
        run_player(
            tick_player_pos_spec(p, steps[0].0, w, steps[0].1),
            steps.drop_first(),
            w,
        )
    }
}

/// Over every run of ticks, from any starting position: after the
/// boundary step of the last tick the player position lies within
/// `[PLAYER_SIZE / 2, dimension - PLAYER_SIZE / 2]` on both axes.
pub proof fn lemma_player_confined_along_run(p: Vec2, steps: Seq<(KeyState, int)>, w: WindowSize)
    requires
        w.wf(),
        steps.len() >= 1,
    ensures
        player_in_bounds(run_player(p, steps, w), w),
    decreases steps.len(),
{
    let next = tick_player_pos_spec(p, steps[0].0, w, steps[0].1);
    assert(run_player(p, steps, w) == run_player(next, steps.drop_first(), w));
    if steps.len() == 1 {
        assert(run_player(next, steps.drop_first(), w) == next);
        crate::bounds::lemma_confine_in_bounds(
            crate::movement::player_moved(p, steps[0].0, steps[0].1),
            w,
        );
    } else {
        lemma_player_confined_along_run(next, steps.drop_first(), w);
    }
}

/// The full state of a round.
pub struct GameState {
    pub player: Option<Player>,
    pub enemies: Vec<Enemy>,
    pub stars: Vec<Star>,
    pub score: Score,
    pub star_spawn_timer: StarSpawnTimer,
    pub enemy_spawn_timer: EnemySpawnTimer,
    pub window: WindowSize,
}

/// The enemies after the movement and boundary phases of one tick.
pub open spec fn tick_enemies_spec(s: Seq<Enemy>, w: WindowSize, dt: int) -> Seq<Enemy> {
    enemies_reflected(enemies_moved(s, dt), w)
}

/// The player position after the movement and boundary phases of one
/// tick.
pub open spec fn tick_player_pos_spec(p: Vec2, keys: KeyState, w: WindowSize, dt: int) -> Vec2 {
    confined(player_moved(p, keys, dt), w)
}

impl GameState {
    /// A well-formed round: sane window, every position within the
    /// coordinate limits, every enemy heading near unit, both timers
    /// sound.
    pub open spec fn wf(self) -> bool {
        &&& self.window.wf()
        &&& (match self.player {
            Some(p) => pos_in_limits(p.position),
            None => true,
        })
        &&& (forall|i: int|
            0 <= i < self.enemies@.len() ==> enemy_wf(#[trigger] self.enemies@[i]))
        &&& (forall|i: int|
            0 <= i < self.stars@.len() ==> pos_in_limits((#[trigger] self.stars@[i]).position))
        &&& self.star_spawn_timer.timer.wf()
        &&& self.enemy_spawn_timer.timer.wf()
    }

    /// Start a round: the player at the window center, the starting
    /// sets of enemies and stars at random positions, score zero,
    /// both spawn timers fresh.
    pub fn new(window: WindowSize) -> (s: GameState)
        requires
            window.wf(),
        ensures
            s.wf(),
            s.window == window,
            (s.player matches Some(p) && p.position.x == window.width as int / 2
                && p.position.y == window.height as int / 2),
            s.enemies@.len() == NUMBER_OF_ENEMIES,
            s.stars@.len() == NUMBER_OF_STARS,
            s.score.value == 0,
            s.star_spawn_timer.timer.interval_ms == crate::STAR_SPAWN_TIME_MS,
            s.star_spawn_timer.timer.elapsed_ms == 0,
            s.enemy_spawn_timer.timer.interval_ms == crate::ENEMY_SPAWN_TIME_MS,
            s.enemy_spawn_timer.timer.elapsed_ms == 0,
    {
        GameState {
            player: Some(spawn_player(&window)),
            enemies: spawn_enemies(&window),
            stars: spawn_stars(&window),
            score: Score::default(),
            star_spawn_timer: StarSpawnTimer::default(),
            enemy_spawn_timer: EnemySpawnTimer::default(),
            window,
        }
    }

    /// One tick, fully determined by the state and the input.  The
    /// ensures pin every field of the new state and of the report:
    /// the enemies move and reflect, the player moves and is clamped
    /// into the window band, both collision passes read that one
    /// snapshot, the score grows by exactly one per star despawned,
    /// and each timer that fires appends exactly one entity placed
    /// from the input's raw draws.
    pub fn tick_with(&mut self, input: &TickInput) -> (r: TickReport)
        requires
            old(self).wf(),
            input.dt_ms <= DT_MAX_MS,
            old(self).score.value + old(self).stars@.len() <= u32::MAX,
        ensures
            final(self).wf(),
            final(self).window == old(self).window,
            final(self).star_spawn_timer.timer == timer_after(
                old(self).star_spawn_timer.timer,
                input.dt_ms as int,
            ),
            final(self).enemy_spawn_timer.timer == timer_after(
                old(self).enemy_spawn_timer.timer,
                input.dt_ms as int,
            ),
            r.star_spawned == timer_fires(old(self).star_spawn_timer.timer, input.dt_ms as int),
            r.enemy_spawned == timer_fires(old(self).enemy_spawn_timer.timer, input.dt_ms as int),
            final(self).enemies@ == (if r.enemy_spawned {
                tick_enemies_spec(old(self).enemies@, old(self).window, input.dt_ms as int).push(
                    enemy_from_raw_spec(old(self).window, input.enemy_raw),
                )
            } else {
                tick_enemies_spec(old(self).enemies@, old(self).window, input.dt_ms as int)
            }),
            r.bounces == count_bounced(
                enemies_moved(old(self).enemies@, input.dt_ms as int),
                old(self).window,
            ),
            old(self).player is None ==> ({
                &&& final(self).player is None
                &&& !r.player_destroyed
                &&& r.stars_collected == 0
                &&& final(self).score == old(self).score
                &&& final(self).stars@ == (if r.star_spawned {
                    old(self).stars@.push(star_from_raw_spec(old(self).window, input.star_raw))
                } else {
                    old(self).stars@
                })
            }),
            old(self).player matches Some(p) ==> ({
                let cp = tick_player_pos_spec(
                    p.position,
                    input.keys,
                    old(self).window,
                    input.dt_ms as int,
                );
                let hits = count_hits(
                    cp,
                    tick_enemies_spec(old(self).enemies@, old(self).window, input.dt_ms as int),
                );
                &&& final(self).player == (if hits > 0 {
                    Option::<Player>::None
                } else {
                    Some(Player { position: cp })
                })
                &&& r.player_destroyed == (hits > 0)
                &&& r.stars_collected == count_collected(cp, old(self).stars@)
                &&& final(self).score.value == old(self).score.value + r.stars_collected
                &&& final(self).stars@ == (if r.star_spawned {
                    surviving_stars(cp, old(self).stars@).push(
                        star_from_raw_spec(old(self).window, input.star_raw),
                    )
                } else {
                    surviving_stars(cp, old(self).stars@)
                })
            }),
            final(self).score.value >= old(self).score.value,
            final(self).player matches Some(q) ==> player_in_bounds(q.position, old(self).window),
    {
        let dt = input.dt_ms;
        // movement, then the boundary policy
        if let Some(p) = self.player {
            let mut pos = p.position;
            player_movement(&mut pos, &input.keys, dt);
            confine_player_movement(&mut pos, &self.window);
            self.player = Some(Player { position: pos });
        }
        enemy_movement(&mut self.enemies, dt);
        let bounces = update_enemy_direction(&mut self.enemies, &self.window);
        // both collision passes against the same snapshot; despawns
        // take effect at the end of the tick
        let mut destroyed = false;
        let mut collected: u64 = 0;
        if let Some(p) = self.player {
            let hits = enermy_hit_player(&p, &self.enemies);
            collected = player_hit_stars(&p, &mut self.stars, &mut self.score);
            if hits > 0 {
                self.player = None;
                destroyed = true;
            }
        }
        // the spawn timers
        let star_spawned = tick_star_spawn_timer(&mut self.star_spawn_timer, dt);
        if star_spawned {
            let st = star_from_raw(&self.window, &input.star_raw);
            self.stars.push(st);
        }
        let enemy_spawned = tick_enemy_spawn_timer(&mut self.enemy_spawn_timer, dt);
        if enemy_spawned {
            let e = enemy_from_raw(&self.window, &input.enemy_raw);
            self.enemies.push(e);
        }
        TickReport { bounces, player_destroyed: destroyed, stars_collected: collected, star_spawned, enemy_spawned }
    }

    /// One tick with the raw spawn draws taken from the process
    /// random generator.  Whatever is drawn: the state stays well
    /// formed, the window is untouched, the score grows by exactly
    /// one per star despawned, a despawned player stays gone, each
    /// spawn timer fires exactly as the frame delta dictates, and a
    /// surviving player sits inside the window band.
    pub fn tick(&mut self, keys: &KeyState, dt_ms: u64) -> (r: TickReport)
        requires
            old(self).wf(),
            dt_ms <= DT_MAX_MS,
            old(self).score.value + old(self).stars@.len() <= u32::MAX,
        ensures
            final(self).wf(),
            final(self).window == old(self).window,
            final(self).score.value == old(self).score.value + r.stars_collected,
            final(self).score.value >= old(self).score.value,
            r.star_spawned == timer_fires(old(self).star_spawn_timer.timer, dt_ms as int),
            r.enemy_spawned == timer_fires(old(self).enemy_spawn_timer.timer, dt_ms as int),
            final(self).enemies@.len() == old(self).enemies@.len() + (if r.enemy_spawned {
                1int
            } else {
                0int
            }),
            final(self).stars@.len() == old(self).stars@.len() - r.stars_collected
                + (if r.star_spawned { 1int } else { 0int }),
            old(self).player is None ==> final(self).player is None && !r.player_destroyed
                && r.stars_collected == 0,
            final(self).player matches Some(q) ==> player_in_bounds(q.position, old(self).window),
            r.bounces == count_bounced(
                enemies_moved(old(self).enemies@, dt_ms as int),
                old(self).window,
            ),
            old(self).player matches Some(p) ==> ({
                let cp = tick_player_pos_spec(p.position, *keys, old(self).window, dt_ms as int);
                let hits = count_hits(
                    cp,
                    tick_enemies_spec(old(self).enemies@, old(self).window, dt_ms as int),
                );
                &&& r.player_destroyed == (hits > 0)
                &&& r.stars_collected == count_collected(cp, old(self).stars@)
                &&& final(self).player == (if hits > 0 {
                    Option::<Player>::None
                } else {
                    Some(Player { position: cp })
                })
            }),
    {
        let input = TickInput {
            dt_ms,
            keys: *keys,
            star_raw: draw_raw_spawn(),
            enemy_raw: draw_raw_spawn(),
        };
        let r = self.tick_with(&input);
        proof {
            if old(self).player is Some {
                let p = old(self).player->Some_0;
                let cp = tick_player_pos_spec(
                    p.position,
                    input.keys,
                    old(self).window,
                    dt_ms as int,
                );
                crate::collision::lemma_one_point_per_star(cp, old(self).stars@);
            }
        }
        r
    }
}

} // verus!

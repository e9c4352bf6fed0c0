//! Integer model of a small "catch the stars, avoid the enemies" arcade
//! round, together with the roster queries of a tiny people demo.
//!
//! Positions, headings and sizes are plain `i64` values in pixel units;
//! time is carried in milliseconds.  Collision tests compare squared
//! distances, so no square root is ever taken on a position.  Headings
//! are fixed-point vectors scaled by `UNIT`, kept near unit length by
//! construction and exactly preserved in magnitude by reflections.

use vstd::prelude::*;

pub mod bounds;
pub mod collision;
pub mod game;
pub mod heading;
pub mod movement;
pub mod people;
pub mod spawn;
pub mod timer;

verus! {

/// Player speed in pixels per second.
pub const PLAYER_SPEED: i64 = 500;

/// Player sprite diameter in pixels; doubles as the player-enemy
/// collision threshold and as the margin of the window confinement.
pub const PLAYER_SIZE: i64 = 64;

/// Enemies placed when a round starts.
pub const NUMBER_OF_ENEMIES: usize = 5;

/// Enemy speed in pixels per second.
pub const ENEMY_SPEED: i64 = 200;

/// Stars placed when a round starts.
pub const NUMBER_OF_STARS: usize = 15;

/// Star sprite diameter in pixels.
pub const STAR_SIZE: i64 = 32;

/// Interval of the repeating star spawn timer, in milliseconds.
pub const STAR_SPAWN_TIME_MS: u64 = 2000;

/// Interval of the repeating enemy spawn timer, in milliseconds.
pub const ENEMY_SPAWN_TIME_MS: u64 = 5000;

/// Fixed-point scale of heading vectors: a unit heading has squared
/// norm close to `UNIT * UNIT`.
pub const UNIT: i64 = 1000;

/// Half of `UNIT`: raw heading components are drawn from
/// `[-HALF_RAW, HALF_RAW]`, the fixed-point image of `[-0.5, 0.5]`.
pub const HALF_RAW: i64 = 500;

/// Largest frame delta a tick accepts, in milliseconds.
pub const DT_MAX_MS: u64 = 60_000;

/// Largest window dimension the model accepts, in pixels.
pub const DIM_MAX: i64 = 1_000_000;

/// Positions are kept within `[-POS_LIMIT, POS_LIMIT]` on both axes;
/// enemy movement saturates there, far beyond any window.
pub const POS_LIMIT: i64 = 100_000_000;

/// Numerator of the fixed-point approximation of `1 / sqrt(2)` at
/// denominator `UNIT`, used for diagonal player movement.
pub const DIAG_NUM: i64 = 707;

/// A 2D point or vector with integer components, in pixel units.
#[derive(Clone, Copy, Debug, PartialEq, Eq, Structural)]
pub struct Vec2 {
    pub x: i64,
    pub y: i64,
}

/// Squared Euclidean norm of a vector.
pub open spec fn norm_sq(v: Vec2) -> int {
    v.x * v.x + v.y * v.y
}

/// Squared distance between two points.
pub open spec fn dist_sq(a: Vec2, b: Vec2) -> int {
    (a.x - b.x) * (a.x - b.x) + (a.y - b.y) * (a.y - b.y)
}

/// Both components lie within `[-POS_LIMIT, POS_LIMIT]`.
pub open spec fn pos_in_limits(v: Vec2) -> bool {
    &&& -POS_LIMIT <= v.x <= POS_LIMIT
    &&& -POS_LIMIT <= v.y <= POS_LIMIT
}

/// The player: a single ball at a position, of diameter `PLAYER_SIZE`.
#[derive(Clone, Copy, Debug, PartialEq, Eq, Structural)]
pub struct Player {
    pub position: Vec2,
}

/// An enemy ball: a position and the near-unit heading it travels on.
#[derive(Clone, Copy, Debug, PartialEq, Eq, Structural)]
pub struct Enemy {
    pub position: Vec2,
    pub direction: Vec2,
}

/// A star waiting to be picked up, of diameter `STAR_SIZE`.
#[derive(Clone, Copy, Debug, PartialEq, Eq, Structural)]
pub struct Star {
    pub position: Vec2,
}

/// The running score of the round.
#[derive(Clone, Copy, Debug, PartialEq, Eq, Structural)]
pub struct Score {
    pub value: u32,
}

impl Default for Score {
    /// A fresh score starts at zero.
    fn default() -> (s: Score)
        ensures
            s.value == 0,
    {
        Score { value: 0 }
    }
}

/// The pressed state of the four direction keys (each together with
/// its arrow-key alias).
#[derive(Clone, Copy, Debug, PartialEq, Eq, Structural)]
pub struct KeyState {
    pub up: bool,
    pub down: bool,
    pub left: bool,
    pub right: bool,
}

/// The window the round is played in, in pixels.
#[derive(Clone, Copy, Debug, PartialEq, Eq, Structural)]
pub struct WindowSize {
    pub width: i64,
    pub height: i64,
}

impl WindowSize {
    /// The window is at least one player diameter on each axis, so the
    /// confinement band `[PLAYER_SIZE / 2, dimension - PLAYER_SIZE / 2]`
    /// is never empty.
    pub open spec fn wf(self) -> bool {
        &&& PLAYER_SIZE <= self.width <= DIM_MAX
        &&& PLAYER_SIZE <= self.height <= DIM_MAX
    }
}

/// A position lies inside the confinement band of the window on both
/// axes.
pub open spec fn player_in_bounds(p: Vec2, w: WindowSize) -> bool {
    &&& PLAYER_SIZE / 2 <= p.x <= w.width - PLAYER_SIZE / 2
    &&& PLAYER_SIZE / 2 <= p.y <= w.height - PLAYER_SIZE / 2
}

/// A well-formed enemy: position within the coordinate limits and a
/// near-unit heading.
pub open spec fn enemy_wf(e: Enemy) -> bool {
    &&& pos_in_limits(e.position)
    &&& -UNIT <= e.direction.x <= UNIT
    &&& -UNIT <= e.direction.y <= UNIT
    &&& crate::heading::near_unit(e.direction)
}

} // verus!

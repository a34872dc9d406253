//! Core simulation of a two-player arcade volleyball game: two paddles
//! confined to opposite halves of a rectangular arena hit a gravity-affected
//! ball back and forth.
//!
//! All geometry is carried in fixed-point integers: one arena unit is `SCALE`
//! milli-units, so the 700 x 700 arena spans `700_000 x 700_000`. Velocities
//! are milli-units per second and elapsed time is given in milliseconds.
//! This keeps every per-frame computation exact and lets the contracts state
//! the resulting positions and velocities to the last milli-unit.

use vstd::prelude::*;

pub mod ball;
pub mod paddle;
pub mod side;

verus! {

/// Milli-units per arena unit: the fixed-point scale of every length,
/// position and velocity in the library.
pub const SCALE: i64 = 1000;

/// Arena width in milli-units (700 units).
pub const ARENA_WIDTH: i64 = 700_000;

/// Arena height in milli-units (700 units).
pub const ARENA_HEIGHT: i64 = 700_000;

/// Half the arena width: the center line that separates the two sides.
pub const ARENA_HALF_WIDTH: i64 = 350_000;

/// Half the arena height: the vertical center, where the ball starts.
pub const ARENA_HALF_HEIGHT: i64 = 350_000;

/// Paddle width in milli-units (22 units).
pub const PLAYER_WIDTH: i64 = 22_000;

/// Paddle height in milli-units (32 units).
pub const PLAYER_HEIGHT: i64 = 32_000;

/// Half the paddle width, the inset of a paddle's permitted range from the
/// arena edges and from the center line.
pub const PLAYER_HALF_WIDTH: i64 = 11_000;

/// Half the paddle height.
pub const PLAYER_HALF_HEIGHT: i64 = 16_000;

/// Horizontal paddle speed in milli-units per second (60 units/s).
pub const PLAYER_SPEED: i64 = 60_000;

/// Initial horizontal ball velocity in milli-units per second (30 units/s).
pub const BALL_VELOCITY_X: i64 = 30_000;

/// Initial vertical ball velocity.
pub const BALL_VELOCITY_Y: i64 = 0;

/// Ball radius in milli-units (4 units).
pub const BALL_RADIUS: i64 = 4_000;

/// Constant downward gravitational acceleration in milli-units per second
/// squared (-40 units/s^2).
pub const GRAVITY_ACCELERATION: i64 = -40_000;

/// Lower bound (inclusive) of the randomized bounce multiplier, in
/// thousandths: 0.6.
pub const JITTER_MIN: i64 = 600;

/// Upper bound (exclusive) of the randomized bounce multiplier, in
/// thousandths: 1.4.
pub const JITTER_MAX: i64 = 1400;

/// Largest elapsed time (milliseconds) a single step accepts; keeps every
/// intermediate product inside `i64`/`u64` range.
pub const DT_LIMIT: i64 = 100_000_000;

/// Largest velocity magnitude (milli-units per second) a step accepts.
pub const VEL_LIMIT: i64 = 1_000_000_000;

/// Largest position magnitude (milli-units) a step accepts.
pub const POS_LIMIT: i64 = 1_000_000_000_000;

} // verus!

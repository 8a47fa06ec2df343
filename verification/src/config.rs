//! Configured playfield dimensions and derived simulation constants.
//!
//! All lengths and speeds are fixed-point integers: `SCALE` units make one
//! world unit, so `5` stands for 0.05 world units. Sizes that the rules
//! halve are configured through their half, so every derived constant is a
//! sum or product of configured ones.

use vstd::prelude::*;

verus! {

/// Fixed-point scale: how many integer units make one world unit.
pub const SCALE: i64 = 100;

/// Half the width of the playfield.
pub const LEVEL_HALF_WIDTH: i64 = 150 * SCALE;

/// Width of the playfield.
pub const LEVEL_WIDTH: i64 = 2 * LEVEL_HALF_WIDTH;

/// Half-height parameter of the playfield.
pub const LEVEL_HEIGHT: i64 = 100 * SCALE;

/// Half the height of a paddle.
pub const PADDLE_HALF_HEIGHT: i64 = 25 * SCALE;

/// Full height of a paddle.
pub const PADDLE_HEIGHT: i64 = 2 * PADDLE_HALF_HEIGHT;

/// Half the width of a paddle.
pub const PADDLE_HALF_WIDTH: i64 = 5 * SCALE;

/// Full width of a paddle.
pub const PADDLE_WIDTH: i64 = 2 * PADDLE_HALF_WIDTH;

/// Full height of a wall.
pub const WALL_HEIGHT: i64 = 10 * SCALE;

/// Full width of a wall (walls span the playfield).
pub const WALL_WIDTH: i64 = LEVEL_WIDTH;

/// Full width and height of the (square) ball.
pub const BALL_SIZE: i64 = 10 * SCALE;

/// Horizontal extent beyond which the ball is out of play.
pub const BOUNDARY_X: i64 = LEVEL_HALF_WIDTH + 5 * SCALE;

/// Vertical extent beyond which the ball is clamped back in.
pub const BOUNDARY_Y: i64 = LEVEL_HEIGHT + 5 * SCALE;

/// Largest paddle center height that keeps the paddle inside the walls;
/// derived from the playfield dimensions, never hardcoded.
pub const PADDLE_MAX_Y: i64 = LEVEL_HEIGHT - PADDLE_HALF_HEIGHT + WALL_HEIGHT;

/// Vertical center of the top wall; the bottom wall sits at its negation.
pub const WALL_CENTER_Y: i64 = BOUNDARY_Y + WALL_HEIGHT;

/// Fixed horizontal center of the player paddle (right side).
pub const PLAYER_X: i64 = BOUNDARY_X - PADDLE_HALF_WIDTH;

/// Fixed horizontal center of the opponent paddle (left side).
pub const OPPONENT_X: i64 = -(BOUNDARY_X - PADDLE_HALF_WIDTH);

/// Vertical speed of the player paddle while a key is held (2 world units).
pub const PLAYER_SPEED: i64 = 2 * SCALE;

/// Vertical speed of the opponent paddle (1 world unit per tick).
pub const OPPONENT_SPEED: i64 = 1 * SCALE;

/// Velocity nudge a moving paddle adds to the ball on a hit: a twentieth
/// of a world unit, 0.05.
pub const HIT_NUDGE: i64 = 5;

/// Numerator of the 1.05 speed-up factor applied on player hits.
pub const SPEEDUP_NUM: i64 = 21;

/// Denominator of the 1.05 speed-up factor applied on player hits.
pub const SPEEDUP_DEN: i64 = 20;

/// Horizontal and vertical component of the ball's velocity at match start.
pub const BALL_START_SPEED: i64 = 1 * SCALE;

/// Machine limit on coordinates accepted by a single stage; far outside any
/// reachable playfield position, present only so that `i64` arithmetic is
/// provably free of overflow.
pub const COORD_LIMIT: i64 = 2_000_000_000_000;

/// Machine limit on coordinates accepted by a whole tick; one tick keeps
/// coordinates within `COORD_LIMIT`.
pub const TICK_COORD_LIMIT: i64 = 1_000_000_000_000;

/// Machine limit on velocity components; one tick's speed-up keeps the
/// squares of the resulting components summable in `i64`.
pub const SPEED_LIMIT: i64 = 1_000_000_000;

/// Machine limit on the inputs of velocity renormalization; covers a
/// velocity at `SPEED_LIMIT` that one hit has nudged and sped up.
pub const NORM_INPUT_LIMIT: i64 = 1_100_000_000;

/// Machine limit on the dividend of truncating division; covers every
/// product the simulation divides.
pub const DIV_ARG_LIMIT: i64 = 4_000_000_000_000;

} // verus!

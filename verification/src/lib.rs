//! A fixed-step two-paddle ball game simulation.
//!
//! The simulation advances in discrete ticks. Each tick runs five stages in
//! a fixed order: the player's input is mapped to a paddle velocity, the
//! opponent paddle picks its velocity from the ball's height, every moving
//! entity is advanced by its velocity, paddle positions are clamped against
//! the walls, and finally ball/paddle and ball/boundary interactions are
//! resolved (reflection, speed-up, round reset, vertical clamp).
//!
//! All coordinates and velocities are fixed-point integers in hundredths of
//! a world unit, so every rule of the game (including the 0.05 velocity
//! nudge and the 1.05 speed-up factor) is exact integer arithmetic.

pub mod arith;
pub mod config;
pub mod geometry;
pub mod model;
pub mod systems;
pub mod laws;

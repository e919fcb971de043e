//! A deterministic movement simulation core.
//!
//! The simulation runs at a fixed tick rate, whatever the frame rate:
//!
//! - [`tick`]: the clock that turns frame time into whole ticks;
//! - [`player`]: the ground beneath the controlled agent, the tuning that
//!   the ground sets, steering and jumping;
//! - [`physics`]: the velocity and position step of each tick;
//! - [`interpolation`]: the blend of the last two ticks that is shown;
//! - [`actions`]: scripted actions and the queue that runs them;
//! - [`simulation`]: one tick of all of these, in order;
//! - [`grid`] and [`board`]: cells, tiles and the platforms of the board.
//!
//! Time is counted in whole nanoseconds. Lengths, speeds and multipliers
//! are fixed-point numbers, whole numbers of millionths, so that every step
//! is exact and gives the same result on every machine; see [`math`].

pub mod actions;
pub mod board;
pub mod grid;
pub mod input;
pub mod interpolation;
pub mod math;
pub mod movement;
pub mod physics;
pub mod player;
pub mod simulation;
pub mod swizzles;
pub mod tick;
pub mod world;

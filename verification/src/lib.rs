//! Deterministic simulation core of a two-paddle ball game.
//!
//! Every length, position, velocity and score is a fixed-point number: an
//! `i64` that counts thousandths of a world unit. Sums that leave the range
//! of `i64` are pinned to its nearest end, so every step of the simulation
//! is a total function.
//!
//! The crate draws nothing and plays nothing. A tick hands back the sounds
//! that it asks for, a frame hands back the scene that is to be shown, and
//! the sines of the oscillators that steer the idle paddle are handed in.

pub mod fixed;
pub mod geometry;
pub mod physics;
pub mod paddle;
pub mod ball;
pub mod game;
pub mod scene;

//! Simulation core of a lane-based tower-defense game.
//!
//! Time is counted in whole nanoseconds and positions in billionths of a
//! world unit, so that `speed * elapsed` is an exact integer and every rule of
//! the game can be stated and proved over the integers.

pub mod board;
pub mod combat;
pub mod economy;
pub mod enemies;
pub mod error;
pub mod game;
pub mod lanes;
pub mod projectiles;
pub mod registry;
pub mod timer;
pub mod towers;
pub mod waves;

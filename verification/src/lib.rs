//! Gameplay core of a small 2D avoidance game: a player ball collects stars
//! and dodges bouncing enemies on a rectangular field.
//!
//! All lengths are integers in sub-pixel units, all times are integers in
//! nanoseconds, and a direction component is an integer in millionths.

use vstd::prelude::*;

pub mod audio;
pub mod components;
pub mod direction;
pub mod error;
pub mod events;
pub mod field;
pub mod game;
pub mod geometry;
pub mod math;
pub mod resources;
mod rng;
pub mod store;
pub mod systems;
pub mod timer;

pub use crate::error::{Error, Result};

verus! {

/// Length units in one pixel.
pub const UNITS_PER_PIXEL: i32 = 1_000;

/// Diameter of the player, in units.
pub const PLAYER_SIZE: i32 = 64_000;

/// Speed of the player, in units per second.
pub const PLAYER_SPEED: u32 = 500_000;

/// Number of enemies on the field when a game starts.
pub const NUMBER_OF_ENEMIES: usize = 4;

/// Diameter of an enemy, in units.
pub const ENEMY_SIZE: i32 = 64_000;

/// Speed of an enemy, in units per second.
pub const ENEMY_SPEED: u32 = 200_000;

/// Nanoseconds between two enemies spawned over time.
pub const ENEMY_SPAWN_TIME: u64 = 5_000_000_000;

/// Number of stars on the field when a game starts.
pub const NUMBER_OF_STARS: usize = 10;

/// Diameter of a star, in units.
pub const STAR_SIZE: i32 = 30_000;

/// Nanoseconds between two stars spawned over time.
pub const STAR_SPAWN_TIME: u64 = 1_000_000_000;

} // verus!

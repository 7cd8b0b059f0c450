//! The rules of the game, one function per rule. Each runs once per frame
//! on the state that the frame loop owns.

pub mod collisions;
pub mod movement;
pub mod score;
pub mod spawns;

//! The simulation core of a small side-scrolling coin game.
//!
//! Coins fall from the top of the world, bounce on the ground a bounded
//! number of times and are picked up by a player who stands, walks and
//! jumps. Every quantity is a fixed-point integer, so that each rule of the
//! simulation has an exact statement.

pub mod coin;
pub mod coinspawner;
pub mod fixed;
pub mod game;
pub mod geometry;
pub mod player;
pub mod rng;
pub mod score;
pub mod sprites;
pub mod text;

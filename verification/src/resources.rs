//! State that belongs to the game as a whole.

pub mod camera;
pub mod game;

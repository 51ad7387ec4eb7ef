//! The data that the gameplay rules read and change.

pub mod camera;
pub mod player;
pub mod ui;
pub mod world;

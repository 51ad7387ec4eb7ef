//! The rules that run once per tick.

pub mod camera;
pub mod player;
pub mod ui;

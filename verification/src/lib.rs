//! Gameplay core of a small 3D action game: grounding detection by ray and
//! box geometry, and the inventory with its item effects.

pub mod components;
pub mod math;
pub mod resources;
pub mod states;
pub mod systems;

//! Markers and settings of the player's camera.

use vstd::prelude::*;

verus! {

/// How far the view turns per unit of mouse travel, in millionths of a
/// radian: `x` for turning, `y` for tilting.
#[derive(Clone, Copy, Debug, PartialEq, Eq, Structural)]
pub struct CameraSensitivity {
    pub x: i32,
    pub y: i32,
}

impl Default for CameraSensitivity {
    fn default() -> (r: Self)
        ensures
            r == (CameraSensitivity { x: 3000, y: 2000 }),
    {
        CameraSensitivity { x: 3000, y: 2000 }
    }
}

/// Marks the camera that follows the player.
#[derive(Debug)]
pub struct PlayerCamera;

} // verus!

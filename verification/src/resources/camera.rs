//! The camera rig's mode.

use vstd::prelude::*;

verus! {

/// Where the camera sits relative to the player.
#[derive(Clone, Copy, Debug, PartialEq, Eq, Structural)]
pub enum CameraMode {
    ThirdPerson,
    FirstPerson,
}

impl Default for CameraMode {
    fn default() -> (r: Self)
        ensures
            r == CameraMode::ThirdPerson,
    {
        CameraMode::ThirdPerson
    }
}

impl CameraMode {
    /// The other mode.
    pub open spec fn other(self) -> CameraMode {
        match self {
            CameraMode::FirstPerson => CameraMode::ThirdPerson,
            CameraMode::ThirdPerson => CameraMode::FirstPerson,
        }
    }
}

/// The camera rig: its mode, its angles in millionths of a radian, and its
/// distance and target offset in fixed-point steps.
#[derive(Clone, Copy, Debug)]
pub struct CameraState {
    pub mode: CameraMode,
    pub yaw: i32,
    pub pitch: i32,
    pub distance: i32,
    pub target_offset: crate::math::Vec3,
}

impl Default for CameraState {
    fn default() -> (r: Self)
        ensures
            r.mode == CameraMode::ThirdPerson,
            r.yaw == 0,
            r.pitch == 0,
            r.distance == 0,
            r.target_offset == (crate::math::Vec3 { x: 0, y: 0, z: 0 }),
    {
        CameraState {
            mode: CameraMode::ThirdPerson,
            yaw: 0,
            pitch: 0,
            distance: 0,
            target_offset: crate::math::Vec3 { x: 0, y: 0, z: 0 },
        }
    }
}

} // verus!

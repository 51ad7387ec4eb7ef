//! Camera rules.

use vstd::prelude::*;
use crate::resources::camera::{CameraMode, CameraState};

verus! {

/// Largest pitch in either direction, in millionths of a radian: a
/// hundredth of a radian short of straight up.
pub const PITCH_LIMIT: i32 = 1_560_796;

/// The pitch within the limits that lies nearest to `pitch`.
pub open spec fn clamped_pitch(pitch: int) -> int {
    if pitch < -PITCH_LIMIT {
        -PITCH_LIMIT as int
    } else if pitch > PITCH_LIMIT {
        PITCH_LIMIT as int
    } else {
        pitch
    }
}

/// Switches between first and third person when the toggle key went down
/// this tick, and leaves everything else alone.
pub fn toggle_camera_mode_system(camera_state: &mut CameraState, toggle_pressed: bool)
    ensures
        final(camera_state).mode == if toggle_pressed {
            old(camera_state).mode.other()
        } else {
            old(camera_state).mode
        },
        final(camera_state).yaw == old(camera_state).yaw,
        final(camera_state).pitch == old(camera_state).pitch,
        final(camera_state).distance == old(camera_state).distance,
        final(camera_state).target_offset == old(camera_state).target_offset,
{
    if toggle_pressed {
        camera_state.mode =
        match camera_state.mode {
            CameraMode::FirstPerson => CameraMode::ThirdPerson,
            CameraMode::ThirdPerson => CameraMode::FirstPerson,
        };
    }
}

/// Tilts the camera by `delta`, keeping it from flipping over.
pub fn tilt(pitch: i32, delta: i32) -> (r: i32)
    ensures
        r as int == clamped_pitch(pitch + delta),
{
    let wide: i64 = pitch as i64 + delta as i64;
    if wide < -(PITCH_LIMIT as i64) {
        -PITCH_LIMIT
    } else if wide > PITCH_LIMIT as i64 {
        PITCH_LIMIT
    } else {
        wide as i32
    }
}

} // verus!

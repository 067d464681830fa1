//! Camera decisions: third/first person view switching and camera height.
use vstd::prelude::*;
use crate::state::{PlayerState, is_crouch};
use crate::tuning::{CAMERA_CROUCH_OFFSET_MM, CAMERA_FPS_HEIGHT_MM, CAMERA_TPS_HEIGHT_MM};

verus! {

/// How the camera follows the player.
#[derive(Clone, Copy, Debug, PartialEq, Eq, Structural)]
pub enum CameraMode {
    /// Third person: the camera orbits behind the player.
    TPS,
    /// First person: the camera sits at the player's eyes.
    FPS,
}

/// The other camera mode.
pub open spec fn other_mode(m: CameraMode) -> CameraMode {
    match m {
        CameraMode::TPS => CameraMode::FPS,
        CameraMode::FPS => CameraMode::TPS,
    }
}

/// Which pitch the camera takes when the view is switched.
#[derive(Clone, Copy, Debug, PartialEq, Eq, Structural)]
pub enum PitchPreset {
    /// Level with the horizon (entering first person).
    Level,
    /// The initial third-person pitch (entering third person).
    Initial,
}

/// The result of the view key: the new mode and the pitch to reset to (the yaw is
/// reset to look the way the player faces).
#[derive(Clone, Copy, Debug, PartialEq, Eq, Structural)]
pub struct ViewSwitch {
    pub mode: CameraMode,
    pub pitch: PitchPreset,
}

impl CameraMode {
    /// The other mode.
    pub fn toggled(self) -> (m: CameraMode)
        ensures
            m == other_mode(self),
    {
        match self {
            CameraMode::TPS => CameraMode::FPS,
            CameraMode::FPS => CameraMode::TPS,
        }
    }
}

/// The view key: third person becomes first person looking level; first person
/// becomes third person at the initial pitch.
pub fn switch_view(mode: CameraMode) -> (v: ViewSwitch)
    ensures
        v.mode == other_mode(mode),
        v.mode != mode,
        v.pitch == (match v.mode {
            CameraMode::FPS => PitchPreset::Level,
            CameraMode::TPS => PitchPreset::Initial,
        }),
{
    match mode {
        CameraMode::TPS => ViewSwitch { mode: CameraMode::FPS, pitch: PitchPreset::Level },
        CameraMode::FPS => ViewSwitch { mode: CameraMode::TPS, pitch: PitchPreset::Initial },
    }
}

/// Pressing the view key twice gives back the mode one started with.
pub proof fn lemma_view_switch_twice(m: CameraMode)
    ensures
        other_mode(other_mode(m)) == m,
{
}

/// The camera keeps its height in every state but the two crouching ones, where it
/// is a metre lower.
pub proof fn lemma_camera_drops_only_when_crouching(s: PlayerState)
    ensures
        !(s == PlayerState::CrouchIdle || s == PlayerState::CrouchWalking) ==> crouch_camera_offset(s)
            == 0,
        (s == PlayerState::CrouchIdle || s == PlayerState::CrouchWalking) ==> crouch_camera_offset(s)
            == -1000,
{
}

/// How far the camera drops while the player crouches (mm).
pub open spec fn crouch_camera_offset(s: PlayerState) -> int {
    if is_crouch(s) {
        CAMERA_CROUCH_OFFSET_MM as int
    } else {
        0
    }
}

/// The camera's height change for the player's state (mm).
pub fn crouch_camera_offset_mm(state: PlayerState) -> (h: i32)
    ensures
        h == crouch_camera_offset(state),
        h == (if state == PlayerState::CrouchIdle || state == PlayerState::CrouchWalking {
            -1000int
        } else {
            0int
        }),
{
    if state.is_crouching() {
        CAMERA_CROUCH_OFFSET_MM
    } else {
        0
    }
}

/// Height of the camera above the player's centre (mm): the orbit height in third
/// person, the eye height in first person, lowered while crouching. In third person
/// this is the height of the ideal orbit point before the pitch rotation.
pub fn camera_height_mm(mode: CameraMode, state: PlayerState) -> (h: i32)
    ensures
        h == (match mode {
            CameraMode::TPS => CAMERA_TPS_HEIGHT_MM as int,
            CameraMode::FPS => CAMERA_FPS_HEIGHT_MM as int,
        }) + crouch_camera_offset(state),
        // the camera drops by a metre only while crouching
        !(state == PlayerState::CrouchIdle || state == PlayerState::CrouchWalking) ==> h == (
        match mode {
            CameraMode::TPS => 5000int,
            CameraMode::FPS => 1600int,
        }),
        (state == PlayerState::CrouchIdle || state == PlayerState::CrouchWalking) ==> h == (
        match mode {
            CameraMode::TPS => 4000int,
            CameraMode::FPS => 600int,
        }),
{
    let base: i32 = match mode {
        CameraMode::TPS => CAMERA_TPS_HEIGHT_MM,
        CameraMode::FPS => CAMERA_FPS_HEIGHT_MM,
    };
    base + crouch_camera_offset_mm(state)
}

} // verus!

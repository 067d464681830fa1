use oasis_walk::camera::{camera_height_mm, crouch_camera_offset_mm, switch_view, CameraMode, PitchPreset, ViewSwitch};
use oasis_walk::state::PlayerState;

#[test]
fn view_key_switches() {
    assert_eq!(switch_view(CameraMode::TPS), ViewSwitch { mode: CameraMode::FPS, pitch: PitchPreset::Level });
    assert_eq!(switch_view(CameraMode::FPS), ViewSwitch { mode: CameraMode::TPS, pitch: PitchPreset::Initial });
}

#[test]
fn view_key_twice_restores() {
    for m in [CameraMode::TPS, CameraMode::FPS] {
        assert_eq!(m.toggled().toggled(), m);
        assert_eq!(switch_view(switch_view(m).mode).mode, m);
    }
}

#[test]
fn camera_heights() {
    assert_eq!(camera_height_mm(CameraMode::TPS, PlayerState::Idle), 5000);
    assert_eq!(camera_height_mm(CameraMode::TPS, PlayerState::CrouchWalking), 4000);
    assert_eq!(camera_height_mm(CameraMode::FPS, PlayerState::Running), 1600);
    assert_eq!(camera_height_mm(CameraMode::FPS, PlayerState::CrouchIdle), 600);
    assert_eq!(crouch_camera_offset_mm(PlayerState::Flying), 0);
    assert_eq!(crouch_camera_offset_mm(PlayerState::CrouchIdle), -1000);
}

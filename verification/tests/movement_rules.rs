use oasis_walk::camera::CameraMode;
use oasis_walk::movement::{
    begin_frame, fly_axes, flight_step, flight_sweep, gravity_multiplier, ground_speed_mm_s, ground_step,
    horizontal_sweep, key_axis, terminal_fall_speed_mm_s, vertical_sweep, walk_axes, Axes, Facing,
    FlightInput, GroundInput, MoveKeys, Regime, SweepOutcome, TimerAction, Vertical,
};
use oasis_walk::state::PlayerState;

fn no_keys() -> MoveKeys {
    MoveKeys { forward: false, back: false, left: false, right: false, up: false, down: false }
}

fn forward() -> MoveKeys {
    MoveKeys { forward: true, ..no_keys() }
}

/// Standing still on the ground, third person, nothing pressed.
fn on_ground() -> GroundInput {
    GroundInput {
        camera: CameraMode::TPS,
        keys: no_keys(),
        sprint: false,
        jump_tap: false,
        rising: false,
        sinking: false,
        ground_hit: true,
        headroom: true,
        jump_armed: false,
    }
}

#[test]
fn key_axis_values() {
    assert_eq!(key_axis(false, false), 0);
    assert_eq!(key_axis(false, true), 1);
    assert_eq!(key_axis(true, false), -1);
    assert_eq!(key_axis(true, true), 0);
}

#[test]
fn walk_axes_from_keys() {
    let keys = MoveKeys { forward: true, left: true, up: true, ..no_keys() };
    assert_eq!(walk_axes(&keys), Axes { x: -1, y: 0, z: -1 });
    let keys = MoveKeys { back: true, right: true, ..no_keys() };
    assert_eq!(walk_axes(&keys), Axes { x: 1, y: 0, z: 1 });
}

#[test]
fn fly_axes_from_keys() {
    let keys = MoveKeys { forward: true, up: true, ..no_keys() };
    assert_eq!(fly_axes(&keys), Axes { x: 0, y: 1, z: -1 });
    let keys = MoveKeys { down: true, up: true, right: true, ..no_keys() };
    assert_eq!(fly_axes(&keys), Axes { x: 1, y: 0, z: 0 });
    let keys = MoveKeys { down: true, ..no_keys() };
    assert_eq!(fly_axes(&keys), Axes { x: 0, y: -1, z: 0 });
}

#[test]
fn opposite_keys_cancel() {
    let keys = MoveKeys { forward: true, back: true, left: true, right: true, ..no_keys() };
    assert!(walk_axes(&keys).is_zero());
    assert!(!walk_axes(&forward()).is_zero());
}

#[test]
fn flight_float_and_boost() {
    let r = flight_step(FlightInput { boost: false, exit_tap: false, exit_armed: false });
    assert_eq!(r.state, PlayerState::Floating);
    assert_eq!(r.speed_mm_s, 20000);
    assert!(!r.stop);
    assert_eq!(r.exit_timer, TimerAction::Decay);
    let r = flight_step(FlightInput { boost: true, exit_tap: false, exit_armed: true });
    assert_eq!(r.state, PlayerState::Flying);
    assert_eq!(r.speed_mm_s, 60000);
    assert_eq!(r.exit_timer, TimerAction::Decay);
}

#[test]
fn flight_first_ctrl_tap_arms_exit() {
    let r = flight_step(FlightInput { boost: false, exit_tap: true, exit_armed: false });
    assert_eq!(r.state, PlayerState::Floating);
    assert_eq!(r.exit_timer, TimerAction::Arm);
    assert!(!r.stop);
}

#[test]
fn flight_second_ctrl_tap_exits() {
    let r = flight_step(FlightInput { boost: true, exit_tap: true, exit_armed: true });
    assert_eq!(r.state, PlayerState::Falling);
    assert!(r.stop);
    assert_eq!(r.exit_timer, TimerAction::Clear);
    assert_eq!(r.speed_mm_s, 60000);
}

#[test]
fn idle_walk_run() {
    let r = ground_step(PlayerState::Idle, on_ground());
    assert_eq!(r.state, PlayerState::Idle);
    assert!(r.grounded);
    assert_eq!(r.facing, Facing::Keep);
    assert_eq!(r.speed_mm_s, 5000);
    let r = ground_step(PlayerState::Idle, GroundInput { keys: forward(), ..on_ground() });
    assert_eq!(r.state, PlayerState::Walking);
    assert_eq!(r.facing, Facing::Movement);
    let r = ground_step(PlayerState::Walking, GroundInput { keys: forward(), sprint: true, ..on_ground() });
    assert_eq!(r.state, PlayerState::Running);
    assert_eq!(r.speed_mm_s, 10000);
    let r = ground_step(PlayerState::Running, GroundInput { sprint: true, ..on_ground() });
    assert_eq!(r.state, PlayerState::Idle);
}

#[test]
fn first_person_faces_camera() {
    let r = ground_step(PlayerState::Idle, GroundInput { camera: CameraMode::FPS, keys: forward(), ..on_ground() });
    assert_eq!(r.facing, Facing::Camera);
    let r = ground_step(PlayerState::Idle, GroundInput { camera: CameraMode::FPS, ..on_ground() });
    assert_eq!(r.facing, Facing::Camera);
}

#[test]
fn crouch_key_crouches() {
    let down = MoveKeys { down: true, ..no_keys() };
    let r = ground_step(PlayerState::Idle, GroundInput { keys: down, ..on_ground() });
    assert_eq!(r.state, PlayerState::CrouchIdle);
    assert_eq!(r.speed_mm_s, 5000);
    let down_fwd = MoveKeys { down: true, forward: true, ..no_keys() };
    let r = ground_step(PlayerState::Idle, GroundInput { keys: down_fwd, sprint: true, ..on_ground() });
    assert_eq!(r.state, PlayerState::CrouchWalking);
}

#[test]
fn low_ceiling_keeps_crouch() {
    let r = ground_step(PlayerState::CrouchIdle, GroundInput { headroom: false, keys: forward(), ..on_ground() });
    assert_eq!(r.state, PlayerState::CrouchWalking);
    let r = ground_step(PlayerState::CrouchWalking, GroundInput { headroom: false, ..on_ground() });
    assert_eq!(r.state, PlayerState::CrouchIdle);
    // with headroom the player stands up
    let r = ground_step(PlayerState::CrouchIdle, GroundInput { keys: forward(), ..on_ground() });
    assert_eq!(r.state, PlayerState::Walking);
    // a standing player under a low ceiling is not forced down
    let r = ground_step(PlayerState::Idle, GroundInput { headroom: false, ..on_ground() });
    assert_eq!(r.state, PlayerState::Idle);
}

#[test]
fn airborne_states() {
    let r = ground_step(PlayerState::Idle, GroundInput { ground_hit: false, sinking: true, ..on_ground() });
    assert!(!r.grounded);
    assert_eq!(r.state, PlayerState::Falling);
    assert_eq!(r.vertical, Vertical::Gravity { dive: false });
    // rising is never grounded, even when the probe hits
    let r = ground_step(PlayerState::Jumping, GroundInput { rising: true, ..on_ground() });
    assert!(!r.grounded);
    assert_eq!(r.state, PlayerState::Jumping);
}

#[test]
fn jump_from_ground() {
    let r = ground_step(PlayerState::Idle, GroundInput { jump_tap: true, ..on_ground() });
    assert!(r.just_jumped);
    assert_eq!(r.vertical, Vertical::Launch);
    assert_eq!(r.jump_timer, TimerAction::Arm);
    assert_eq!(r.state, PlayerState::Idle);
    assert!(!r.stop);
}

#[test]
fn no_jump_from_crouch() {
    let down = MoveKeys { down: true, ..no_keys() };
    let r = ground_step(PlayerState::Idle, GroundInput { jump_tap: true, keys: down, sinking: true, ..on_ground() });
    assert!(!r.just_jumped);
    assert_eq!(r.state, PlayerState::CrouchIdle);
    assert_eq!(r.vertical, Vertical::Land);
    assert_eq!(r.jump_timer, TimerAction::Decay);
}

#[test]
fn double_jump_starts_flight() {
    let input = GroundInput { jump_tap: true, rising: true, jump_armed: true, ..on_ground() };
    let r = ground_step(PlayerState::Jumping, input);
    assert_eq!(r.state, PlayerState::Floating);
    assert!(r.stop);
    assert_eq!(r.jump_timer, TimerAction::Clear);
    assert_eq!(r.vertical, Vertical::Gravity { dive: false });
    assert!(!r.just_jumped);
}

#[test]
fn late_second_tap_does_nothing() {
    let input = GroundInput { jump_tap: true, ground_hit: false, jump_armed: false, ..on_ground() };
    let r = ground_step(PlayerState::Falling, input);
    assert_eq!(r.state, PlayerState::Falling);
    assert!(!r.stop);
    assert_eq!(r.jump_timer, TimerAction::Decay);
}

#[test]
fn landing_stops_the_fall() {
    let r = ground_step(PlayerState::Falling, GroundInput { sinking: true, ..on_ground() });
    assert_eq!(r.vertical, Vertical::Land);
    assert_eq!(r.state, PlayerState::Idle);
    let r = ground_step(PlayerState::Idle, on_ground());
    assert_eq!(r.vertical, Vertical::Gravity { dive: false });
}

#[test]
fn dive_while_falling_with_shift() {
    let input = GroundInput { ground_hit: false, sinking: true, sprint: true, ..on_ground() };
    let r = ground_step(PlayerState::Falling, input);
    assert_eq!(r.vertical, Vertical::Gravity { dive: true });
    // rising with Shift is no dive
    let input = GroundInput { rising: true, sprint: true, ..on_ground() };
    let r = ground_step(PlayerState::Jumping, input);
    assert_eq!(r.vertical, Vertical::Gravity { dive: false });
}

#[test]
fn gravity_values() {
    assert_eq!(gravity_multiplier(true), 3);
    assert_eq!(gravity_multiplier(false), 1);
    assert_eq!(terminal_fall_speed_mm_s(true), -40000);
    assert_eq!(terminal_fall_speed_mm_s(false), -20000);
}

#[test]
fn ground_speeds() {
    assert_eq!(ground_speed_mm_s(PlayerState::Running), 10000);
    assert_eq!(ground_speed_mm_s(PlayerState::CrouchWalking), 5000);
    assert_eq!(ground_speed_mm_s(PlayerState::Walking), 5000);
}

#[test]
fn vertical_sweep_cases() {
    assert_eq!(vertical_sweep(true, true, false, false), SweepOutcome::Pass);
    assert_eq!(vertical_sweep(false, false, false, false), SweepOutcome::Pass);
    assert_eq!(vertical_sweep(false, true, true, true), SweepOutcome::Pass);
    assert_eq!(vertical_sweep(false, true, true, false), SweepOutcome::Blocked);
    assert_eq!(vertical_sweep(false, true, false, true), SweepOutcome::Blocked);
}

#[test]
fn horizontal_sweep_cases() {
    assert_eq!(horizontal_sweep(false, true, true), SweepOutcome::Stay);
    assert_eq!(horizontal_sweep(true, false, false), SweepOutcome::Stay);
    assert_eq!(horizontal_sweep(true, true, true), SweepOutcome::Blocked);
    assert_eq!(horizontal_sweep(true, true, false), SweepOutcome::Pass);
}

#[test]
fn flight_sweep_cases() {
    assert_eq!(flight_sweep(false, true), SweepOutcome::Pass);
    assert_eq!(flight_sweep(true, false), SweepOutcome::Pass);
    assert_eq!(flight_sweep(true, true), SweepOutcome::Blocked);
}

#[test]
fn falling_on_ground_resolves_to_idle() {
    // leaving flight on the ground sets Falling; the next frame on the ground is idle
    let r = ground_step(PlayerState::Falling, on_ground());
    assert!(r.grounded);
    assert_eq!(r.state, PlayerState::Idle);
}

#[test]
fn frame_start_with_flight_key() {
    let r = begin_frame(PlayerState::Walking, true);
    assert_eq!(r.state, PlayerState::Floating);
    assert!(r.stop);
    assert_eq!(r.regime, Regime::Flight);
    let r = begin_frame(PlayerState::Flying, true);
    assert_eq!(r.state, PlayerState::Falling);
    assert!(r.stop);
    assert_eq!(r.regime, Regime::Ground);
}

#[test]
fn frame_start_without_flight_key() {
    let r = begin_frame(PlayerState::Floating, false);
    assert_eq!(r.state, PlayerState::Floating);
    assert!(!r.stop);
    assert_eq!(r.regime, Regime::Flight);
    let r = begin_frame(PlayerState::CrouchIdle, false);
    assert_eq!(r.regime, Regime::Ground);
    assert_eq!(r.state, PlayerState::CrouchIdle);
}

use oasis_walk::posture::{
    center_shift_mm, collider_length_mm, ground_probe_mm, model_offset_mm, ColliderChange,
    CrouchTracker,
};
use oasis_walk::state::PlayerState;

#[test]
fn collider_lengths() {
    assert_eq!(collider_length_mm(PlayerState::Idle), 1200);
    assert_eq!(collider_length_mm(PlayerState::Floating), 1200);
    assert_eq!(collider_length_mm(PlayerState::CrouchIdle), 550);
    assert_eq!(collider_length_mm(PlayerState::CrouchWalking), 550);
}

#[test]
fn ground_probe_reach() {
    assert_eq!(ground_probe_mm(PlayerState::Walking), 950);
    assert_eq!(ground_probe_mm(PlayerState::CrouchIdle), 625);
}

#[test]
fn model_offsets() {
    assert_eq!(model_offset_mm(PlayerState::Idle), -900);
    assert_eq!(model_offset_mm(PlayerState::CrouchWalking), -575);
}

#[test]
fn center_shifts() {
    assert_eq!(center_shift_mm(ColliderChange::Shrink), -325);
    assert_eq!(center_shift_mm(ColliderChange::Grow), 325);
    assert_eq!(center_shift_mm(ColliderChange::Keep), 0);
}

#[test]
fn tracker_changes() {
    let mut t = CrouchTracker::new();
    assert!(!t.was_crouching);
    assert_eq!(t.update(PlayerState::Walking), ColliderChange::Keep);
    assert_eq!(t.update(PlayerState::CrouchIdle), ColliderChange::Shrink);
    assert!(t.was_crouching);
    assert_eq!(t.update(PlayerState::CrouchWalking), ColliderChange::Keep);
    assert_eq!(t.update(PlayerState::Running), ColliderChange::Grow);
    assert!(!t.was_crouching);
    assert_eq!(CrouchTracker::default(), CrouchTracker::new());
}

#[test]
fn crouching_keeps_feet() {
    // standing at centre 10 m: feet at 10 m - 0.9 m
    let center = 10000;
    let feet = center + model_offset_mm(PlayerState::Idle);
    let mut t = CrouchTracker::new();
    let c = t.update(PlayerState::CrouchIdle);
    let crouched = center + center_shift_mm(c);
    assert_eq!(crouched + model_offset_mm(PlayerState::CrouchIdle), feet);
    let c = t.update(PlayerState::Idle);
    let stood = crouched + center_shift_mm(c);
    assert_eq!(stood, center);
    assert_eq!(stood + model_offset_mm(PlayerState::Idle), feet);
}

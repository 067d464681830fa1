//! Fixed tuning values of the player and the camera, in integer milli-units.
use vstd::prelude::*;

verus! {

/// Radius of the player's capsule collider (mm).
pub const PLAYER_RADIUS_MM: i32 = 300;
/// Length of the capsule's straight part when standing (mm); total height is this plus two radii.
pub const PLAYER_HEIGHT_MM: i32 = 1200;
/// Length of the capsule's straight part when crouching (mm).
pub const PLAYER_CROUCH_HEIGHT_MM: i32 = 550;
/// Walking speed (mm/s).
pub const PLAYER_SPEED_MM_S: i32 = 5000;
/// Running speed (mm/s).
pub const PLAYER_DASH_SPEED_MM_S: i32 = 10000;
/// Crouch-walking speed (mm/s).
pub const PLAYER_CROUCH_SPEED_MM_S: i32 = 5000;
/// Upward speed given by a jump (mm/s).
pub const JUMP_VELOCITY_MM_S: i32 = 8000;
/// Eye height of the first-person camera above the player's centre (mm).
pub const CAMERA_FPS_HEIGHT_MM: i32 = 1600;
/// Camera height change while crouching (mm).
pub const CAMERA_CROUCH_OFFSET_MM: i32 = -1000;
/// Height of the third-person camera orbit above the player's centre (mm).
pub const CAMERA_TPS_HEIGHT_MM: i32 = 5000;
/// Gravity (mm/s^2).
pub const GRAVITY_MM_S2: i32 = -9800;
/// Terminal fall speed (mm/s).
pub const FALL_SPEED_MAX_MM_S: i32 = -20000;
/// Terminal fall speed while diving (mm/s).
pub const FALL_SPEED_DIVE_MAX_MM_S: i32 = -40000;
/// Gravity multiplier while diving.
pub const DIVE_GRAVITY_MULT: i32 = 3;
/// Flying speed (mm/s).
pub const PLAYER_FLY_SPEED_MM_S: i32 = 20000;
/// Flying speed multiplier while boosting.
pub const FLY_BOOST_MULT: i32 = 3;
/// Cross-fade time between two animations (ms).
pub const ANIM_TRANSITION_MS: u64 = 20;
/// Time after a jump during which a second tap of the jump key starts flight (ms).
pub const DOUBLE_JUMP_WINDOW_MS: i32 = 1000;
/// Time after a tap of the descend key during which a second tap ends flight (ms).
pub const FLIGHT_EXIT_WINDOW_MS: i32 = 1000;
/// Extra reach of the downward ground probe below the capsule (mm).
pub const GROUND_PROBE_MARGIN_MM: i32 = 50;

/// The double-jump window outlasts the rise of a jump: the time to the apex,
/// jump speed over gravity (816 ms), is shorter than the window, so the second
/// tap can come at any point of the rise.
pub proof fn lemma_double_jump_window_covers_apex()
    ensures
        JUMP_VELOCITY_MM_S * 1000 < DOUBLE_JUMP_WINDOW_MS * (-GRAVITY_MM_S2),
{
}

} // verus!

//! The per-frame movement rules of the player: keys to axes, the ground state
//! machine, jumping and the double jump into flight, gravity and diving, flight,
//! and what to do with the results of the collision casts.
use vstd::prelude::*;
use crate::state::{PlayerState, is_crouch, is_flight, is_airborne, flight_toggled, toggle_flight};
use crate::camera::CameraMode;
use crate::tuning::{
    PLAYER_SPEED_MM_S, PLAYER_DASH_SPEED_MM_S, PLAYER_CROUCH_SPEED_MM_S, PLAYER_FLY_SPEED_MM_S,
    FLY_BOOST_MULT, DIVE_GRAVITY_MULT, FALL_SPEED_MAX_MM_S, FALL_SPEED_DIVE_MAX_MM_S,
};

verus! {

/// The movement keys held this frame.
#[derive(Clone, Copy, Debug, PartialEq, Eq, Structural)]
pub struct MoveKeys {
    /// W: forward (-z).
    pub forward: bool,
    /// S: back (+z).
    pub back: bool,
    /// A: left (-x).
    pub left: bool,
    /// D: right (+x).
    pub right: bool,
    /// Space: up in flight (+y).
    pub up: bool,
    /// Left Ctrl: down in flight (-y); crouch on the ground.
    pub down: bool,
}

/// A direction made of key axes, each -1, 0 or 1, before it is normalised and
/// turned by the camera.
#[derive(Clone, Copy, Debug, PartialEq, Eq, Structural)]
pub struct Axes {
    pub x: i8,
    pub y: i8,
    pub z: i8,
}

/// A pair of opposite keys as one axis: 1 for the positive key alone, -1 for the
/// negative key alone, 0 for neither or both.
pub open spec fn axis_value(neg: bool, pos: bool) -> int {
    (if pos { 1int } else { 0int }) - (if neg { 1int } else { 0int })
}

/// Whether the walking keys give a direction at all.
pub open spec fn has_walk_input(keys: MoveKeys) -> bool {
    axis_value(keys.left, keys.right) != 0 || axis_value(keys.forward, keys.back) != 0
}

/// One axis from a pair of opposite keys.
pub fn key_axis(neg: bool, pos: bool) -> (a: i8)
    ensures
        a == axis_value(neg, pos),
{
    let mut a: i8 = 0;
    if pos {
        a = a + 1;
    }
    if neg {
        a = a - 1;
    }
    a
}

/// The walking direction: A/D on x, W/S on z, nothing on y.
pub fn walk_axes(keys: &MoveKeys) -> (a: Axes)
    ensures
        a.x == axis_value(keys.left, keys.right),
        a.y == 0,
        a.z == axis_value(keys.forward, keys.back),
{
    Axes { x: key_axis(keys.left, keys.right), y: 0, z: key_axis(keys.forward, keys.back) }
}

/// The flying direction: as walking, plus Space/Ctrl on y.
pub fn fly_axes(keys: &MoveKeys) -> (a: Axes)
    ensures
        a.x == axis_value(keys.left, keys.right),
        a.y == axis_value(keys.down, keys.up),
        a.z == axis_value(keys.forward, keys.back),
{
    Axes {
        x: key_axis(keys.left, keys.right),
        y: key_axis(keys.down, keys.up),
        z: key_axis(keys.forward, keys.back),
    }
}

impl Axes {
    /// Whether the direction is zero (no key, or only opposite keys).
    pub fn is_zero(&self) -> (r: bool)
        ensures
            r == (self.x == 0 && self.y == 0 && self.z == 0),
    {
        self.x == 0 && self.y == 0 && self.z == 0
    }
}

/// What a countdown timer (double jump, flight exit) does this frame.
#[derive(Clone, Copy, Debug, PartialEq, Eq, Structural)]
pub enum TimerAction {
    /// Start the window: set the timer to its full length.
    Arm,
    /// Stop the window: set the timer to zero.
    Clear,
    /// Let time pass: subtract the frame time, not below zero.
    Decay,
}

/// An axis is 1 for the positive key alone, -1 for the negative key alone, and 0
/// when both or neither are held.
pub proof fn lemma_axis_values(neg: bool, pos: bool)
    ensures
        pos && !neg ==> axis_value(neg, pos) == 1,
        neg && !pos ==> axis_value(neg, pos) == -1,
        neg == pos ==> axis_value(neg, pos) == 0,
        axis_value(neg, pos) == -axis_value(pos, neg),
{
}

// ---------------------------------------------------------------------------
// Start of a frame
// ---------------------------------------------------------------------------

/// Which set of rules moves the player this frame.
#[derive(Clone, Copy, Debug, PartialEq, Eq, Structural)]
pub enum Regime {
    /// The flight rules (`flight_step`).
    Flight,
    /// The rules on foot (`ground_step`).
    Ground,
}

/// The start of a frame: the state after the flight key, whether the player is
/// stopped by it, and which rules apply.
#[derive(Clone, Copy, Debug, PartialEq, Eq, Structural)]
pub struct FrameStart {
    pub state: PlayerState,
    /// Zero the player's velocity (the flight key was pressed, either way).
    pub stop: bool,
    pub regime: Regime,
}

/// The start of a frame: the flight key toggles flight and stops the player; then a
/// player in flight follows the flight rules, any other the rules on foot.
pub fn begin_frame(state: PlayerState, flight_key: bool) -> (r: FrameStart)
    ensures
        r.state == (if flight_key { flight_toggled(state) } else { state }),
        r.stop == flight_key,
        r.regime == (if is_flight(r.state) { Regime::Flight } else { Regime::Ground }),
        // the flight key always changes the rules that apply
        flight_key ==> ((r.regime == Regime::Flight) != is_flight(state)),
{
    let next = if flight_key {
        toggle_flight(state)
    } else {
        state
    };
    let regime = if next.is_flying() {
        Regime::Flight
    } else {
        Regime::Ground
    };
    FrameStart { state: next, stop: flight_key, regime }
}

// ---------------------------------------------------------------------------
// Flight
// ---------------------------------------------------------------------------

/// The inputs of a frame in flight.
#[derive(Clone, Copy, Debug, PartialEq, Eq, Structural)]
pub struct FlightInput {
    /// Left Shift held: fly fast.
    pub boost: bool,
    /// Left Ctrl pressed this frame.
    pub exit_tap: bool,
    /// The flight-exit timer is still running (above zero).
    pub exit_armed: bool,
}

/// The decisions of a frame in flight.
#[derive(Clone, Copy, Debug, PartialEq, Eq, Structural)]
pub struct FlightStep {
    /// The state after the frame.
    pub state: PlayerState,
    /// The flying speed used for this frame's move (mm/s).
    pub speed_mm_s: i32,
    /// Zero the player's velocity (flight was left).
    pub stop: bool,
    /// What the flight-exit timer does.
    pub exit_timer: TimerAction,
}

/// Whether this flight frame ends flight: a second Ctrl tap inside the window.
pub open spec fn leaves_flight(input: FlightInput) -> bool {
    input.exit_tap && input.exit_armed
}

/// One frame in flight: Shift selects flying fast over floating; a Ctrl tap arms
/// the exit window, and a second tap inside it drops the player out of flight.
pub fn flight_step(input: FlightInput) -> (r: FlightStep)
    ensures
        r.state == (if leaves_flight(input) {
            PlayerState::Falling
        } else if input.boost {
            PlayerState::Flying
        } else {
            PlayerState::Floating
        }),
        r.speed_mm_s == PLAYER_FLY_SPEED_MM_S * (if input.boost { FLY_BOOST_MULT as int } else { 1int }),
        r.stop == leaves_flight(input),
        r.exit_timer == (if !input.exit_tap {
            TimerAction::Decay
        } else if input.exit_armed {
            TimerAction::Clear
        } else {
            TimerAction::Arm
        }),
        // flight goes on unless the exit was confirmed
        is_flight(r.state) == !leaves_flight(input),
        // a second Ctrl tap inside the window ends flight, with or without Shift
        input.exit_tap && input.exit_armed ==> r.state == PlayerState::Falling && r.stop
            && r.exit_timer == TimerAction::Clear,
        // otherwise the player stays in flight, fast exactly when Shift is held
        !(input.exit_tap && input.exit_armed) ==> !r.stop && (r.state == PlayerState::Flying
            <==> input.boost) && (r.state == PlayerState::Floating <==> !input.boost),
        r.speed_mm_s == (if input.boost { 60000int } else { 20000int }),
{
    let mut state;
    let speed: i32;
    if input.boost {
        state = PlayerState::Flying;
        speed = PLAYER_FLY_SPEED_MM_S * FLY_BOOST_MULT;
    } else {
        state = PlayerState::Floating;
        speed = PLAYER_FLY_SPEED_MM_S;
    }
    let mut stop = false;
    let exit_timer;
    if input.exit_tap {
        if input.exit_armed {
            state = PlayerState::Falling;
            stop = true;
            exit_timer = TimerAction::Clear;
        } else {
            exit_timer = TimerAction::Arm;
        }
    } else {
        exit_timer = TimerAction::Decay;
    }
    FlightStep { state, speed_mm_s: speed, stop, exit_timer }
}

// ---------------------------------------------------------------------------
// Ground
// ---------------------------------------------------------------------------

/// The inputs of a frame on foot (not in flight).
#[derive(Clone, Copy, Debug, PartialEq, Eq, Structural)]
pub struct GroundInput {
    /// The camera mode (first person turns the player with the camera).
    pub camera: CameraMode,
    /// The movement keys held; `down` (Left Ctrl) is the crouch key here.
    pub keys: MoveKeys,
    /// Left Shift held: run, or dive while falling.
    pub sprint: bool,
    /// Space pressed this frame.
    pub jump_tap: bool,
    /// The vertical velocity at the start of the frame is above zero.
    pub rising: bool,
    /// The vertical velocity at the start of the frame is below zero.
    pub sinking: bool,
    /// The downward ground probe hit something (only looked at when not rising).
    pub ground_hit: bool,
    /// There is room above the player to stand up.
    pub headroom: bool,
    /// The double-jump timer is still running (above zero).
    pub jump_armed: bool,
}

/// Which way the player model turns this frame.
#[derive(Clone, Copy, Debug, PartialEq, Eq, Structural)]
pub enum Facing {
    /// Turn to face away from the camera (first person).
    Camera,
    /// Turn towards the movement direction.
    Movement,
    /// Keep the current rotation.
    Keep,
}

/// What happens to the vertical velocity this frame.
#[derive(Clone, Copy, Debug, PartialEq, Eq, Structural)]
pub enum Vertical {
    /// A jump: set the vertical velocity to the jump velocity; no gravity this frame.
    Launch,
    /// Standing on the ground while moving down: set the vertical velocity to zero.
    Land,
    /// Apply gravity, stronger and with a higher terminal speed when diving.
    Gravity { dive: bool },
}

/// The decisions of a frame on foot.
#[derive(Clone, Copy, Debug, PartialEq, Eq, Structural)]
pub struct GroundStep {
    /// The state after the frame.
    pub state: PlayerState,
    /// Standing on the ground: steer with the keys; otherwise air drag.
    pub grounded: bool,
    /// How the model turns.
    pub facing: Facing,
    /// The steering speed (mm/s), used when grounded.
    pub speed_mm_s: i32,
    /// Zero the whole velocity (after steering or drag): the double jump into flight.
    pub stop: bool,
    /// What happens to the vertical velocity (after `stop`).
    pub vertical: Vertical,
    /// What the double-jump timer does.
    pub jump_timer: TimerAction,
    /// A jump starts this frame (the vertical sweep is skipped).
    pub just_jumped: bool,
}

/// On the ground: the probe hit and the player is not rising.
pub open spec fn is_grounded(input: GroundInput) -> bool {
    !input.rising && input.ground_hit
}

/// The state that the ground rules pick before the jump key is looked at: in the
/// air, jumping while rising and falling otherwise; on the ground, crouching while
/// the crouch key is held or while the ceiling is too low to stand up from a
/// crouch; else running (Shift), walking or idle by the keys.
pub open spec fn settled_state(prev: PlayerState, input: GroundInput) -> PlayerState {
    let moving = has_walk_input(input.keys);
    if !is_grounded(input) {
        if input.rising {
            PlayerState::Jumping
        } else {
            PlayerState::Falling
        }
    } else if input.keys.down || (is_crouch(prev) && !input.headroom) {
        if moving {
            PlayerState::CrouchWalking
        } else {
            PlayerState::CrouchIdle
        }
    } else if input.sprint && moving {
        PlayerState::Running
    } else if moving {
        PlayerState::Walking
    } else {
        PlayerState::Idle
    }
}

/// The steering speed of a state (mm/s).
pub open spec fn ground_speed(s: PlayerState) -> int {
    if s == PlayerState::Running {
        PLAYER_DASH_SPEED_MM_S as int
    } else if is_crouch(s) {
        PLAYER_CROUCH_SPEED_MM_S as int
    } else {
        PLAYER_SPEED_MM_S as int
    }
}

/// A jump starts: Space pressed, on the ground, not crouching.
pub open spec fn launches(prev: PlayerState, input: GroundInput) -> bool {
    input.jump_tap && is_grounded(input) && !is_crouch(settled_state(prev, input))
}

/// A second Space tap in the air inside the double-jump window: flight starts.
pub open spec fn double_jumps(input: GroundInput) -> bool {
    input.jump_tap && !is_grounded(input) && input.jump_armed
}

/// The steering speed of a state (mm/s).
pub fn ground_speed_mm_s(state: PlayerState) -> (v: i32)
    ensures
        v == ground_speed(state),
{
    match state {
        PlayerState::Running => PLAYER_DASH_SPEED_MM_S,
        PlayerState::CrouchIdle | PlayerState::CrouchWalking => PLAYER_CROUCH_SPEED_MM_S,
        _ => PLAYER_SPEED_MM_S,
    }
}

/// One frame on foot from the previous state: the new state, steering, jumping,
/// the double jump into flight, and gravity.
pub fn ground_step(prev: PlayerState, input: GroundInput) -> (r: GroundStep)
    ensures
        r.grounded == is_grounded(input),
        r.state == (if double_jumps(input) {
            PlayerState::Floating
        } else {
            settled_state(prev, input)
        }),
        r.facing == (if input.camera == CameraMode::FPS {
            Facing::Camera
        } else if has_walk_input(input.keys) {
            Facing::Movement
        } else {
            Facing::Keep
        }),
        r.speed_mm_s == ground_speed(settled_state(prev, input)),
        r.stop == double_jumps(input),
        r.just_jumped == launches(prev, input),
        r.jump_timer == (if launches(prev, input) {
            TimerAction::Arm
        } else if double_jumps(input) {
            TimerAction::Clear
        } else {
            TimerAction::Decay
        }),
        r.vertical == (if launches(prev, input) {
            Vertical::Launch
        } else if is_grounded(input) && input.sinking {
            Vertical::Land
        } else {
            Vertical::Gravity { dive: r.state == PlayerState::Falling && input.sprint }
        }),
        // never grounded while rising
        input.rising ==> !r.grounded,
        // in the air without a double jump, the state tells rising from falling
        !r.grounded && !r.stop ==> is_airborne(r.state) && (r.state == PlayerState::Jumping
            <==> input.rising),
        // on the ground the player is neither in the air nor in flight
        r.grounded ==> !is_airborne(r.state) && !is_flight(r.state),
        // a crouch under a low ceiling goes on
        r.grounded && is_crouch(prev) && !input.headroom ==> is_crouch(r.state),
        // jumps start only from the ground and never from a crouch
        r.just_jumped ==> r.grounded && !is_crouch(r.state),
        // the ground rules reach flight only through the double jump
        is_flight(r.state) ==> r.state == PlayerState::Floating && r.stop,
        // the rules in terms of the raw inputs: on the ground means the probe hit and
        // the player is not rising; moving means a walk axis is not cancelled out
        ({
            let on_ground = !input.rising && input.ground_hit;
            let moving = input.keys.left != input.keys.right || input.keys.forward
                != input.keys.back;
            let crouch_hold = input.keys.down || ((prev == PlayerState::CrouchIdle || prev
                == PlayerState::CrouchWalking) && !input.headroom);
            let crouched = r.state == PlayerState::CrouchIdle || r.state
                == PlayerState::CrouchWalking;
            &&& r.grounded == on_ground
            // Space on the ground jumps from any state but a crouch, whatever keys are held
            &&& (on_ground && input.jump_tap && !crouched) ==> (r.just_jumped && r.vertical
                == Vertical::Launch && r.jump_timer == TimerAction::Arm && !r.stop)
            &&& r.just_jumped ==> input.jump_tap && on_ground && !crouched
            // in the air, a second Space tap inside the window starts floating
            &&& (!on_ground && input.jump_tap && input.jump_armed) ==> (r.state
                == PlayerState::Floating && r.stop && r.jump_timer == TimerAction::Clear
                && !r.just_jumped)
            &&& (!on_ground && !(input.jump_tap && input.jump_armed)) ==> (!r.stop && r.state
                == (if input.rising { PlayerState::Jumping } else { PlayerState::Falling }))
            &&& (on_ground && crouch_hold) ==> r.state == (if moving {
                PlayerState::CrouchWalking
            } else {
                PlayerState::CrouchIdle
            })
            &&& (on_ground && !crouch_hold) ==> r.state == (if !moving {
                PlayerState::Idle
            } else if input.sprint {
                PlayerState::Running
            } else {
                PlayerState::Walking
            })
            // landing stops a descent on the ground unless a jump starts
            &&& (on_ground && input.sinking && !r.just_jumped) ==> r.vertical == Vertical::Land
            // a dive is Shift held while falling
            &&& r.vertical is Gravity ==> r.vertical == Vertical::Gravity {
                dive: r.state == PlayerState::Falling && input.sprint,
            }
            &&& !r.just_jumped && !(on_ground && input.sinking) ==> r.vertical is Gravity
            // steering speed: running fast, otherwise the walking speed
            &&& !r.stop ==> r.speed_mm_s == (if r.state == PlayerState::Running {
                10000int
            } else {
                5000int
            })
            &&& r.facing == (if input.camera == CameraMode::FPS {
                Facing::Camera
            } else if moving {
                Facing::Movement
            } else {
                Facing::Keep
            })
        }),
{
    let grounded = !input.rising && input.ground_hit;
    let walk = walk_axes(&input.keys);
    let moving = !walk.is_zero();
    let crouching = input.keys.down && grounded;

    let settled = if !grounded {
        if input.rising {
            PlayerState::Jumping
        } else {
            PlayerState::Falling
        }
    } else if crouching {
        if moving {
            PlayerState::CrouchWalking
        } else {
            PlayerState::CrouchIdle
        }
    } else if prev.is_crouching() && !input.headroom {
        if moving {
            PlayerState::CrouchWalking
        } else {
            PlayerState::CrouchIdle
        }
    } else if input.sprint && moving {
        PlayerState::Running
    } else if moving {
        PlayerState::Walking
    } else {
        PlayerState::Idle
    };

    let facing = match input.camera {
        CameraMode::FPS => Facing::Camera,
        CameraMode::TPS => if moving {
            Facing::Movement
        } else {
            Facing::Keep
        },
    };

    let speed: i32 = ground_speed_mm_s(settled);

    let just_jumped = input.jump_tap && grounded && !settled.is_crouching();
    let mut state = settled;
    let mut stop = false;
    let jump_timer;
    if just_jumped {
        jump_timer = TimerAction::Arm;
    } else if input.jump_tap && !grounded && input.jump_armed {
        state = PlayerState::Floating;
        stop = true;
        jump_timer = TimerAction::Clear;
    } else {
        jump_timer = TimerAction::Decay;
    }

    let vertical = if just_jumped {
        Vertical::Launch
    } else if grounded && input.sinking {
        Vertical::Land
    } else {
        let dive = match state {
            PlayerState::Falling => input.sprint,
            _ => false,
        };
        Vertical::Gravity { dive }
    };

    GroundStep { state, grounded, facing, speed_mm_s: speed, stop, vertical, jump_timer, just_jumped }
}

/// The gravity multiplier: stronger while diving.
pub fn gravity_multiplier(dive: bool) -> (m: i32)
    ensures
        m == (if dive { DIVE_GRAVITY_MULT as int } else { 1int }),
{
    if dive {
        DIVE_GRAVITY_MULT
    } else {
        1
    }
}

/// The terminal fall speed (mm/s, negative): faster while diving.
pub fn terminal_fall_speed_mm_s(dive: bool) -> (v: i32)
    ensures
        v == (if dive { FALL_SPEED_DIVE_MAX_MM_S as int } else { FALL_SPEED_MAX_MM_S as int }),
{
    if dive {
        FALL_SPEED_DIVE_MAX_MM_S
    } else {
        FALL_SPEED_MAX_MM_S
    }
}

/// Flight ends exactly on a second Ctrl tap inside the exit window; Shift plays no
/// part in it.
pub proof fn lemma_double_ctrl_leaves_flight(input: FlightInput)
    ensures
        leaves_flight(input) <==> (input.exit_tap && input.exit_armed),
        leaves_flight(input) == leaves_flight(FlightInput { boost: !input.boost, ..input }),
{
}

/// Jumping does not depend on the movement keys: two frames on the ground that
/// differ only in the keys held, neither ending in a crouch, both jump on Space.
pub proof fn lemma_jump_ignores_walk_keys(prev: PlayerState, a: GroundInput, b: GroundInput)
    requires
        a.jump_tap,
        !a.rising && a.ground_hit,
        b == (GroundInput { keys: b.keys, ..a }),
        !a.keys.down && !b.keys.down,
        !(is_crouch(prev) && !a.headroom),
    ensures
        launches(prev, a) && launches(prev, b),
{
}

// ---------------------------------------------------------------------------
// Collision casts
// ---------------------------------------------------------------------------

/// What to do with a shape cast along the planned move.
#[derive(Clone, Copy, Debug, PartialEq, Eq, Structural)]
pub enum SweepOutcome {
    /// Do not move along this part.
    Stay,
    /// Move the whole planned distance.
    Pass,
    /// Stop at the obstacle (and, sideways, slide along it).
    Blocked,
}

/// The vertical part of a move on foot. A jump frame moves freely (the cast would
/// report contact at distance zero); an upward cast that touches something at its
/// start is ignored; any other hit stops the player at the obstacle and zeroes the
/// vertical velocity.
pub fn vertical_sweep(just_jumped: bool, hit: bool, upward: bool, touching: bool) -> (o: SweepOutcome)
    ensures
        o == (if just_jumped || !hit || (upward && touching) {
            SweepOutcome::Pass
        } else {
            SweepOutcome::Blocked
        }),
{
    if just_jumped {
        SweepOutcome::Pass
    } else if hit {
        if upward && touching {
            SweepOutcome::Pass
        } else {
            SweepOutcome::Blocked
        }
    } else {
        SweepOutcome::Pass
    }
}

/// The horizontal part of a move on foot: no horizontal movement or no valid
/// direction means no move; a hit slides along the wall; otherwise the whole move.
pub fn horizontal_sweep(moving: bool, direction_valid: bool, hit: bool) -> (o: SweepOutcome)
    ensures
        o == (if !moving || !direction_valid {
            SweepOutcome::Stay
        } else if hit {
            SweepOutcome::Blocked
        } else {
            SweepOutcome::Pass
        }),
{
    if !moving || !direction_valid {
        SweepOutcome::Stay
    } else if hit {
        SweepOutcome::Blocked
    } else {
        SweepOutcome::Pass
    }
}

/// A move in flight: without a valid direction or without a hit the whole move is
/// made; a hit moves up to the obstacle and slides the rest along it.
pub fn flight_sweep(direction_valid: bool, hit: bool) -> (o: SweepOutcome)
    ensures
        o == (if direction_valid && hit { SweepOutcome::Blocked } else { SweepOutcome::Pass }),
{
    if direction_valid && hit {
        SweepOutcome::Blocked
    } else {
        SweepOutcome::Pass
    }
}

} // verus!

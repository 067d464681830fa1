//! The player's states and the flight toggle.
use vstd::prelude::*;

verus! {

/// What the player is doing; it selects the animation, the collider and the movement rules.
#[derive(Clone, Copy, Debug, PartialEq, Eq, Structural)]
pub enum PlayerState {
    Idle,
    Walking,
    Running,
    Jumping,
    Falling,
    CrouchIdle,
    CrouchWalking,
    Floating,
    Flying,
}

impl Default for PlayerState {
    fn default() -> (s: PlayerState)
        ensures
            s == PlayerState::Idle,
    {
        PlayerState::Idle
    }
}

/// The two crouching states.
pub open spec fn is_crouch(s: PlayerState) -> bool {
    s == PlayerState::CrouchIdle || s == PlayerState::CrouchWalking
}

/// The two flight states.
pub open spec fn is_flight(s: PlayerState) -> bool {
    s == PlayerState::Floating || s == PlayerState::Flying
}

/// The two states of a player in the air without flight.
pub open spec fn is_airborne(s: PlayerState) -> bool {
    s == PlayerState::Jumping || s == PlayerState::Falling
}

/// The state that the flight key leads to: out of flight the player starts to
/// float; in flight the player drops out of it and falls.
pub open spec fn flight_toggled(s: PlayerState) -> PlayerState {
    if is_flight(s) {
        PlayerState::Falling
    } else {
        PlayerState::Floating
    }
}

impl PlayerState {
    /// Whether the player crouches (and so uses the short collider).
    pub fn is_crouching(&self) -> (r: bool)
        ensures
            r == is_crouch(*self),
    {
        match self {
            PlayerState::CrouchIdle | PlayerState::CrouchWalking => true,
            _ => false,
        }
    }

    /// Whether the player is in flight.
    pub fn is_flying(&self) -> (r: bool)
        ensures
            r == is_flight(*self),
    {
        match self {
            PlayerState::Floating | PlayerState::Flying => true,
            _ => false,
        }
    }
}

/// The flight key: enter flight (floating), or leave it (falling). The caller
/// also stops the player, whichever way the key went.
pub fn toggle_flight(state: PlayerState) -> (next: PlayerState)
    ensures
        next == flight_toggled(state),
        (state == PlayerState::Floating || state == PlayerState::Flying) ==> next
            == PlayerState::Falling,
        !(state == PlayerState::Floating || state == PlayerState::Flying) ==> next
            == PlayerState::Floating,
{
    if state.is_flying() {
        PlayerState::Falling
    } else {
        PlayerState::Floating
    }
}

/// The flight key always switches between flight and the other states.
pub proof fn lemma_flight_toggle_switches(s: PlayerState)
    ensures
        is_flight(flight_toggled(s)) != is_flight(s),
{
}

} // verus!

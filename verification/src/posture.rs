//! The player's collider for standing and crouching, the ground probe, the model
//! offset, and the switch of collider when the player crouches or stands up.
use vstd::prelude::*;
use crate::state::{PlayerState, is_crouch};
use crate::tuning::{PLAYER_RADIUS_MM, PLAYER_HEIGHT_MM, PLAYER_CROUCH_HEIGHT_MM, GROUND_PROBE_MARGIN_MM};

verus! {

/// Length of the capsule's straight part for a state (mm).
pub open spec fn collider_length(s: PlayerState) -> int {
    if is_crouch(s) {
        PLAYER_CROUCH_HEIGHT_MM as int
    } else {
        PLAYER_HEIGHT_MM as int
    }
}

/// Distance from the capsule's centre to its bottom (mm).
pub open spec fn half_extent(s: PlayerState) -> int {
    collider_length(s) / 2 + PLAYER_RADIUS_MM
}

/// Height of the capsule's bottom for a centre height (mm).
pub open spec fn feet_level(center_y: int, s: PlayerState) -> int {
    center_y - half_extent(s)
}

/// Length of the capsule's straight part for a state (mm): short while crouching.
pub fn collider_length_mm(state: PlayerState) -> (l: i32)
    ensures
        l == collider_length(state),
        l == (if state == PlayerState::CrouchIdle || state == PlayerState::CrouchWalking {
            550int
        } else {
            1200int
        }),
{
    if state.is_crouching() {
        PLAYER_CROUCH_HEIGHT_MM
    } else {
        PLAYER_HEIGHT_MM
    }
}

/// Reach of the downward ground probe from the capsule's centre (mm): to the
/// bottom of the capsule and a small margin beyond.
pub fn ground_probe_mm(state: PlayerState) -> (d: i32)
    ensures
        d == half_extent(state) + GROUND_PROBE_MARGIN_MM,
        d == (if state == PlayerState::CrouchIdle || state == PlayerState::CrouchWalking {
            625int
        } else {
            950int
        }),
{
    collider_length_mm(state) / 2 + PLAYER_RADIUS_MM + GROUND_PROBE_MARGIN_MM
}

/// Vertical offset of the visible model below the capsule's centre (mm): the model's
/// origin is at its feet, so it sits at the capsule's bottom.
pub fn model_offset_mm(state: PlayerState) -> (y: i32)
    ensures
        y == -half_extent(state),
        y == (if state == PlayerState::CrouchIdle || state == PlayerState::CrouchWalking {
            -575int
        } else {
            -900int
        }),
{
    -(collider_length_mm(state) / 2 + PLAYER_RADIUS_MM)
}

/// A change of collider when the state changes.
#[derive(Clone, Copy, Debug, PartialEq, Eq, Structural)]
pub enum ColliderChange {
    /// Standing to crouching: the short capsule, centre lowered.
    Shrink,
    /// Crouching to standing: the tall capsule, centre raised.
    Grow,
    /// No change.
    Keep,
}

/// The change of collider from a posture (crouching or not) to a state.
pub open spec fn collider_change(was_crouching: bool, s: PlayerState) -> ColliderChange {
    if is_crouch(s) && !was_crouching {
        ColliderChange::Shrink
    } else if !is_crouch(s) && was_crouching {
        ColliderChange::Grow
    } else {
        ColliderChange::Keep
    }
}

/// How far the capsule's centre moves with a change (mm).
pub open spec fn center_shift(c: ColliderChange) -> int {
    match c {
        ColliderChange::Shrink => -((PLAYER_HEIGHT_MM - PLAYER_CROUCH_HEIGHT_MM) / 2),
        ColliderChange::Grow => (PLAYER_HEIGHT_MM - PLAYER_CROUCH_HEIGHT_MM) / 2,
        ColliderChange::Keep => 0,
    }
}

/// How far the capsule's centre moves with a change (mm): half the difference of
/// the two lengths, down when shrinking and up when growing.
pub fn center_shift_mm(c: ColliderChange) -> (d: i32)
    ensures
        d == center_shift(c),
        d == (match c {
            ColliderChange::Shrink => -325int,
            ColliderChange::Grow => 325int,
            ColliderChange::Keep => 0int,
        }),
{
    match c {
        ColliderChange::Shrink => -((PLAYER_HEIGHT_MM - PLAYER_CROUCH_HEIGHT_MM) / 2),
        ColliderChange::Grow => (PLAYER_HEIGHT_MM - PLAYER_CROUCH_HEIGHT_MM) / 2,
        ColliderChange::Keep => 0,
    }
}

/// Remembers whether the collider is the crouching one, across frames.
#[derive(Clone, Copy, Debug, PartialEq, Eq, Structural)]
pub struct CrouchTracker {
    pub was_crouching: bool,
}

impl Default for CrouchTracker {
    fn default() -> (t: CrouchTracker)
        ensures
            !t.was_crouching,
    {
        CrouchTracker { was_crouching: false }
    }
}

impl CrouchTracker {
    /// A tracker for a player that starts standing.
    pub fn new() -> (t: CrouchTracker)
        ensures
            !t.was_crouching,
    {
        CrouchTracker { was_crouching: false }
    }

    /// The player's state changed: say how the collider changes, and remember the
    /// new posture.
    pub fn update(&mut self, state: PlayerState) -> (c: ColliderChange)
        ensures
            c == collider_change(old(self).was_crouching, state),
            final(self).was_crouching == is_crouch(state),
            // shrink on entering a crouch, grow on leaving one, else keep
            ({
                let now = state == PlayerState::CrouchIdle || state == PlayerState::CrouchWalking;
                let was = old(self).was_crouching;
                &&& (c == ColliderChange::Shrink <==> (now && !was))
                &&& (c == ColliderChange::Grow <==> (!now && was))
                &&& (c == ColliderChange::Keep <==> (now == was))
            }),
    {
        let crouching = state.is_crouching();
        let change = if crouching && !self.was_crouching {
            ColliderChange::Shrink
        } else if !crouching && self.was_crouching {
            ColliderChange::Grow
        } else {
            ColliderChange::Keep
        };
        self.was_crouching = crouching;
        change
    }
}

/// Crouching and standing up keep the player's feet where they were: after the
/// collider change from the previous posture, the new capsule's bottom is at the
/// height of the old capsule's bottom.
pub proof fn lemma_collider_change_keeps_feet(center_y: int, prev: PlayerState, next: PlayerState)
    ensures
        feet_level(center_y + center_shift(collider_change(is_crouch(prev), next)), next)
            == feet_level(center_y, prev),
{
}

/// Crouching and then standing up puts the capsule's centre back where it was.
pub proof fn lemma_shrink_then_grow(center_y: int)
    ensures
        center_y + center_shift(ColliderChange::Shrink) + center_shift(ColliderChange::Grow)
            == center_y,
{
}

} // verus!

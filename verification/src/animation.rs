//! Which animation plays for which state, and when to switch.
use vstd::prelude::*;
use crate::state::PlayerState;
use crate::tuning::ANIM_TRANSITION_MS;

verus! {

/// The index of a state's clip among the animations of the player's model file.
pub open spec fn clip_index(s: PlayerState) -> nat {
    match s {
        PlayerState::Idle => 0,
        PlayerState::Jumping => 1,
        PlayerState::Walking => 2,
        PlayerState::CrouchIdle => 3,
        PlayerState::CrouchWalking => 4,
        PlayerState::Running => 5,
        PlayerState::Floating => 6,
        PlayerState::Flying => 7,
        PlayerState::Falling => 8,
    }
}

/// The index of a state's clip among the animations of the player's model file.
pub fn animation_asset_index(state: PlayerState) -> (i: u32)
    ensures
        i == clip_index(state),
        // the clips in the order the model file holds them
        state == PlayerState::Idle ==> i == 0,
        state == PlayerState::Jumping ==> i == 1,
        state == PlayerState::Walking ==> i == 2,
        state == PlayerState::CrouchIdle ==> i == 3,
        state == PlayerState::CrouchWalking ==> i == 4,
        state == PlayerState::Running ==> i == 5,
        state == PlayerState::Floating ==> i == 6,
        state == PlayerState::Flying ==> i == 7,
        state == PlayerState::Falling ==> i == 8,
{
    match state {
        PlayerState::Idle => 0,
        PlayerState::Jumping => 1,
        PlayerState::Walking => 2,
        PlayerState::CrouchIdle => 3,
        PlayerState::CrouchWalking => 4,
        PlayerState::Running => 5,
        PlayerState::Floating => 6,
        PlayerState::Flying => 7,
        PlayerState::Falling => 8,
    }
}

/// Each state has a clip of its own, among the model's nine clips.
pub proof fn lemma_clips_distinct(a: PlayerState, b: PlayerState)
    ensures
        clip_index(a) < 9,
        a != b ==> clip_index(a) != clip_index(b),
{
}

/// An order to play a state's clip.
#[derive(Clone, Copy, Debug, PartialEq, Eq, Structural)]
pub struct AnimationCue {
    /// The state whose clip plays.
    pub clip: PlayerState,
    /// Loop the clip (every clip but the jump).
    pub repeat: bool,
    /// Cross-fade time (ms).
    pub fade_ms: u64,
}

/// The cue for a state's clip.
pub open spec fn cue_for(s: PlayerState) -> AnimationCue {
    AnimationCue { clip: s, repeat: s != PlayerState::Jumping, fade_ms: ANIM_TRANSITION_MS }
}

/// What observing a state plays, given the state whose clip plays now.
pub open spec fn cue_after(current: Option<PlayerState>, s: PlayerState) -> Option<AnimationCue> {
    if current == Some(s) {
        None
    } else {
        Some(cue_for(s))
    }
}

/// Remembers which state's clip plays, so that a clip is started only on a change.
#[derive(Clone, Copy, Debug, PartialEq, Eq, Structural)]
pub struct AnimationSwitcher {
    pub current: Option<PlayerState>,
}

impl Default for AnimationSwitcher {
    fn default() -> (a: AnimationSwitcher)
        ensures
            a.current is None,
    {
        AnimationSwitcher { current: None }
    }
}

impl AnimationSwitcher {
    /// Nothing plays yet.
    pub fn new() -> (a: AnimationSwitcher)
        ensures
            a.current is None,
    {
        AnimationSwitcher { current: None }
    }

    /// The player's state this frame: a cue when it differs from the state whose
    /// clip plays, none when it is the same.
    pub fn observe(&mut self, state: PlayerState) -> (cue: Option<AnimationCue>)
        ensures
            cue == cue_after(old(self).current, state),
            // a cue plays the observed state's own clip, looping unless it is the jump
            cue is None <==> old(self).current == Some(state),
            cue matches Some(c) ==> c.clip == state && c.repeat == (state
                != PlayerState::Jumping) && c.fade_ms == 20,
            final(self).current == Some(state),
    {
        let same = match self.current {
            Some(s) => s == state,
            None => false,
        };
        self.current = Some(state);
        if same {
            None
        } else {
            Some(AnimationCue { clip: state, repeat: state != PlayerState::Jumping, fade_ms: ANIM_TRANSITION_MS })
        }
    }
}

/// A cue always plays the clip of the state that was observed.
pub proof fn lemma_cue_plays_observed_state(current: Option<PlayerState>, s: PlayerState)
    ensures
        cue_after(current, s) matches Some(c) ==> c.clip == s && clip_index(c.clip) == clip_index(
            s,
        ) && c.repeat == (s != PlayerState::Jumping),
{
}

/// Observing the same state twice starts its clip at most once: the second
/// observation plays nothing.
pub proof fn lemma_observe_twice(current: Option<PlayerState>, s: PlayerState)
    ensures
        cue_after(Some(s), s) is None,
        cue_after(current, s) is Some <==> current != Some(s),
{
}

} // verus!

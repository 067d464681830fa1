//! The mouse cursor: captured while playing, released when the window loses focus
//! or the game quits.
use vstd::prelude::*;

verus! {

/// How the cursor is held by the window.
#[derive(Clone, Copy, Debug, PartialEq, Eq, Structural)]
pub enum GrabMode {
    /// Free to leave the window.
    Free,
    /// Locked in place for mouse look.
    Locked,
}

/// A cursor setting for the window.
#[derive(Clone, Copy, Debug, PartialEq, Eq, Structural)]
pub struct CursorSetting {
    pub grab: GrabMode,
    pub visible: bool,
}

/// Locked and hidden.
pub open spec fn captured() -> CursorSetting {
    CursorSetting { grab: GrabMode::Locked, visible: false }
}

/// Free and shown.
pub open spec fn released() -> CursorSetting {
    CursorSetting { grab: GrabMode::Free, visible: true }
}

/// A setting shows the cursor exactly when the cursor is free.
pub open spec fn consistent(c: CursorSetting) -> bool {
    c.visible == (c.grab == GrabMode::Free)
}

/// The focus rule: a left click in the focused window captures the cursor; losing
/// focus releases it; otherwise nothing changes (`None`).
pub fn focus_cursor(focused: bool, left_click: bool) -> (c: Option<CursorSetting>)
    ensures
        c == (if focused && left_click {
            Some(captured())
        } else if !focused {
            Some(released())
        } else {
            None
        }),
        c matches Some(s) ==> consistent(s),
        !focused ==> c == Some(released()),
        focused && left_click ==> c == Some(CursorSetting { grab: GrabMode::Locked, visible: false }),
        !focused ==> c == Some(CursorSetting { grab: GrabMode::Free, visible: true }),
        focused && !left_click ==> c is None,
{
    if focused && left_click {
        Some(CursorSetting { grab: GrabMode::Locked, visible: false })
    } else if !focused {
        Some(CursorSetting { grab: GrabMode::Free, visible: true })
    } else {
        None
    }
}

/// The quit key: release the cursor and leave (`Some`), or nothing (`None`).
pub fn quit_cursor(escape: bool) -> (c: Option<CursorSetting>)
    ensures
        c == (if escape { Some(released()) } else { None }),
        escape ==> c == Some(CursorSetting { grab: GrabMode::Free, visible: true }),
        !escape ==> c is None,
{
    if escape {
        Some(CursorSetting { grab: GrabMode::Free, visible: true })
    } else {
        None
    }
}

} // verus!

//! Cursor capture: which clicks and key presses hide and lock the pointer,
//! and when pointer motion turns the camera.

use vstd::prelude::*;

verus! {

/// How many units of horizontal pointer motion turn the camera by one degree.
/// Motion to the right turns the camera clockwise, that is by a negative angle
/// about the vertical axis. Vertical motion turns nothing.
pub const MOTION_PER_DEGREE: u16 = 10;

/// How the window holds the pointer.
#[derive(Clone, Copy, Debug, PartialEq, Eq, Structural)]
pub enum GrabMode {
    /// The pointer moves freely.
    Free,
    /// The pointer is kept inside the window.
    Confined,
    /// The pointer is pinned in place and only its relative motion is seen.
    Locked,
}

/// The pointer as the window shows and holds it.
#[derive(Clone, Copy, Debug, PartialEq, Eq, Structural)]
pub struct CursorState {
    pub visible: bool,
    pub grab: GrabMode,
}

impl CursorState {
    /// The pointer shown and free.
    pub open spec fn spec_released() -> CursorState {
        CursorState { visible: true, grab: GrabMode::Free }
    }

    /// The pointer hidden and locked.
    pub open spec fn spec_captured() -> CursorState {
        CursorState { visible: false, grab: GrabMode::Locked }
    }

    /// The state that follows `self` after one frame's presses. Escape has the
    /// last word: a frame that sees both presses leaves the pointer released.
    pub open spec fn spec_after_input(self, left_click: bool, escape: bool) -> CursorState {
        if escape {
            Self::spec_released()
        } else if left_click {
            Self::spec_captured()
        } else {
            self
        }
    }

    /// Whether pointer motion turns the camera in this state.
    pub open spec fn spec_look_enabled(self) -> bool {
        self.grab == GrabMode::Locked
    }

    /// The pointer shown and free: what a window starts with and what Escape restores.
    pub fn released() -> (state: CursorState)
        ensures
            state == Self::spec_released(),
    {
        CursorState { visible: true, grab: GrabMode::Free }
    }

    /// The pointer hidden and locked: what a left click gives.
    pub fn captured() -> (state: CursorState)
        ensures
            state == Self::spec_captured(),
    {
        CursorState { visible: false, grab: GrabMode::Locked }
    }

    /// Applies one frame's presses: `left_click` says that the left mouse button
    /// went down during the frame, `escape` that the Escape key did.
    pub fn after_input(self, left_click: bool, escape: bool) -> (next: CursorState)
        ensures
            next == self.spec_after_input(left_click, escape),
    {
        let mut next = self;
        if left_click {
            next.visible = false;
            next.grab = GrabMode::Locked;
        }
        if escape {
            next.visible = true;
            next.grab = GrabMode::Free;
        }
        next
    }

    /// Whether this frame's pointer motion is to be consumed and turned into
    /// camera rotation: exactly while the pointer is locked.
    pub fn look_enabled(&self) -> (enabled: bool)
        ensures
            enabled == self.spec_look_enabled(),
    {
        match self.grab {
            GrabMode::Locked => true,
            GrabMode::Free => false,
            GrabMode::Confined => false,
        }
    }
}

/// A left click takes a shown, free pointer to hidden and locked, and motion
/// then turns the camera.
pub proof fn lemma_click_captures()
    ensures
        CursorState::spec_released().spec_after_input(true, false) == CursorState::spec_captured(),
        CursorState::spec_captured().spec_look_enabled(),
{
}

/// Escape takes a hidden, locked pointer back to shown and free, and motion no
/// longer turns the camera.
pub proof fn lemma_escape_releases()
    ensures
        CursorState::spec_captured().spec_after_input(false, true) == CursorState::spec_released(),
        !CursorState::spec_released().spec_look_enabled(),
{
}

/// Whatever the state before, a click without Escape captures and Escape releases.
pub proof fn lemma_press_decides(state: CursorState, left_click: bool)
    ensures
        state.spec_after_input(true, false) == CursorState::spec_captured(),
        state.spec_after_input(left_click, true) == CursorState::spec_released(),
        state.spec_after_input(false, false) == state,
{
}

/// Repeating a frame's presses changes nothing more: a second click leaves the
/// pointer captured, a second Escape leaves it released.
pub proof fn lemma_input_idempotent(state: CursorState, left_click: bool, escape: bool)
    ensures
        state.spec_after_input(left_click, escape).spec_after_input(left_click, escape)
            == state.spec_after_input(left_click, escape),
{
}

/// Motion turns the camera after a frame's presses exactly when the frame saw
/// a click and no Escape, or saw neither and the pointer was locked before.
pub proof fn lemma_look_after_input(state: CursorState, left_click: bool, escape: bool)
    ensures
        state.spec_after_input(left_click, escape).spec_look_enabled() <==> (!escape && (left_click
            || state.spec_look_enabled())),
{
}

} // verus!

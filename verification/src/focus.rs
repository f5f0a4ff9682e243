//! The process-wide input-focus state.

use vstd::prelude::*;

use crate::events::EntityId;

verus! {

/// The process-wide designation of which widget entity currently receives
/// routed keyboard input, and whether a focus indicator should be shown.
///
/// Pointer-driven focus acquisition always clears `focus_visible`: focus is
/// granted, but its ring is not shown for pointer interaction. Keyboard-driven
/// focus visibility is the responsibility of external focus-navigation logic.
#[derive(Clone, Copy, Debug, PartialEq, Eq)]
pub struct FocusState {
    pub focused_entity: Option<EntityId>,
    pub focus_visible: bool,
}

impl FocusState {
    /// The focus state after a pointer interaction grants focus to `target`.
    pub open spec fn spec_pointer_focus(target: EntityId) -> FocusState {
        FocusState { focused_entity: Some(target), focus_visible: false }
    }

    /// The startup focus state: nothing focused, no indicator shown.
    pub fn new() -> (r: FocusState)
        ensures
            r.focused_entity is None,
            !r.focus_visible,
    {
        FocusState { focused_entity: None, focus_visible: false }
    }

    /// Grant focus to `target` for a pointer interaction, hiding the focus
    /// indicator.
    pub fn set_pointer_focus(&mut self, target: EntityId)
        ensures
            *final(self) == FocusState::spec_pointer_focus(target),
    {
        self.focused_entity = Some(target);
        self.focus_visible = false;
    }
}

} // verus!

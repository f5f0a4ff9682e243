//! The inbound event model and the outcomes a widget controller reports.

use vstd::prelude::*;

verus! {

/// A stable identifier for a widget entity in the surrounding application's
/// storage. The controllers never create or destroy entities; they only
/// address outcomes and focus changes to one.
pub type EntityId = u64;

/// A handle to a caller-registered procedure (zero-argument or taking one
/// `bool`). Invoking it is the surrounding application's job; the controllers
/// only name it in an outcome.
pub type CallbackId = u64;

/// The keys the controllers react to. Every other key is `Other` and never
/// produces a transition.
#[derive(Clone, Copy, Debug, PartialEq, Eq, Structural)]
pub enum Key {
    Enter,
    Space,
    Escape,
    Other,
}

/// Whether a key transition is a press or a release.
#[derive(Clone, Copy, Debug, PartialEq, Eq, Structural)]
pub enum KeyState {
    Pressed,
    Released,
}

/// A keyboard key transition routed to the focused widget by the input
/// backend.
#[derive(Clone, Copy, Debug, PartialEq, Eq, Structural)]
pub struct KeyEvent {
    pub key: Key,
    pub state: KeyState,
    /// True when the transition comes from the key being held (auto-repeat).
    pub repeat: bool,
}

/// A pointer event routed to a target widget by the input backend's
/// hit-testing.
#[derive(Clone, Copy, Debug, PartialEq, Eq, Structural)]
pub enum PointerEvent {
    Pressed,
    Released,
    Click,
    DragEnd,
    Cancel,
}

/// Any inbound event a controller can receive for its target entity.
#[derive(Clone, Copy, Debug, PartialEq, Eq, Structural)]
pub enum InputEvent {
    Key(KeyEvent),
    Pointer(PointerEvent),
}

/// What the notification sink is asked to do once a controller recognizes an
/// outcome: run the widget's registered callback when one is present,
/// otherwise broadcast a typed event addressed to the widget entity.
#[derive(Clone, Copy, Debug, PartialEq, Eq)]
pub enum Notice {
    /// Run the registered zero-argument callback.
    RunCallback(CallbackId),
    /// Run the registered callback, passing it the new `bool` value.
    RunCallbackWith(CallbackId, bool),
    /// Broadcast a click event addressed to the widget entity.
    BroadcastClicked(EntityId),
    /// Broadcast a value-change event carrying the new value, addressed to
    /// the widget entity.
    BroadcastValueChange(EntityId, bool),
}

/// What a handler reports back for one inbound event: whether it claimed the
/// event (halting further propagation) and what, if anything, the
/// notification sink must do.
#[derive(Clone, Copy, Debug, PartialEq, Eq)]
pub struct Outcome {
    pub halted: bool,
    pub notice: Option<Notice>,
}

impl Outcome {
    /// The outcome of a handler that did not act: propagation is unaffected
    /// and nothing is dispatched.
    pub open spec fn spec_ignored() -> Outcome {
        Outcome { halted: false, notice: None }
    }

    /// The outcome of a handler that claimed the event without dispatching
    /// anything.
    pub open spec fn spec_claimed() -> Outcome {
        Outcome { halted: true, notice: None }
    }

    pub fn ignored() -> (o: Outcome)
        ensures
            o == Outcome::spec_ignored(),
    {
        Outcome { halted: false, notice: None }
    }

    pub fn claimed() -> (o: Outcome)
        ensures
            o == Outcome::spec_claimed(),
    {
        Outcome { halted: true, notice: None }
    }
}

} // verus!

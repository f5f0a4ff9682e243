//! The barrier controller. A barrier is a backdrop element that covers the
//! whole screen, blocks pointer events from reaching elements behind it, and
//! dismisses a dialog or menu on first contact or on Escape. It tracks no
//! pressed or checked state; it exists to intercept and dismiss.

use vstd::prelude::*;

use crate::events::{CallbackId, EntityId, InputEvent, Key, KeyEvent, KeyState, Notice, Outcome, PointerEvent};
use crate::focus::FocusState;

verus! {

/// Headless modal-barrier widget record. `on_close` names the callback run
/// when the barrier is pressed or Escape is pressed while it is focused. A
/// barrier with no close callback still blocks events behind it but cannot
/// be dismissed: there is no broadcast fallback for close.
#[derive(Clone, Copy, Debug)]
pub struct CoreBarrier {
    pub on_close: Option<CallbackId>,
}

/// The notification the barrier dispatches on dismissal: the registered
/// close callback when one is present, nothing otherwise. Unlike the click
/// and value-change outcomes, close has no broadcast fallback.
pub open spec fn spec_close_notice(b: CoreBarrier) -> Option<Notice> {
    match b.on_close {
        Some(cb) => Some(Notice::RunCallback(cb)),
        None => None,
    }
}

/// Whether a focused keyboard event dismisses the barrier: a non-repeat
/// press of Escape. A barrier has no `Disabled` gating.
pub open spec fn spec_barrier_key_activates(ev: KeyEvent) -> bool {
    &&& ev.state == KeyState::Pressed
    &&& !ev.repeat
    &&& ev.key == Key::Escape
}

/// Resolve the dismissal notification for this barrier.
fn close_notice(b: &CoreBarrier) -> (n: Option<Notice>)
    ensures
        n == spec_close_notice(*b),
{
    match b.on_close {
        Some(cb) => Some(Notice::RunCallback(cb)),
        None => None,
    }
}

/// Focused keyboard event on a barrier. A non-repeat press of Escape claims
/// the event and, when a close callback is registered, runs it; with no
/// callback registered, propagation still halts but nothing else happens.
/// Any other key event is ignored with propagation unaffected.
pub fn barrier_on_key_input(b: &CoreBarrier, ev: &KeyEvent) -> (o: Outcome)
    ensures
        o.halted == spec_barrier_key_activates(*ev),
        o.notice == (if spec_barrier_key_activates(*ev) {
            spec_close_notice(*b)
        } else {
            None::<Notice>
        }),
{
    if matches!(ev.state, KeyState::Pressed) && !ev.repeat && matches!(ev.key, Key::Escape) {
        Outcome { halted: true, notice: close_notice(b) }
    } else {
        Outcome::ignored()
    }
}

/// Pointer press-down on a barrier. Focus moves to the barrier with the
/// focus indicator hidden, propagation is halted, and — when a close
/// callback is registered — it runs immediately: a press, not a click,
/// triggers dismissal, since a barrier's purpose is to be dismissed by any
/// initial contact.
pub fn barrier_on_pointer_down(
    b: &CoreBarrier,
    target: EntityId,
    focus: &mut FocusState,
) -> (o: Outcome)
    ensures
        *final(focus) == FocusState::spec_pointer_focus(target),
        o.halted,
        o.notice == spec_close_notice(*b),
{
    focus.set_pointer_focus(target);
    Outcome { halted: true, notice: close_notice(b) }
}

/// One step of the barrier controller: the focus and outcome after one
/// inbound event addressed to the barrier at `target`. Only focused key
/// events and pointer press-downs have a barrier handler; every other
/// pointer event passes through untouched.
pub open spec fn spec_barrier_step(
    b: CoreBarrier,
    f: FocusState,
    target: EntityId,
    ev: InputEvent,
) -> (FocusState, Outcome) {
    match ev {
        InputEvent::Key(k) => {
            if spec_barrier_key_activates(k) {
                (f, Outcome { halted: true, notice: spec_close_notice(b) })
            } else {
                (f, Outcome::spec_ignored())
            }
        },
        InputEvent::Pointer(p) => match p {
            PointerEvent::Pressed => (
                FocusState::spec_pointer_focus(target),
                Outcome { halted: true, notice: spec_close_notice(b) },
            ),
            _ => (f, Outcome::spec_ignored()),
        },
    }
}

/// Dispatch one inbound event to the barrier's matching handler. The caller
/// has already confirmed that a barrier record exists at `target`.
pub fn barrier_handle_event(
    b: &CoreBarrier,
    f: &mut FocusState,
    target: EntityId,
    ev: &InputEvent,
) -> (o: Outcome)
    ensures
        (*final(f), o) == spec_barrier_step(*b, *old(f), target, *ev),
{
    match ev {
        InputEvent::Key(k) => barrier_on_key_input(b, k),
        InputEvent::Pointer(p) => match p {
            PointerEvent::Pressed => barrier_on_pointer_down(b, target, f),
            _ => Outcome::ignored(),
        },
    }
}

/// A barrier with no registered close callback never dispatches anything:
/// whatever inbound event arrives, the outcome carries no notification, and
/// on Escape or press-down the event is still claimed.
pub proof fn lemma_callbackless_barrier_silent(
    b: CoreBarrier,
    f: FocusState,
    target: EntityId,
    ev: InputEvent,
)
    requires
        b.on_close is None,
    ensures
        ({
            let (f2, o) = spec_barrier_step(b, f, target, ev);
            o.notice is None
        }),
{
}

} // verus!

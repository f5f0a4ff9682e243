//! The button controller: reconciles pointer and keyboard events into a
//! transient `Pressed` flag and a `Clicked` outcome.

use vstd::prelude::*;

use crate::events::{
    CallbackId, EntityId, InputEvent, Key, KeyEvent, KeyState, Notice, Outcome, PointerEvent,
};
use crate::focus::FocusState;

verus! {

/// Headless button widget record. `on_click` names the callback run when the
/// button is clicked, or when Enter or Space is pressed while the button is
/// focused. When `on_click` is `None`, the button broadcasts a click event
/// instead.
#[derive(Clone, Copy, Debug)]
pub struct CoreButton {
    pub on_click: Option<CallbackId>,
}

/// The per-entity state a button handler reads and writes: the widget record
/// together with the `Pressed` and `Disabled` capability flags.
///
/// `pressed` is transient: false by default, true only between a qualifying
/// pointer-down and the next pointer-up, drag-end or cancel on the same
/// entity. `disabled` mirrors the presence of the `Disabled` marker and is
/// the sole gate on whether an event produces a transition.
#[derive(Clone, Copy, Debug)]
pub struct ButtonState {
    pub button: CoreButton,
    pub pressed: bool,
    pub disabled: bool,
}

/// The notification sink's dual dispatch for a click outcome: run the
/// registered callback when one is present, otherwise broadcast a click
/// event addressed to the widget entity.
pub open spec fn spec_click_notice(b: CoreButton, target: EntityId) -> Notice {
    match b.on_click {
        Some(cb) => Notice::RunCallback(cb),
        None => Notice::BroadcastClicked(target),
    }
}

/// Whether a focused keyboard event activates the button: the widget is not
/// disabled and the event is a non-repeat press of Enter or Space.
pub open spec fn spec_button_key_activates(s: ButtonState, ev: KeyEvent) -> bool {
    &&& !s.disabled
    &&& ev.state == KeyState::Pressed
    &&& !ev.repeat
    &&& (ev.key == Key::Enter || ev.key == Key::Space)
}

/// Resolve the click outcome's notification for this button.
fn click_notice(b: &CoreButton, target: EntityId) -> (n: Notice)
    ensures
        n == spec_click_notice(*b, target),
{
    match b.on_click {
        Some(cb) => Notice::RunCallback(cb),
        None => Notice::BroadcastClicked(target),
    }
}

/// Focused keyboard event on a button. A non-repeat press of Enter or Space
/// on an enabled button claims the event and produces a click outcome;
/// anything else — a disabled widget, a release, an auto-repeat, another
/// key — is ignored with propagation unaffected.
pub fn button_on_key_event(s: &ButtonState, target: EntityId, ev: &KeyEvent) -> (o: Outcome)
    ensures
        o.halted == spec_button_key_activates(*s, *ev),
        o.notice == (if spec_button_key_activates(*s, *ev) {
            Some(spec_click_notice(s.button, target))
        } else {
            None::<Notice>
        }),
{
    if !s.disabled && matches!(ev.state, KeyState::Pressed) && !ev.repeat && (matches!(
        ev.key,
        Key::Enter,
    ) || matches!(ev.key, Key::Space)) {
        Outcome { halted: true, notice: Some(click_notice(&s.button, target)) }
    } else {
        Outcome::ignored()
    }
}

/// Pointer click on a button. Once a button record is confirmed at the
/// target, propagation is halted unconditionally — even when disabled. A
/// click outcome is produced only when the `Pressed` flag is true at the
/// moment the click arrives and the widget is not disabled, which guards
/// against stray clicks not preceded by a press on this widget.
pub fn button_on_pointer_click(s: &ButtonState, target: EntityId) -> (o: Outcome)
    ensures
        o.halted,
        o.notice == (if s.pressed && !s.disabled {
            Some(spec_click_notice(s.button, target))
        } else {
            None::<Notice>
        }),
{
    if s.pressed && !s.disabled {
        Outcome { halted: true, notice: Some(click_notice(&s.button, target)) }
    } else {
        Outcome::claimed()
    }
}

/// Pointer press-down on a button. Propagation is halted either way. When not
/// disabled, the `Pressed` flag is set and focus moves to this entity with
/// the focus indicator hidden; when disabled, no state changes.
pub fn button_on_pointer_down(
    s: &mut ButtonState,
    target: EntityId,
    focus: &mut FocusState,
) -> (o: Outcome)
    ensures
        o == Outcome::spec_claimed(),
        old(s).disabled ==> *final(s) == *old(s) && *final(focus) == *old(focus),
        !old(s).disabled ==> *final(s) == (ButtonState {
            button: old(s).button,
            pressed: true,
            disabled: old(s).disabled,
        }) && *final(focus) == FocusState::spec_pointer_focus(target),
{
    if !s.disabled {
        s.pressed = true;
        focus.set_pointer_focus(target);
    }
    Outcome::claimed()
}

/// Clear the `Pressed` flag unless the widget is disabled, halting
/// propagation either way. Shared by the release-up, drag-end and cancel
/// handlers: a drag-end or cancel is the sole cancellation path for an
/// in-progress press.
fn button_clear_press(s: &mut ButtonState) -> (o: Outcome)
    ensures
        o == Outcome::spec_claimed(),
        old(s).disabled ==> *final(s) == *old(s),
        !old(s).disabled ==> *final(s) == (ButtonState {
            button: old(s).button,
            pressed: false,
            disabled: old(s).disabled,
        }),
{
    if !s.disabled {
        s.pressed = false;
    }
    Outcome::claimed()
}

/// Pointer release-up on a button: clears `Pressed` unless disabled.
pub fn button_on_pointer_up(s: &mut ButtonState) -> (o: Outcome)
    ensures
        o == Outcome::spec_claimed(),
        old(s).disabled ==> *final(s) == *old(s),
        !old(s).disabled ==> *final(s) == (ButtonState {
            button: old(s).button,
            pressed: false,
            disabled: old(s).disabled,
        }),
{
    button_clear_press(s)
}

/// Pointer drag-end on a button: the press dragged off-widget, so `Pressed`
/// is cleared (unless disabled) and no click will be recognized.
pub fn button_on_pointer_drag_end(s: &mut ButtonState) -> (o: Outcome)
    ensures
        o == Outcome::spec_claimed(),
        old(s).disabled ==> *final(s) == *old(s),
        !old(s).disabled ==> *final(s) == (ButtonState {
            button: old(s).button,
            pressed: false,
            disabled: old(s).disabled,
        }),
{
    button_clear_press(s)
}

/// Pointer cancel on a button: the press is abandoned, so `Pressed` is
/// cleared (unless disabled).
pub fn button_on_pointer_cancel(s: &mut ButtonState) -> (o: Outcome)
    ensures
        o == Outcome::spec_claimed(),
        old(s).disabled ==> *final(s) == *old(s),
        !old(s).disabled ==> *final(s) == (ButtonState {
            button: old(s).button,
            pressed: false,
            disabled: old(s).disabled,
        }),
{
    button_clear_press(s)
}

/// One step of the button controller: the state, focus and outcome after one
/// inbound event addressed to the button at `target`. `Released` is ignored
/// by the key handler; among pointer events every variant has a button
/// handler.
pub open spec fn spec_button_step(
    s: ButtonState,
    f: FocusState,
    target: EntityId,
    ev: InputEvent,
) -> (ButtonState, FocusState, Outcome) {
    match ev {
        InputEvent::Key(k) => {
            if spec_button_key_activates(s, k) {
                (s, f, Outcome { halted: true, notice: Some(spec_click_notice(s.button, target)) })
            } else {
                (s, f, Outcome::spec_ignored())
            }
        },
        InputEvent::Pointer(p) => match p {
            PointerEvent::Click => {
                if s.pressed && !s.disabled {
                    (
                        s,
                        f,
                        Outcome {
                            halted: true,
                            notice: Some(spec_click_notice(s.button, target)),
                        },
                    )
                } else {
                    (s, f, Outcome::spec_claimed())
                }
            },
            PointerEvent::Pressed => {
                if s.disabled {
                    (s, f, Outcome::spec_claimed())
                } else {
                    (
                        ButtonState { button: s.button, pressed: true, disabled: s.disabled },
                        FocusState::spec_pointer_focus(target),
                        Outcome::spec_claimed(),
                    )
                }
            },
            _ => {
                if s.disabled {
                    (s, f, Outcome::spec_claimed())
                } else {
                    (
                        ButtonState { button: s.button, pressed: false, disabled: s.disabled },
                        f,
                        Outcome::spec_claimed(),
                    )
                }
            },
        },
    }
}

/// Dispatch one inbound event to the button's matching handler. The caller
/// has already confirmed that a button record exists at `target`; an event
/// with no handler here would be a no-op with propagation unaffected.
pub fn button_handle_event(
    s: &mut ButtonState,
    f: &mut FocusState,
    target: EntityId,
    ev: &InputEvent,
) -> (o: Outcome)
    ensures
        (*final(s), *final(f), o) == spec_button_step(*old(s), *old(f), target, *ev),
{
    match ev {
        InputEvent::Key(k) => button_on_key_event(s, target, k),
        InputEvent::Pointer(p) => match p {
            PointerEvent::Click => button_on_pointer_click(s, target),
            PointerEvent::Pressed => button_on_pointer_down(s, target, f),
            PointerEvent::Released => button_on_pointer_up(s),
            PointerEvent::DragEnd => button_on_pointer_drag_end(s),
            PointerEvent::Cancel => button_on_pointer_cancel(s),
        },
    }
}

/// The state, focus and per-event outcomes after a whole sequence of inbound
/// events is dispatched, in order, to the button at `target`.
pub open spec fn spec_button_run(
    s: ButtonState,
    f: FocusState,
    target: EntityId,
    evs: Seq<InputEvent>,
) -> (ButtonState, FocusState, Seq<Outcome>)
    decreases evs.len(),
{
    if evs.len() == 0 {
        (s, f, Seq::empty())
    } else {
        let (s1, f1, os) = spec_button_run(s, f, target, evs.drop_last());
        let (s2, f2, o) = spec_button_step(s1, f1, target, evs.last());
        (s2, f2, os.push(o))
    }
}

/// Dispatch a sequence of inbound events to the button, collecting each
/// event's outcome.
pub fn button_run_events(
    s: &mut ButtonState,
    f: &mut FocusState,
    target: EntityId,
    evs: &Vec<InputEvent>,
) -> (os: Vec<Outcome>)
    ensures
        (*final(s), *final(f), os@) == spec_button_run(*old(s), *old(f), target, evs@),
{
    let mut os: Vec<Outcome> = Vec::new();
    let mut i: usize = 0;
    while i < evs.len()
        invariant
            i <= evs.len(),
            (*s, *f, os@) == spec_button_run(*old(s), *old(f), target, evs@.take(i as int)),
        decreases evs.len() - i,
    {
        proof {
            assert(evs@.take(i + 1).drop_last() =~= evs@.take(i as int));
            assert(evs@.take(i + 1).last() == evs@[i as int]);
        }
        let o = button_handle_event(s, f, target, &evs[i]);
        os.push(o);
        i = i + 1;
    }
    proof {
        assert(evs@.take(evs@.len() as int) =~= evs@);
    }
    os
}

/// While `Disabled` is attached to a button, no sequence of pointer or
/// keyboard events changes the button's state or the focus, and no event
/// produces a click outcome: every outcome carries no notification.
pub proof fn lemma_disabled_button_inert(
    s: ButtonState,
    f: FocusState,
    target: EntityId,
    evs: Seq<InputEvent>,
)
    requires
        s.disabled,
    ensures
        ({
            let (s2, f2, os) = spec_button_run(s, f, target, evs);
            &&& s2 == s
            &&& f2 == f
            &&& os.len() == evs.len()
            &&& forall|i: int| 0 <= i < os.len() ==> os[i].notice is None
        }),
    decreases evs.len(),
{
    if evs.len() > 0 {
        lemma_disabled_button_inert(s, f, target, evs.drop_last());
    }
}

/// A click is recognized only after a matching press: starting from an
/// unpressed button, a sequence of events that contains no pointer-down
/// leaves the button and the focus unchanged, and every `PointerClick` in it
/// produces no click outcome.
pub proof fn lemma_click_needs_preceding_press(
    s: ButtonState,
    f: FocusState,
    target: EntityId,
    evs: Seq<InputEvent>,
)
    requires
        !s.pressed,
        forall|i: int|
            0 <= i < evs.len() ==> evs[i] != InputEvent::Pointer(PointerEvent::Pressed),
    ensures
        ({
            let (s2, f2, os) = spec_button_run(s, f, target, evs);
            &&& s2 == s
            &&& f2 == f
            &&& os.len() == evs.len()
            &&& forall|i: int|
                0 <= i < os.len() && evs[i] == InputEvent::Pointer(PointerEvent::Click)
                    ==> os[i].notice is None
        }),
    decreases evs.len(),
{
    if evs.len() > 0 {
        let prefix = evs.drop_last();
        assert(forall|i: int|
            0 <= i < prefix.len() ==> prefix[i] == evs[i] && prefix[i] != InputEvent::Pointer(
                PointerEvent::Pressed,
            ));
        lemma_click_needs_preceding_press(s, f, target, prefix);
        let (s1, f1, os1) = spec_button_run(s, f, target, prefix);
        assert(evs.last() == evs[evs.len() - 1]);
        let (s2, f2, o) = spec_button_step(s1, f1, target, evs.last());
        assert(s2 == s && f2 == f);
        assert(evs.last() == InputEvent::Pointer(PointerEvent::Click) ==> o.notice is None);
        assert forall|i: int|
            0 <= i < evs.len() && evs[i] == InputEvent::Pointer(PointerEvent::Click) implies (
        spec_button_run(s, f, target, evs).2)[i].notice is None by {
            if i < evs.len() - 1 {
                assert((spec_button_run(s, f, target, evs).2)[i] == os1[i]);
            }
        }
    }
}

/// Dispatching `PointerCancel` to an already-unpressed button is a no-op, and
/// so is dispatching it again right after: neither call produces a
/// notification or changes the button's state or the focus.
pub proof fn lemma_cancel_on_unpressed_idempotent(s: ButtonState, f: FocusState, target: EntityId)
    requires
        !s.pressed,
    ensures
        ({
            let cancel = InputEvent::Pointer(PointerEvent::Cancel);
            let (s1, f1, o1) = spec_button_step(s, f, target, cancel);
            let (s2, f2, o2) = spec_button_step(s1, f1, target, cancel);
            &&& s1 == s
            &&& f1 == f
            &&& o1.notice is None
            &&& s2 == s
            &&& f2 == f
            &&& o2 == o1
        }),
{
}

} // verus!

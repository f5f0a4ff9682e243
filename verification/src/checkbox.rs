//! The checkbox controller: reconciles click and key events into a `Checked`
//! toggle outcome. The controller never writes the stored `checked` field
//! itself; it computes the new value and hands it to the notification sink,
//! leaving the mutation to the consumer.

use vstd::prelude::*;

use crate::events::{
    CallbackId, EntityId, InputEvent, Key, KeyEvent, KeyState, Notice, Outcome, PointerEvent,
};
use crate::focus::FocusState;

verus! {

/// Headless checkbox widget record. `checked` is the current state of the
/// checkbox. `on_change` names the callback run with the new value when the
/// checkbox is clicked, or when Enter or Space is pressed while it is
/// focused. When `on_change` is `None`, the checkbox broadcasts a
/// value-change event instead.
#[derive(Clone, Copy, Debug)]
pub struct CoreCheckbox {
    pub checked: bool,
    pub on_change: Option<CallbackId>,
}

/// The per-entity state a checkbox handler reads: the widget record together
/// with the `Disabled` capability flag. The handlers never mutate it.
#[derive(Clone, Copy, Debug)]
pub struct CheckboxState {
    pub checkbox: CoreCheckbox,
    pub disabled: bool,
}

/// The tri-state accessibility "toggled" indicator mirrored from a
/// checkbox's `checked` value. This controller only ever produces the two
/// definite states; `Mixed` exists for consumers that merge several
/// checkboxes into one indicator.
#[derive(Clone, Copy, Debug, PartialEq, Eq, Structural)]
pub enum Toggled {
    On,
    Off,
    Mixed,
}

/// The accessibility indicator that mirrors a `checked` value.
pub open spec fn spec_checkbox_toggled(checked: bool) -> Toggled {
    if checked {
        Toggled::On
    } else {
        Toggled::Off
    }
}

/// Recompute the accessibility "toggled" indicator whenever the `checked`
/// field is attached or replaced on a widget: a pure projection with no
/// feedback into the controller.
pub fn checkbox_toggled(checked: bool) -> (t: Toggled)
    ensures
        t == spec_checkbox_toggled(checked),
{
    if checked {
        Toggled::On
    } else {
        Toggled::Off
    }
}

/// The notification sink's dual dispatch for a toggle outcome: run the
/// registered callback with the new value `!checked` when one is present,
/// otherwise broadcast a value-change event carrying that value, addressed
/// to the widget entity.
pub open spec fn spec_change_notice(c: CoreCheckbox, target: EntityId) -> Notice {
    match c.on_change {
        Some(cb) => Notice::RunCallbackWith(cb, !c.checked),
        None => Notice::BroadcastValueChange(target, !c.checked),
    }
}

/// Whether a focused keyboard event toggles the checkbox: the widget is not
/// disabled and the event is a non-repeat press of Enter or Space.
pub open spec fn spec_checkbox_key_activates(s: CheckboxState, ev: KeyEvent) -> bool {
    &&& !s.disabled
    &&& ev.state == KeyState::Pressed
    &&& !ev.repeat
    &&& (ev.key == Key::Enter || ev.key == Key::Space)
}

/// Resolve the toggle outcome's notification for this checkbox.
fn change_notice(c: &CoreCheckbox, target: EntityId) -> (n: Notice)
    ensures
        n == spec_change_notice(*c, target),
{
    match c.on_change {
        Some(cb) => Notice::RunCallbackWith(cb, !c.checked),
        None => Notice::BroadcastValueChange(target, !c.checked),
    }
}

/// Focused keyboard event on a checkbox. A non-repeat press of Enter or
/// Space on an enabled checkbox claims the event and dispatches the toggled
/// value `!checked`; anything else — a disabled widget, a release, an
/// auto-repeat, another key — is ignored with propagation unaffected.
pub fn checkbox_on_key_input(s: &CheckboxState, target: EntityId, ev: &KeyEvent) -> (o: Outcome)
    ensures
        o.halted == spec_checkbox_key_activates(*s, *ev),
        o.notice == (if spec_checkbox_key_activates(*s, *ev) {
            Some(spec_change_notice(s.checkbox, target))
        } else {
            None::<Notice>
        }),
{
    if !s.disabled && matches!(ev.state, KeyState::Pressed) && !ev.repeat && (matches!(
        ev.key,
        Key::Enter,
    ) || matches!(ev.key, Key::Space)) {
        Outcome { halted: true, notice: Some(change_notice(&s.checkbox, target)) }
    } else {
        Outcome::ignored()
    }
}

/// Pointer click on a checkbox. Focus always moves to the target with the
/// focus indicator hidden — even when disabled, focus follows any click —
/// and propagation is halted. The toggled value `!checked` is dispatched
/// only when the widget is not disabled.
pub fn checkbox_on_pointer_click(
    s: &CheckboxState,
    target: EntityId,
    focus: &mut FocusState,
) -> (o: Outcome)
    ensures
        *final(focus) == FocusState::spec_pointer_focus(target),
        o.halted,
        o.notice == (if !s.disabled {
            Some(spec_change_notice(s.checkbox, target))
        } else {
            None::<Notice>
        }),
{
    focus.set_pointer_focus(target);
    if !s.disabled {
        Outcome { halted: true, notice: Some(change_notice(&s.checkbox, target)) }
    } else {
        Outcome::claimed()
    }
}

/// One step of the checkbox controller: the focus and outcome after one
/// inbound event addressed to the checkbox at `target`. The checkbox record
/// itself never changes: mutation of `checked` belongs to the notification
/// sink's consumer. Only focused key events and pointer clicks have a
/// checkbox handler; every other pointer event passes through untouched.
pub open spec fn spec_checkbox_step(
    s: CheckboxState,
    f: FocusState,
    target: EntityId,
    ev: InputEvent,
) -> (FocusState, Outcome) {
    match ev {
        InputEvent::Key(k) => {
            if spec_checkbox_key_activates(s, k) {
                (
                    f,
                    Outcome {
                        halted: true,
                        notice: Some(spec_change_notice(s.checkbox, target)),
                    },
                )
            } else {
                (f, Outcome::spec_ignored())
            }
        },
        InputEvent::Pointer(p) => match p {
            PointerEvent::Click => {
                if !s.disabled {
                    (
                        FocusState::spec_pointer_focus(target),
                        Outcome {
                            halted: true,
                            notice: Some(spec_change_notice(s.checkbox, target)),
                        },
                    )
                } else {
                    (FocusState::spec_pointer_focus(target), Outcome::spec_claimed())
                }
            },
            _ => (f, Outcome::spec_ignored()),
        },
    }
}

/// Dispatch one inbound event to the checkbox's matching handler. The caller
/// has already confirmed that a checkbox record exists at `target`.
pub fn checkbox_handle_event(
    s: &CheckboxState,
    f: &mut FocusState,
    target: EntityId,
    ev: &InputEvent,
) -> (o: Outcome)
    ensures
        (*final(f), o) == spec_checkbox_step(*s, *old(f), target, *ev),
{
    match ev {
        InputEvent::Key(k) => checkbox_on_key_input(s, target, k),
        InputEvent::Pointer(p) => match p {
            PointerEvent::Click => checkbox_on_pointer_click(s, target, f),
            _ => Outcome::ignored(),
        },
    }
}

/// The focus and per-event outcomes after a whole sequence of inbound events
/// is dispatched, in order, to the checkbox at `target`.
pub open spec fn spec_checkbox_run(
    s: CheckboxState,
    f: FocusState,
    target: EntityId,
    evs: Seq<InputEvent>,
) -> (FocusState, Seq<Outcome>)
    decreases evs.len(),
{
    if evs.len() == 0 {
        (f, Seq::empty())
    } else {
        let (f1, os) = spec_checkbox_run(s, f, target, evs.drop_last());
        let (f2, o) = spec_checkbox_step(s, f1, target, evs.last());
        (f2, os.push(o))
    }
}

/// While `Disabled` is attached to a checkbox, no sequence of pointer or
/// keyboard events produces a value-change outcome: every outcome carries no
/// notification. Focus may still move — a pointer click relocates focus to
/// the checkbox even while disabled — and the checkbox record itself never
/// changes, disabled or not.
pub proof fn lemma_disabled_checkbox_silent(
    s: CheckboxState,
    f: FocusState,
    target: EntityId,
    evs: Seq<InputEvent>,
)
    requires
        s.disabled,
    ensures
        ({
            let (f2, os) = spec_checkbox_run(s, f, target, evs);
            &&& os.len() == evs.len()
            &&& forall|i: int| 0 <= i < os.len() ==> os[i].notice is None
        }),
    decreases evs.len(),
{
    if evs.len() > 0 {
        lemma_disabled_checkbox_silent(s, f, target, evs.drop_last());
    }
}

} // verus!

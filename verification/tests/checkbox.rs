use core_widgets::checkbox::{
    checkbox_handle_event, checkbox_on_key_input, checkbox_on_pointer_click, checkbox_toggled,
    CheckboxState, CoreCheckbox, Toggled,
};
use core_widgets::events::{InputEvent, Key, KeyEvent, KeyState, Notice, PointerEvent};
use core_widgets::focus::FocusState;

fn checkbox(checked: bool, on_change: Option<u64>, disabled: bool) -> CheckboxState {
    CheckboxState { checkbox: CoreCheckbox { checked, on_change }, disabled }
}

fn key(key: Key, state: KeyState, repeat: bool) -> KeyEvent {
    KeyEvent { key, state, repeat }
}

#[test]
fn enter_press_dispatches_value_change_true_once() {
    let s = checkbox(false, None, false);
    let o = checkbox_on_key_input(&s, 2, &key(Key::Enter, KeyState::Pressed, false));
    assert!(o.halted);
    assert_eq!(o.notice, Some(Notice::BroadcastValueChange(2, true)));
}

#[test]
fn held_repeated_enter_dispatches_nothing() {
    let s = checkbox(false, None, false);
    let o = checkbox_on_key_input(&s, 2, &key(Key::Enter, KeyState::Pressed, true));
    assert!(!o.halted);
    assert_eq!(o.notice, None);
}

#[test]
fn key_release_or_other_key_dispatches_nothing() {
    let s = checkbox(true, Some(5), false);
    let released = checkbox_on_key_input(&s, 2, &key(Key::Space, KeyState::Released, false));
    assert!(!released.halted);
    assert_eq!(released.notice, None);
    let escape = checkbox_on_key_input(&s, 2, &key(Key::Escape, KeyState::Pressed, false));
    assert!(!escape.halted);
    assert_eq!(escape.notice, None);
}

#[test]
fn space_press_runs_change_callback_with_toggled_value() {
    let s = checkbox(true, Some(5), false);
    let o = checkbox_on_key_input(&s, 2, &key(Key::Space, KeyState::Pressed, false));
    assert!(o.halted);
    assert_eq!(o.notice, Some(Notice::RunCallbackWith(5, false)));
}

#[test]
fn click_relocates_focus_even_while_disabled() {
    let s = checkbox(false, None, true);
    let mut f = FocusState::new();
    let o = checkbox_on_pointer_click(&s, 9, &mut f);
    assert_eq!(f.focused_entity, Some(9));
    assert!(!f.focus_visible);
    assert!(o.halted);
    assert_eq!(o.notice, None);
}

#[test]
fn click_on_enabled_checkbox_focuses_and_toggles() {
    let s = checkbox(true, None, false);
    let mut f = FocusState { focused_entity: Some(1), focus_visible: true };
    let o = checkbox_on_pointer_click(&s, 9, &mut f);
    assert_eq!(f.focused_entity, Some(9));
    assert!(!f.focus_visible);
    assert!(o.halted);
    assert_eq!(o.notice, Some(Notice::BroadcastValueChange(9, false)));
}

#[test]
fn disabled_checkbox_key_press_dispatches_nothing() {
    let s = checkbox(false, Some(5), true);
    let o = checkbox_on_key_input(&s, 2, &key(Key::Enter, KeyState::Pressed, false));
    assert!(!o.halted);
    assert_eq!(o.notice, None);
}

#[test]
fn checkbox_other_pointer_events_pass_through() {
    let s = checkbox(false, None, false);
    let mut f = FocusState::new();
    for p in [
        PointerEvent::Pressed,
        PointerEvent::Released,
        PointerEvent::DragEnd,
        PointerEvent::Cancel,
    ] {
        let o = checkbox_handle_event(&s, &mut f, 3, &InputEvent::Pointer(p));
        assert!(!o.halted);
        assert_eq!(o.notice, None);
        assert_eq!(f.focused_entity, None);
    }
}

#[test]
fn toggled_indicator_mirrors_checked() {
    assert_eq!(checkbox_toggled(true), Toggled::On);
    assert_eq!(checkbox_toggled(false), Toggled::Off);
}

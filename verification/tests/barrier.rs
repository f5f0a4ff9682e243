use core_widgets::barrier::{
    barrier_handle_event, barrier_on_key_input, barrier_on_pointer_down, CoreBarrier,
};
use core_widgets::events::{InputEvent, Key, KeyEvent, KeyState, Notice, PointerEvent};
use core_widgets::focus::FocusState;

fn key(key: Key, state: KeyState, repeat: bool) -> KeyEvent {
    KeyEvent { key, state, repeat }
}

#[test]
fn escape_press_runs_close_callback_exactly_once_and_halts() {
    let b = CoreBarrier { on_close: Some(13) };
    let o = barrier_on_key_input(&b, &key(Key::Escape, KeyState::Pressed, false));
    assert!(o.halted);
    assert_eq!(o.notice, Some(Notice::RunCallback(13)));
}

#[test]
fn escape_press_without_callback_still_halts_but_does_nothing_else() {
    let b = CoreBarrier { on_close: None };
    let o = barrier_on_key_input(&b, &key(Key::Escape, KeyState::Pressed, false));
    assert!(o.halted);
    assert_eq!(o.notice, None);
}

#[test]
fn repeated_or_released_escape_is_ignored() {
    let b = CoreBarrier { on_close: Some(13) };
    let repeat = barrier_on_key_input(&b, &key(Key::Escape, KeyState::Pressed, true));
    assert!(!repeat.halted);
    assert_eq!(repeat.notice, None);
    let released = barrier_on_key_input(&b, &key(Key::Escape, KeyState::Released, false));
    assert!(!released.halted);
    assert_eq!(released.notice, None);
}

#[test]
fn other_keys_are_ignored() {
    let b = CoreBarrier { on_close: Some(13) };
    for k in [Key::Enter, Key::Space, Key::Other] {
        let o = barrier_on_key_input(&b, &key(k, KeyState::Pressed, false));
        assert!(!o.halted);
        assert_eq!(o.notice, None);
    }
}

#[test]
fn pointer_down_focuses_halts_and_dismisses() {
    let b = CoreBarrier { on_close: Some(4) };
    let mut f = FocusState::new();
    let o = barrier_on_pointer_down(&b, 21, &mut f);
    assert_eq!(f.focused_entity, Some(21));
    assert!(!f.focus_visible);
    assert!(o.halted);
    assert_eq!(o.notice, Some(Notice::RunCallback(4)));
}

#[test]
fn pointer_down_without_callback_focuses_and_halts_only() {
    let b = CoreBarrier { on_close: None };
    let mut f = FocusState::new();
    let o = barrier_on_pointer_down(&b, 21, &mut f);
    assert_eq!(f.focused_entity, Some(21));
    assert!(o.halted);
    assert_eq!(o.notice, None);
}

#[test]
fn barrier_other_pointer_events_pass_through() {
    let b = CoreBarrier { on_close: Some(4) };
    let mut f = FocusState::new();
    for p in [
        PointerEvent::Released,
        PointerEvent::Click,
        PointerEvent::DragEnd,
        PointerEvent::Cancel,
    ] {
        let o = barrier_handle_event(&b, &mut f, 3, &InputEvent::Pointer(p));
        assert!(!o.halted);
        assert_eq!(o.notice, None);
        assert_eq!(f.focused_entity, None);
    }
}

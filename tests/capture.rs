use free_look::capture::{CaptureMode, CapturePolicy, CaptureState, CursorEffect, Reaction};
use free_look::event::{
    classify, classify_batch, get_mouse_button, is_close_requested, is_key_down,
    is_mouse_button_pressed, is_mouse_button_released, ElementState, Event, Key, MouseButton,
    Signal, WindowEvent,
};

fn escape() -> Event {
    Event::Window(WindowEvent::KeyboardInput { key: Some(Key::Escape), state: ElementState::Pressed })
}

fn left_click() -> Event {
    Event::Window(WindowEvent::MouseInput { button: MouseButton::Left, state: ElementState::Pressed })
}

fn close() -> Event {
    Event::Window(WindowEvent::CloseRequested)
}

#[test]
fn classifies_the_three_signals() {
    assert_eq!(classify(&escape()), Some(Signal::EscapeDown));
    assert_eq!(classify(&left_click()), Some(Signal::LeftButtonDown));
    assert_eq!(classify(&close()), Some(Signal::CloseRequested));
}

#[test]
fn ignores_unrecognized_events() {
    let released_escape = Event::Window(WindowEvent::KeyboardInput {
        key: Some(Key::Escape),
        state: ElementState::Released,
    });
    let other_key = Event::Window(WindowEvent::KeyboardInput {
        key: Some(Key::Other(17)),
        state: ElementState::Pressed,
    });
    let no_key = Event::Window(WindowEvent::KeyboardInput { key: None, state: ElementState::Pressed });
    let right_click = Event::Window(WindowEvent::MouseInput {
        button: MouseButton::Right,
        state: ElementState::Pressed,
    });
    let left_release = Event::Window(WindowEvent::MouseInput {
        button: MouseButton::Left,
        state: ElementState::Released,
    });
    for e in [released_escape, other_key, no_key, right_click, left_release, Event::Device, Event::Other,
        Event::Window(WindowEvent::Other)]
    {
        assert_eq!(classify(&e), None);
    }
}

#[test]
fn classify_batch_keeps_order_and_drops_noise() {
    let events = vec![Event::Device, escape(), Event::Other, left_click(), close()];
    assert_eq!(
        classify_batch(&events),
        vec![Signal::EscapeDown, Signal::LeftButtonDown, Signal::CloseRequested]
    );
    assert_eq!(classify_batch(&vec![]), vec![]);
}

#[test]
fn mouse_button_queries() {
    let release = Event::Window(WindowEvent::MouseInput {
        button: MouseButton::Middle,
        state: ElementState::Released,
    });
    assert_eq!(get_mouse_button(&left_click()), Some((MouseButton::Left, ElementState::Pressed)));
    assert_eq!(get_mouse_button(&escape()), None);
    assert!(is_mouse_button_pressed(&left_click(), MouseButton::Left));
    assert!(!is_mouse_button_pressed(&left_click(), MouseButton::Right));
    assert!(!is_mouse_button_released(&left_click(), MouseButton::Left));
    assert!(is_mouse_button_released(&release, MouseButton::Middle));
    assert!(!is_mouse_button_pressed(&release, MouseButton::Middle));
    assert!(!is_mouse_button_pressed(&close(), MouseButton::Left));
    assert!(is_close_requested(&close()));
    assert!(!is_close_requested(&escape()));
    assert!(is_key_down(&escape(), Key::Escape));
    assert!(!is_key_down(&escape(), Key::Other(1)));
}

#[test]
fn escape_releases_then_click_captures() {
    let mut state = CaptureState::new(CapturePolicy::ReleaseOnEscape);
    assert_eq!(state.mode(), CaptureMode::Captured);
    let r = state.handle(Signal::EscapeDown);
    assert_eq!(r, Reaction { mode: CaptureMode::Released, quit: false, cursor: Some(CursorEffect::Show) });
    assert_eq!(state.mode(), CaptureMode::Released);
    assert!(!state.is_captured());
    let r = state.handle(Signal::LeftButtonDown);
    assert_eq!(r, Reaction { mode: CaptureMode::Captured, quit: false, cursor: Some(CursorEffect::Hide) });
    assert!(state.is_captured());
}

#[test]
fn repeated_escapes_show_the_cursor_once() {
    let mut state = CaptureState::new(CapturePolicy::ReleaseOnEscape);
    let signals = vec![Signal::EscapeDown; 4];
    let out = state.handle_batch(&signals);
    assert_eq!(state.mode, CaptureMode::Released);
    assert!(!out.quit);
    let shows = out.reactions.iter().filter(|r| r.cursor == Some(CursorEffect::Show)).count();
    assert_eq!(shows, 1);
    let again = state.handle_batch(&signals);
    assert_eq!(again.reactions.iter().filter(|r| r.cursor.is_some()).count(), 0);
    assert_eq!(state.mode, CaptureMode::Released);
}

#[test]
fn escape_quits_under_quit_policy() {
    let mut state = CaptureState::new(CapturePolicy::QuitOnEscape);
    let out = state.handle_batch(&vec![Signal::EscapeDown, Signal::EscapeDown]);
    assert!(out.quit);
    assert!(out.reactions.iter().all(|r| r.quit && r.mode == CaptureMode::Captured && r.cursor.is_none()));
    assert_eq!(state.mode, CaptureMode::Captured);
}

#[test]
fn close_quits_in_every_mode_and_policy() {
    for policy in [CapturePolicy::ReleaseOnEscape, CapturePolicy::QuitOnEscape] {
        for mode in [CaptureMode::Captured, CaptureMode::Released] {
            let mut state = CaptureState { mode, policy };
            let r = state.handle(Signal::CloseRequested);
            assert_eq!(r, Reaction { mode, quit: true, cursor: None });
            assert_eq!(state.mode, mode);
        }
    }
}

#[test]
fn other_signals_leave_the_mode() {
    let mut captured = CaptureState::new(CapturePolicy::ReleaseOnEscape);
    let r = captured.handle(Signal::LeftButtonDown);
    assert_eq!(r, Reaction { mode: CaptureMode::Captured, quit: false, cursor: None });
    let mut released = CaptureState { mode: CaptureMode::Released, policy: CapturePolicy::QuitOnEscape };
    let r = released.handle(Signal::EscapeDown);
    assert_eq!(r, Reaction { mode: CaptureMode::Released, quit: false, cursor: None });
}

#[test]
fn batch_reevaluates_each_signal_against_the_updated_mode() {
    let mut state = CaptureState::new(CapturePolicy::ReleaseOnEscape);
    let out = state.handle_batch(&vec![
        Signal::EscapeDown,
        Signal::LeftButtonDown,
        Signal::EscapeDown,
        Signal::CloseRequested,
    ]);
    let effects: Vec<Option<CursorEffect>> = out.reactions.iter().map(|r| r.cursor).collect();
    assert_eq!(
        effects,
        vec![Some(CursorEffect::Show), Some(CursorEffect::Hide), Some(CursorEffect::Show), None]
    );
    assert!(out.quit);
    assert_eq!(state.mode, CaptureMode::Released);
}

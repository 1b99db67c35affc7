//! Window and input events as plain values, and their classification into the
//! few signals that the capture state machine reacts to.
use vstd::prelude::*;

verus! {

/// A mouse button.
#[derive(Clone, Copy, Debug, PartialEq, Eq, Structural)]
pub enum MouseButton {
    Left,
    Right,
    Middle,
    Other(u16),
}

/// Whether a key or button went down or up.
#[derive(Clone, Copy, Debug, PartialEq, Eq, Structural)]
pub enum ElementState {
    Pressed,
    Released,
}

/// A virtual key code; only `Escape` matters to the controller.
#[derive(Clone, Copy, Debug, PartialEq, Eq, Structural)]
pub enum Key {
    Escape,
    Other(u32),
}

/// An event that concerns the window.
#[derive(Clone, Copy, Debug, PartialEq, Eq, Structural)]
pub enum WindowEvent {
    CloseRequested,
    KeyboardInput { key: Option<Key>, state: ElementState },
    MouseInput { button: MouseButton, state: ElementState },
    Other,
}

/// A raw event as the windowing layer delivers it.
#[derive(Clone, Copy, Debug, PartialEq, Eq, Structural)]
pub enum Event {
    Window(WindowEvent),
    Device,
    Other,
}

/// The semantic signals that drive cursor capture.
#[derive(Clone, Copy, Debug, PartialEq, Eq, Structural)]
pub enum Signal {
    CloseRequested,
    EscapeDown,
    LeftButtonDown,
}

/// The button and state of a mouse-button event, if `event` is one.
pub open spec fn mouse_button_of(event: Event) -> Option<(MouseButton, ElementState)> {
    match event {
        Event::Window(WindowEvent::MouseInput { button, state }) => Some((button, state)),
        _ => None,
    }
}

/// The signal that `event` stands for, if any.
pub open spec fn signal_of(event: Event) -> Option<Signal> {
    match event {
        Event::Window(WindowEvent::CloseRequested) => Some(Signal::CloseRequested),
        Event::Window(
            WindowEvent::KeyboardInput { key: Some(Key::Escape), state: ElementState::Pressed },
        ) => Some(Signal::EscapeDown),
        Event::Window(
            WindowEvent::MouseInput { button: MouseButton::Left, state: ElementState::Pressed },
        ) => Some(Signal::LeftButtonDown),
        _ => None,
    }
}

pub fn get_mouse_button(event: &Event) -> (r: Option<(MouseButton, ElementState)>)
    ensures
        r == mouse_button_of(*event),
{
    match event {
        Event::Window(WindowEvent::MouseInput { button, state }) => Some((*button, *state)),
        _ => None,
    }
}

/// Whether `event` presses `button`.
pub fn is_mouse_button_pressed(event: &Event, button: MouseButton) -> (r: bool)
    ensures
        r == (mouse_button_of(*event) == Some((button, ElementState::Pressed))),
{
    match get_mouse_button(event) {
        Some((pressed_button, state)) => pressed_button == button && state
            == ElementState::Pressed,
        None => false,
    }
}

/// Whether `event` releases `button`.
pub fn is_mouse_button_released(event: &Event, button: MouseButton) -> (r: bool)
    ensures
        r == (mouse_button_of(*event) == Some((button, ElementState::Released))),
{
    match get_mouse_button(event) {
        Some((released_button, state)) => released_button == button && state
            == ElementState::Released,
        None => false,
    }
}

/// Whether `event` asks for the window to close.
pub fn is_close_requested(event: &Event) -> (r: bool)
    ensures
        r == (*event == Event::Window(WindowEvent::CloseRequested)),
{
    match event {
        Event::Window(WindowEvent::CloseRequested) => true,
        _ => false,
    }
}

/// Whether `event` presses `key`.
pub fn is_key_down(event: &Event, key: Key) -> (r: bool)
    ensures
        r == (*event == Event::Window(
            WindowEvent::KeyboardInput { key: Some(key), state: ElementState::Pressed },
        )),
{
    match event {
        Event::Window(WindowEvent::KeyboardInput { key: Some(k), state }) => *k == key && *state
            == ElementState::Pressed,
        _ => false,
    }
}

/// Normalizes a raw event into a signal; every other event maps to `None`.
pub fn classify(event: &Event) -> (r: Option<Signal>)
    ensures
        r == signal_of(*event),
{
    if is_key_down(event, Key::Escape) {
        Some(Signal::EscapeDown)
    } else if is_close_requested(event) {
        Some(Signal::CloseRequested)
    } else if is_mouse_button_pressed(event, MouseButton::Left) {
        Some(Signal::LeftButtonDown)
    } else {
        None
    }
}

/// Classifies a batch of events in arrival order, dropping those that carry no
/// signal.
pub fn classify_batch(events: &Vec<Event>) -> (r: Vec<Signal>)
    ensures
        r@ == signals_of(events@),
{
    let mut r: Vec<Signal> = Vec::new();
    let mut i: usize = 0;
    while i < events.len()
        invariant
            i <= events@.len(),
            r@ == signals_of(events@.take(i as int)),
        decreases events@.len() - i,
    {
        proof {
            assert(events@.take(i as int + 1).drop_last() == events@.take(i as int));
        }
        match classify(&events[i]) {
            Some(s) => r.push(s),
            None => {},
        }
        i = i + 1;
    }
    proof {
        assert(events@.take(events@.len() as int) == events@);
    }
    r
}

/// The signals of `events`, in order, skipping events that carry none.
pub open spec fn signals_of(events: Seq<Event>) -> Seq<Signal>
    decreases events.len(),
{
    if events.len() == 0 {
        Seq::empty()
    } else {
        let front = signals_of(events.drop_last());
        match signal_of(events.last()) {
            Some(s) => front.push(s),
            None => front,
        }
    }
}

} // verus!

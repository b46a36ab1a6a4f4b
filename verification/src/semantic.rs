//! The application's side: the events delivered to the embedding application.

use vstd::prelude::*;
use crate::keys::Key;
use crate::modifiers::ScriptKeyModifiers;
use crate::platform::{ElementState, TouchPhase};

verus! {

/// The stage of a scroll gesture, in the application's words.
#[derive(Clone, Copy, Debug, PartialEq, Eq)]
pub enum TouchEventType {
    Down,
    Move,
    Up,
    Cancel,
}

/// What happened to a key.
#[derive(Clone, Copy, Debug, PartialEq, Eq)]
pub enum KeyState {
    Pressed,
    Released,
    Repeated,
}

/// A pointer button, in the application's words.
#[derive(Clone, Copy, Debug, PartialEq, Eq)]
pub enum MouseButton {
    Left,
    Middle,
    Right,
}

/// A pointer-button event with the window position at which it happened.
#[derive(Clone, Copy, Debug, PartialEq, Eq)]
pub enum MouseWindowEvent {
    Click(MouseButton, i32, i32),
    MouseDown(MouseButton, i32, i32),
    MouseUp(MouseButton, i32, i32),
}

/// An event as the application receives it.
#[derive(Clone, Copy, Debug, PartialEq, Eq)]
pub enum ServoWindowEvent {
    /// Nothing is pending: the application may do its own work.
    Idle,
    /// The pointer moved to a window position.
    MouseWindowMoveEventClass(i32, i32),
    /// A scroll gesture at a window position, in a given stage. The distance
    /// scrolled is attached by the caller that holds the platform's event.
    Scroll(i32, i32, TouchEventType),
    /// A pointer button event.
    MouseWindowEventClass(MouseWindowEvent),
    /// A key event: the text it produced if any, the key, what happened to it,
    /// and the logical modifiers held.
    KeyEvent(Option<char>, Key, KeyState, ScriptKeyModifiers),
}

/// The application's word for a gesture stage.
pub open spec fn touch_event_type(phase: TouchPhase) -> TouchEventType {
    match phase {
        TouchPhase::Started => TouchEventType::Down,
        TouchPhase::Moved => TouchEventType::Move,
        TouchPhase::Ended => TouchEventType::Up,
        TouchPhase::Cancelled => TouchEventType::Cancel,
    }
}

/// The application's word for what happened to a key.
pub open spec fn key_state(state: ElementState) -> KeyState {
    match state {
        ElementState::Pressed => KeyState::Pressed,
        ElementState::Released => KeyState::Released,
    }
}

/// Names a gesture stage in the application's vocabulary.
pub fn touch_phase_to_event_type(phase: TouchPhase) -> (result: TouchEventType)
    ensures
        result == touch_event_type(phase),
{
    match phase {
        TouchPhase::Started => TouchEventType::Down,
        TouchPhase::Moved => TouchEventType::Move,
        TouchPhase::Ended => TouchEventType::Up,
        TouchPhase::Cancelled => TouchEventType::Cancel,
    }
}

/// Names a key's state in the application's vocabulary.
pub fn element_state_to_key_state(state: ElementState) -> (result: KeyState)
    ensures
        result == key_state(state),
{
    match state {
        ElementState::Pressed => KeyState::Pressed,
        ElementState::Released => KeyState::Released,
    }
}

} // verus!

//! The window system's side: the events a native window reports.

use vstd::prelude::*;
use crate::keys::VirtualKeyCode;

verus! {

/// Whether a key or button went down or came up.
#[derive(Clone, Copy, Debug, PartialEq, Eq)]
pub enum ElementState {
    Pressed,
    Released,
}

/// A button of the pointing device.
#[derive(Clone, Copy, Debug, PartialEq, Eq)]
pub enum MouseButton {
    Left,
    Right,
    Middle,
    Other(u8),
}

/// The stage of a touch or scroll gesture.
#[derive(Clone, Copy, Debug, PartialEq, Eq)]
pub enum TouchPhase {
    Started,
    Moved,
    Ended,
    Cancelled,
}

/// The hardware's number for a physical key.
pub type ScanCode = u32;

/// An event of one native window. Each variant carries what the translation
/// reads of it; a wheel event's distance stays with the caller, who attaches
/// it to the scroll event that comes back.
#[derive(Clone, Copy, Debug, PartialEq, Eq)]
pub enum WindowEvent {
    /// The window's size changed.
    Resized(u32, u32),
    /// The window's position changed.
    Moved(i32, i32),
    /// The window was asked to close.
    Closed,
    /// The window is gone.
    Destroyed,
    /// A file was dropped on the window.
    DroppedFile,
    /// A file is dragged over the window.
    HoveredFile,
    /// The file dragged over the window was taken away.
    HoveredFileCancelled,
    /// The keyboard produced a character.
    ReceivedCharacter(char),
    /// The window gained or lost focus.
    Focused(bool),
    /// A key went down or came up: its state, its scan code, and its virtual
    /// key code where the platform knows one.
    KeyboardInput(ElementState, ScanCode, Option<VirtualKeyCode>),
    /// The pointer moved to a position inside the window.
    MouseMoved(i32, i32),
    /// The pointer entered the window.
    MouseEntered,
    /// The pointer left the window.
    MouseLeft,
    /// A wheel or touchpad scrolled.
    MouseWheel(TouchPhase),
    /// A pointer button went down or came up.
    MouseInput(ElementState, MouseButton),
    /// Pressure on the touchpad changed.
    TouchpadPressure,
    /// An axis of some input device moved.
    AxisMotion,
    /// The loop was woken from outside.
    Awakened,
    /// The window asks to be redrawn.
    Refresh,
    /// The application was suspended or resumed.
    Suspended(bool),
    /// A finger touched the screen.
    Touch,
    /// The window moved to a screen of another pixel density.
    HiDpiFactorChanged,
}

} // verus!

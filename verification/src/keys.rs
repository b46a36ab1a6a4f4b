//! Key vocabularies: the platform's virtual key codes, the application's key
//! identifiers, and the tables that relate them.

use vstd::prelude::*;
use crate::modifiers::{
    LEFT_ALT, LEFT_CONTROL, LEFT_SHIFT, LEFT_SUPER, RIGHT_ALT, RIGHT_CONTROL, RIGHT_SHIFT,
    RIGHT_SUPER,
};

verus! {

/// A key as the window system names it, independent of the keyboard layout.
#[derive(Clone, Copy, Debug, PartialEq, Eq, Hash)]
pub enum VirtualKeyCode {
    Key1,
    Key2,
    Key3,
    Key4,
    Key5,
    Key6,
    Key7,
    Key8,
    Key9,
    Key0,
    A,
    B,
    C,
    D,
    E,
    F,
    G,
    H,
    I,
    J,
    K,
    L,
    M,
    N,
    O,
    P,
    Q,
    R,
    S,
    T,
    U,
    V,
    W,
    X,
    Y,
    Z,
    Escape,
    F1,
    F2,
    F3,
    F4,
    F5,
    F6,
    F7,
    F8,
    F9,
    F10,
    F11,
    F12,
    F13,
    F14,
    F15,
    F16,
    F17,
    F18,
    F19,
    F20,
    F21,
    F22,
    F23,
    F24,
    Snapshot,
    Scroll,
    Pause,
    Insert,
    Home,
    Delete,
    End,
    PageDown,
    PageUp,
    Left,
    Up,
    Right,
    Down,
    Back,
    Return,
    Space,
    Compose,
    Caret,
    Numlock,
    Numpad0,
    Numpad1,
    Numpad2,
    Numpad3,
    Numpad4,
    Numpad5,
    Numpad6,
    Numpad7,
    Numpad8,
    Numpad9,
    AbntC1,
    AbntC2,
    Add,
    Apostrophe,
    Apps,
    At,
    Ax,
    Backslash,
    Calculator,
    Capital,
    Colon,
    Comma,
    Convert,
    Decimal,
    Divide,
    Equals,
    Grave,
    Kana,
    Kanji,
    LAlt,
    LBracket,
    LControl,
    LMenu,
    LShift,
    LWin,
    Mail,
    MediaSelect,
    MediaStop,
    Minus,
    Multiply,
    Mute,
    MyComputer,
    NavigateForward,
    NavigateBackward,
    NextTrack,
    NoConvert,
    NumpadComma,
    NumpadEnter,
    NumpadEquals,
    OEM102,
    Period,
    PlayPause,
    Power,
    PrevTrack,
    RAlt,
    RBracket,
    RControl,
    RMenu,
    RShift,
    RWin,
    Semicolon,
    Slash,
    Sleep,
    Stop,
    Subtract,
    Sysrq,
    Tab,
    Underline,
    Unlabeled,
    VolumeDown,
    VolumeUp,
    Wake,
    WebBack,
    WebFavorites,
    WebForward,
    WebHome,
    WebRefresh,
    WebSearch,
    WebStop,
    Yen,
    Copy,
    Paste,
    Cut,
}

/// A key as the application names it.
#[derive(Clone, Copy, Debug, PartialEq, Eq, Hash)]
pub enum Key {
    Space,
    Apostrophe,
    Comma,
    Minus,
    Period,
    Slash,
    Num0,
    Num1,
    Num2,
    Num3,
    Num4,
    Num5,
    Num6,
    Num7,
    Num8,
    Num9,
    Semicolon,
    Equal,
    A,
    B,
    C,
    D,
    E,
    F,
    G,
    H,
    I,
    J,
    K,
    L,
    M,
    N,
    O,
    P,
    Q,
    R,
    S,
    T,
    U,
    V,
    W,
    X,
    Y,
    Z,
    LeftBracket,
    Backslash,
    RightBracket,
    GraveAccent,
    World1,
    World2,
    Escape,
    Enter,
    Tab,
    Backspace,
    Insert,
    Delete,
    Right,
    Left,
    Down,
    Up,
    PageUp,
    PageDown,
    Home,
    End,
    CapsLock,
    ScrollLock,
    NumLock,
    PrintScreen,
    Pause,
    F1,
    F2,
    F3,
    F4,
    F5,
    F6,
    F7,
    F8,
    F9,
    F10,
    F11,
    F12,
    F13,
    F14,
    F15,
    F16,
    F17,
    F18,
    F19,
    F20,
    F21,
    F22,
    F23,
    F24,
    F25,
    Kp0,
    Kp1,
    Kp2,
    Kp3,
    Kp4,
    Kp5,
    Kp6,
    Kp7,
    Kp8,
    Kp9,
    KpDecimal,
    KpDivide,
    KpMultiply,
    KpSubtract,
    KpAdd,
    KpEnter,
    KpEqual,
    LeftShift,
    LeftControl,
    LeftAlt,
    LeftSuper,
    RightShift,
    RightControl,
    RightAlt,
    RightSuper,
    Menu,
    NavigateBackward,
    NavigateForward,
}

/// The application's name for a platform key, where it has one.
pub open spec fn script_key(key: VirtualKeyCode) -> Option<Key> {
    match key {
        VirtualKeyCode::A => Some(Key::A),
        VirtualKeyCode::B => Some(Key::B),
        VirtualKeyCode::C => Some(Key::C),
        VirtualKeyCode::D => Some(Key::D),
        VirtualKeyCode::E => Some(Key::E),
        VirtualKeyCode::F => Some(Key::F),
        VirtualKeyCode::G => Some(Key::G),
        VirtualKeyCode::H => Some(Key::H),
        VirtualKeyCode::I => Some(Key::I),
        VirtualKeyCode::J => Some(Key::J),
        VirtualKeyCode::K => Some(Key::K),
        VirtualKeyCode::L => Some(Key::L),
        VirtualKeyCode::M => Some(Key::M),
        VirtualKeyCode::N => Some(Key::N),
        VirtualKeyCode::O => Some(Key::O),
        VirtualKeyCode::P => Some(Key::P),
        VirtualKeyCode::Q => Some(Key::Q),
        VirtualKeyCode::R => Some(Key::R),
        VirtualKeyCode::S => Some(Key::S),
        VirtualKeyCode::T => Some(Key::T),
        VirtualKeyCode::U => Some(Key::U),
        VirtualKeyCode::V => Some(Key::V),
        VirtualKeyCode::W => Some(Key::W),
        VirtualKeyCode::X => Some(Key::X),
        VirtualKeyCode::Y => Some(Key::Y),
        VirtualKeyCode::Z => Some(Key::Z),
        VirtualKeyCode::Numpad0 => Some(Key::Kp0),
        VirtualKeyCode::Numpad1 => Some(Key::Kp1),
        VirtualKeyCode::Numpad2 => Some(Key::Kp2),
        VirtualKeyCode::Numpad3 => Some(Key::Kp3),
        VirtualKeyCode::Numpad4 => Some(Key::Kp4),
        VirtualKeyCode::Numpad5 => Some(Key::Kp5),
        VirtualKeyCode::Numpad6 => Some(Key::Kp6),
        VirtualKeyCode::Numpad7 => Some(Key::Kp7),
        VirtualKeyCode::Numpad8 => Some(Key::Kp8),
        VirtualKeyCode::Numpad9 => Some(Key::Kp9),
        VirtualKeyCode::Key0 => Some(Key::Num0),
        VirtualKeyCode::Key1 => Some(Key::Num1),
        VirtualKeyCode::Key2 => Some(Key::Num2),
        VirtualKeyCode::Key3 => Some(Key::Num3),
        VirtualKeyCode::Key4 => Some(Key::Num4),
        VirtualKeyCode::Key5 => Some(Key::Num5),
        VirtualKeyCode::Key6 => Some(Key::Num6),
        VirtualKeyCode::Key7 => Some(Key::Num7),
        VirtualKeyCode::Key8 => Some(Key::Num8),
        VirtualKeyCode::Key9 => Some(Key::Num9),
        VirtualKeyCode::Return => Some(Key::Enter),
        VirtualKeyCode::Space => Some(Key::Space),
        VirtualKeyCode::Escape => Some(Key::Escape),
        VirtualKeyCode::Equals => Some(Key::Equal),
        VirtualKeyCode::Minus => Some(Key::Minus),
        VirtualKeyCode::Back => Some(Key::Backspace),
        VirtualKeyCode::PageDown => Some(Key::PageDown),
        VirtualKeyCode::PageUp => Some(Key::PageUp),
        VirtualKeyCode::Insert => Some(Key::Insert),
        VirtualKeyCode::Home => Some(Key::Home),
        VirtualKeyCode::Delete => Some(Key::Delete),
        VirtualKeyCode::End => Some(Key::End),
        VirtualKeyCode::Left => Some(Key::Left),
        VirtualKeyCode::Up => Some(Key::Up),
        VirtualKeyCode::Right => Some(Key::Right),
        VirtualKeyCode::Down => Some(Key::Down),
        VirtualKeyCode::LShift => Some(Key::LeftShift),
        VirtualKeyCode::LControl => Some(Key::LeftControl),
        VirtualKeyCode::LAlt => Some(Key::LeftAlt),
        VirtualKeyCode::LWin => Some(Key::LeftSuper),
        VirtualKeyCode::RShift => Some(Key::RightShift),
        VirtualKeyCode::RControl => Some(Key::RightControl),
        VirtualKeyCode::RAlt => Some(Key::RightAlt),
        VirtualKeyCode::RWin => Some(Key::RightSuper),
        VirtualKeyCode::Apostrophe => Some(Key::Apostrophe),
        VirtualKeyCode::Backslash => Some(Key::Backslash),
        VirtualKeyCode::Comma => Some(Key::Comma),
        VirtualKeyCode::Grave => Some(Key::GraveAccent),
        VirtualKeyCode::LBracket => Some(Key::LeftBracket),
        VirtualKeyCode::Period => Some(Key::Period),
        VirtualKeyCode::RBracket => Some(Key::RightBracket),
        VirtualKeyCode::Semicolon => Some(Key::Semicolon),
        VirtualKeyCode::Slash => Some(Key::Slash),
        VirtualKeyCode::Tab => Some(Key::Tab),
        VirtualKeyCode::Subtract => Some(Key::Minus),
        VirtualKeyCode::F1 => Some(Key::F1),
        VirtualKeyCode::F2 => Some(Key::F2),
        VirtualKeyCode::F3 => Some(Key::F3),
        VirtualKeyCode::F4 => Some(Key::F4),
        VirtualKeyCode::F5 => Some(Key::F5),
        VirtualKeyCode::F6 => Some(Key::F6),
        VirtualKeyCode::F7 => Some(Key::F7),
        VirtualKeyCode::F8 => Some(Key::F8),
        VirtualKeyCode::F9 => Some(Key::F9),
        VirtualKeyCode::F10 => Some(Key::F10),
        VirtualKeyCode::F11 => Some(Key::F11),
        VirtualKeyCode::F12 => Some(Key::F12),
        VirtualKeyCode::NavigateBackward => Some(Key::NavigateBackward),
        VirtualKeyCode::NavigateForward => Some(Key::NavigateForward),
        _ => None,
    }
}

/// Whether a platform key is one of the function keys that never produce
/// text.
pub open spec fn is_function_key(key: VirtualKeyCode) -> bool {
    match key {
        VirtualKeyCode::F1 | VirtualKeyCode::F2 | VirtualKeyCode::F3 | VirtualKeyCode::F4
        | VirtualKeyCode::F5 | VirtualKeyCode::F6 | VirtualKeyCode::F7 | VirtualKeyCode::F8
        | VirtualKeyCode::F9 | VirtualKeyCode::F10 | VirtualKeyCode::F11 | VirtualKeyCode::F12
        | VirtualKeyCode::F13 | VirtualKeyCode::F14 | VirtualKeyCode::F15 => true,
        _ => false,
    }
}

/// Whether a platform key controls the session rather than the text: escape,
/// print screen, scroll lock and pause.
pub open spec fn is_system_key(key: VirtualKeyCode) -> bool {
    match key {
        VirtualKeyCode::Escape | VirtualKeyCode::Snapshot | VirtualKeyCode::Scroll
        | VirtualKeyCode::Pause => true,
        _ => false,
    }
}

/// Whether a platform key moves the caret or edits without producing text.
pub open spec fn is_navigation_key(key: VirtualKeyCode) -> bool {
    match key {
        VirtualKeyCode::Insert | VirtualKeyCode::Home | VirtualKeyCode::Delete
        | VirtualKeyCode::End | VirtualKeyCode::PageDown | VirtualKeyCode::PageUp
        | VirtualKeyCode::Left | VirtualKeyCode::Up | VirtualKeyCode::Right
        | VirtualKeyCode::Down | VirtualKeyCode::Back => true,
        _ => false,
    }
}

/// Whether a platform key is a modifier: alt, control, menu, shift or super,
/// on either side.
pub open spec fn is_modifier_key(key: VirtualKeyCode) -> bool {
    match key {
        VirtualKeyCode::LAlt | VirtualKeyCode::LControl | VirtualKeyCode::LMenu
        | VirtualKeyCode::LShift | VirtualKeyCode::LWin | VirtualKeyCode::RAlt
        | VirtualKeyCode::RControl | VirtualKeyCode::RMenu | VirtualKeyCode::RShift
        | VirtualKeyCode::RWin => true,
        _ => false,
    }
}

/// Whether a platform key is a media, power, mail or browser key.
pub open spec fn is_media_key(key: VirtualKeyCode) -> bool {
    match key {
        VirtualKeyCode::Mail | VirtualKeyCode::MediaSelect | VirtualKeyCode::MediaStop
        | VirtualKeyCode::Mute | VirtualKeyCode::MyComputer | VirtualKeyCode::NavigateForward
        | VirtualKeyCode::NavigateBackward | VirtualKeyCode::NextTrack
        | VirtualKeyCode::NoConvert | VirtualKeyCode::PlayPause | VirtualKeyCode::Power
        | VirtualKeyCode::PrevTrack | VirtualKeyCode::Sleep | VirtualKeyCode::Stop
        | VirtualKeyCode::VolumeDown | VirtualKeyCode::VolumeUp | VirtualKeyCode::Wake
        | VirtualKeyCode::WebBack | VirtualKeyCode::WebFavorites | VirtualKeyCode::WebForward
        | VirtualKeyCode::WebHome | VirtualKeyCode::WebRefresh | VirtualKeyCode::WebSearch
        | VirtualKeyCode::WebStop => true,
        _ => false,
    }
}

/// Whether a platform key produces text: every key does, except the function,
/// system, navigation, modifier and media keys.
pub open spec fn printable(key: VirtualKeyCode) -> bool {
    !is_function_key(key) && !is_system_key(key) && !is_navigation_key(key) && !is_modifier_key(
        key,
    ) && !is_media_key(key)
}

/// The bit of the physical modifier key that a platform key stands for, if it
/// is a modifier key.
pub open spec fn modifier_bit(key: VirtualKeyCode) -> Option<u8> {
    match key {
        VirtualKeyCode::LControl => Some(LEFT_CONTROL),
        VirtualKeyCode::RControl => Some(RIGHT_CONTROL),
        VirtualKeyCode::LShift => Some(LEFT_SHIFT),
        VirtualKeyCode::RShift => Some(RIGHT_SHIFT),
        VirtualKeyCode::LAlt => Some(LEFT_ALT),
        VirtualKeyCode::RAlt => Some(RIGHT_ALT),
        VirtualKeyCode::LWin => Some(LEFT_SUPER),
        VirtualKeyCode::RWin => Some(RIGHT_SUPER),
        _ => None,
    }
}

/// Names a platform key in the application's vocabulary. Keys that the
/// application has no name for are refused.
pub fn glutin_key_to_script_key(key: VirtualKeyCode) -> (result: Result<Key, ()>)
    ensures
        result == match script_key(key) {
            Some(k) => Ok::<Key, ()>(k),
            None => Err::<Key, ()>(()),
        },
{
    match key {
        // letters
        VirtualKeyCode::A => Ok(Key::A),
        VirtualKeyCode::B => Ok(Key::B),
        VirtualKeyCode::C => Ok(Key::C),
        VirtualKeyCode::D => Ok(Key::D),
        VirtualKeyCode::E => Ok(Key::E),
        VirtualKeyCode::F => Ok(Key::F),
        VirtualKeyCode::G => Ok(Key::G),
        VirtualKeyCode::H => Ok(Key::H),
        VirtualKeyCode::I => Ok(Key::I),
        VirtualKeyCode::J => Ok(Key::J),
        VirtualKeyCode::K => Ok(Key::K),
        VirtualKeyCode::L => Ok(Key::L),
        VirtualKeyCode::M => Ok(Key::M),
        VirtualKeyCode::N => Ok(Key::N),
        VirtualKeyCode::O => Ok(Key::O),
        VirtualKeyCode::P => Ok(Key::P),
        VirtualKeyCode::Q => Ok(Key::Q),
        VirtualKeyCode::R => Ok(Key::R),
        VirtualKeyCode::S => Ok(Key::S),
        VirtualKeyCode::T => Ok(Key::T),
        VirtualKeyCode::U => Ok(Key::U),
        VirtualKeyCode::V => Ok(Key::V),
        VirtualKeyCode::W => Ok(Key::W),
        VirtualKeyCode::X => Ok(Key::X),
        VirtualKeyCode::Y => Ok(Key::Y),
        VirtualKeyCode::Z => Ok(Key::Z),
        // keypad digits
        VirtualKeyCode::Numpad0 => Ok(Key::Kp0),
        VirtualKeyCode::Numpad1 => Ok(Key::Kp1),
        VirtualKeyCode::Numpad2 => Ok(Key::Kp2),
        VirtualKeyCode::Numpad3 => Ok(Key::Kp3),
        VirtualKeyCode::Numpad4 => Ok(Key::Kp4),
        VirtualKeyCode::Numpad5 => Ok(Key::Kp5),
        VirtualKeyCode::Numpad6 => Ok(Key::Kp6),
        VirtualKeyCode::Numpad7 => Ok(Key::Kp7),
        VirtualKeyCode::Numpad8 => Ok(Key::Kp8),
        VirtualKeyCode::Numpad9 => Ok(Key::Kp9),
        // digit row
        VirtualKeyCode::Key0 => Ok(Key::Num0),
        VirtualKeyCode::Key1 => Ok(Key::Num1),
        VirtualKeyCode::Key2 => Ok(Key::Num2),
        VirtualKeyCode::Key3 => Ok(Key::Num3),
        VirtualKeyCode::Key4 => Ok(Key::Num4),
        VirtualKeyCode::Key5 => Ok(Key::Num5),
        VirtualKeyCode::Key6 => Ok(Key::Num6),
        VirtualKeyCode::Key7 => Ok(Key::Num7),
        VirtualKeyCode::Key8 => Ok(Key::Num8),
        VirtualKeyCode::Key9 => Ok(Key::Num9),
        // editing and whitespace
        VirtualKeyCode::Return => Ok(Key::Enter),
        VirtualKeyCode::Space => Ok(Key::Space),
        VirtualKeyCode::Escape => Ok(Key::Escape),
        VirtualKeyCode::Equals => Ok(Key::Equal),
        VirtualKeyCode::Minus => Ok(Key::Minus),
        VirtualKeyCode::Back => Ok(Key::Backspace),
        VirtualKeyCode::PageDown => Ok(Key::PageDown),
        VirtualKeyCode::PageUp => Ok(Key::PageUp),
        // navigation block
        VirtualKeyCode::Insert => Ok(Key::Insert),
        VirtualKeyCode::Home => Ok(Key::Home),
        VirtualKeyCode::Delete => Ok(Key::Delete),
        VirtualKeyCode::End => Ok(Key::End),
        // arrows
        VirtualKeyCode::Left => Ok(Key::Left),
        VirtualKeyCode::Up => Ok(Key::Up),
        VirtualKeyCode::Right => Ok(Key::Right),
        VirtualKeyCode::Down => Ok(Key::Down),
        // modifier keys
        VirtualKeyCode::LShift => Ok(Key::LeftShift),
        VirtualKeyCode::LControl => Ok(Key::LeftControl),
        VirtualKeyCode::LAlt => Ok(Key::LeftAlt),
        VirtualKeyCode::LWin => Ok(Key::LeftSuper),
        VirtualKeyCode::RShift => Ok(Key::RightShift),
        VirtualKeyCode::RControl => Ok(Key::RightControl),
        VirtualKeyCode::RAlt => Ok(Key::RightAlt),
        VirtualKeyCode::RWin => Ok(Key::RightSuper),
        // punctuation
        VirtualKeyCode::Apostrophe => Ok(Key::Apostrophe),
        VirtualKeyCode::Backslash => Ok(Key::Backslash),
        VirtualKeyCode::Comma => Ok(Key::Comma),
        VirtualKeyCode::Grave => Ok(Key::GraveAccent),
        VirtualKeyCode::LBracket => Ok(Key::LeftBracket),
        VirtualKeyCode::Period => Ok(Key::Period),
        VirtualKeyCode::RBracket => Ok(Key::RightBracket),
        VirtualKeyCode::Semicolon => Ok(Key::Semicolon),
        VirtualKeyCode::Slash => Ok(Key::Slash),
        VirtualKeyCode::Tab => Ok(Key::Tab),
        VirtualKeyCode::Subtract => Ok(Key::Minus),
        // function keys
        VirtualKeyCode::F1 => Ok(Key::F1),
        VirtualKeyCode::F2 => Ok(Key::F2),
        VirtualKeyCode::F3 => Ok(Key::F3),
        VirtualKeyCode::F4 => Ok(Key::F4),
        VirtualKeyCode::F5 => Ok(Key::F5),
        VirtualKeyCode::F6 => Ok(Key::F6),
        VirtualKeyCode::F7 => Ok(Key::F7),
        VirtualKeyCode::F8 => Ok(Key::F8),
        VirtualKeyCode::F9 => Ok(Key::F9),
        VirtualKeyCode::F10 => Ok(Key::F10),
        VirtualKeyCode::F11 => Ok(Key::F11),
        VirtualKeyCode::F12 => Ok(Key::F12),
        // browser navigation
        VirtualKeyCode::NavigateBackward => Ok(Key::NavigateBackward),
        VirtualKeyCode::NavigateForward => Ok(Key::NavigateForward),
        _ => Err(()),
    }
}

/// Whether a platform key produces text.
pub fn is_printable(key_code: VirtualKeyCode) -> (result: bool)
    ensures
        result == printable(key_code),
{
    match key_code {
        VirtualKeyCode::Escape | VirtualKeyCode::F1 | VirtualKeyCode::F2 | VirtualKeyCode::F3
        | VirtualKeyCode::F4 | VirtualKeyCode::F5 | VirtualKeyCode::F6 | VirtualKeyCode::F7
        | VirtualKeyCode::F8 | VirtualKeyCode::F9 | VirtualKeyCode::F10 | VirtualKeyCode::F11
        | VirtualKeyCode::F12 | VirtualKeyCode::F13 | VirtualKeyCode::F14 | VirtualKeyCode::F15
        | VirtualKeyCode::Snapshot | VirtualKeyCode::Scroll | VirtualKeyCode::Pause
        | VirtualKeyCode::Insert | VirtualKeyCode::Home | VirtualKeyCode::Delete
        | VirtualKeyCode::End | VirtualKeyCode::PageDown | VirtualKeyCode::PageUp
        | VirtualKeyCode::Left | VirtualKeyCode::Up | VirtualKeyCode::Right
        | VirtualKeyCode::Down | VirtualKeyCode::Back | VirtualKeyCode::LAlt
        | VirtualKeyCode::LControl | VirtualKeyCode::LMenu | VirtualKeyCode::LShift
        | VirtualKeyCode::LWin | VirtualKeyCode::Mail | VirtualKeyCode::MediaSelect
        | VirtualKeyCode::MediaStop | VirtualKeyCode::Mute | VirtualKeyCode::MyComputer
        | VirtualKeyCode::NavigateForward | VirtualKeyCode::NavigateBackward
        | VirtualKeyCode::NextTrack | VirtualKeyCode::NoConvert | VirtualKeyCode::PlayPause
        | VirtualKeyCode::Power | VirtualKeyCode::PrevTrack | VirtualKeyCode::RAlt
        | VirtualKeyCode::RControl | VirtualKeyCode::RMenu | VirtualKeyCode::RShift
        | VirtualKeyCode::RWin | VirtualKeyCode::Sleep | VirtualKeyCode::Stop
        | VirtualKeyCode::VolumeDown | VirtualKeyCode::VolumeUp | VirtualKeyCode::Wake
        | VirtualKeyCode::WebBack | VirtualKeyCode::WebFavorites | VirtualKeyCode::WebForward
        | VirtualKeyCode::WebHome | VirtualKeyCode::WebRefresh | VirtualKeyCode::WebSearch
        | VirtualKeyCode::WebStop => false,
        _ => true,
    }
}

/// Keeps a character only if the key that produced it is a printable one.
pub fn filter_nonprintable(ch: char, key_code: VirtualKeyCode) -> (result: Option<char>)
    ensures
        result == (if printable(key_code) { Some(ch) } else { None }),
{
    if is_printable(key_code) {
        Some(ch)
    } else {
        None
    }
}

/// The bit of the physical modifier key behind a platform key, or `None` for a
/// key that is no modifier.
pub fn modifier_for_key(key: VirtualKeyCode) -> (result: Option<u8>)
    ensures
        result == modifier_bit(key),
{
    match key {
        VirtualKeyCode::LControl => Some(LEFT_CONTROL),
        VirtualKeyCode::RControl => Some(RIGHT_CONTROL),
        VirtualKeyCode::LShift => Some(LEFT_SHIFT),
        VirtualKeyCode::RShift => Some(RIGHT_SHIFT),
        VirtualKeyCode::LAlt => Some(LEFT_ALT),
        VirtualKeyCode::RAlt => Some(RIGHT_ALT),
        VirtualKeyCode::LWin => Some(LEFT_SUPER),
        VirtualKeyCode::RWin => Some(RIGHT_SUPER),
        _ => None,
    }
}

/// Two different platform keys share an application name only in one case: the
/// minus key and the keypad's subtract key are both reported as minus.
pub proof fn lemma_script_key_collisions(a: VirtualKeyCode, b: VirtualKeyCode)
    requires
        script_key(a).is_some(),
        script_key(a) == script_key(b),
    ensures
        a == b || (a == VirtualKeyCode::Minus && b == VirtualKeyCode::Subtract) || (a
            == VirtualKeyCode::Subtract && b == VirtualKeyCode::Minus),
{
}

/// A key with a modifier bit is a modifier key: it never produces text, and it
/// always has an application name. The eight such keys have eight different
/// bits, no two of which overlap.
pub proof fn lemma_modifier_keys(a: VirtualKeyCode, b: VirtualKeyCode)
    requires
        modifier_bit(a).is_some(),
    ensures
        is_modifier_key(a),
        !printable(a),
        script_key(a).is_some(),
        modifier_bit(a).unwrap() != 0,
        modifier_bit(b).is_some() && a != b ==> modifier_bit(a).unwrap() & modifier_bit(
            b,
        ).unwrap() == 0,
{
    assert(forall|x: u8, y: u8|
        (x == 1 || x == 2 || x == 4 || x == 8 || x == 16 || x == 32 || x == 64 || x == 128) && (y
            == 1 || y == 2 || y == 4 || y == 8 || y == 16 || y == 32 || y == 64 || y == 128) && x
            != y ==> #[trigger] (x & y) == 0) by (bit_vector);
}

} // verus!

use window_adapter::cursor::{servo_cursor_to_glutin_cursor, MouseCursor, ServoCursor};
use window_adapter::keys::{
    filter_nonprintable, glutin_key_to_script_key, is_printable, modifier_for_key, Key,
    VirtualKeyCode,
};
use window_adapter::modifiers::{
    glutin_mods_to_script_mods, KeyModifiers, ScriptKeyModifiers, ALT, CONTROL, LEFT_ALT,
    LEFT_CONTROL, LEFT_SHIFT, LEFT_SUPER, RIGHT_ALT, RIGHT_CONTROL, RIGHT_SHIFT, RIGHT_SUPER,
    SHIFT, SUPER,
};
use window_adapter::platform::{ElementState, TouchPhase};
use window_adapter::semantic::{
    element_state_to_key_state, touch_phase_to_event_type, KeyState, TouchEventType,
};

#[test]
fn letters_and_digits_keep_their_identity() {
    assert_eq!(glutin_key_to_script_key(VirtualKeyCode::A), Ok(Key::A));
    assert_eq!(glutin_key_to_script_key(VirtualKeyCode::Z), Ok(Key::Z));
    assert_eq!(glutin_key_to_script_key(VirtualKeyCode::Key0), Ok(Key::Num0));
    assert_eq!(glutin_key_to_script_key(VirtualKeyCode::Key9), Ok(Key::Num9));
    assert_eq!(glutin_key_to_script_key(VirtualKeyCode::Numpad0), Ok(Key::Kp0));
    assert_eq!(glutin_key_to_script_key(VirtualKeyCode::Numpad7), Ok(Key::Kp7));
}

#[test]
fn renamed_keys_map_to_their_application_names() {
    assert_eq!(glutin_key_to_script_key(VirtualKeyCode::Return), Ok(Key::Enter));
    assert_eq!(glutin_key_to_script_key(VirtualKeyCode::Back), Ok(Key::Backspace));
    assert_eq!(glutin_key_to_script_key(VirtualKeyCode::Equals), Ok(Key::Equal));
    assert_eq!(glutin_key_to_script_key(VirtualKeyCode::Grave), Ok(Key::GraveAccent));
    assert_eq!(glutin_key_to_script_key(VirtualKeyCode::LBracket), Ok(Key::LeftBracket));
    assert_eq!(glutin_key_to_script_key(VirtualKeyCode::RBracket), Ok(Key::RightBracket));
    assert_eq!(glutin_key_to_script_key(VirtualKeyCode::LWin), Ok(Key::LeftSuper));
    assert_eq!(glutin_key_to_script_key(VirtualKeyCode::RWin), Ok(Key::RightSuper));
    assert_eq!(glutin_key_to_script_key(VirtualKeyCode::LControl), Ok(Key::LeftControl));
    assert_eq!(glutin_key_to_script_key(VirtualKeyCode::RAlt), Ok(Key::RightAlt));
    assert_eq!(glutin_key_to_script_key(VirtualKeyCode::F12), Ok(Key::F12));
    assert_eq!(
        glutin_key_to_script_key(VirtualKeyCode::NavigateBackward),
        Ok(Key::NavigateBackward)
    );
}

#[test]
fn minus_and_subtract_are_both_minus() {
    assert_eq!(glutin_key_to_script_key(VirtualKeyCode::Minus), Ok(Key::Minus));
    assert_eq!(glutin_key_to_script_key(VirtualKeyCode::Subtract), Ok(Key::Minus));
}

#[test]
fn keys_without_an_application_name_are_refused() {
    assert_eq!(glutin_key_to_script_key(VirtualKeyCode::F13), Err(()));
    assert_eq!(glutin_key_to_script_key(VirtualKeyCode::Numlock), Err(()));
    assert_eq!(glutin_key_to_script_key(VirtualKeyCode::Capital), Err(()));
    assert_eq!(glutin_key_to_script_key(VirtualKeyCode::VolumeUp), Err(()));
    assert_eq!(glutin_key_to_script_key(VirtualKeyCode::NumpadEnter), Err(()));
    assert_eq!(glutin_key_to_script_key(VirtualKeyCode::LMenu), Err(()));
    assert_eq!(glutin_key_to_script_key(VirtualKeyCode::Add), Err(()));
    assert_eq!(glutin_key_to_script_key(VirtualKeyCode::F24), Err(()));
    assert_eq!(glutin_key_to_script_key(VirtualKeyCode::Compose), Err(()));
}

#[test]
fn text_keys_are_printable() {
    assert!(is_printable(VirtualKeyCode::A));
    assert!(is_printable(VirtualKeyCode::Key1));
    assert!(is_printable(VirtualKeyCode::Space));
    assert!(is_printable(VirtualKeyCode::Return));
    assert!(is_printable(VirtualKeyCode::Tab));
    assert!(is_printable(VirtualKeyCode::Numpad5));
    assert!(is_printable(VirtualKeyCode::Semicolon));
    assert!(is_printable(VirtualKeyCode::Yen));
    assert!(is_printable(VirtualKeyCode::NumpadEnter));
    assert!(is_printable(VirtualKeyCode::Capital));
}

#[test]
fn control_function_and_navigation_keys_are_not_printable() {
    assert!(!is_printable(VirtualKeyCode::Escape));
    assert!(!is_printable(VirtualKeyCode::F1));
    assert!(!is_printable(VirtualKeyCode::F15));
    assert!(!is_printable(VirtualKeyCode::Back));
    assert!(!is_printable(VirtualKeyCode::Delete));
    assert!(!is_printable(VirtualKeyCode::Left));
    assert!(!is_printable(VirtualKeyCode::PageUp));
    assert!(!is_printable(VirtualKeyCode::LShift));
    assert!(!is_printable(VirtualKeyCode::RWin));
    assert!(!is_printable(VirtualKeyCode::LMenu));
    assert!(!is_printable(VirtualKeyCode::WebStop));
    assert!(!is_printable(VirtualKeyCode::VolumeDown));
}

#[test]
fn filter_keeps_text_of_printable_keys_only() {
    assert_eq!(filter_nonprintable('x', VirtualKeyCode::X), Some('x'));
    assert_eq!(filter_nonprintable('\u{e9}', VirtualKeyCode::E), Some('\u{e9}'));
    assert_eq!(filter_nonprintable('x', VirtualKeyCode::Escape), None);
    assert_eq!(filter_nonprintable('\u{8}', VirtualKeyCode::Back), None);
}

#[test]
fn modifier_keys_have_their_own_bits() {
    assert_eq!(modifier_for_key(VirtualKeyCode::LControl), Some(1));
    assert_eq!(modifier_for_key(VirtualKeyCode::RControl), Some(2));
    assert_eq!(modifier_for_key(VirtualKeyCode::LShift), Some(4));
    assert_eq!(modifier_for_key(VirtualKeyCode::RShift), Some(8));
    assert_eq!(modifier_for_key(VirtualKeyCode::LAlt), Some(16));
    assert_eq!(modifier_for_key(VirtualKeyCode::RAlt), Some(32));
    assert_eq!(modifier_for_key(VirtualKeyCode::LWin), Some(64));
    assert_eq!(modifier_for_key(VirtualKeyCode::RWin), Some(128));
    assert_eq!(modifier_for_key(VirtualKeyCode::LMenu), None);
    assert_eq!(modifier_for_key(VirtualKeyCode::A), None);
}

#[test]
fn modifier_constants_have_their_values() {
    assert_eq!(
        [
            LEFT_CONTROL,
            RIGHT_CONTROL,
            LEFT_SHIFT,
            RIGHT_SHIFT,
            LEFT_ALT,
            RIGHT_ALT,
            LEFT_SUPER,
            RIGHT_SUPER
        ],
        [1, 2, 4, 8, 16, 32, 64, 128]
    );
    assert_eq!([SHIFT, CONTROL, ALT, SUPER], [1, 2, 4, 8]);
}

#[test]
fn no_held_key_gives_no_logical_modifier() {
    let mods = glutin_mods_to_script_mods(KeyModifiers::empty());
    assert_eq!(mods, ScriptKeyModifiers::empty());
    assert_eq!(mods.bits(), 0);
    assert!(mods.is_empty());
}

#[test]
fn either_side_gives_the_logical_modifier() {
    assert_eq!(glutin_mods_to_script_mods(KeyModifiers::from_bits(LEFT_SHIFT)).bits(), SHIFT);
    assert_eq!(glutin_mods_to_script_mods(KeyModifiers::from_bits(RIGHT_SHIFT)).bits(), SHIFT);
    assert_eq!(glutin_mods_to_script_mods(KeyModifiers::from_bits(LEFT_CONTROL)).bits(), CONTROL);
    assert_eq!(glutin_mods_to_script_mods(KeyModifiers::from_bits(RIGHT_CONTROL)).bits(), CONTROL);
    assert_eq!(glutin_mods_to_script_mods(KeyModifiers::from_bits(LEFT_ALT)).bits(), ALT);
    assert_eq!(glutin_mods_to_script_mods(KeyModifiers::from_bits(RIGHT_ALT)).bits(), ALT);
    assert_eq!(glutin_mods_to_script_mods(KeyModifiers::from_bits(LEFT_SUPER)).bits(), SUPER);
    assert_eq!(glutin_mods_to_script_mods(KeyModifiers::from_bits(RIGHT_SUPER)).bits(), SUPER);
}

#[test]
fn both_sides_give_the_logical_modifier_once() {
    let held = KeyModifiers::from_bits(LEFT_SHIFT | RIGHT_SHIFT | RIGHT_ALT);
    let mods = glutin_mods_to_script_mods(held);
    assert_eq!(mods.bits(), 5);
    assert!(mods.contains(SHIFT));
    assert!(mods.contains(ALT));
    assert!(!mods.contains(CONTROL));
    assert!(!mods.contains(SUPER));
    assert_eq!(glutin_mods_to_script_mods(KeyModifiers::from_bits(255)).bits(), 15);
}

#[test]
fn every_set_of_held_keys_collapses_bit_by_bit() {
    for bits in 0..=255u8 {
        let mods = glutin_mods_to_script_mods(KeyModifiers::from_bits(bits));
        assert!(mods.bits() <= 15);
        assert_eq!(mods.contains(SHIFT), bits & (LEFT_SHIFT | RIGHT_SHIFT) != 0);
        assert_eq!(mods.contains(CONTROL), bits & (LEFT_CONTROL | RIGHT_CONTROL) != 0);
        assert_eq!(mods.contains(ALT), bits & (LEFT_ALT | RIGHT_ALT) != 0);
        assert_eq!(mods.contains(SUPER), bits & (LEFT_SUPER | RIGHT_SUPER) != 0);
    }
}

#[test]
fn toggling_twice_restores_the_set() {
    let mut held = KeyModifiers::from_bits(LEFT_ALT);
    held.toggle(LEFT_SHIFT);
    assert_eq!(held.bits(), 20);
    assert!(held.contains(LEFT_SHIFT));
    assert!(held.intersects(LEFT_SHIFT | RIGHT_SHIFT));
    assert!(!held.contains(LEFT_SHIFT | RIGHT_SHIFT));
    held.toggle(LEFT_SHIFT);
    assert_eq!(held, KeyModifiers::from_bits(LEFT_ALT));
    held.toggle(LEFT_ALT);
    assert!(held.is_empty());
}

#[test]
fn script_modifiers_collect_inserted_bits() {
    let mut mods = ScriptKeyModifiers::empty();
    mods.insert(CONTROL);
    mods.insert(SUPER);
    mods.insert(CONTROL);
    assert_eq!(mods.bits(), 10);
    assert!(mods.contains(CONTROL | SUPER));
    assert!(!mods.contains(SHIFT));
}

#[test]
fn cursors_map_to_platform_shapes() {
    assert_eq!(servo_cursor_to_glutin_cursor(ServoCursor::NoCursor), MouseCursor::NoneCursor);
    assert_eq!(servo_cursor_to_glutin_cursor(ServoCursor::Default), MouseCursor::Default);
    assert_eq!(servo_cursor_to_glutin_cursor(ServoCursor::Pointer), MouseCursor::Hand);
    assert_eq!(servo_cursor_to_glutin_cursor(ServoCursor::Text), MouseCursor::Text);
    assert_eq!(servo_cursor_to_glutin_cursor(ServoCursor::Grabbing), MouseCursor::Grabbing);
    assert_eq!(servo_cursor_to_glutin_cursor(ServoCursor::NwseResize), MouseCursor::NwseResize);
    assert_eq!(servo_cursor_to_glutin_cursor(ServoCursor::RowResize), MouseCursor::RowResize);
    assert_eq!(servo_cursor_to_glutin_cursor(ServoCursor::ZoomOut), MouseCursor::ZoomOut);
}

#[test]
fn no_cursor_maps_to_the_plain_arrow() {
    let all = [
        ServoCursor::NoCursor,
        ServoCursor::Default,
        ServoCursor::Pointer,
        ServoCursor::ContextMenu,
        ServoCursor::Help,
        ServoCursor::Progress,
        ServoCursor::Wait,
        ServoCursor::Cell,
        ServoCursor::Crosshair,
        ServoCursor::Text,
        ServoCursor::VerticalText,
        ServoCursor::Alias,
        ServoCursor::Copy,
        ServoCursor::Move,
        ServoCursor::NoDrop,
        ServoCursor::NotAllowed,
        ServoCursor::Grab,
        ServoCursor::Grabbing,
        ServoCursor::EResize,
        ServoCursor::NResize,
        ServoCursor::NeResize,
        ServoCursor::NwResize,
        ServoCursor::SResize,
        ServoCursor::SeResize,
        ServoCursor::SwResize,
        ServoCursor::WResize,
        ServoCursor::EwResize,
        ServoCursor::NsResize,
        ServoCursor::NeswResize,
        ServoCursor::NwseResize,
        ServoCursor::ColResize,
        ServoCursor::RowResize,
        ServoCursor::AllScroll,
        ServoCursor::ZoomIn,
        ServoCursor::ZoomOut,
    ];
    for (i, a) in all.iter().enumerate() {
        assert_ne!(servo_cursor_to_glutin_cursor(*a), MouseCursor::Arrow);
        for b in all.iter().skip(i + 1) {
            assert_ne!(servo_cursor_to_glutin_cursor(*a), servo_cursor_to_glutin_cursor(*b));
        }
    }
}

#[test]
fn gesture_stages_and_key_states_are_renamed() {
    assert_eq!(touch_phase_to_event_type(TouchPhase::Started), TouchEventType::Down);
    assert_eq!(touch_phase_to_event_type(TouchPhase::Moved), TouchEventType::Move);
    assert_eq!(touch_phase_to_event_type(TouchPhase::Ended), TouchEventType::Up);
    assert_eq!(touch_phase_to_event_type(TouchPhase::Cancelled), TouchEventType::Cancel);
    assert_eq!(element_state_to_key_state(ElementState::Pressed), KeyState::Pressed);
    assert_eq!(element_state_to_key_state(ElementState::Released), KeyState::Released);
}

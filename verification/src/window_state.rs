//! What a window remembers between events, and the translation of its
//! platform events into application events.

use vstd::prelude::*;
use crate::keys::{
    filter_nonprintable, glutin_key_to_script_key, modifier_bit, modifier_for_key, printable,
    script_key, VirtualKeyCode,
};
use crate::modifiers::{glutin_mods_to_script_mods, script_mods, KeyModifiers};
use crate::platform::{ElementState, MouseButton, ScanCode, WindowEvent};
use crate::semantic::{
    element_state_to_key_state, key_state, touch_event_type, touch_phase_to_event_type,
    MouseWindowEvent, ServoWindowEvent,
};

verus! {

/// Whether a character is a control code: one of the C0 controls, delete, or
/// one of the C1 controls. These are the code points of Unicode's general
/// category Cc.
pub open spec fn is_control_code(ch: char) -> bool {
    ch as u32 <= 0x1f || (0x7f <= ch as u32 && ch as u32 <= 0x9f)
}

/// Calls `char::is_control`. The contract states that the call reports
/// membership in Unicode's general category Cc, which Unicode fixes as the code
/// points U+0000 to U+001F and U+007F to U+009F. Verus takes this on trust.
#[verifier::external_body]
fn char_is_control(ch: char) -> (result: bool)
    ensures
        result == is_control_code(ch),
{
    ch.is_control()
}

/// The state of a window as contracts see it.
pub struct WindowStateView {
    /// Where the pointer was last seen.
    pub mouse_position: (i32, i32),
    /// The physical modifier keys that are held.
    pub key_modifiers: KeyModifiers,
    /// The character the keyboard produced that no key press has claimed yet.
    pub pending_key_event_char: Option<char>,
    /// The keys that are down and produced text: scan code and character, in
    /// the order the window keeps them.
    pub pressed_key_map: Seq<(ScanCode, char)>,
}

/// What a window remembers between events.
#[derive(Debug)]
pub struct WindowState {
    mouse_position: (i32, i32),
    key_modifiers: KeyModifiers,
    pending_key_event_char: Option<char>,
    pressed_key_map: Vec<(ScanCode, char)>,
}

impl View for WindowState {
    type V = WindowStateView;

    closed spec fn view(&self) -> WindowStateView {
        WindowStateView {
            mouse_position: self.mouse_position,
            key_modifiers: self.key_modifiers,
            pending_key_event_char: self.pending_key_event_char,
            pressed_key_map: self.pressed_key_map@,
        }
    }
}

/// The state of a window that has seen no event: the pointer at the origin, no
/// modifier held, no character pending, no key down.
pub open spec fn initial_state() -> WindowStateView {
    WindowStateView {
        mouse_position: (0i32, 0i32),
        key_modifiers: KeyModifiers { bits: 0 },
        pending_key_event_char: None,
        pressed_key_map: Seq::empty(),
    }
}

/// The first index at or after `start` whose entry has the scan code, if there
/// is one.
pub open spec fn first_pressed_from(
    keys: Seq<(ScanCode, char)>,
    scan_code: ScanCode,
    start: int,
) -> Option<int>
    decreases keys.len() - start,
{
    if start < 0 || start >= keys.len() {
        None
    } else if keys[start].0 == scan_code {
        Some(start)
    } else {
        first_pressed_from(keys, scan_code, start + 1)
    }
}

/// The first entry with the scan code, if there is one.
pub open spec fn first_pressed(keys: Seq<(ScanCode, char)>, scan_code: ScanCode) -> Option<int> {
    first_pressed_from(keys, scan_code, 0)
}

/// The character recorded for the first entry with the scan code, if there is
/// such an entry.
pub open spec fn recorded_char(keys: Seq<(ScanCode, char)>, scan_code: ScanCode) -> Option<char> {
    match first_pressed(keys, scan_code) {
        Some(i) => Some(keys[i].1),
        None => None,
    }
}

/// The held modifier keys after an event of a key: a modifier key flips its
/// own bit, on the way down and on the way up; any other key changes nothing.
pub open spec fn modifiers_after_key(held: KeyModifiers, key: VirtualKeyCode) -> KeyModifiers {
    match modifier_bit(key) {
        Some(bit) => held.spec_toggle(bit),
        None => held,
    }
}

/// The text that goes with a key event. On the way down it is the pending
/// character, if there is one and the key is printable. On the way up it is the
/// character recorded when the key with this scan code went down.
pub open spec fn key_text(
    s: WindowStateView,
    state: ElementState,
    scan_code: ScanCode,
    key: VirtualKeyCode,
) -> Option<char> {
    match state {
        ElementState::Pressed => match s.pending_key_event_char {
            Some(ch) => if printable(key) {
                Some(ch)
            } else {
                None
            },
            None => None,
        },
        ElementState::Released => recorded_char(s.pressed_key_map, scan_code),
    }
}

/// The keys recorded as down after a key event. A press that produced text is
/// added at the end. A release takes the first entry with its scan code out,
/// and the last entry moves into its place.
pub open spec fn pressed_after_key(
    s: WindowStateView,
    state: ElementState,
    scan_code: ScanCode,
    key: VirtualKeyCode,
) -> Seq<(ScanCode, char)> {
    match state {
        ElementState::Pressed => match key_text(s, state, scan_code, key) {
            Some(ch) => s.pressed_key_map.push((scan_code, ch)),
            None => s.pressed_key_map,
        },
        ElementState::Released => match first_pressed(s.pressed_key_map, scan_code) {
            Some(i) => s.pressed_key_map.update(i, s.pressed_key_map.last()).drop_last(),
            None => s.pressed_key_map,
        },
    }
}

/// The window's state after an event.
pub open spec fn after_event(s: WindowStateView, event: WindowEvent) -> WindowStateView {
    match event {
        WindowEvent::MouseMoved(x, y) => WindowStateView {
            mouse_position: (x, y),
            key_modifiers: s.key_modifiers,
            pending_key_event_char: s.pending_key_event_char,
            pressed_key_map: s.pressed_key_map,
        },
        WindowEvent::ReceivedCharacter(ch) => WindowStateView {
            mouse_position: s.mouse_position,
            key_modifiers: s.key_modifiers,
            pending_key_event_char: if is_control_code(ch) {
                s.pending_key_event_char
            } else {
                Some(ch)
            },
            pressed_key_map: s.pressed_key_map,
        },
        WindowEvent::KeyboardInput(state, scan_code, Some(key)) => WindowStateView {
            mouse_position: s.mouse_position,
            key_modifiers: modifiers_after_key(s.key_modifiers, key),
            pending_key_event_char: match state {
                ElementState::Pressed => None,
                ElementState::Released => s.pending_key_event_char,
            },
            pressed_key_map: pressed_after_key(s, state, scan_code, key),
        },
        _ => s,
    }
}

/// The application event that a platform event amounts to, if any.
///
/// - A pointer move is reported with its position.
/// - A wheel event is reported as a scroll at the last known pointer position.
/// - The release of the left button is reported as a click at that position.
/// - An event of a key that the application has a name for is reported with its
///   text and the logical modifiers held once the key itself is accounted for.
/// - Everything else is not reported.
pub open spec fn translated(s: WindowStateView, event: WindowEvent) -> Option<ServoWindowEvent> {
    match event {
        WindowEvent::MouseMoved(x, y) => Some(ServoWindowEvent::MouseWindowMoveEventClass(x, y)),
        WindowEvent::MouseWheel(phase) => Some(
            ServoWindowEvent::Scroll(
                s.mouse_position.0,
                s.mouse_position.1,
                touch_event_type(phase),
            ),
        ),
        WindowEvent::MouseInput(ElementState::Released, MouseButton::Left) => Some(
            ServoWindowEvent::MouseWindowEventClass(
                MouseWindowEvent::Click(
                    crate::semantic::MouseButton::Left,
                    s.mouse_position.0,
                    s.mouse_position.1,
                ),
            ),
        ),
        WindowEvent::KeyboardInput(state, scan_code, Some(key)) => match script_key(key) {
            Some(k) => Some(
                ServoWindowEvent::KeyEvent(
                    key_text(s, state, scan_code, key),
                    k,
                    key_state(state),
                    script_mods(modifiers_after_key(s.key_modifiers, key)),
                ),
            ),
            None => None,
        },
        _ => None,
    }
}

/// The index of the first entry with the scan code.
fn position_of(keys: &Vec<(ScanCode, char)>, scan_code: ScanCode) -> (result: Option<usize>)
    ensures
        match result {
            Some(i) => first_pressed(keys@, scan_code) == Some(i as int) && i < keys.len(),
            None => first_pressed(keys@, scan_code).is_none(),
        },
{
    let mut i: usize = 0;
    while i < keys.len()
        invariant
            i <= keys.len(),
            first_pressed(keys@, scan_code) == first_pressed_from(keys@, scan_code, i as int),
        decreases keys.len() - i,
    {
        if keys[i].0 == scan_code {
            return Some(i);
        }
        i += 1;
    }
    None
}

impl WindowState {
    /// The state of a window that has seen no event.
    pub fn new() -> (result: WindowState)
        ensures
            result@ == initial_state(),
    {
        WindowState {
            mouse_position: (0, 0),
            key_modifiers: KeyModifiers::empty(),
            pending_key_event_char: None,
            pressed_key_map: Vec::new(),
        }
    }

    /// Where the pointer was last seen.
    pub fn mouse_position(&self) -> (result: (i32, i32))
        ensures
            result == self@.mouse_position,
    {
        self.mouse_position
    }

    /// The physical modifier keys that are held.
    pub fn key_modifiers(&self) -> (result: KeyModifiers)
        ensures
            result == self@.key_modifiers,
    {
        self.key_modifiers
    }

    /// The character that waits for its key press, if any.
    pub fn pending_key_event_char(&self) -> (result: Option<char>)
        ensures
            result == self@.pending_key_event_char,
    {
        self.pending_key_event_char
    }

    /// How many keys are recorded as down with their text.
    pub fn pressed_key_count(&self) -> (result: usize)
        ensures
            result == self@.pressed_key_map.len(),
    {
        self.pressed_key_map.len()
    }

    /// The character recorded for the key with this scan code, if that key is
    /// recorded as down.
    pub fn pressed_key_char(&self, scan_code: ScanCode) -> (result: Option<char>)
        ensures
            result == recorded_char(self@.pressed_key_map, scan_code),
    {
        match position_of(&self.pressed_key_map, scan_code) {
            Some(idx) => Some(self.pressed_key_map[idx].1),
            None => None,
        }
    }

    /// Takes one platform event of this window: updates what the window
    /// remembers and returns the application event to deliver, or `None` where
    /// the event has no counterpart.
    pub fn glutin_event_to_servo_event(&mut self, event: &WindowEvent) -> (result: Option<
        ServoWindowEvent,
    >)
        ensures
            final(self)@ == after_event(old(self)@, *event),
            result == translated(old(self)@, *event),
    {
        match *event {
            WindowEvent::MouseMoved(x, y) => {
                self.mouse_position = (x, y);
                Some(ServoWindowEvent::MouseWindowMoveEventClass(x, y))
            },
            WindowEvent::MouseWheel(phase) => {
                let phase = touch_phase_to_event_type(phase);
                let (x, y) = self.mouse_position;
                Some(ServoWindowEvent::Scroll(x, y, phase))
            },
            WindowEvent::MouseInput(ElementState::Released, MouseButton::Left) => {
                let (x, y) = self.mouse_position;
                let mouse_event = MouseWindowEvent::Click(crate::semantic::MouseButton::Left, x, y);
                Some(ServoWindowEvent::MouseWindowEventClass(mouse_event))
            },
            WindowEvent::ReceivedCharacter(ch) => {
                if !char_is_control(ch) {
                    self.pending_key_event_char = Some(ch);
                }
                None
            },
            WindowEvent::KeyboardInput(element_state, scan_code, Some(virtual_key_code)) => {
                if let Some(modifier) = modifier_for_key(virtual_key_code) {
                    self.key_modifiers.toggle(modifier);
                }
                let ch = match element_state {
                    ElementState::Pressed => {
                        let ch = match self.pending_key_event_char {
                            Some(ch) => filter_nonprintable(ch, virtual_key_code),
                            None => None,
                        };
                        self.pending_key_event_char = None;
                        if let Some(ch) = ch {
                            self.pressed_key_map.push((scan_code, ch));
                        }
                        ch
                    },
                    ElementState::Released => {
                        match position_of(&self.pressed_key_map, scan_code) {
                            Some(idx) => Some(self.pressed_key_map.swap_remove(idx).1),
                            None => None,
                        }
                    },
                };
                match glutin_key_to_script_key(virtual_key_code) {
                    Ok(key) => {
                        let state = element_state_to_key_state(element_state);
                        let modifiers = glutin_mods_to_script_mods(self.key_modifiers);
                        Some(ServoWindowEvent::KeyEvent(ch, key, state, modifiers))
                    },
                    Err(_) => None,
                }
            },
            _ => None,
        }
    }
}

/// Where `first_pressed_from` points: at an entry with the scan code that no
/// entry from `start` on precedes; and it finds nothing only where no entry from
/// `start` on has the scan code.
pub proof fn lemma_first_pressed_from(keys: Seq<(ScanCode, char)>, scan_code: ScanCode, start: int)
    requires
        0 <= start,
    ensures
        match first_pressed_from(keys, scan_code, start) {
            Some(i) => {
                &&& start <= i < keys.len()
                &&& keys[i].0 == scan_code
                &&& forall|j: int| start <= j < i ==> (#[trigger] keys[j]).0 != scan_code
            },
            None => forall|j: int| start <= j < keys.len() ==> (#[trigger] keys[j]).0 != scan_code,
        },
    decreases keys.len() - start,
{
    if start < keys.len() && keys[start].0 != scan_code {
        lemma_first_pressed_from(keys, scan_code, start + 1);
    }
}

/// A scroll is reported at the position of the last pointer move, and only a
/// pointer move changes that position.
pub proof fn lemma_scroll_follows_pointer(s: WindowStateView, event: WindowEvent)
    ensures
        match event {
            WindowEvent::MouseMoved(x, y) => after_event(s, event).mouse_position == (x, y),
            _ => after_event(s, event).mouse_position == s.mouse_position,
        },
        forall|phase: crate::platform::TouchPhase| #[trigger]
            translated(after_event(s, event), WindowEvent::MouseWheel(phase)) == Some(
                ServoWindowEvent::Scroll(
                    after_event(s, event).mouse_position.0,
                    after_event(s, event).mouse_position.1,
                    touch_event_type(phase),
                ),
            ),
{
}

/// Every key event carries the logical modifiers of the keys held once the
/// event is taken, and only an event of a modifier key changes the keys held.
pub proof fn lemma_key_event_reflects_modifiers(s: WindowStateView, event: WindowEvent)
    ensures
        match translated(s, event) {
            Some(ServoWindowEvent::KeyEvent(_, _, _, modifiers)) => modifiers == script_mods(
                after_event(s, event).key_modifiers,
            ),
            _ => true,
        },
        match event {
            WindowEvent::KeyboardInput(_, _, Some(key)) => modifier_bit(key).is_none()
                ==> after_event(s, event).key_modifiers == s.key_modifiers,
            _ => after_event(s, event).key_modifiers == s.key_modifiers,
        },
{
}

/// A modifier key that goes down and comes up again leaves the held keys as
/// they were, whatever scan codes the two events carry.
pub proof fn lemma_modifier_down_up(
    s: WindowStateView,
    key: VirtualKeyCode,
    down_code: ScanCode,
    up_code: ScanCode,
)
    ensures
        after_event(
            after_event(s, WindowEvent::KeyboardInput(ElementState::Pressed, down_code, Some(key))),
            WindowEvent::KeyboardInput(ElementState::Released, up_code, Some(key)),
        ).key_modifiers == s.key_modifiers,
{
    match modifier_bit(key) {
        Some(bit) => {
            crate::modifiers::lemma_toggle_twice(s.key_modifiers, bit);
        },
        None => {},
    }
}

/// No text held by the window is a control code: neither the pending character
/// nor a character recorded for a key that is down.
pub open spec fn holds_no_control_code(s: WindowStateView) -> bool {
    &&& match s.pending_key_event_char {
        Some(ch) => !is_control_code(ch),
        None => true,
    }
    &&& forall|i: int|
        0 <= i < s.pressed_key_map.len() ==> !is_control_code((#[trigger] s.pressed_key_map[i]).1)
}

/// A key press carries text only if a character was pending and the key is a
/// printable one, and the press uses the pending character up. A window that
/// holds no control code holds none after any event, and never reports one as
/// the text of a key.
pub proof fn lemma_key_text(s: WindowStateView, event: WindowEvent)
    ensures
        holds_no_control_code(initial_state()),
        holds_no_control_code(s) ==> holds_no_control_code(after_event(s, event)),
        match (event, translated(s, event)) {
            (
                WindowEvent::KeyboardInput(ElementState::Pressed, _, Some(key)),
                Some(ServoWindowEvent::KeyEvent(Some(ch), _, _, _)),
            ) => s.pending_key_event_char == Some(ch) && printable(key),
            _ => true,
        },
        match event {
            WindowEvent::KeyboardInput(ElementState::Pressed, _, Some(_)) => after_event(
                s,
                event,
            ).pending_key_event_char.is_none(),
            _ => true,
        },
        match translated(s, event) {
            Some(ServoWindowEvent::KeyEvent(Some(ch), _, _, _)) => holds_no_control_code(s)
                ==> !is_control_code(ch),
            _ => true,
        },
{
    match event {
        WindowEvent::KeyboardInput(ElementState::Released, scan_code, Some(_)) => {
            lemma_first_pressed_from(s.pressed_key_map, scan_code, 0);
        },
        _ => {},
    }
}

/// A key that went down with text comes up with the same text. If no key with
/// the scan code is recorded as down and the press carries a character, then
/// the release of that scan code, by whatever key, reports that character, and
/// the keys recorded as down are again those from before the press.
pub proof fn lemma_press_then_release(
    s: WindowStateView,
    scan_code: ScanCode,
    down_key: VirtualKeyCode,
    up_key: VirtualKeyCode,
)
    requires
        first_pressed(s.pressed_key_map, scan_code).is_none(),
        key_text(s, ElementState::Pressed, scan_code, down_key).is_some(),
    ensures
        ({
            let down = WindowEvent::KeyboardInput(
                ElementState::Pressed,
                scan_code,
                Some(down_key),
            );
            let up = WindowEvent::KeyboardInput(ElementState::Released, scan_code, Some(up_key));
            let held = after_event(s, down);
            &&& key_text(held, ElementState::Released, scan_code, up_key) == key_text(
                s,
                ElementState::Pressed,
                scan_code,
                down_key,
            )
            &&& after_event(held, up).pressed_key_map == s.pressed_key_map
        }),
{
    let down = WindowEvent::KeyboardInput(ElementState::Pressed, scan_code, Some(down_key));
    let held = after_event(s, down);
    let ch = key_text(s, ElementState::Pressed, scan_code, down_key).unwrap();
    let n = s.pressed_key_map.len() as int;
    assert(held.pressed_key_map == s.pressed_key_map.push((scan_code, ch)));
    lemma_first_pressed_from(s.pressed_key_map, scan_code, 0);
    lemma_first_pressed_from(held.pressed_key_map, scan_code, 0);
    assert(held.pressed_key_map[n] == (scan_code, ch));
    assert forall|j: int| 0 <= j < n implies (#[trigger] held.pressed_key_map[j]).0
        != scan_code by {
        assert(held.pressed_key_map[j] == s.pressed_key_map[j]);
    }
    assert(first_pressed(held.pressed_key_map, scan_code) == Some(n));
    assert(held.pressed_key_map.update(n, held.pressed_key_map.last()).drop_last()
        =~= s.pressed_key_map);
}

} // verus!

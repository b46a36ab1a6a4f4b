//! The decisions of the event loop: which window an event belongs to, what is
//! delivered to the application, and what is only worth a diagnostic.

use std::collections::HashMap;
use vstd::prelude::*;
use crate::platform::WindowEvent;
use crate::semantic::ServoWindowEvent;
use crate::window_state::{after_event, initial_state, translated, WindowState, WindowStateView};

verus! {

broadcast use vstd::std_specs::hash::group_hash_axioms;

/// The number by which the caller tells its windows apart.
pub type GLWindowId = u64;

/// What the loop hands to the decision function.
#[derive(Clone, Copy, Debug, PartialEq, Eq)]
pub enum LoopEvent {
    /// The platform reported an event for a window.
    Window(GLWindowId, WindowEvent),
    /// The platform loop was interrupted and has handed out every event it
    /// had.
    Interrupted,
}

/// Why an event was not delivered.
#[derive(Clone, Copy, Debug, PartialEq, Eq)]
pub enum Diagnostic {
    /// The window is known, but the event has no counterpart in the
    /// application's vocabulary.
    UnknownEvent,
    /// The event names a window that was never registered.
    UnexpectedWindow,
}

/// What the loop does with an event.
#[derive(Clone, Copy, Debug, PartialEq, Eq)]
pub enum Dispatch {
    /// Call the application back with this event and window.
    Deliver(ServoWindowEvent, Option<GLWindowId>),
    /// Do not call the application; report the diagnostic.
    Dropped(Diagnostic),
    /// Do nothing at all. This is the answer to the platform's wake-up event
    /// where it names no registered window: the interruption that follows it
    /// is what the application hears of.
    Ignored,
}

/// The handle by which another thread asks the loop to stop waiting.
#[derive(Clone, Copy, Debug, PartialEq, Eq)]
pub struct GLWindowEventLoopWaker;

impl GLWindowEventLoopWaker {
    /// A second handle to the same loop.
    pub fn boxed_clone(&self) -> (result: Box<GLWindowEventLoopWaker>)
        ensures
            *result == *self,
    {
        Box::new(GLWindowEventLoopWaker)
    }

    /// Waking the loop interrupts it: this is the event the loop then handles.
    pub fn wake(&self) -> (result: LoopEvent)
        ensures
            result == LoopEvent::Interrupted,
    {
        LoopEvent::Interrupted
    }
}

/// What the loop does with a window's event, given what each registered window
/// remembers. An event of a registered window is delivered if it translates
/// and dropped otherwise. Nothing is delivered for a window that is not
/// registered: the platform's wake-up event is passed over in silence, and any
/// other event is dropped with a diagnostic.
pub open spec fn dispatched(
    windows: Map<GLWindowId, WindowStateView>,
    window_id: GLWindowId,
    event: WindowEvent,
) -> Dispatch {
    if windows.contains_key(window_id) {
        match translated(windows[window_id], event) {
            Some(e) => Dispatch::Deliver(e, Some(window_id)),
            None => Dispatch::Dropped(Diagnostic::UnknownEvent),
        }
    } else {
        match event {
            WindowEvent::Awakened => Dispatch::Ignored,
            _ => Dispatch::Dropped(Diagnostic::UnexpectedWindow),
        }
    }
}

/// What the registered windows remember after an event: the window it belongs
/// to takes it, the others are untouched, and no window appears or disappears.
pub open spec fn windows_after(
    windows: Map<GLWindowId, WindowStateView>,
    window_id: GLWindowId,
    event: WindowEvent,
) -> Map<GLWindowId, WindowStateView> {
    if windows.contains_key(window_id) {
        windows.insert(window_id, after_event(windows[window_id], event))
    } else {
        windows
    }
}

/// What the loop does with what it is handed: a window's event is dispatched,
/// and an interruption is answered with one idle event for no window.
pub open spec fn handled(windows: Map<GLWindowId, WindowStateView>, input: LoopEvent) -> Dispatch {
    match input {
        LoopEvent::Window(window_id, event) => dispatched(windows, window_id, event),
        LoopEvent::Interrupted => Dispatch::Deliver(ServoWindowEvent::Idle, None),
    }
}

/// What the registered windows remember after the loop handled an input.
pub open spec fn windows_after_input(
    windows: Map<GLWindowId, WindowStateView>,
    input: LoopEvent,
) -> Map<GLWindowId, WindowStateView> {
    match input {
        LoopEvent::Window(window_id, event) => windows_after(windows, window_id, event),
        LoopEvent::Interrupted => windows,
    }
}

/// The registered windows, each with what it remembers.
pub struct Windows {
    states: HashMap<GLWindowId, WindowState>,
}

impl View for Windows {
    type V = Map<GLWindowId, WindowStateView>;

    closed spec fn view(&self) -> Map<GLWindowId, WindowStateView> {
        self.states@.map_values(|w: WindowState| w@)
    }
}

impl Windows {
    /// No window registered.
    pub fn new() -> (result: Windows)
        ensures
            result@ == Map::<GLWindowId, WindowStateView>::empty(),
    {
        let result = Windows { states: HashMap::new() };
        assert(result@ =~= Map::<GLWindowId, WindowStateView>::empty());
        result
    }

    /// Registers a window in its initial state. A window registered before
    /// under the same number starts over.
    pub fn register(&mut self, window_id: GLWindowId)
        ensures
            final(self)@ == old(self)@.insert(window_id, initial_state()),
    {
        self.states.insert(window_id, WindowState::new());
        assert(self@ =~= old(self)@.insert(window_id, initial_state()));
    }

    /// Whether a window is registered.
    pub fn contains(&self, window_id: GLWindowId) -> (result: bool)
        ensures
            result == self@.contains_key(window_id),
    {
        self.states.contains_key(&window_id)
    }

    /// Takes one event of one window: the window, if registered, updates what
    /// it remembers, and the result says what the loop does with the event.
    pub fn dispatch(&mut self, window_id: GLWindowId, event: &WindowEvent) -> (result: Dispatch)
        ensures
            result == dispatched(old(self)@, window_id, *event),
            final(self)@ == windows_after(old(self)@, window_id, *event),
    {
        match self.states.remove(&window_id) {
            Some(mut win_state) => {
                let translated = win_state.glutin_event_to_servo_event(event);
                self.states.insert(window_id, win_state);
                assert(self@ =~= windows_after(old(self)@, window_id, *event));
                match translated {
                    Some(servo_event) => Dispatch::Deliver(servo_event, Some(window_id)),
                    None => Dispatch::Dropped(Diagnostic::UnknownEvent),
                }
            },
            None => {
                assert(self@ =~= old(self)@);
                match *event {
                    WindowEvent::Awakened => Dispatch::Ignored,
                    _ => Dispatch::Dropped(Diagnostic::UnexpectedWindow),
                }
            },
        }
    }

    /// Takes what the loop hands over, a window's event or an interruption,
    /// and says what the loop does with it.
    pub fn handle(&mut self, input: &LoopEvent) -> (result: Dispatch)
        ensures
            result == handled(old(self)@, *input),
            final(self)@ == windows_after_input(old(self)@, *input),
    {
        match input {
            LoopEvent::Window(window_id, event) => self.dispatch(*window_id, event),
            LoopEvent::Interrupted => Dispatch::Deliver(ServoWindowEvent::Idle, None),
        }
    }
}

/// An event that does not translate is never delivered: whatever is delivered
/// for a registered window is the translation of its event, and an event that
/// has none is dropped.
pub proof fn lemma_only_translations_delivered(
    windows: Map<GLWindowId, WindowStateView>,
    window_id: GLWindowId,
    event: WindowEvent,
)
    requires
        windows.contains_key(window_id),
    ensures
        match dispatched(windows, window_id, event) {
            Dispatch::Deliver(e, target) => translated(windows[window_id], event) == Some(e)
                && target == Some(window_id),
            Dispatch::Dropped(d) => translated(windows[window_id], event).is_none() && d
                == Diagnostic::UnknownEvent,
            Dispatch::Ignored => false,
        },
{
}

/// Nothing is delivered for a window that is not registered, whatever the
/// event.
pub proof fn lemma_unregistered_window_hears_nothing(
    windows: Map<GLWindowId, WindowStateView>,
    window_id: GLWindowId,
    event: WindowEvent,
)
    requires
        !windows.contains_key(window_id),
    ensures
        !(dispatched(windows, window_id, event) is Deliver),
        dispatched(windows, window_id, event) is Ignored <==> event is Awakened,
        windows_after(windows, window_id, event) == windows,
{
}

/// The idle event is the answer to an interruption and to nothing else: no
/// event of any window, registered or not, is answered with it, and whatever is
/// delivered for a window's event names that window.
pub proof fn lemma_idle_only_on_interruption(
    windows: Map<GLWindowId, WindowStateView>,
    input: LoopEvent,
)
    ensures
        handled(windows, input) == Dispatch::Deliver(ServoWindowEvent::Idle, None)
            <==> input is Interrupted,
        match (input, handled(windows, input)) {
            (LoopEvent::Window(window_id, _), Dispatch::Deliver(e, target)) => e
                != ServoWindowEvent::Idle && target == Some(window_id),
            _ => true,
        },
{
}

/// Handling an input changes at most the window that the input names, and
/// registers and forgets no window.
pub proof fn lemma_handling_is_local(windows: Map<GLWindowId, WindowStateView>, input: LoopEvent)
    ensures
        windows_after_input(windows, input).dom() == windows.dom(),
        forall|other: GLWindowId|
            windows.contains_key(other) && !(input matches LoopEvent::Window(id, _) && id == other)
                ==> #[trigger] windows_after_input(windows, input)[other] == windows[other],
{
    assert(windows_after_input(windows, input).dom() =~= windows.dom());
}

/// An interruption is answered with one idle event for no window, and changes
/// no window.
pub proof fn lemma_interruption_delivers_idle(windows: Map<GLWindowId, WindowStateView>)
    ensures
        handled(windows, LoopEvent::Interrupted) == Dispatch::Deliver(
            ServoWindowEvent::Idle,
            None,
        ),
        windows_after_input(windows, LoopEvent::Interrupted) == windows,
{
}

} // verus!

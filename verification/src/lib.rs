//! Translation of window-system input into an embedding application's event
//! vocabulary.
//!
//! The crate holds the decisions of a windowing adapter: which platform events
//! become application events, how key codes, cursors and modifier keys map from
//! one vocabulary to the other, and what a window remembers between events
//! (pointer position, held modifier keys, the character that belongs to a key
//! press). Opening windows, pumping the platform loop and calling the
//! application back are left to the caller.

pub mod cursor;
pub mod event_loop;
pub mod keys;
pub mod modifiers;
pub mod platform;
pub mod semantic;
pub mod window_state;

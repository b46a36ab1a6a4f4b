//! Pointer shapes: the application's cursors and the platform's.

use vstd::prelude::*;

verus! {

/// A pointer shape as the application asks for it.
#[derive(Clone, Copy, Debug, PartialEq, Eq, Hash)]
pub enum ServoCursor {
    NoCursor,
    Default,
    Pointer,
    ContextMenu,
    Help,
    Progress,
    Wait,
    Cell,
    Crosshair,
    Text,
    VerticalText,
    Alias,
    Copy,
    Move,
    NoDrop,
    NotAllowed,
    Grab,
    Grabbing,
    EResize,
    NResize,
    NeResize,
    NwResize,
    SResize,
    SeResize,
    SwResize,
    WResize,
    EwResize,
    NsResize,
    NeswResize,
    NwseResize,
    ColResize,
    RowResize,
    AllScroll,
    ZoomIn,
    ZoomOut,
}

/// A pointer shape as the window system offers it.
#[derive(Clone, Copy, Debug, PartialEq, Eq, Hash)]
pub enum MouseCursor {
    Default,
    Crosshair,
    Hand,
    Arrow,
    Move,
    Text,
    Wait,
    Help,
    Progress,
    NotAllowed,
    ContextMenu,
    NoneCursor,
    Cell,
    VerticalText,
    Alias,
    Copy,
    NoDrop,
    Grab,
    Grabbing,
    AllScroll,
    ZoomIn,
    ZoomOut,
    EResize,
    NResize,
    NeResize,
    NwResize,
    SResize,
    SeResize,
    SwResize,
    WResize,
    EwResize,
    NsResize,
    NeswResize,
    NwseResize,
    ColResize,
    RowResize,
}

/// The platform shape that shows an application cursor.
pub open spec fn platform_cursor(cursor: ServoCursor) -> MouseCursor {
    match cursor {
        ServoCursor::NoCursor => MouseCursor::NoneCursor,
        ServoCursor::Default => MouseCursor::Default,
        ServoCursor::Pointer => MouseCursor::Hand,
        ServoCursor::ContextMenu => MouseCursor::ContextMenu,
        ServoCursor::Help => MouseCursor::Help,
        ServoCursor::Progress => MouseCursor::Progress,
        ServoCursor::Wait => MouseCursor::Wait,
        ServoCursor::Cell => MouseCursor::Cell,
        ServoCursor::Crosshair => MouseCursor::Crosshair,
        ServoCursor::Text => MouseCursor::Text,
        ServoCursor::VerticalText => MouseCursor::VerticalText,
        ServoCursor::Alias => MouseCursor::Alias,
        ServoCursor::Copy => MouseCursor::Copy,
        ServoCursor::Move => MouseCursor::Move,
        ServoCursor::NoDrop => MouseCursor::NoDrop,
        ServoCursor::NotAllowed => MouseCursor::NotAllowed,
        ServoCursor::Grab => MouseCursor::Grab,
        ServoCursor::Grabbing => MouseCursor::Grabbing,
        ServoCursor::EResize => MouseCursor::EResize,
        ServoCursor::NResize => MouseCursor::NResize,
        ServoCursor::NeResize => MouseCursor::NeResize,
        ServoCursor::NwResize => MouseCursor::NwResize,
        ServoCursor::SResize => MouseCursor::SResize,
        ServoCursor::SeResize => MouseCursor::SeResize,
        ServoCursor::SwResize => MouseCursor::SwResize,
        ServoCursor::WResize => MouseCursor::WResize,
        ServoCursor::EwResize => MouseCursor::EwResize,
        ServoCursor::NsResize => MouseCursor::NsResize,
        ServoCursor::NeswResize => MouseCursor::NeswResize,
        ServoCursor::NwseResize => MouseCursor::NwseResize,
        ServoCursor::ColResize => MouseCursor::ColResize,
        ServoCursor::RowResize => MouseCursor::RowResize,
        ServoCursor::AllScroll => MouseCursor::AllScroll,
        ServoCursor::ZoomIn => MouseCursor::ZoomIn,
        ServoCursor::ZoomOut => MouseCursor::ZoomOut,
    }
}

/// Picks the platform shape for an application cursor.
pub fn servo_cursor_to_glutin_cursor(servo_cursor: ServoCursor) -> (result: MouseCursor)
    ensures
        result == platform_cursor(servo_cursor),
{
    match servo_cursor {
        ServoCursor::NoCursor => MouseCursor::NoneCursor,
        ServoCursor::Default => MouseCursor::Default,
        ServoCursor::Pointer => MouseCursor::Hand,
        ServoCursor::ContextMenu => MouseCursor::ContextMenu,
        ServoCursor::Help => MouseCursor::Help,
        ServoCursor::Progress => MouseCursor::Progress,
        ServoCursor::Wait => MouseCursor::Wait,
        ServoCursor::Cell => MouseCursor::Cell,
        ServoCursor::Crosshair => MouseCursor::Crosshair,
        ServoCursor::Text => MouseCursor::Text,
        ServoCursor::VerticalText => MouseCursor::VerticalText,
        ServoCursor::Alias => MouseCursor::Alias,
        ServoCursor::Copy => MouseCursor::Copy,
        ServoCursor::Move => MouseCursor::Move,
        ServoCursor::NoDrop => MouseCursor::NoDrop,
        ServoCursor::NotAllowed => MouseCursor::NotAllowed,
        ServoCursor::Grab => MouseCursor::Grab,
        ServoCursor::Grabbing => MouseCursor::Grabbing,
        ServoCursor::EResize => MouseCursor::EResize,
        ServoCursor::NResize => MouseCursor::NResize,
        ServoCursor::NeResize => MouseCursor::NeResize,
        ServoCursor::NwResize => MouseCursor::NwResize,
        ServoCursor::SResize => MouseCursor::SResize,
        ServoCursor::SeResize => MouseCursor::SeResize,
        ServoCursor::SwResize => MouseCursor::SwResize,
        ServoCursor::WResize => MouseCursor::WResize,
        ServoCursor::EwResize => MouseCursor::EwResize,
        ServoCursor::NsResize => MouseCursor::NsResize,
        ServoCursor::NeswResize => MouseCursor::NeswResize,
        ServoCursor::NwseResize => MouseCursor::NwseResize,
        ServoCursor::ColResize => MouseCursor::ColResize,
        ServoCursor::RowResize => MouseCursor::RowResize,
        ServoCursor::AllScroll => MouseCursor::AllScroll,
        ServoCursor::ZoomIn => MouseCursor::ZoomIn,
        ServoCursor::ZoomOut => MouseCursor::ZoomOut,
    }
}

/// Different application cursors are shown by different platform shapes, and
/// the platform's plain arrow is the one shape that no application cursor uses.
pub proof fn lemma_platform_cursor_injective(a: ServoCursor, b: ServoCursor)
    ensures
        platform_cursor(a) == platform_cursor(b) ==> a == b,
        platform_cursor(a) != MouseCursor::Arrow,
{
}

/// Every platform shape but the plain arrow shows some application cursor.
pub proof fn lemma_platform_cursor_onto(shape: MouseCursor)
    requires
        shape != MouseCursor::Arrow,
    ensures
        exists|c: ServoCursor| platform_cursor(c) == shape,
{
    match shape {
        MouseCursor::NoneCursor => {
            assert(platform_cursor(ServoCursor::NoCursor) == shape);
        },
        MouseCursor::Default => {
            assert(platform_cursor(ServoCursor::Default) == shape);
        },
        MouseCursor::Hand => {
            assert(platform_cursor(ServoCursor::Pointer) == shape);
        },
        MouseCursor::ContextMenu => {
            assert(platform_cursor(ServoCursor::ContextMenu) == shape);
        },
        MouseCursor::Help => {
            assert(platform_cursor(ServoCursor::Help) == shape);
        },
        MouseCursor::Progress => {
            assert(platform_cursor(ServoCursor::Progress) == shape);
        },
        MouseCursor::Wait => {
            assert(platform_cursor(ServoCursor::Wait) == shape);
        },
        MouseCursor::Cell => {
            assert(platform_cursor(ServoCursor::Cell) == shape);
        },
        MouseCursor::Crosshair => {
            assert(platform_cursor(ServoCursor::Crosshair) == shape);
        },
        MouseCursor::Text => {
            assert(platform_cursor(ServoCursor::Text) == shape);
        },
        MouseCursor::VerticalText => {
            assert(platform_cursor(ServoCursor::VerticalText) == shape);
        },
        MouseCursor::Alias => {
            assert(platform_cursor(ServoCursor::Alias) == shape);
        },
        MouseCursor::Copy => {
            assert(platform_cursor(ServoCursor::Copy) == shape);
        },
        MouseCursor::Move => {
            assert(platform_cursor(ServoCursor::Move) == shape);
        },
        MouseCursor::NoDrop => {
            assert(platform_cursor(ServoCursor::NoDrop) == shape);
        },
        MouseCursor::NotAllowed => {
            assert(platform_cursor(ServoCursor::NotAllowed) == shape);
        },
        MouseCursor::Grab => {
            assert(platform_cursor(ServoCursor::Grab) == shape);
        },
        MouseCursor::Grabbing => {
            assert(platform_cursor(ServoCursor::Grabbing) == shape);
        },
        MouseCursor::EResize => {
            assert(platform_cursor(ServoCursor::EResize) == shape);
        },
        MouseCursor::NResize => {
            assert(platform_cursor(ServoCursor::NResize) == shape);
        },
        MouseCursor::NeResize => {
            assert(platform_cursor(ServoCursor::NeResize) == shape);
        },
        MouseCursor::NwResize => {
            assert(platform_cursor(ServoCursor::NwResize) == shape);
        },
        MouseCursor::SResize => {
            assert(platform_cursor(ServoCursor::SResize) == shape);
        },
        MouseCursor::SeResize => {
            assert(platform_cursor(ServoCursor::SeResize) == shape);
        },
        MouseCursor::SwResize => {
            assert(platform_cursor(ServoCursor::SwResize) == shape);
        },
        MouseCursor::WResize => {
            assert(platform_cursor(ServoCursor::WResize) == shape);
        },
        MouseCursor::EwResize => {
            assert(platform_cursor(ServoCursor::EwResize) == shape);
        },
        MouseCursor::NsResize => {
            assert(platform_cursor(ServoCursor::NsResize) == shape);
        },
        MouseCursor::NeswResize => {
            assert(platform_cursor(ServoCursor::NeswResize) == shape);
        },
        MouseCursor::NwseResize => {
            assert(platform_cursor(ServoCursor::NwseResize) == shape);
        },
        MouseCursor::ColResize => {
            assert(platform_cursor(ServoCursor::ColResize) == shape);
        },
        MouseCursor::RowResize => {
            assert(platform_cursor(ServoCursor::RowResize) == shape);
        },
        MouseCursor::AllScroll => {
            assert(platform_cursor(ServoCursor::AllScroll) == shape);
        },
        MouseCursor::ZoomIn => {
            assert(platform_cursor(ServoCursor::ZoomIn) == shape);
        },
        MouseCursor::ZoomOut => {
            assert(platform_cursor(ServoCursor::ZoomOut) == shape);
        },
        MouseCursor::Arrow => {},
    }
}

} // verus!

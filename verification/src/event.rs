//! The pointer-event vocabulary the header consumes.
//!
//! The host delivers raw events together with the pointer's position; the
//! header reads only enough of them to recognize a left-button press.

use vstd::prelude::*;
use crate::geometry::{Point, Rect};

verus! {

/// A mouse button.
#[derive(Clone, Copy, Debug, PartialEq, Eq, Structural)]
pub enum MouseButton {
    Left,
    Right,
    Middle,
    Back,
    Forward,
    Other(u16),
}

/// A mouse event, as far as the header distinguishes them.
#[derive(Clone, Copy, Debug, PartialEq, Eq, Structural)]
pub enum MouseEvent {
    ButtonPressed(MouseButton),
    ButtonReleased(MouseButton),
    CursorMoved(Point),
    CursorEntered,
    CursorLeft,
    WheelScrolled,
}

/// A host event. Only left mouse presses matter to the header; every other
/// kind is carried so that ignoring it can be stated and checked.
#[derive(Clone, Copy, Debug, PartialEq, Eq, Structural)]
pub enum Event {
    Mouse(MouseEvent),
    Keyboard,
    Window,
    Touch,
}

/// Whether the event handler captured the event (no other widget should see
/// it) or ignored it.
#[derive(Clone, Copy, Debug, PartialEq, Eq, Structural)]
pub enum Status {
    Ignored,
    Captured,
}

/// The pointer's position, when the host can report one.
#[derive(Clone, Copy, Debug, PartialEq, Eq, Structural)]
pub enum Cursor {
    Available(Point),
    Unavailable,
}

impl Cursor {
    /// An available cursor lying inside `r`; an unavailable cursor is over
    /// nothing.
    pub open spec fn spec_is_over(self, r: Rect) -> bool {
        match self {
            Cursor::Available(p) => r.spec_contains(p),
            Cursor::Unavailable => false,
        }
    }

    /// The cursor's position, degrading to the origin when the host cannot
    /// report one.
    pub open spec fn spec_position_or_origin(self) -> Point {
        match self {
            Cursor::Available(p) => p,
            Cursor::Unavailable => Point { x: 0, y: 0 },
        }
    }

    /// Whether the cursor is over `r`.
    pub fn is_over(&self, r: &Rect) -> (b: bool)
        requires
            r.edges_fit(),
        ensures
            b == self.spec_is_over(*r),
    {
        match self {
            Cursor::Available(p) => r.contains(*p),
            Cursor::Unavailable => false,
        }
    }

    /// The cursor's position, or the origin when none is available.
    pub fn position_or_origin(&self) -> (p: Point)
        ensures
            p == self.spec_position_or_origin(),
    {
        match self {
            Cursor::Available(p) => *p,
            Cursor::Unavailable => Point { x: 0, y: 0 },
        }
    }
}

/// Whether `event` is a press of the left mouse button, the only event the
/// header reacts to.
pub open spec fn spec_is_left_press(event: Event) -> bool {
    event matches Event::Mouse(MouseEvent::ButtonPressed(MouseButton::Left))
}

} // verus!

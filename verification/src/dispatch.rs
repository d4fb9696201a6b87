//! The action dispatcher: a total, pure mapping from gestures to the window
//! actions the host window manager executes.

use vstd::prelude::*;
use crate::geometry::Point;
use crate::header::Message;

verus! {

/// A request to the host window manager. `BeginDrag` is a bare signal: the
/// drag's starting point is not forwarded, because the host owns all pointer
/// tracking from then on.
#[derive(Clone, Copy, Debug, PartialEq, Eq, Structural)]
pub enum WindowAction {
    Minimize,
    ToggleMaximize,
    Close,
    BeginDrag,
}

/// The dispatch table: minimize to minimize, maximize to toggle-maximize,
/// close to close, and any drag to begin-drag.
pub open spec fn spec_dispatch(message: Message) -> WindowAction {
    match message {
        Message::Minimize => WindowAction::Minimize,
        Message::Maximize => WindowAction::ToggleMaximize,
        Message::Close => WindowAction::Close,
        Message::Drag(_) => WindowAction::BeginDrag,
    }
}

/// Translates one gesture into the window action to request from the host.
/// Total and side-effect free: it never fails, and its result depends on the
/// gesture alone.
pub fn handle_header_message(message: Message) -> (action: WindowAction)
    ensures
        action == spec_dispatch(message),
{
    match message {
        Message::Minimize => WindowAction::Minimize,
        Message::Maximize => WindowAction::ToggleMaximize,
        Message::Close => WindowAction::Close,
        Message::Drag(_) => WindowAction::BeginDrag,
    }
}

/// Dispatch is total and deterministic: every gesture kind maps to exactly
/// one window action, with no dependency on any history — a drag maps to
/// `BeginDrag` whatever its starting point.
pub proof fn lemma_dispatch_total()
    ensures
        spec_dispatch(Message::Minimize) == WindowAction::Minimize,
        spec_dispatch(Message::Maximize) == WindowAction::ToggleMaximize,
        spec_dispatch(Message::Close) == WindowAction::Close,
        forall|p: Point| spec_dispatch(Message::Drag(p)) == WindowAction::BeginDrag,
{
}

} // verus!

//! What the sketch does with each kind of window event.
use vstd::prelude::*;

verus! {

/// The kinds of event a window reports.
#[derive(PartialEq, Eq, Structural, Clone, Copy, Debug)]
pub enum WindowEventKind {
    KeyPressed,
    KeyReleased,
    MouseMoved,
    MousePressed,
    MouseReleased,
    MouseEntered,
    MouseExited,
    MouseWheel,
    Moved,
    Resized,
    Touch,
    TouchPressure,
    HoveredFile,
    DroppedFile,
    HoveredFileCancelled,
    Focused,
    Unfocused,
    Closed,
    ReceivedCharacter,
}

/// The response to a window event.
#[derive(PartialEq, Eq, Structural, Clone, Copy, Debug)]
pub enum EventAction {
    /// Print the number of frames elapsed so far.
    PrintElapsedFrames,
    /// Do nothing.
    Ignore,
}

/// A key press prints the elapsed frame count; every other event is ignored.
pub fn event_action(kind: WindowEventKind) -> (action: EventAction)
    ensures
        action == (if kind == WindowEventKind::KeyPressed {
            EventAction::PrintElapsedFrames
        } else {
            EventAction::Ignore
        }),
{
    match kind {
        WindowEventKind::KeyPressed => EventAction::PrintElapsedFrames,
        _ => EventAction::Ignore,
    }
}

} // verus!

//! What the pointer does to a divider, and what the divider answers.

use vstd::prelude::*;

verus! {

/// A pointer event. Where the pointer is comes with the event as a cursor.
#[derive(Debug, Clone, Copy, PartialEq, Eq, Structural)]
pub enum Event {
    /// The pointer was pressed.
    PointerDown,
    /// The pointer moved.
    PointerMove,
    /// The pointer was released.
    PointerUp,
    /// The pointer went away while it was pressed.
    PointerLost,
}

impl Event {
    /// The event ends a press: a release, or the loss of the pointer.
    pub open spec fn ends_press(self) -> bool {
        self is PointerUp || self is PointerLost
    }
}

/// Whether a handle is being dragged. It outlives the divider, which is
/// built anew for every pass, and is kept by whoever feeds the events.
#[derive(Debug, Clone, Copy, PartialEq, Eq, Structural)]
pub enum DragState {
    /// No drag is under way.
    Idle,
    /// The handle follows the pointer.
    Dragging,
}

impl Default for DragState {
    fn default() -> (state: DragState)
        ensures
            state == DragState::Idle,
    {
        DragState::Idle
    }
}

impl DragState {
    /// Whether a drag is under way.
    pub fn is_dragging(&self) -> (dragging: bool)
        ensures
            dragging == (*self == DragState::Dragging),
    {
        match self {
            DragState::Idle => false,
            DragState::Dragging => true,
        }
    }
}

/// Whether an event was used up.
#[derive(Debug, Clone, Copy, PartialEq, Eq, Structural)]
pub enum EventStatus {
    /// The event was not for this divider and goes on to what lies under it.
    Ignored,
    /// The divider took the event.
    Captured,
}

/// What a handle has to report after an event.
#[derive(Debug, Clone, Copy, PartialEq, Eq, Structural)]
pub enum Notice {
    /// Nothing.
    Quiet,
    /// The value changed; this is the new one.
    Changed(i32),
    /// A drag came to its end.
    Released,
}

/// The answer of a handle to one event.
#[derive(Debug, Clone, Copy, PartialEq, Eq, Structural)]
pub struct Reaction {
    pub status: EventStatus,
    pub notice: Notice,
}

/// The pointer shape that a divider asks for.
#[derive(Debug, Clone, Copy, PartialEq, Eq, Structural)]
pub enum Interaction {
    /// No wish.
    Unspecified,
    /// The handle moves left and right.
    ResizingHorizontally,
    /// The handle moves up and down.
    ResizingVertically,
}

} // verus!

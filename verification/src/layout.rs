//! How much room a divider asks for.

use vstd::prelude::*;

verus! {

/// How a widget fills one dimension.
#[derive(Debug, Clone, Copy, PartialEq, Eq, Structural)]
pub enum Length {
    /// All the room that is left.
    Fill,
    /// A share of the room that is left, measured against the shares of the
    /// others.
    FillPortion(u16),
    /// As little room as possible.
    Shrink,
    /// This much room.
    Fixed(u32),
}

/// The room that a widget asks for in both dimensions.
#[derive(Debug, Clone, Copy, PartialEq, Eq, Structural)]
pub struct Size {
    pub width: Length,
    pub height: Length,
}

} // verus!

//! A draggable divider: a thin handle that moves along a track and cuts a
//! fixed extent into adjustable segments.
//!
//! Values, pointer coordinates and sizes are whole numbers of one common
//! unit, so that every rule of the control is exact: the hit test, the
//! mapping from a pointer coordinate to a value of the range, the
//! press / drag / release life cycle and the geometry that is drawn.

pub mod divider;
pub mod event;
pub mod geometry;
pub mod handle;
pub mod laws;
pub mod layout;
pub mod multi_divider;
pub mod scale;
pub mod segments;
pub mod theme;

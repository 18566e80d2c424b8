//! Points, rectangles and the pointer's cursor, in whole units.

use vstd::prelude::*;

verus! {

/// A position on the plane.
#[derive(Debug, Clone, Copy, PartialEq, Eq, Structural)]
pub struct Point {
    pub x: i32,
    pub y: i32,
}

/// An axis-aligned rectangle: its near corner and its size.
#[derive(Debug, Clone, Copy, PartialEq, Eq, Structural)]
pub struct Rectangle {
    pub x: i32,
    pub y: i32,
    pub width: u32,
    pub height: u32,
}

impl Rectangle {
    /// The rectangle holds its near edges and leaves out its far edges.
    pub open spec fn contains_spec(self, point: Point) -> bool {
        &&& self.x <= point.x < self.x + self.width
        &&& self.y <= point.y < self.y + self.height
    }

    /// The far corner of the rectangle is itself a position.
    pub open spec fn is_bounded(self) -> bool {
        &&& self.x + self.width <= i32::MAX
        &&& self.y + self.height <= i32::MAX
    }

    /// Whether `point` lies in the rectangle.
    pub fn contains(&self, point: Point) -> (inside: bool)
        ensures
            inside == self.contains_spec(point),
    {
        self.x <= point.x && (point.x as i64) < self.x as i64 + self.width as i64 && self.y
            <= point.y && (point.y as i64) < self.y as i64 + self.height as i64
    }
}

/// Where the pointer is, if anywhere.
#[derive(Debug, Clone, Copy, PartialEq, Eq, Structural)]
pub enum Cursor {
    /// The pointer has a position.
    Available(Point),
    /// The pointer is out of reach.
    Unavailable,
}

impl Cursor {
    pub open spec fn position_spec(self) -> Option<Point> {
        match self {
            Cursor::Available(position) => Some(position),
            Cursor::Unavailable => None,
        }
    }

    pub open spec fn is_over_spec(self, bounds: Rectangle) -> bool {
        match self {
            Cursor::Available(position) => bounds.contains_spec(position),
            Cursor::Unavailable => false,
        }
    }

    /// The position of the pointer, if it has one.
    pub fn position(self) -> (position: Option<Point>)
        ensures
            position == self.position_spec(),
    {
        match self {
            Cursor::Available(position) => Some(position),
            Cursor::Unavailable => None,
        }
    }

    /// The position of the pointer, if it has one and `bounds` holds it.
    pub fn position_over(self, bounds: Rectangle) -> (position: Option<Point>)
        ensures
            position == (if self.is_over_spec(bounds) {
                self.position_spec()
            } else {
                None
            }),
    {
        match self {
            Cursor::Available(position) => {
                if bounds.contains(position) {
                    Some(position)
                } else {
                    None
                }
            },
            Cursor::Unavailable => None,
        }
    }

    /// Whether the pointer is over `bounds`.
    pub fn is_over(self, bounds: Rectangle) -> (over: bool)
        ensures
            over == self.is_over_spec(bounds),
    {
        self.position_over(bounds).is_some()
    }
}

} // verus!

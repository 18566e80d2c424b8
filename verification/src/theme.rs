//! The colors that a divider is drawn with.

use vstd::prelude::*;

verus! {

/// A color: red, green, blue and opacity, each from 0 to 255.
#[derive(Debug, Clone, Copy, PartialEq, Eq, Structural)]
pub struct Color {
    pub r: u8,
    pub g: u8,
    pub b: u8,
    pub a: u8,
}

impl Color {
    /// The color that shows nothing.
    pub open spec fn transparent_spec() -> Color {
        Color { r: 0, g: 0, b: 0, a: 0 }
    }

    /// The color that shows nothing.
    pub fn transparent() -> (color: Color)
        ensures
            color == Color::transparent_spec(),
    {
        Color { r: 0, g: 0, b: 0, a: 0 }
    }
}

/// The primary colors of a theme.
#[derive(Debug, Clone, Copy, PartialEq, Eq, Structural)]
pub struct Palette {
    /// The primary color.
    pub base: Color,
    /// The primary color at its strongest.
    pub strong: Color,
}

} // verus!

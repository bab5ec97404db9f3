//! The materials a cell can be made of, and how each is displayed.

use vstd::prelude::*;

verus! {

/// What a cell is made of.
#[derive(Clone, Copy, PartialEq, Eq, Structural, Debug)]
pub enum Material {
    Undefined,
    Empty,
    Sand,
}

/// An RGBA colour with 8-bit unsigned-normalised channels: 0 is 0.0 and 255 is 1.0.
#[derive(Clone, Copy, PartialEq, Eq, Structural, Debug)]
pub struct Color {
    pub r: u8,
    pub g: u8,
    pub b: u8,
    pub a: u8,
}

/// The opaque colour with the given channels.
pub open spec fn rgba(r: u8, g: u8, b: u8, a: u8) -> Color {
    Color { r, g, b, a }
}

impl Material {
    /// The display colour of a material: magenta for undefined, black for empty,
    /// yellow for sand; all fully opaque.
    pub open spec fn display_color(self) -> Color {
        match self {
            Material::Undefined => rgba(255, 0, 255, 255),
            Material::Empty => rgba(0, 0, 0, 255),
            Material::Sand => rgba(255, 255, 0, 255),
        }
    }

    /// The display colour of this material.
    pub fn color(&self) -> (c: Color)
        ensures
            c == self.display_color(),
    {
        match self {
            Material::Undefined => Color { r: 255, g: 0, b: 255, a: 255 },
            Material::Empty => Color { r: 0, g: 0, b: 0, a: 255 },
            Material::Sand => Color { r: 255, g: 255, b: 0, a: 255 },
        }
    }

    /// Whether this is the empty material, into which other cells may move.
    pub fn is_empty(&self) -> (b: bool)
        ensures
            b == (*self == Material::Empty),
    {
        match self {
            Material::Empty => true,
            _ => false,
        }
    }
}

} // verus!

//! One cell of the simulation grid.

use vstd::prelude::*;
use crate::material::Material;

verus! {

/// The bit pattern of the `f32` value `0.0`.
pub const F32_ZERO_BITS: u32 = 0;

/// The bit pattern of the `f32` value `1.0`.
pub const F32_ONE_BITS: u32 = 0x3f80_0000;

/// The bit pattern of the `f32` value `+inf`.
pub const F32_INFINITY_BITS: u32 = 0x7f80_0000;

/// Whether the `f32` with bit pattern `bits` is greater than `0.0`: its sign
/// bit is clear and it is neither zero nor a NaN.
pub open spec fn f32_bits_positive(bits: u32) -> bool {
    0 < bits <= F32_INFINITY_BITS
}

/// Whether the `f32` with bit pattern `bits` is greater than `1.0`. Positive
/// floats are ordered as their bit patterns are.
pub open spec fn f32_bits_above_one(bits: u32) -> bool {
    F32_ONE_BITS < bits <= F32_INFINITY_BITS
}

/// Tests whether the `f32` with bit pattern `bits` is greater than `0.0`.
pub fn f32_bits_is_positive(bits: u32) -> (b: bool)
    ensures
        b == f32_bits_positive(bits),
{
    0 < bits && bits <= F32_INFINITY_BITS
}

/// Tests whether the `f32` with bit pattern `bits` is greater than `1.0`.
pub fn f32_bits_is_above_one(bits: u32) -> (b: bool)
    ensures
        b == f32_bits_above_one(bits),
{
    F32_ONE_BITS < bits && bits <= F32_INFINITY_BITS
}

/// An RGBA tint, each channel held as the bit pattern of an `f32`.
#[derive(Clone, Copy, PartialEq, Eq, Structural, Debug)]
pub struct ColorBits {
    pub r: u32,
    pub g: u32,
    pub b: u32,
    pub a: u32,
}

/// The tint whose four channels are `0.0`.
pub open spec fn zero_tint() -> ColorBits {
    ColorBits { r: F32_ZERO_BITS, g: F32_ZERO_BITS, b: F32_ZERO_BITS, a: F32_ZERO_BITS }
}

/// A grid cell: its material and its tint.
#[derive(Clone, Copy, PartialEq, Eq, Structural, Debug)]
pub struct Cell {
    pub material: Material,
    pub color: ColorBits,
}

/// The cell of the given material with a zero tint.
pub open spec fn plain_cell(material: Material) -> Cell {
    Cell { material, color: zero_tint() }
}

impl Cell {
    /// An empty cell with a zero tint.
    pub fn new_empty() -> (c: Cell)
        ensures
            c == plain_cell(Material::Empty),
    {
        Cell::new_material(Material::Empty)
    }

    /// An undefined cell with a zero tint.
    pub fn new_undefined() -> (c: Cell)
        ensures
            c == plain_cell(Material::Undefined),
    {
        Cell::new_material(Material::Undefined)
    }

    /// A cell of `material` with a zero tint.
    pub fn new_material(material: Material) -> (c: Cell)
        ensures
            c == plain_cell(material),
    {
        Cell {
            material,
            color: ColorBits { r: F32_ZERO_BITS, g: F32_ZERO_BITS, b: F32_ZERO_BITS, a: F32_ZERO_BITS },
        }
    }
}

} // verus!

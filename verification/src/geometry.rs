//! Tile geometry: positions, offsets and the row-major index of a tile cell.

use vstd::prelude::*;

verus! {

/// Side length of the square tile of cells that one workgroup simulates.
pub const SIM_TILE_SIZE: usize = 32;

/// Number of cells in one tile.
pub const TILE_CELLS: usize = 1024;

/// A position in a grid of cells, column `x`, row `y`.
#[derive(Clone, Copy, PartialEq, Eq, Structural, Debug)]
pub struct Pos {
    pub x: usize,
    pub y: usize,
}

impl Pos {
    /// Builds the position `(x, y)`.
    pub fn new(x: usize, y: usize) -> (p: Pos)
        ensures
            p.x == x,
            p.y == y,
    {
        Pos { x, y }
    }
}

/// The row-major index of `pos` within a tile.
pub open spec fn tile_index(pos: Pos) -> int {
    pos.y * SIM_TILE_SIZE + pos.x
}

/// Whether `pos` lies inside a tile.
pub open spec fn in_tile(pos: Pos) -> bool {
    pos.x < SIM_TILE_SIZE && pos.y < SIM_TILE_SIZE
}

/// Converts a 2D position to its 1D row-major index within a tile.
pub fn pos_to_idx(pos: Pos) -> (idx: usize)
    requires
        tile_index(pos) <= usize::MAX,
    ensures
        idx == tile_index(pos),
{
    pos.y * SIM_TILE_SIZE + pos.x
}

/// Inside a tile, the row-major index is a bijection onto `0..TILE_CELLS`.
pub proof fn lemma_tile_index_bijective(a: Pos, b: Pos)
    requires
        in_tile(a),
        in_tile(b),
    ensures
        0 <= tile_index(a) < TILE_CELLS,
        tile_index(a) == tile_index(b) <==> a == b,
{
}

/// The position of the tile cell with row-major index `idx`.
pub open spec fn tile_pos(idx: int) -> Pos {
    Pos { x: (idx % (SIM_TILE_SIZE as int)) as usize, y: (idx / (SIM_TILE_SIZE as int)) as usize }
}

/// Every index of a tile is the index of exactly the position `tile_pos(idx)`.
pub proof fn lemma_tile_pos_inverse(idx: int)
    requires
        0 <= idx < TILE_CELLS,
    ensures
        in_tile(tile_pos(idx)),
        tile_index(tile_pos(idx)) == idx,
{
}

/// One of the eight neighbouring directions of a cell; `y` grows downwards.
#[derive(Clone, Copy, PartialEq, Eq, Structural, Debug)]
pub enum Offset {
    Up,
    Left,
    Right,
    UpRight,
    DownRight,
    DownLeft,
    UpLeft,
    Down,
}

impl Offset {
    /// The step `(dx, dy)` of this direction.
    pub open spec fn delta(self) -> (i32, i32) {
        match self {
            Offset::Up => (0i32, -1i32),
            Offset::Left => (-1i32, 0i32),
            Offset::Right => (1i32, 0i32),
            Offset::UpRight => (1i32, -1i32),
            Offset::DownRight => (1i32, 1i32),
            Offset::DownLeft => (-1i32, 1i32),
            Offset::UpLeft => (-1i32, -1i32),
            Offset::Down => (0i32, 1i32),
        }
    }

    /// The step `(dx, dy)` of this direction.
    pub fn tuple(&self) -> (t: (i32, i32))
        ensures
            t == self.delta(),
    {
        match self {
            Offset::Up => (0, -1),
            Offset::Left => (-1, 0),
            Offset::Right => (1, 0),
            Offset::UpRight => (1, -1),
            Offset::DownRight => (1, 1),
            Offset::DownLeft => (-1, 1),
            Offset::UpLeft => (-1, -1),
            Offset::Down => (0, 1),
        }
    }
}

/// A coordinate moved by `d`: downwards it stops at zero, upwards it grows.
pub open spec fn shifted(v: usize, d: i32) -> int {
    if d < 0 {
        if v >= -d { v - (-d) } else { 0 }
    } else {
        v + d
    }
}

/// Whether moving `pos` by `(dx, dy)` stays within `usize` and negates no `i32::MIN`.
pub open spec fn shift_ok(pos: Pos, dx: i32, dy: i32) -> bool {
    &&& dx != i32::MIN
    &&& dy != i32::MIN
    &&& shifted(pos.x, dx) <= usize::MAX
    &&& shifted(pos.y, dy) <= usize::MAX
}

/// `pos` moved by `(dx, dy)`, each coordinate saturating at zero.
pub open spec fn shifted_pos(pos: Pos, dx: i32, dy: i32) -> Pos {
    Pos { x: shifted(pos.x, dx) as usize, y: shifted(pos.y, dy) as usize }
}

fn shift_axis(v: usize, d: i32) -> (r: usize)
    requires
        d != i32::MIN,
        shifted(v, d) <= usize::MAX,
    ensures
        r == shifted(v, d),
{
    if d < 0 {
        let back: usize = (-d) as usize;
        let step: usize = if back < v { back } else { v };
        v - step
    } else {
        v + d as usize
    }
}

/// The neighbour of `pos` in direction `offset`, clamped at zero.
pub fn get_pos(pos: Pos, offset: Offset) -> (p: Pos)
    requires
        shift_ok(pos, offset.delta().0, offset.delta().1),
    ensures
        p == shifted_pos(pos, offset.delta().0, offset.delta().1),
{
    let (x, y) = offset.tuple();
    Pos { x: shift_axis(pos.x, x), y: shift_axis(pos.y, y) }
}

/// `pos` moved by `(x, y)`, clamped at zero.
pub fn get_pos_custom(pos: Pos, x: i32, y: i32) -> (p: Pos)
    requires
        shift_ok(pos, x, y),
    ensures
        p == shifted_pos(pos, x, y),
{
    Pos { x: shift_axis(pos.x, x), y: shift_axis(pos.y, y) }
}

} // verus!

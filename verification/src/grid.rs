//! A workgroup's tile of cells and the moves within it.

use vstd::prelude::*;
use crate::cell::{Cell, plain_cell};
use crate::geometry::{Pos, SIM_TILE_SIZE, TILE_CELLS, tile_index, pos_to_idx};
use crate::material::Material;
use crate::params::UVec2;

verus! {

/// The smaller of two integers.
pub open spec fn min_int(a: int, b: int) -> int {
    if a <= b { a } else { b }
}

/// `v` limited to the range `lo..=hi`.
pub open spec fn clamp_int(v: int, lo: int, hi: int) -> int {
    if v < lo { lo } else if v > hi { hi } else { v }
}

/// One coordinate of `Grid::clamp_pos`. The cell of the tile at local
/// coordinate `own` sits at global coordinate `(topleft + own) mod sim`; the
/// candidate at local coordinate `pos` sits `pos - own` further on. The
/// candidate is pulled back by as much as its global coordinate lies outside
/// `0..sim`, and the result is kept inside the tile.
pub open spec fn clamp_axis(topleft: usize, sim: u32, own: usize, pos: usize) -> int {
    let local = min_int(pos as int, SIM_TILE_SIZE - 1);
    let global = (topleft + own) % (sim as int);
    let candidate = global + pos - own;
    let inside = clamp_int(candidate, 0, sim - 1);
    clamp_int(local - (candidate - inside), 0, SIM_TILE_SIZE - 1)
}

/// Whether the `i32` arithmetic of `clamp_axis` stays in range: every input
/// fits an `i32`, the grid is not empty, and no sum or difference overflows.
pub open spec fn clamp_axis_ok(topleft: usize, sim: u32, own: usize, pos: usize) -> bool {
    let local = min_int(pos as int, SIM_TILE_SIZE - 1);
    let global = (topleft + own) % (sim as int);
    let candidate = global + pos - own;
    &&& topleft <= i32::MAX
    &&& own <= i32::MAX
    &&& pos <= i32::MAX
    &&& 1 <= sim <= i32::MAX
    &&& topleft + own <= i32::MAX
    &&& candidate <= i32::MAX
    &&& local - candidate <= i32::MAX
}

/// `Grid::clamp_pos` for a tile whose top-left cell is at `topleft` in a
/// simulation of `sim`: the candidate `pos`, seen from the cell at `own`.
pub open spec fn clamped_pos(topleft: Pos, sim: UVec2, own: Pos, pos: Pos) -> Pos {
    Pos {
        x: clamp_axis(topleft.x, sim.x, own.x, pos.x) as usize,
        y: clamp_axis(topleft.y, sim.y, own.y, pos.y) as usize,
    }
}

/// Whether `clamped_pos` is computed without overflow in `i32`.
pub open spec fn clamp_pos_ok(topleft: Pos, sim: UVec2, own: Pos, pos: Pos) -> bool {
    &&& clamp_axis_ok(topleft.x, sim.x, own.x, pos.x)
    &&& clamp_axis_ok(topleft.y, sim.y, own.y, pos.y)
}

/// A tile of `TILE_CELLS` cells in row-major order, with the global position
/// of its top-left cell and the size of the whole, toroidal, simulation grid.
pub struct Grid {
    tile: Vec<Cell>,
    topleft: Pos,
    sim_size: UVec2,
}

impl Grid {
    /// The cells of the tile, row by row.
    pub closed spec fn cells(&self) -> Seq<Cell> {
        self.tile@
    }

    /// The global position of the tile's top-left cell.
    pub closed spec fn topleft(&self) -> Pos {
        self.topleft
    }

    /// The size of the simulation grid.
    pub closed spec fn sim_size(&self) -> UVec2 {
        self.sim_size
    }

    /// The tile holds exactly `TILE_CELLS` cells.
    pub open spec fn wf(&self) -> bool {
        self.cells().len() == TILE_CELLS
    }

    /// The position `clamp_pos` returns for the cell at `own` and the candidate `pos`.
    pub open spec fn clamped(&self, own: Pos, pos: Pos) -> Pos {
        clamped_pos(self.topleft(), self.sim_size(), own, pos)
    }

    /// Whether `clamp_pos(own, pos)` runs without overflow.
    pub open spec fn clamp_ok(&self, own: Pos, pos: Pos) -> bool {
        clamp_pos_ok(self.topleft(), self.sim_size(), own, pos)
    }

    /// A grid over `tile`, whose top-left cell is at `topleft` in a simulation of `sim_size`.
    pub fn new(tile: Vec<Cell>, topleft: Pos, sim_size: UVec2) -> (g: Grid)
        requires
            tile.len() == TILE_CELLS,
        ensures
            g.wf(),
            g.cells() == tile@,
            g.topleft() == topleft,
            g.sim_size() == sim_size,
    {
        Grid { tile, topleft, sim_size }
    }

    /// Gives the tile back.
    pub fn into_tile(self) -> (tile: Vec<Cell>)
        ensures
            tile@ == self.cells(),
    {
        self.tile
    }

    /// `pos`, corrected so that it lies inside the tile and, seen from the cell
    /// at `own_pos`, inside the simulation grid. A position that is already
    /// inside both comes back unchanged.
    pub fn clamp_pos(&self, own_pos: Pos, pos: Pos) -> (p: Pos)
        requires
            self.clamp_ok(own_pos, pos),
        ensures
            p == self.clamped(own_pos, pos),
            p.x < SIM_TILE_SIZE,
            p.y < SIM_TILE_SIZE,
    {
        let tile_max: i32 = 31;
        // local clamp
        let lx: i32 = if pos.x < 31 { pos.x as i32 } else { tile_max };
        let ly: i32 = if pos.y < 31 { pos.y as i32 } else { tile_max };
        // delta from the own cell
        let dx: i32 = pos.x as i32 - own_pos.x as i32;
        let dy: i32 = pos.y as i32 - own_pos.y as i32;
        // global position of the own cell, wrapped into the simulation
        let sx: i32 = self.sim_size.x as i32;
        let sy: i32 = self.sim_size.y as i32;
        let gx: i32 = (self.topleft.x as i32 + own_pos.x as i32) % sx;
        let gy: i32 = (self.topleft.y as i32 + own_pos.y as i32) % sy;
        // global position of the candidate, and that position clamped into the simulation
        let cx: i32 = gx + dx;
        let cy: i32 = gy + dy;
        let kx: i32 = if cx < 0 { 0 } else if cx > sx - 1 { sx - 1 } else { cx };
        let ky: i32 = if cy < 0 { 0 } else if cy > sy - 1 { sy - 1 } else { cy };
        if kx == cx && ky == cy {
            Pos { x: lx as usize, y: ly as usize }
        } else {
            let ox: i32 = lx - (cx - kx);
            let oy: i32 = ly - (cy - ky);
            let rx: i32 = if ox < 0 { 0 } else if ox > tile_max { tile_max } else { ox };
            let ry: i32 = if oy < 0 { 0 } else if oy > tile_max { tile_max } else { oy };
            Pos { x: rx as usize, y: ry as usize }
        }
    }
    /// The cell at `pos`; `pos` must index into the tile.
    pub fn get(&self, pos: Pos) -> (c: &Cell)
        requires
            self.wf(),
            0 <= tile_index(pos) < TILE_CELLS,
        ensures
            *c == self.cells()[tile_index(pos)],
    {
        &self.tile[pos_to_idx(pos)]
    }

    /// The cell with row-major index `idx`.
    pub fn get_idx(&self, idx: usize) -> (c: &Cell)
        requires
            self.wf(),
            idx < TILE_CELLS,
        ensures
            *c == self.cells()[idx as int],
    {
        &self.tile[idx]
    }

    /// The cell with row-major index `idx`, to be changed in place.
    pub fn get_idx_mut(&mut self, idx: usize) -> (c: &mut Cell)
        requires
            old(self).wf(),
            idx < TILE_CELLS,
        ensures
            *c == old(self).cells()[idx as int],
            final(self).cells() == old(self).cells().update(idx as int, *final(c)),
            final(self).topleft() == old(self).topleft(),
            final(self).sim_size() == old(self).sim_size(),
    {
        &mut self.tile[idx]
    }

    /// Moves the cell at `from_pos` to `to_pos`. With `swap` the two cells
    /// trade places; without it the target is overwritten and `from_pos`
    /// becomes empty. Nothing happens when the two positions are equal.
    pub fn move_cell(&mut self, from_pos: Pos, to_pos: Pos, swap: bool)
        requires
            old(self).wf(),
            0 <= tile_index(from_pos) < TILE_CELLS,
            0 <= tile_index(to_pos) < TILE_CELLS,
        ensures
            final(self).wf(),
            final(self).topleft() == old(self).topleft(),
            final(self).sim_size() == old(self).sim_size(),
            final(self).cells() == moved(old(self).cells(), from_pos, to_pos, swap),
    {
        if from_pos == to_pos {
            return;
        }
        let to_idx = pos_to_idx(to_pos);
        let from_idx = pos_to_idx(from_pos);
        if swap {
            let tmp = self.tile[to_idx];
            let from_cell = self.tile[from_idx];
            self.tile.set(to_idx, from_cell);
            self.tile.set(from_idx, tmp);
        } else {
            let from_cell = self.tile[from_idx];
            self.tile.set(to_idx, from_cell);
            self.tile.set(from_idx, Cell::new_empty());
        }
    }

    /// Replaces the cell at `pos` by `cell`.
    pub fn set_cell(&mut self, pos: Pos, cell: Cell)
        requires
            old(self).wf(),
            0 <= tile_index(pos) < TILE_CELLS,
        ensures
            final(self).wf(),
            final(self).topleft() == old(self).topleft(),
            final(self).sim_size() == old(self).sim_size(),
            final(self).cells() == old(self).cells().update(tile_index(pos), cell),
    {
        let idx = pos_to_idx(pos);
        self.tile.set(idx, cell);
    }
}

/// The cells after moving the cell at `from` to `to`: with `swap` the two
/// trade places, without it the source becomes empty.
pub open spec fn moved(cells: Seq<Cell>, from: Pos, to: Pos, swap: bool) -> Seq<Cell> {
    let fi = tile_index(from);
    let ti = tile_index(to);
    if from == to {
        cells
    } else if swap {
        cells.update(ti, cells[fi]).update(fi, cells[ti])
    } else {
        cells.update(ti, cells[fi]).update(fi, plain_cell(Material::Empty))
    }
}

/// Swapping two cells and then swapping them back restores the tile.
pub proof fn lemma_swap_back_restores(cells: Seq<Cell>, a: Pos, b: Pos)
    requires
        0 <= tile_index(a) < cells.len(),
        0 <= tile_index(b) < cells.len(),
    ensures
        moved(moved(cells, a, b, true), b, a, true) == cells,
{
    assert(moved(moved(cells, a, b, true), b, a, true) =~= cells);
}

/// Reading a tile cell after `set_cell` gives back the cell written there,
/// and every other cell as it was.
pub proof fn lemma_read_after_set(cells: Seq<Cell>, pos: Pos, cell: Cell, other: Pos)
    requires
        0 <= tile_index(pos) < cells.len(),
        0 <= tile_index(other) < cells.len(),
    ensures
        cells.update(tile_index(pos), cell)[tile_index(pos)] == cell,
        tile_index(other) != tile_index(pos) ==> cells.update(tile_index(pos), cell)[tile_index(other)]
            == cells[tile_index(other)],
{
}

} // verus!

//! The sand rule that the compute shader applies to each cell of a tile.

use vstd::prelude::*;
use crate::cell::Cell;
use crate::geometry::{Pos, Offset, SIM_TILE_SIZE, TILE_CELLS, tile_index, in_tile, shifted_pos, get_pos};
use crate::grid::{Grid, moved, clamped_pos, clamp_axis};
use crate::material::Material;
use crate::params::{ShaderParams, UVec2};

verus! {

/// The neighbour of `pos` in direction `offset`, clamped at zero.
pub open spec fn neighbour(pos: Pos, offset: Offset) -> Pos {
    shifted_pos(pos, offset.delta().0, offset.delta().1)
}

/// Whether a tile placed at `topleft` in a simulation of `sim` lets
/// `clamp_pos` run for any tile cell and any of its neighbours: the top-left
/// corner leaves room for a tile within `i32`, and the simulation size is
/// positive and fits an `i32`.
pub open spec fn placement_ok(topleft: Pos, sim: UVec2) -> bool {
    &&& topleft.x <= i32::MAX - SIM_TILE_SIZE
    &&& topleft.y <= i32::MAX - SIM_TILE_SIZE
    &&& 1 <= sim.x <= i32::MAX
    &&& 1 <= sim.y <= i32::MAX
}

/// Whether, seen from the cell at `own`, the position `p` lies inside the tile
/// and inside the simulation grid: `clamp_pos` leaves it unchanged.
pub open spec fn reachable(topleft: Pos, sim: UVec2, own: Pos, p: Pos) -> bool {
    clamped_pos(topleft, sim, own, p) == p
}

/// Whether the tile cell at `p` is empty.
pub open spec fn empty_at(cells: Seq<Cell>, p: Pos) -> bool {
    cells[tile_index(p)].material == Material::Empty
}

/// Where the cell at `pos` moves in a frame with number `frame`, if anywhere.
/// Only sand moves. It falls straight down into an empty reachable cell;
/// failing that, when both horizontal neighbours are reachable, it slides
/// diagonally down into an empty reachable cell whose horizontal neighbour is
/// empty too, trying the right side first on even frames and the left side
/// first on odd frames.
pub open spec fn sand_target(cells: Seq<Cell>, topleft: Pos, sim: UVec2, frame: u32, pos: Pos) -> Option<Pos> {
    let below = neighbour(pos, Offset::Down);
    let right = neighbour(pos, Offset::Right);
    let left = neighbour(pos, Offset::Left);
    let even = frame % 2 == 0;
    let first = if even { neighbour(pos, Offset::DownRight) } else { neighbour(pos, Offset::DownLeft) };
    let first_side = if even { right } else { left };
    let second = if even { neighbour(pos, Offset::DownLeft) } else { neighbour(pos, Offset::DownRight) };
    let second_side = if even { left } else { right };
    if cells[tile_index(pos)].material != Material::Sand {
        None
    } else if reachable(topleft, sim, pos, below) && empty_at(cells, below) {
        Some(below)
    } else if !reachable(topleft, sim, pos, right) || !reachable(topleft, sim, pos, left) {
        None
    } else if reachable(topleft, sim, pos, first) && empty_at(cells, first_side) && empty_at(cells, first) {
        Some(first)
    } else if reachable(topleft, sim, pos, second) && empty_at(cells, second_side) && empty_at(cells, second) {
        Some(second)
    } else {
        None
    }
}

/// The tile after the cell at `pos` has taken its step: it trades places
/// with its target, if it has one.
pub open spec fn sand_step(cells: Seq<Cell>, topleft: Pos, sim: UVec2, frame: u32, pos: Pos) -> Seq<Cell> {
    match sand_target(cells, topleft, sim, frame, pos) {
        Some(t) => moved(cells, pos, t, true),
        None => cells,
    }
}

proof fn lemma_neighbour_clamp_ok(g: Grid, own: Pos, p: Pos)
    requires
        placement_ok(g.topleft(), g.sim_size()),
        in_tile(own),
        own.x <= p.x + 1 && p.x <= own.x + 1,
        own.y <= p.y + 1 && p.y <= own.y + 1,
    ensures
        g.clamp_ok(own, p),
{
    let gx = (g.topleft().x + own.x) % (g.sim_size().x as int);
    let gy = (g.topleft().y + own.y) % (g.sim_size().y as int);
    vstd::arithmetic::div_mod::lemma_mod_bound(g.topleft().x + own.x, g.sim_size().x as int);
    vstd::arithmetic::div_mod::lemma_mod_bound(g.topleft().y + own.y, g.sim_size().y as int);
    assert(0 <= gx < g.sim_size().x);
    assert(0 <= gy < g.sim_size().y);
}

/// Applies the sand rule to the cell at `pos` (row-major index `pos_idx`) of
/// the tile: it moves to `sand_target`, if that is some position, by trading
/// places with the cell there.
pub fn cell_update(params: &ShaderParams, grid: &mut Grid, global_pos: Pos, pos: Pos, pos_idx: usize)
    requires
        old(grid).wf(),
        placement_ok(old(grid).topleft(), old(grid).sim_size()),
        in_tile(pos),
        pos_idx == tile_index(pos),
    ensures
        final(grid).wf(),
        final(grid).topleft() == old(grid).topleft(),
        final(grid).sim_size() == old(grid).sim_size(),
        final(grid).cells() == sand_step(old(grid).cells(), old(grid).topleft(), old(grid).sim_size(), params.frame, pos),
{
    let ghost g0 = *grid;
    let cell = *grid.get_idx(pos_idx);
    if cell.material == Material::Sand {
        let below_pos = get_pos(pos, Offset::Down);
        proof { lemma_neighbour_clamp_ok(*grid, pos, below_pos); }
        if grid.clamp_pos(pos, below_pos) == below_pos {
            let below = *grid.get(below_pos);
            if below.material.is_empty() {
                grid.move_cell(pos, below_pos, true);
                return;
            }
        }
        let right_pos = get_pos(pos, Offset::Right);
        proof { lemma_neighbour_clamp_ok(*grid, pos, right_pos); }
        if grid.clamp_pos(pos, right_pos) != right_pos {
            return;
        }
        let left_pos = get_pos(pos, Offset::Left);
        proof { lemma_neighbour_clamp_ok(*grid, pos, left_pos); }
        if grid.clamp_pos(pos, left_pos) != left_pos {
            return;
        }
        let right = *grid.get(right_pos);
        let left = *grid.get(left_pos);

        let (diag_first, diag_second, side_first, side_second) = if params.frame % 2 == 0 {
            (Offset::DownRight, Offset::DownLeft, right, left)
        } else {
            (Offset::DownLeft, Offset::DownRight, left, right)
        };

        let diag_pos = get_pos(pos, diag_first);
        proof { lemma_neighbour_clamp_ok(*grid, pos, diag_pos); }
        if grid.clamp_pos(pos, diag_pos) == diag_pos {
            let diag_neigh = *grid.get(diag_pos);
            if side_first.material.is_empty() && diag_neigh.material.is_empty() {
                grid.move_cell(pos, diag_pos, true);
                return;
            }
        }
        let diag_pos = get_pos(pos, diag_second);
        proof { lemma_neighbour_clamp_ok(*grid, pos, diag_pos); }
        if grid.clamp_pos(pos, diag_pos) == diag_pos {
            let diag_neigh = *grid.get(diag_pos);
            if side_second.material.is_empty() && diag_neigh.material.is_empty() {
                grid.move_cell(pos, diag_pos, true);
                return;
            }
        }
    }
}


/// The global coordinate, along one axis, of the tile cell at `own`.
pub open spec fn global_axis(topleft: usize, sim: u32, own: usize) -> int {
    (topleft + own) % (sim as int)
}

/// Along one axis, `clamp_pos` leaves a candidate unchanged exactly when it
/// lies inside the tile and, seen from the tile cell at `own`, inside the
/// simulation grid.
pub proof fn lemma_clamp_axis_fixed_iff(topleft: usize, sim: u32, own: usize, p: usize)
    requires
        own < SIM_TILE_SIZE,
        sim >= 1,
    ensures
        clamp_axis(topleft, sim, own, p) == p <==> (p < SIM_TILE_SIZE && 0 <= global_axis(
            topleft,
            sim,
            own,
        ) + p - own < sim),
{
    vstd::arithmetic::div_mod::lemma_mod_bound(topleft + own, sim as int);
}

/// `clamp_pos` leaves a candidate unchanged exactly when it lies inside the
/// tile and, seen from the tile cell at `own`, inside the simulation grid:
/// sand never leaves its tile nor wraps around the edge of the grid.
pub proof fn lemma_reachable_iff_inside(topleft: Pos, sim: UVec2, own: Pos, p: Pos)
    requires
        in_tile(own),
        sim.x >= 1,
        sim.y >= 1,
    ensures
        reachable(topleft, sim, own, p) <==> {
            &&& in_tile(p)
            &&& 0 <= global_axis(topleft.x, sim.x, own.x) + p.x - own.x < sim.x
            &&& 0 <= global_axis(topleft.y, sim.y, own.y) + p.y - own.y < sim.y
        },
{
    lemma_clamp_axis_fixed_iff(topleft.x, sim.x, own.x, p.x);
    lemma_clamp_axis_fixed_iff(topleft.y, sim.y, own.y, p.y);
}

/// Where a grain of sand moves: from a sand cell into an empty cell one row
/// further down and at most one column to the side, inside the tile and
/// inside the simulation grid.
pub proof fn lemma_sand_target_is_empty_cell_below(
    cells: Seq<Cell>,
    topleft: Pos,
    sim: UVec2,
    frame: u32,
    pos: Pos,
)
    requires
        cells.len() == TILE_CELLS,
        in_tile(pos),
        sim.x >= 1,
        sim.y >= 1,
        sand_target(cells, topleft, sim, frame, pos) is Some,
    ensures
        ({
            let t = sand_target(cells, topleft, sim, frame, pos)->0;
            &&& cells[tile_index(pos)].material == Material::Sand
            &&& empty_at(cells, t)
            &&& in_tile(t)
            &&& t.y == pos.y + 1
            &&& tile_index(t) > tile_index(pos)
            &&& pos.x <= t.x + 1 && t.x <= pos.x + 1
            &&& global_axis(topleft.x, sim.x, pos.x) + t.x - pos.x < sim.x
            &&& 0 <= global_axis(topleft.x, sim.x, pos.x) + t.x - pos.x
            &&& global_axis(topleft.y, sim.y, pos.y) + 1 < sim.y
        }),
{
    let t = sand_target(cells, topleft, sim, frame, pos)->0;
    lemma_reachable_iff_inside(topleft, sim, pos, t);
}

/// Swapping two elements of a sequence keeps its multiset of elements.
pub proof fn lemma_swap_to_multiset(s: Seq<Cell>, i: int, j: int)
    requires
        0 <= i < s.len(),
        0 <= j < s.len(),
    ensures
        s.update(j, s[i]).update(i, s[j]).to_multiset() == s.to_multiset(),
{
    broadcast use {
        vstd::seq_lib::to_multiset_update,
        vstd::multiset::group_multiset_axioms,
        vstd::multiset::group_multiset_properties,
    };
    let s1 = s.update(j, s[i]);
    if i == j {
        assert(s.update(j, s[i]).update(i, s[j]) =~= s);
    } else {
        assert(s1[i] == s[i]);
        assert(s1.to_multiset() == s.to_multiset().insert(s[i]).remove(s[j]));
        assert(s1.update(i, s[j]).to_multiset() == s1.to_multiset().insert(s[j]).remove(s[i]));
        assert(s.to_multiset().count(s[j]) > 0) by {
            vstd::seq_lib::to_multiset_contains(s, s[j]);
        }
        assert(s1.update(i, s[j]).to_multiset() =~= s.to_multiset());
    }
}

/// A cell's sand step only permutes the tile: the multiset of its cells, and
/// so the amount of sand in it, stays the same.
pub proof fn lemma_sand_step_conserves(cells: Seq<Cell>, topleft: Pos, sim: UVec2, frame: u32, pos: Pos)
    requires
        cells.len() == TILE_CELLS,
        in_tile(pos),
    ensures
        sand_step(cells, topleft, sim, frame, pos).len() == cells.len(),
        sand_step(cells, topleft, sim, frame, pos).to_multiset() == cells.to_multiset(),
{
    match sand_target(cells, topleft, sim, frame, pos) {
        Some(t) => {
            if pos != t {
                lemma_swap_to_multiset(cells, tile_index(pos), tile_index(t));
            }
        },
        None => {},
    }
}

/// Whether `p`, seen from the tile cell at `own`, lies inside the tile and,
/// measured from `own`'s global position without wrapping, inside the
/// simulation grid.
pub open spec fn inside(topleft: Pos, sim: UVec2, own: Pos, p: Pos) -> bool {
    &&& in_tile(p)
    &&& 0 <= global_axis(topleft.x, sim.x, own.x) + p.x - own.x < sim.x
    &&& 0 <= global_axis(topleft.y, sim.y, own.y) + p.y - own.y < sim.y
}

/// `cells` with the cells at `a` and `b` traded.
pub open spec fn swapped(cells: Seq<Cell>, a: Pos, b: Pos) -> Seq<Cell> {
    cells.update(tile_index(b), cells[tile_index(a)]).update(tile_index(a), cells[tile_index(b)])
}

/// The sand rule for one cell, stated on its input and result:
/// - a grain whose cell below is empty and inside falls into it;
/// - a grain that cannot fall, whose horizontal neighbours are inside, slides
///   diagonally down to the right on even frames and to the left on odd
///   frames when that diagonal cell and the side neighbour next to it are
///   both empty;
/// - whatever the step changes, it is a grain trading places with an empty,
///   inside cell one row down and at most one column to the side; a diagonal
///   move happens only past an empty, inside side neighbour on that side,
///   only when the grain could not fall, and only to the second side when
///   the side tried first on this frame was not free.
pub proof fn lemma_sand_step_law(cells: Seq<Cell>, topleft: Pos, sim: UVec2, frame: u32, pos: Pos)
    requires
        cells.len() == TILE_CELLS,
        in_tile(pos),
        sim.x >= 1,
        sim.y >= 1,
    ensures
        ({
            let r = sand_step(cells, topleft, sim, frame, pos);
            let x = pos.x;
            let y = pos.y;
            let sand = cells[tile_index(pos)].material == Material::Sand;
            let below = Pos { x, y: (y + 1) as usize };
            let right = Pos { x: (x + 1) as usize, y };
            let left = Pos { x: (x - 1) as usize, y };
            let down_right = Pos { x: (x + 1) as usize, y: (y + 1) as usize };
            let down_left = Pos { x: (x - 1) as usize, y: (y + 1) as usize };
            let can_fall = inside(topleft, sim, pos, below) && empty_at(cells, below);
            let sides_inside = inside(topleft, sim, pos, right) && (x >= 1 ==> inside(topleft, sim, pos, left));
            let right_free = inside(topleft, sim, pos, down_right) && empty_at(cells, right) && empty_at(cells, down_right);
            let left_free = x >= 1 && inside(topleft, sim, pos, down_left) && empty_at(cells, left) && empty_at(cells, down_left);
            &&& (sand && can_fall) ==> r == swapped(cells, pos, below)
            &&& (sand && !can_fall && sides_inside && frame % 2 == 0 && right_free) ==> r == swapped(cells, pos, down_right)
            &&& (sand && !can_fall && sides_inside && frame % 2 == 1 && left_free) ==> r == swapped(cells, pos, down_left)
            &&& r == cells || exists|t: Pos| {
                &&& #[trigger] swapped(cells, pos, t) == r
                &&& sand
                &&& t.y == y + 1
                &&& x <= t.x + 1 && t.x <= x + 1
                &&& inside(topleft, sim, pos, t)
                &&& empty_at(cells, t)
                &&& t.x != x ==> {
                    &&& !can_fall
                    &&& sides_inside
                    &&& inside(topleft, sim, pos, Pos { x: t.x, y })
                    &&& empty_at(cells, Pos { x: t.x, y })
                }
                &&& (t.x + 1 == x && frame % 2 == 0) ==> !right_free
                &&& (t.x == x + 1 && frame % 2 == 1) ==> !left_free
            }
        }),
{
    let x = pos.x;
    let y = pos.y;
    let below = Pos { x, y: (y + 1) as usize };
    let right = Pos { x: (x + 1) as usize, y };
    let left = Pos { x: (x - 1) as usize, y };
    let down_right = Pos { x: (x + 1) as usize, y: (y + 1) as usize };
    let down_left = Pos { x: (x - 1) as usize, y: (y + 1) as usize };
    assert(neighbour(pos, Offset::Down) == below);
    assert(neighbour(pos, Offset::Right) == right);
    assert(neighbour(pos, Offset::DownRight) == down_right);
    if x >= 1 {
        assert(neighbour(pos, Offset::Left) == left);
        assert(neighbour(pos, Offset::DownLeft) == down_left);
    } else {
        assert(neighbour(pos, Offset::Left) == pos);
        assert(neighbour(pos, Offset::DownLeft) == below);
    }
    lemma_reachable_iff_inside(topleft, sim, pos, below);
    lemma_reachable_iff_inside(topleft, sim, pos, right);
    lemma_reachable_iff_inside(topleft, sim, pos, left);
    lemma_reachable_iff_inside(topleft, sim, pos, pos);
    lemma_reachable_iff_inside(topleft, sim, pos, down_right);
    lemma_reachable_iff_inside(topleft, sim, pos, down_left);
    vstd::arithmetic::div_mod::lemma_mod_bound(topleft.x + pos.x, sim.x as int);
    vstd::arithmetic::div_mod::lemma_mod_bound(topleft.y + pos.y, sim.y as int);
    let r = sand_step(cells, topleft, sim, frame, pos);
    match sand_target(cells, topleft, sim, frame, pos) {
        Some(t) => {
            assert(swapped(cells, pos, t) == r);
        },
        None => {},
    }
}

} // verus!

//! One workgroup of the compute pass: it loads a tile of the simulation into
//! shared memory, lets every cell of the tile take its step, and writes the
//! tile back.

use vstd::prelude::*;
use crate::cell::{Cell, f32_bits_above_one, f32_bits_is_above_one};
use crate::compute::{
    cell_update, placement_ok, sand_step, sand_target, lemma_sand_step_conserves, global_axis,
    lemma_sand_target_is_empty_cell_below,
};
use crate::material::Material;
use crate::geometry::{Pos, SIM_TILE_SIZE, TILE_CELLS, tile_pos, tile_index, lemma_tile_pos_inverse, lemma_tile_index_bijective};
use crate::grid::Grid;
use crate::params::{ShaderParams, UVec2};

verus! {

/// How far the tiles are shifted on frame `frame`: half a tile on odd
/// frames, so that tile borders move between frames.
pub open spec fn frame_shift(frame: u32) -> int {
    (SIM_TILE_SIZE / 2) * (frame % 2) as int
}

/// The global position of the top-left cell of workgroup `wid`'s tile on frame `frame`.
pub open spec fn workgroup_base(wid: UVec2, frame: u32) -> Pos {
    Pos {
        x: (wid.x * SIM_TILE_SIZE + frame_shift(frame)) as usize,
        y: (wid.y * SIM_TILE_SIZE + frame_shift(frame)) as usize,
    }
}

/// The global position of the tile cell at `local`, wrapped around the simulation.
pub open spec fn global_pos_of(base: Pos, local: Pos, sim: UVec2) -> Pos {
    Pos { x: ((base.x + local.x) % (sim.x as int)) as usize, y: ((base.y + local.y) % (sim.y as int)) as usize }
}

/// The row-major index of the global position `p` in the simulation buffer.
pub open spec fn global_index(p: Pos, sim: UVec2) -> int {
    p.y * sim.x + p.x
}

/// The buffer index of the tile cell with row-major index `i`.
pub open spec fn cell_global_index(base: Pos, sim: UVec2, i: int) -> int {
    global_index(global_pos_of(base, tile_pos(i), sim), sim)
}

/// The tile as loaded from `input`.
pub open spec fn loaded_tile(input: Seq<Cell>, base: Pos, sim: UVec2) -> Seq<Cell> {
    Seq::new(TILE_CELLS as nat, |i: int| input[cell_global_index(base, sim, i)])
}

/// The tile after its last `n` cells have taken their step, one after another
/// from the last cell of the tile backwards: the bottom row first, each row
/// from right to left.
pub open spec fn run_tile(cells: Seq<Cell>, topleft: Pos, sim: UVec2, frame: u32, n: nat) -> Seq<Cell>
    decreases n,
{
    if n == 0 {
        cells
    } else {
        let before = run_tile(cells, topleft, sim, frame, (n - 1) as nat);
        sand_step(before, topleft, sim, frame, tile_pos(TILE_CELLS - n))
    }
}

/// `out` after the first `n` cells of `tile` have been written back to their buffer indices.
pub open spec fn stored(out: Seq<Cell>, tile: Seq<Cell>, base: Pos, sim: UVec2, n: nat) -> Seq<Cell>
    decreases n,
{
    if n == 0 {
        out
    } else {
        stored(out, tile, base, sim, (n - 1) as nat).update(cell_global_index(base, sim, n - 1), tile[n - 1])
    }
}

/// The tile a workgroup writes back: the loaded tile, after every cell has
/// taken its step once the simulation has run for more than one second.
pub open spec fn updated_tile(params: ShaderParams, wid: UVec2, input: Seq<Cell>) -> Seq<Cell> {
    let base = workgroup_base(wid, params.frame);
    let tile = loaded_tile(input, base, params.sim_size);
    if f32_bits_above_one(params.time_bits) {
        run_tile(tile, base, params.sim_size, params.frame, TILE_CELLS as nat)
    } else {
        tile
    }
}

/// The output buffer after workgroup `wid` has run.
pub open spec fn workgroup_output(params: ShaderParams, wid: UVec2, input: Seq<Cell>, output: Seq<Cell>) -> Seq<Cell> {
    stored(
        output,
        updated_tile(params, wid, input),
        workgroup_base(wid, params.frame),
        params.sim_size,
        TILE_CELLS as nat,
    )
}

/// Whether workgroup `wid` can run on buffers of `len` cells: the simulation
/// size is positive, fits an `i32` and matches the buffers, and the tile's
/// top-left corner leaves room for a tile within `i32`.
pub open spec fn workgroup_ok(params: ShaderParams, wid: UVec2, len: nat) -> bool {
    &&& placement_ok(workgroup_base(wid, params.frame), params.sim_size)
    &&& wid.x * SIM_TILE_SIZE + frame_shift(params.frame) <= i32::MAX - SIM_TILE_SIZE
    &&& wid.y * SIM_TILE_SIZE + frame_shift(params.frame) <= i32::MAX - SIM_TILE_SIZE
    &&& len == params.sim_size.x * params.sim_size.y
}

proof fn lemma_global_index_bound(p: Pos, sim: UVec2)
    requires
        p.x < sim.x,
        p.y < sim.y,
    ensures
        0 <= global_index(p, sim) < sim.x * sim.y,
{
    vstd::arithmetic::mul::lemma_mul_inequality(p.y as int, sim.y - 1, sim.x as int);
    vstd::arithmetic::mul::lemma_mul_is_distributive_sub_other_way(sim.x as int, sim.y as int, 1);
    assert(p.y * sim.x >= 0) by (nonlinear_arith)
        requires
            p.y >= 0,
            sim.x >= 0,
    ;
}

proof fn lemma_cell_global_index_bound(base: Pos, sim: UVec2, i: int)
    requires
        sim.x >= 1,
        sim.y >= 1,
    ensures
        0 <= cell_global_index(base, sim, i) < sim.x * sim.y,
{
    let local = tile_pos(i);
    vstd::arithmetic::div_mod::lemma_mod_bound(base.x + local.x, sim.x as int);
    vstd::arithmetic::div_mod::lemma_mod_bound(base.y + local.y, sim.y as int);
    lemma_global_index_bound(global_pos_of(base, local, sim), sim);
}

/// The buffer index of the tile cell with row-major index `i`.
fn tile_cell_global_index(base: Pos, sim: UVec2, i: usize) -> (k: usize)
    requires
        i < TILE_CELLS,
        base.x <= i32::MAX - SIM_TILE_SIZE,
        base.y <= i32::MAX - SIM_TILE_SIZE,
        1 <= sim.x,
        1 <= sim.y,
        sim.x * sim.y <= usize::MAX,
    ensures
        k == cell_global_index(base, sim, i as int),
        k < sim.x * sim.y,
{
    proof {
        lemma_cell_global_index_bound(base, sim, i as int);
    }
    let local_x: usize = i % SIM_TILE_SIZE;
    let local_y: usize = i / SIM_TILE_SIZE;
    let gx: usize = (base.x + local_x) % (sim.x as usize);
    let gy: usize = (base.y + local_y) % (sim.y as usize);
    gy * (sim.x as usize) + gx
}

/// Runs workgroup `wid` of the compute pass on frame `params.frame`. Its tile
/// starts at `wid * SIM_TILE_SIZE`, shifted by half a tile on odd frames, and
/// wraps around the simulation. Every invocation loads its cell from `input`
/// into the tile; once the simulation has run for more than one second, each
/// cell of the tile takes its sand step, one invocation after another from the
/// bottom row up and each row from right to left (a grain only ever moves to
/// the row below, which has already had its turn); then every invocation
/// writes its tile cell to `output`.
pub fn main_cs(params: &ShaderParams, wid: UVec2, input: &Vec<Cell>, output: &mut Vec<Cell>)
    requires
        workgroup_ok(*params, wid, input@.len()),
        old(output)@.len() == input@.len(),
    ensures
        final(output)@ == workgroup_output(*params, wid, input@, old(output)@),
        final(output)@.len() == old(output)@.len(),
{
    let sim = params.sim_size;
    let shift: usize = (SIM_TILE_SIZE / 2) * ((params.frame % 2) as usize);
    let base_pos = Pos {
        x: (wid.x as usize) * SIM_TILE_SIZE + shift,
        y: (wid.y as usize) * SIM_TILE_SIZE + shift,
    };
    assert(base_pos == workgroup_base(wid, params.frame));
    let ghost tile0 = loaded_tile(input@, base_pos, sim);
    let buffer_len: usize = input.len();
    assert(buffer_len == sim.x * sim.y);

    // Every invocation copies its cell into the shared tile.
    let mut shared: Vec<Cell> = Vec::new();
    let mut i: usize = 0;
    while i < TILE_CELLS
        invariant
            i <= TILE_CELLS,
            shared@.len() == i,
            forall|j: int| 0 <= j < i ==> shared@[j] == tile0[j],
            base_pos == workgroup_base(wid, params.frame),
            workgroup_ok(*params, wid, input@.len()),
            sim == params.sim_size,
            tile0 == loaded_tile(input@, base_pos, sim),
            sim.x * sim.y <= usize::MAX,
        decreases TILE_CELLS - i,
    {
        let k = tile_cell_global_index(base_pos, sim, i);
        shared.push(input[k]);
        i = i + 1;
    }
    assert(shared@ == tile0);

    let mut grid = Grid::new(shared, base_pos, sim);
    if f32_bits_is_above_one(params.time_bits) {
        let mut n: usize = 0;
        while n < TILE_CELLS
            invariant
                n <= TILE_CELLS,
                grid.wf(),
                grid.topleft() == base_pos,
                grid.sim_size() == sim,
                grid.cells() == run_tile(tile0, base_pos, sim, params.frame, n as nat),
                placement_ok(base_pos, sim),
            decreases TILE_CELLS - n,
        {
            proof {
                lemma_tile_pos_inverse(TILE_CELLS - 1 - n);
            }
            let idx: usize = TILE_CELLS - 1 - n;
            let local_pos = Pos { x: idx % SIM_TILE_SIZE, y: idx / SIM_TILE_SIZE };
            let global_pos = Pos {
                x: (base_pos.x + local_pos.x) % (sim.x as usize),
                y: (base_pos.y + local_pos.y) % (sim.y as usize),
            };
            cell_update(params, &mut grid, global_pos, local_pos, idx);
            n = n + 1;
        }
    }
    let tile = grid.into_tile();
    let ghost final_tile = tile@;
    assert(final_tile == updated_tile(*params, wid, input@));

    // Every invocation writes its tile cell back to global memory.
    let ghost out0 = output@;
    let mut m: usize = 0;
    while m < TILE_CELLS
        invariant
            m <= TILE_CELLS,
            tile@ == final_tile,
            final_tile.len() == TILE_CELLS,
            output@ == stored(out0, final_tile, base_pos, sim, m as nat),
            output@.len() == sim.x * sim.y,
            base_pos == workgroup_base(wid, params.frame),
            workgroup_ok(*params, wid, input@.len()),
            sim == params.sim_size,
            sim.x * sim.y <= usize::MAX,
        decreases TILE_CELLS - m,
    {
        let k = tile_cell_global_index(base_pos, sim, m);
        output.set(k, tile[m]);
        m = m + 1;
    }
}

/// Letting the first `n` cells of a tile take their step only permutes the tile.
pub proof fn lemma_run_tile_conserves(cells: Seq<Cell>, topleft: Pos, sim: UVec2, frame: u32, n: nat)
    requires
        cells.len() == TILE_CELLS,
        n <= TILE_CELLS,
    ensures
        run_tile(cells, topleft, sim, frame, n).len() == TILE_CELLS,
        run_tile(cells, topleft, sim, frame, n).to_multiset() == cells.to_multiset(),
    decreases n,
{
    if n > 0 {
        lemma_run_tile_conserves(cells, topleft, sim, frame, (n - 1) as nat);
        lemma_tile_pos_inverse(TILE_CELLS - n);
        let before = run_tile(cells, topleft, sim, frame, (n - 1) as nat);
        lemma_sand_step_conserves(before, topleft, sim, frame, tile_pos(TILE_CELLS - n));
    }
}

/// A workgroup only rearranges its tile: the tile it writes back holds the
/// same cells, each as often, as the tile it loaded.
pub proof fn lemma_workgroup_conserves_tile(params: ShaderParams, wid: UVec2, input: Seq<Cell>)
    ensures
        updated_tile(params, wid, input).len() == TILE_CELLS,
        updated_tile(params, wid, input).to_multiset() == loaded_tile(
            input,
            workgroup_base(wid, params.frame),
            params.sim_size,
        ).to_multiset(),
{
    let base = workgroup_base(wid, params.frame);
    lemma_run_tile_conserves(loaded_tile(input, base, params.sim_size), base, params.sim_size, params.frame, TILE_CELLS as nat);
}

/// Number of tiles needed to cover `size` cells: `size / SIM_TILE_SIZE`, rounded up.
pub open spec fn tiles_to_cover(size: u32) -> int {
    (size + SIM_TILE_SIZE - 1) / (SIM_TILE_SIZE as int)
}

/// The number of workgroups the compute pass dispatches along an axis of
/// `size` cells: enough tiles to cover it.
pub fn workgroup_count(size: u32) -> (n: u32)
    ensures
        n == tiles_to_cover(size),
        n * SIM_TILE_SIZE >= size,
        n * SIM_TILE_SIZE < size + SIM_TILE_SIZE,
{
    let tile: u32 = 32;
    let full: u32 = size / tile;
    if size % tile == 0 {
        full
    } else {
        full + 1
    }
}

/// The largest side of a simulation that the compute pass handles: every
/// tile's top-left corner then leaves room for a tile within `i32`.
pub const MAX_SIM_SIDE: u32 = 0x7fff_ffd0;

/// The `n`-th workgroup of a dispatch that is `count_x` workgroups wide, in row-major order.
pub open spec fn workgroup_id(n: int, count_x: int) -> UVec2 {
    UVec2 { x: (n % count_x) as u32, y: (n / count_x) as u32 }
}

/// The output buffer after the first `n` workgroups of the dispatch, in
/// row-major order, have run.
pub open spec fn pass_output(params: ShaderParams, input: Seq<Cell>, output: Seq<Cell>, n: nat) -> Seq<Cell>
    decreases n,
{
    if n == 0 {
        output
    } else {
        let count_x = tiles_to_cover(params.sim_size.x);
        let before = pass_output(params, input, output, (n - 1) as nat);
        workgroup_output(params, workgroup_id(n - 1, count_x), input, before)
    }
}

/// The output buffer after a whole compute pass over the simulation.
pub open spec fn compute_pass_output(params: ShaderParams, input: Seq<Cell>, output: Seq<Cell>) -> Seq<Cell> {
    let count = tiles_to_cover(params.sim_size.x) * tiles_to_cover(params.sim_size.y);
    pass_output(params, input, output, count as nat)
}

proof fn lemma_workgroup_in_dispatch_ok(params: ShaderParams, n: int, len: nat)
    requires
        1 <= params.sim_size.x <= MAX_SIM_SIDE,
        1 <= params.sim_size.y <= MAX_SIM_SIDE,
        len == params.sim_size.x * params.sim_size.y,
        0 <= n < tiles_to_cover(params.sim_size.x) * tiles_to_cover(params.sim_size.y),
    ensures
        workgroup_ok(params, workgroup_id(n, tiles_to_cover(params.sim_size.x)), len),
{
    let cx = tiles_to_cover(params.sim_size.x);
    let cy = tiles_to_cover(params.sim_size.y);
    let wid = workgroup_id(n, cx);
    assert(cx >= 1);
    vstd::arithmetic::div_mod::lemma_mod_bound(n, cx);
    vstd::arithmetic::div_mod::lemma_div_pos_is_pos(n, cx);
    assert(n / cx < cy) by {
        vstd::arithmetic::div_mod::lemma_multiply_divide_lt(n, cx, cy);
    }
    assert(wid.x * SIM_TILE_SIZE <= params.sim_size.x + SIM_TILE_SIZE - 1 - SIM_TILE_SIZE) by (nonlinear_arith)
        requires
            wid.x < cx,
            cx == (params.sim_size.x + SIM_TILE_SIZE - 1) / (SIM_TILE_SIZE as int),
    ;
    assert(wid.y * SIM_TILE_SIZE <= params.sim_size.y + SIM_TILE_SIZE - 1 - SIM_TILE_SIZE) by (nonlinear_arith)
        requires
            wid.y < cy,
            cy == (params.sim_size.y + SIM_TILE_SIZE - 1) / (SIM_TILE_SIZE as int),
    ;
}

/// Runs a whole compute pass on the CPU: the workgroups that cover the
/// simulation, one after another in row-major order, each as `main_cs`.
pub fn run_compute_pass(params: &ShaderParams, input: &Vec<Cell>, output: &mut Vec<Cell>)
    requires
        1 <= params.sim_size.x <= MAX_SIM_SIDE,
        1 <= params.sim_size.y <= MAX_SIM_SIDE,
        input@.len() == params.sim_size.x * params.sim_size.y,
        old(output)@.len() == input@.len(),
    ensures
        final(output)@ == compute_pass_output(*params, input@, old(output)@),
{
    let count_x = workgroup_count(params.sim_size.x);
    let count_y = workgroup_count(params.sim_size.y);
    proof {
        assert(count_x <= params.sim_size.x && count_y <= params.sim_size.y);
        assert(count_x * count_y <= params.sim_size.x * params.sim_size.y) by (nonlinear_arith)
            requires
                0 <= count_x <= params.sim_size.x,
                0 <= count_y <= params.sim_size.y,
        ;
    }
    let buffer_len: usize = input.len();
    assert(buffer_len == params.sim_size.x * params.sim_size.y);
    let total: usize = (count_x as usize) * (count_y as usize);
    let ghost out0 = output@;
    let mut n: usize = 0;
    while n < total
        invariant
            n <= total,
            total == tiles_to_cover(params.sim_size.x) * tiles_to_cover(params.sim_size.y),
            count_x == tiles_to_cover(params.sim_size.x),
            count_x >= 1,
            count_y == tiles_to_cover(params.sim_size.y),
            1 <= params.sim_size.x <= MAX_SIM_SIDE,
            1 <= params.sim_size.y <= MAX_SIM_SIDE,
            input@.len() == params.sim_size.x * params.sim_size.y,
            output@.len() == input@.len(),
            output@ == pass_output(*params, input@, out0, n as nat),
        decreases total - n,
    {
        proof {
            lemma_workgroup_in_dispatch_ok(*params, n as int, input@.len());
            vstd::arithmetic::div_mod::lemma_mod_bound(n as int, count_x as int);
            vstd::arithmetic::div_mod::lemma_multiply_divide_lt(n as int, count_x as int, count_y as int);
        }
        let wid = UVec2 { x: (n % (count_x as usize)) as u32, y: (n / (count_x as usize)) as u32 };
        main_cs(params, wid, input, output);
        n = n + 1;
    }
}

proof fn lemma_run_tile_keeps_bottom_row(
    cells: Seq<Cell>,
    topleft: Pos,
    sim: UVec2,
    frame: u32,
    n: nat,
    i: int,
)
    requires
        cells.len() == TILE_CELLS,
        n <= TILE_CELLS,
        0 <= i < TILE_CELLS,
        sim.x >= 1,
        sim.y >= 1,
        global_axis(topleft.y, sim.y, tile_pos(i).y) == sim.y - 1,
        cells[i].material != Material::Empty,
    ensures
        run_tile(cells, topleft, sim, frame, n)[i] == cells[i],
    decreases n,
{
    if n > 0 {
        lemma_run_tile_keeps_bottom_row(cells, topleft, sim, frame, (n - 1) as nat, i);
        lemma_run_tile_conserves(cells, topleft, sim, frame, (n - 1) as nat);
        let before = run_tile(cells, topleft, sim, frame, (n - 1) as nat);
        let p = TILE_CELLS - n;
        lemma_tile_pos_inverse(p);
        lemma_tile_pos_inverse(i);
        let pos = tile_pos(p);
        match sand_target(before, topleft, sim, frame, pos) {
            Some(t) => {
                lemma_sand_target_is_empty_cell_below(before, topleft, sim, frame, pos);
                lemma_tile_index_bijective(pos, t);
                if i == p {
                    assert(tile_pos(i) == pos);
                } else if i == tile_index(t) {
                    assert(before[i].material != Material::Empty);
                } else {
                }
            },
            None => {},
        }
    }
}

/// A workgroup never moves a cell off the last row of the simulation: after
/// the pass, every non-empty cell of its tile that lies on the simulation's
/// bottom row, as placed on this frame (shifted on odd frames and wrapped),
/// is still there. In particular sand never falls through the bottom edge.
pub proof fn lemma_workgroup_keeps_bottom_row(params: ShaderParams, wid: UVec2, input: Seq<Cell>, i: int)
    requires
        params.sim_size.x >= 1,
        params.sim_size.y >= 1,
        0 <= i < TILE_CELLS,
    ensures
        ({
            let base = workgroup_base(wid, params.frame);
            let loaded = loaded_tile(input, base, params.sim_size);
            let global = global_pos_of(base, tile_pos(i), params.sim_size);
            (global.y == params.sim_size.y - 1 && loaded[i].material != Material::Empty) ==> updated_tile(
                params,
                wid,
                input,
            )[i] == loaded[i]
        }),
{
    let base = workgroup_base(wid, params.frame);
    let loaded = loaded_tile(input, base, params.sim_size);
    let global = global_pos_of(base, tile_pos(i), params.sim_size);
    vstd::arithmetic::div_mod::lemma_mod_bound(base.y + tile_pos(i).y, params.sim_size.y as int);
    if global.y == params.sim_size.y - 1 && loaded[i].material != Material::Empty && f32_bits_above_one(params.time_bits) {
        lemma_run_tile_keeps_bottom_row(loaded, base, params.sim_size, params.frame, TILE_CELLS as nat, i);
    }
}

} // verus!

//! Laws about a whole compute pass: when the simulation is a whole number of
//! tiles wide and high, the workgroups' tiles partition it, every cell is
//! written exactly once, and the pass only rearranges the cells.

use vstd::prelude::*;
use crate::geometry::{Pos, SIM_TILE_SIZE, TILE_CELLS, tile_pos, lemma_tile_pos_inverse};
use crate::params::UVec2;
use crate::cell::Cell;
use crate::params::ShaderParams;
use crate::workgroup::{
    MAX_SIM_SIDE, cell_global_index, frame_shift, global_index, global_pos_of, tiles_to_cover, workgroup_base,
    stored, pass_output, compute_pass_output, updated_tile, workgroup_id, lemma_workgroup_conserves_tile,
    loaded_tile, lemma_workgroup_keeps_bottom_row, workgroup_output,
};
use crate::cell::f32_bits_above_one;
use crate::material::Material;
use crate::compute::lemma_swap_to_multiset;

verus! {

/// Along one axis of `size` cells, with tiles shifted by `shift`: the offset
/// of global coordinate `g` from the start of the first tile.
pub open spec fn tile_relative(g: int, shift: int, size: int) -> int {
    (g - shift + size) % size
}

proof fn lemma_axis_from_tile(w: int, l: int, shift: int, size: int)
    requires
        0 <= w,
        0 <= l < SIM_TILE_SIZE,
        w * SIM_TILE_SIZE + l < size,
        0 <= shift <= size,
    ensures
        0 <= (w * SIM_TILE_SIZE + shift + l) % size < size,
        tile_relative((w * SIM_TILE_SIZE + shift + l) % size, shift, size) == w * SIM_TILE_SIZE + l,
{
    let a = w * SIM_TILE_SIZE + l;
    if a + shift < size {
        vstd::arithmetic::div_mod::lemma_fundamental_div_mod_converse(a + shift, size, 0, a + shift);
        vstd::arithmetic::div_mod::lemma_fundamental_div_mod_converse(a + size, size, 1, a);
    } else {
        vstd::arithmetic::div_mod::lemma_fundamental_div_mod_converse(a + shift, size, 1, a + shift - size);
        vstd::arithmetic::div_mod::lemma_fundamental_div_mod_converse(a, size, 0, a);
    }
}

proof fn lemma_axis_to_tile(g: int, shift: int, size: int)
    requires
        0 <= g < size,
        0 <= shift <= size,
    ensures
        0 <= tile_relative(g, shift, size) < size,
        (tile_relative(g, shift, size) + shift) % size == g,
{
    if g >= shift {
        vstd::arithmetic::div_mod::lemma_fundamental_div_mod_converse(g - shift + size, size, 1, g - shift);
        vstd::arithmetic::div_mod::lemma_fundamental_div_mod_converse(g, size, 0, g);
    } else {
        vstd::arithmetic::div_mod::lemma_fundamental_div_mod_converse(g - shift + size, size, 0, g - shift + size);
        vstd::arithmetic::div_mod::lemma_fundamental_div_mod_converse(g + size, size, 1, g);
    }
}

/// Whether the simulation is a whole, positive number of tiles wide and high,
/// within the sizes a compute pass handles.
pub open spec fn tiled_exactly(sim: UVec2) -> bool {
    &&& 1 <= sim.x <= MAX_SIM_SIDE
    &&& 1 <= sim.y <= MAX_SIM_SIDE
    &&& (sim.x as int) % (SIM_TILE_SIZE as int) == 0
    &&& (sim.y as int) % (SIM_TILE_SIZE as int) == 0
}

proof fn lemma_tiled_sizes(sim: UVec2, frame: u32)
    requires
        tiled_exactly(sim),
    ensures
        sim.x >= SIM_TILE_SIZE,
        sim.y >= SIM_TILE_SIZE,
        frame_shift(frame) == 0 || frame_shift(frame) == SIM_TILE_SIZE / 2,
        tiles_to_cover(sim.x) == (sim.x as int) / (SIM_TILE_SIZE as int),
        tiles_to_cover(sim.y) == (sim.y as int) / (SIM_TILE_SIZE as int),
{
    vstd::arithmetic::div_mod::lemma_fundamental_div_mod(sim.x as int, 32);
    vstd::arithmetic::div_mod::lemma_fundamental_div_mod(sim.y as int, 32);
    vstd::arithmetic::div_mod::lemma_fundamental_div_mod_converse(sim.x + 31, 32, (sim.x as int) / 32, 31);
    vstd::arithmetic::div_mod::lemma_fundamental_div_mod_converse(sim.y + 31, 32, (sim.y as int) / 32, 31);
}

/// The workgroup whose tile holds buffer index `k` on frame `frame`.
pub open spec fn owner(k: int, sim: UVec2, frame: u32) -> UVec2 {
    let s = frame_shift(frame);
    UVec2 {
        x: (tile_relative(k % (sim.x as int), s, sim.x as int) / (SIM_TILE_SIZE as int)) as u32,
        y: (tile_relative(k / (sim.x as int), s, sim.y as int) / (SIM_TILE_SIZE as int)) as u32,
    }
}

/// The row-major index, within its owner's tile, of buffer index `k` on frame `frame`.
pub open spec fn slot(k: int, sim: UVec2, frame: u32) -> int {
    let s = frame_shift(frame);
    let lx = tile_relative(k % (sim.x as int), s, sim.x as int) % (SIM_TILE_SIZE as int);
    let ly = tile_relative(k / (sim.x as int), s, sim.y as int) % (SIM_TILE_SIZE as int);
    ly * SIM_TILE_SIZE + lx
}

proof fn lemma_global_index_split(gx: int, gy: int, w: int, h: int)
    requires
        0 <= gx < w,
        0 <= gy < h,
    ensures
        0 <= gy * w + gx < w * h,
        (gy * w + gx) % w == gx,
        (gy * w + gx) / w == gy,
{
    vstd::arithmetic::div_mod::lemma_fundamental_div_mod_converse(gy * w + gx, w, gy, gx);
    assert(0 <= gy * w + gx < w * h) by (nonlinear_arith)
        requires
            0 <= gx < w,
            0 <= gy < h,
    ;
}

/// Each cell of a workgroup's tile is the cell of the buffer that the
/// workgroup owns at that slot.
pub proof fn lemma_tile_cell_owner(sim: UVec2, frame: u32, wid: UVec2, i: int)
    requires
        tiled_exactly(sim),
        wid.x < tiles_to_cover(sim.x),
        wid.y < tiles_to_cover(sim.y),
        0 <= i < TILE_CELLS,
    ensures
        0 <= cell_global_index(workgroup_base(wid, frame), sim, i) < sim.x * sim.y,
        owner(cell_global_index(workgroup_base(wid, frame), sim, i), sim, frame) == wid,
        slot(cell_global_index(workgroup_base(wid, frame), sim, i), sim, frame) == i,
{
    lemma_tiled_sizes(sim, frame);
    let s = frame_shift(frame);
    let local = tile_pos(i);
    lemma_tile_pos_inverse(i);
    let w = sim.x as int;
    let h = sim.y as int;
    assert(tiles_to_cover(sim.x) == w / 32);
    assert(tiles_to_cover(sim.y) == h / 32);
    assert(wid.x * 32 + local.x < w) by (nonlinear_arith)
        requires
            wid.x < w / 32,
            local.x < 32,
            w % 32 == 0,
            w >= 1,
    ;
    assert(wid.y * 32 + local.y < h) by (nonlinear_arith)
        requires
            wid.y < h / 32,
            local.y < 32,
            h % 32 == 0,
            h >= 1,
    ;
    lemma_axis_from_tile(wid.x as int, local.x as int, s, w);
    lemma_axis_from_tile(wid.y as int, local.y as int, s, h);
    let base = workgroup_base(wid, frame);
    let gp = global_pos_of(base, local, sim);
    assert(base.x + local.x == wid.x * 32 + s + local.x);
    assert(base.y + local.y == wid.y * 32 + s + local.y);
    lemma_global_index_split(gp.x as int, gp.y as int, w, h);
    vstd::arithmetic::div_mod::lemma_fundamental_div_mod_converse(wid.x * 32 + local.x, 32, wid.x as int, local.x as int);
    vstd::arithmetic::div_mod::lemma_fundamental_div_mod_converse(wid.y * 32 + local.y, 32, wid.y as int, local.y as int);
}

/// Every buffer index is a cell of its owner's tile, at its slot; and the
/// owner is one of the workgroups the pass dispatches.
pub proof fn lemma_owner_tile_cell(sim: UVec2, frame: u32, k: int)
    requires
        tiled_exactly(sim),
        0 <= k < sim.x * sim.y,
    ensures
        owner(k, sim, frame).x < tiles_to_cover(sim.x),
        owner(k, sim, frame).y < tiles_to_cover(sim.y),
        0 <= slot(k, sim, frame) < TILE_CELLS,
        cell_global_index(workgroup_base(owner(k, sim, frame), frame), sim, slot(k, sim, frame)) == k,
{
    lemma_tiled_sizes(sim, frame);
    let s = frame_shift(frame);
    let w = sim.x as int;
    let h = sim.y as int;
    let gx = k % w;
    let gy = k / w;
    vstd::arithmetic::div_mod::lemma_fundamental_div_mod(k, w);
    vstd::arithmetic::div_mod::lemma_mod_bound(k, w);
    vstd::arithmetic::div_mod::lemma_div_pos_is_pos(k, w);
    vstd::arithmetic::div_mod::lemma_multiply_divide_lt(k, w, h);
    lemma_axis_to_tile(gx, s, w);
    lemma_axis_to_tile(gy, s, h);
    let rx = tile_relative(gx, s, w);
    let ry = tile_relative(gy, s, h);
    let o = owner(k, sim, frame);
    assert(tiles_to_cover(sim.x) == w / 32);
    assert(tiles_to_cover(sim.y) == h / 32);
    vstd::arithmetic::div_mod::lemma_fundamental_div_mod(rx, 32);
    vstd::arithmetic::div_mod::lemma_fundamental_div_mod(ry, 32);
    vstd::arithmetic::div_mod::lemma_div_is_ordered(rx, w - 1, 32);
    vstd::arithmetic::div_mod::lemma_div_is_ordered(ry, h - 1, 32);
    assert((w - 1) / 32 < w / 32) by {
        vstd::arithmetic::div_mod::lemma_fundamental_div_mod(w, 32);
        vstd::arithmetic::div_mod::lemma_fundamental_div_mod_converse(w - 1, 32, w / 32 - 1, 31);
    }
    assert((h - 1) / 32 < h / 32) by {
        vstd::arithmetic::div_mod::lemma_fundamental_div_mod(h, 32);
        vstd::arithmetic::div_mod::lemma_fundamental_div_mod_converse(h - 1, 32, h / 32 - 1, 31);
    }
    let lx = rx % 32;
    let ly = ry % 32;
    let i = slot(k, sim, frame);
    vstd::arithmetic::div_mod::lemma_fundamental_div_mod_converse(i, 32, ly, lx);
    let base = workgroup_base(o, frame);
    assert(base.x + lx == rx + s);
    assert(base.y + ly == ry + s);
    assert(tile_pos(i) == Pos { x: lx as usize, y: ly as usize });
    let gp = global_pos_of(base, tile_pos(i), sim);
    assert(gp.x == gx);
    assert(gp.y == gy);
    assert(global_index(gp, sim) == gy * w + gx);
    vstd::arithmetic::mul::lemma_mul_is_commutative(gy, w);
}

/// The place of workgroup `wid` in the row-major order of a dispatch that is
/// `count_x` workgroups wide.
pub open spec fn workgroup_number(wid: UVec2, count_x: int) -> int {
    wid.y * count_x + wid.x
}

proof fn lemma_stored_at(out: Seq<Cell>, tile: Seq<Cell>, sim: UVec2, frame: u32, wid: UVec2, n: nat, k: int)
    requires
        tiled_exactly(sim),
        wid.x < tiles_to_cover(sim.x),
        wid.y < tiles_to_cover(sim.y),
        n <= TILE_CELLS,
        tile.len() == TILE_CELLS,
        out.len() == sim.x * sim.y,
        0 <= k < sim.x * sim.y,
    ensures
        stored(out, tile, workgroup_base(wid, frame), sim, n).len() == out.len(),
        stored(out, tile, workgroup_base(wid, frame), sim, n)[k] == if owner(k, sim, frame) == wid && slot(
            k,
            sim,
            frame,
        ) < n {
            tile[slot(k, sim, frame)]
        } else {
            out[k]
        },
    decreases n,
{
    if n > 0 {
        let base = workgroup_base(wid, frame);
        lemma_stored_at(out, tile, sim, frame, wid, (n - 1) as nat, k);
        lemma_tile_cell_owner(sim, frame, wid, n - 1);
        lemma_owner_tile_cell(sim, frame, k);
    }
}

proof fn lemma_workgroup_numbering(wid: UVec2, m: int, count_x: int, count_y: int)
    requires
        1 <= count_x <= u32::MAX,
        count_y <= u32::MAX,
        0 <= m < count_x * count_y,
        wid.x < count_x,
        wid.y < count_y,
    ensures
        workgroup_id(m, count_x).x < count_x,
        workgroup_id(m, count_x).y < count_y,
        wid == workgroup_id(m, count_x) <==> workgroup_number(wid, count_x) == m,
        0 <= workgroup_number(wid, count_x) < count_x * count_y,
{
    vstd::arithmetic::div_mod::lemma_fundamental_div_mod(m, count_x);
    vstd::arithmetic::div_mod::lemma_mod_bound(m, count_x);
    vstd::arithmetic::div_mod::lemma_div_pos_is_pos(m, count_x);
    vstd::arithmetic::div_mod::lemma_multiply_divide_lt(m, count_x, count_y);
    vstd::arithmetic::div_mod::lemma_fundamental_div_mod_converse(
        wid.y * count_x + wid.x,
        count_x,
        wid.y as int,
        wid.x as int,
    );
    assert(0 <= wid.y * count_x + wid.x < count_x * count_y) by (nonlinear_arith)
        requires
            0 <= wid.x < count_x,
            0 <= wid.y < count_y,
    ;
    vstd::arithmetic::mul::lemma_mul_is_commutative(count_x, m / count_x);
    if wid == workgroup_id(m, count_x) {
        assert(wid.x == m % count_x);
        assert(wid.y == m / count_x);
    }
    if workgroup_number(wid, count_x) == m {
        assert(workgroup_id(m, count_x).x == wid.x);
        assert(workgroup_id(m, count_x).y == wid.y);
    }
}

proof fn lemma_pass_output_at(params: ShaderParams, input: Seq<Cell>, out0: Seq<Cell>, m: nat, k: int)
    requires
        tiled_exactly(params.sim_size),
        out0.len() == params.sim_size.x * params.sim_size.y,
        m <= tiles_to_cover(params.sim_size.x) * tiles_to_cover(params.sim_size.y),
        0 <= k < params.sim_size.x * params.sim_size.y,
    ensures
        pass_output(params, input, out0, m).len() == out0.len(),
        pass_output(params, input, out0, m)[k] == if workgroup_number(
            owner(k, params.sim_size, params.frame),
            tiles_to_cover(params.sim_size.x),
        ) < m {
            updated_tile(params, owner(k, params.sim_size, params.frame), input)[slot(
                k,
                params.sim_size,
                params.frame,
            )]
        } else {
            out0[k]
        },
    decreases m,
{
    if m > 0 {
        let sim = params.sim_size;
        let cx = tiles_to_cover(sim.x);
        let cy = tiles_to_cover(sim.y);
        lemma_tiled_sizes(sim, params.frame);
        lemma_pass_output_at(params, input, out0, (m - 1) as nat, k);
        lemma_owner_tile_cell(sim, params.frame, k);
        let o = owner(k, sim, params.frame);
        lemma_workgroup_numbering(o, m - 1, cx, cy);
        let wid = workgroup_id(m - 1, cx);
        lemma_workgroup_conserves_tile(params, wid, input);
        lemma_stored_at(
            pass_output(params, input, out0, (m - 1) as nat),
            updated_tile(params, wid, input),
            sim,
            params.frame,
            wid,
            TILE_CELLS as nat,
            k,
        );
    }
}

/// When the simulation is a whole number of tiles wide and high, a compute
/// pass writes every cell of the output exactly once: the cell at buffer
/// index `k` comes from the tile of its owner, at its slot, and nothing of
/// the output's earlier contents survives.
pub proof fn lemma_pass_writes_every_cell(params: ShaderParams, input: Seq<Cell>, output: Seq<Cell>, k: int)
    requires
        tiled_exactly(params.sim_size),
        output.len() == params.sim_size.x * params.sim_size.y,
        0 <= k < params.sim_size.x * params.sim_size.y,
    ensures
        compute_pass_output(params, input, output).len() == output.len(),
        compute_pass_output(params, input, output)[k] == updated_tile(
            params,
            owner(k, params.sim_size, params.frame),
            input,
        )[slot(k, params.sim_size, params.frame)],
{
    let sim = params.sim_size;
    let cx = tiles_to_cover(sim.x);
    let cy = tiles_to_cover(sim.y);
    lemma_tiled_sizes(sim, params.frame);
    lemma_owner_tile_cell(sim, params.frame, k);
    let o = owner(k, sim, params.frame);
    assert(cx * cy >= 1) by (nonlinear_arith)
        requires
            cx >= 1,
            cy >= 1,
    ;
    lemma_workgroup_numbering(o, 0, cx, cy);
    lemma_pass_output_at(params, input, output, (cx * cy) as nat, k);
}

/// Reading a sequence through a bijection of its indices keeps its multiset.
proof fn lemma_reindex_to_multiset(s: Seq<Cell>, sigma: spec_fn(int) -> int, tau: spec_fn(int) -> int)
    requires
        forall|k: int| 0 <= k < s.len() ==> 0 <= #[trigger] sigma(k) < s.len() && tau(sigma(k)) == k,
        forall|j: int| 0 <= j < s.len() ==> 0 <= #[trigger] tau(j) < s.len() && sigma(tau(j)) == j,
    ensures
        Seq::new(s.len(), |k: int| s[sigma(k)]).to_multiset() == s.to_multiset(),
    decreases s.len(),
{
    broadcast use vstd::seq_lib::to_multiset_build;
    let n = s.len() as int;
    let t = Seq::new(s.len(), |k: int| s[sigma(k)]);
    if n == 0 {
        assert(t =~= s);
    } else {
        let last = n - 1;
        let j = tau(last);
        let sl = sigma(last);
        let sigma2 = |k: int| if k == j { sl } else { sigma(k) };
        let tau2 = |i: int| if i == sl { j } else { tau(i) };
        let s2 = s.drop_last();
        assert forall|k: int| 0 <= k < s2.len() implies 0 <= #[trigger] sigma2(k) < s2.len() && tau2(sigma2(k)) == k by {
            if k == j {
                assert(sigma(j) == last);
            } else {
                assert(tau(sigma(k)) == k);
                assert(sigma(k) != last);
                assert(tau(sl) == last);
            }
        }
        assert forall|i: int| 0 <= i < s2.len() implies 0 <= #[trigger] tau2(i) < s2.len() && sigma2(tau2(i)) == i by {
            if i == sl {
                assert(sigma(j) == last);
            } else {
                assert(sigma(tau(i)) == i);
                assert(tau(i) != j);
                assert(tau(i) != last);
            }
        }
        lemma_reindex_to_multiset(s2, sigma2, tau2);
        let t2 = Seq::new(s2.len(), |k: int| s2[sigma2(k)]);
        let swapped = t.update(last, t[j]).update(j, t[last]);
        lemma_swap_to_multiset(t, j, last);
        assert(t.update(last, t[j]).update(j, t[last]).to_multiset() == t.to_multiset());
        assert(swapped[last] == s[last]);
        assert(swapped.drop_last() =~= t2);
        assert(swapped =~= t2.push(s[last]));
        assert(s =~= s2.push(s[last]));
    }
}

/// The tiles of the first `m` workgroups of a dispatch, one after another:
/// as written back when `updated`, as loaded otherwise.
pub open spec fn tiles_in_order(params: ShaderParams, input: Seq<Cell>, m: nat, updated: bool) -> Seq<Cell>
    decreases m,
{
    if m == 0 {
        Seq::empty()
    } else {
        let wid = workgroup_id(m - 1, tiles_to_cover(params.sim_size.x));
        let tile = if updated {
            updated_tile(params, wid, input)
        } else {
            loaded_tile(input, workgroup_base(wid, params.frame), params.sim_size)
        };
        tiles_in_order(params, input, (m - 1) as nat, updated) + tile
    }
}

proof fn lemma_tiles_in_order(params: ShaderParams, input: Seq<Cell>, m: nat, updated: bool)
    ensures
        tiles_in_order(params, input, m, updated).len() == m * TILE_CELLS,
        forall|n: int, i: int|
            0 <= n < m && 0 <= i < TILE_CELLS ==> #[trigger] tiles_in_order(params, input, m, updated)[n
                * TILE_CELLS + i] == if updated {
                updated_tile(params, workgroup_id(n, tiles_to_cover(params.sim_size.x)), input)[i]
            } else {
                loaded_tile(
                    input,
                    workgroup_base(workgroup_id(n, tiles_to_cover(params.sim_size.x)), params.frame),
                    params.sim_size,
                )[i]
            },
        tiles_in_order(params, input, m, true).to_multiset() == tiles_in_order(params, input, m, false).to_multiset(),
    decreases m,
{
    if m > 0 {
        lemma_tiles_in_order(params, input, (m - 1) as nat, updated);
        lemma_tiles_in_order(params, input, (m - 1) as nat, true);
        lemma_tiles_in_order(params, input, (m - 1) as nat, false);
        let wid = workgroup_id(m - 1, tiles_to_cover(params.sim_size.x));
        lemma_workgroup_conserves_tile(params, wid, input);
        let before = tiles_in_order(params, input, (m - 1) as nat, updated);
        assert(before.len() == (m - 1) * TILE_CELLS);
        assert((m - 1) * TILE_CELLS + TILE_CELLS == m * TILE_CELLS) by (nonlinear_arith);
        assert forall|n: int, i: int| 0 <= n < m && 0 <= i < TILE_CELLS implies #[trigger] tiles_in_order(
            params,
            input,
            m,
            updated,
        )[n * TILE_CELLS + i] == if updated {
            updated_tile(params, workgroup_id(n, tiles_to_cover(params.sim_size.x)), input)[i]
        } else {
            loaded_tile(
                input,
                workgroup_base(workgroup_id(n, tiles_to_cover(params.sim_size.x)), params.frame),
                params.sim_size,
            )[i]
        } by {
            if n < m - 1 {
                assert(n * TILE_CELLS + i < (m - 1) * TILE_CELLS) by (nonlinear_arith)
                    requires
                        n < m - 1,
                        i < TILE_CELLS,
                ;
            } else {
                assert(n * TILE_CELLS == (m - 1) * TILE_CELLS);
            }
        }
        vstd::seq_lib::lemma_multiset_commutative(
            tiles_in_order(params, input, (m - 1) as nat, true),
            updated_tile(params, wid, input),
        );
        vstd::seq_lib::lemma_multiset_commutative(
            tiles_in_order(params, input, (m - 1) as nat, false),
            loaded_tile(input, workgroup_base(wid, params.frame), params.sim_size),
        );
    }
}

/// When the simulation is a whole number of tiles wide and high, a compute
/// pass only rearranges the cells: the output holds the same cells, each as
/// often, as the input, so no sand is made or lost.
pub proof fn lemma_pass_conserves_cells(params: ShaderParams, input: Seq<Cell>, output: Seq<Cell>)
    requires
        tiled_exactly(params.sim_size),
        input.len() == params.sim_size.x * params.sim_size.y,
        output.len() == input.len(),
    ensures
        compute_pass_output(params, input, output).to_multiset() == input.to_multiset(),
{
    let sim = params.sim_size;
    let frame = params.frame;
    let cx = tiles_to_cover(sim.x);
    let cy = tiles_to_cover(sim.y);
    lemma_tiled_sizes(sim, frame);
    let m = cx * cy;
    let n = sim.x * sim.y;
    assert(cx * 32 == sim.x && cy * 32 == sim.y) by {
        vstd::arithmetic::div_mod::lemma_fundamental_div_mod(sim.x as int, 32);
        vstd::arithmetic::div_mod::lemma_fundamental_div_mod(sim.y as int, 32);
    }
    assert(m * TILE_CELLS == n) by (nonlinear_arith)
        requires
            cx * 32 == sim.x,
            cy * 32 == sim.y,
            m == cx * cy,
            n == sim.x * sim.y,
    ;
    assert(m >= 1) by (nonlinear_arith)
        requires
            cx >= 1,
            cy >= 1,
            m == cx * cy,
    ;
    lemma_tiles_in_order(params, input, m as nat, true);
    lemma_tiles_in_order(params, input, m as nat, false);
    let cu = tiles_in_order(params, input, m as nat, true);
    let cl = tiles_in_order(params, input, m as nat, false);
    let sigma = |k: int| workgroup_number(owner(k, sim, frame), cx) * TILE_CELLS + slot(k, sim, frame);
    let tau = |j: int| cell_global_index(workgroup_base(workgroup_id(j / TILE_CELLS as int, cx), frame), sim, j % TILE_CELLS as int);
    assert forall|k: int| 0 <= k < n implies 0 <= #[trigger] sigma(k) < n && tau(sigma(k)) == k && ({
        let o = owner(k, sim, frame);
        &&& 0 <= workgroup_number(o, cx) < m
        &&& workgroup_id(workgroup_number(o, cx), cx) == o
        &&& sigma(k) / TILE_CELLS as int == workgroup_number(o, cx)
        &&& sigma(k) % TILE_CELLS as int == slot(k, sim, frame)
    }) by {
        lemma_owner_tile_cell(sim, frame, k);
        let o = owner(k, sim, frame);
        let q = workgroup_number(o, cx);
        lemma_workgroup_numbering(o, 0, cx, cy);
        lemma_workgroup_numbering(o, q, cx, cy);
        vstd::arithmetic::div_mod::lemma_fundamental_div_mod_converse(sigma(k), TILE_CELLS as int, q, slot(k, sim, frame));
        assert(0 <= q * TILE_CELLS + slot(k, sim, frame) < m * TILE_CELLS) by (nonlinear_arith)
            requires
                0 <= q < m,
                0 <= slot(k, sim, frame) < TILE_CELLS,
        ;
    }
    assert forall|j: int| 0 <= j < n implies 0 <= #[trigger] tau(j) < n && sigma(tau(j)) == j by {
        let q = j / TILE_CELLS as int;
        let i = j % TILE_CELLS as int;
        vstd::arithmetic::div_mod::lemma_fundamental_div_mod(j, TILE_CELLS as int);
        vstd::arithmetic::div_mod::lemma_div_pos_is_pos(j, TILE_CELLS as int);
        vstd::arithmetic::div_mod::lemma_multiply_divide_lt(j, TILE_CELLS as int, m);
        let wid = workgroup_id(q, cx);
        lemma_workgroup_numbering(UVec2 { x: 0, y: 0 }, q, cx, cy);
        lemma_workgroup_numbering(wid, q, cx, cy);
        lemma_tile_cell_owner(sim, frame, wid, i);
        vstd::arithmetic::mul::lemma_mul_is_commutative(q, TILE_CELLS as int);
    }
    let out = compute_pass_output(params, input, output);
    let ru = Seq::new(n as nat, |k: int| cu[sigma(k)]);
    let rl = Seq::new(n as nat, |k: int| cl[sigma(k)]);
    assert forall|k: int| 0 <= k < n implies out[k] == #[trigger] ru[k] by {
        lemma_pass_writes_every_cell(params, input, output, k);
        lemma_owner_tile_cell(sim, frame, k);
        assert(0 <= sigma(k) < n);
        let o = owner(k, sim, frame);
        assert(cu[workgroup_number(o, cx) * TILE_CELLS + slot(k, sim, frame)] == updated_tile(params, workgroup_id(workgroup_number(o, cx), cx), input)[slot(k, sim, frame)]);
    }
    lemma_pass_writes_every_cell(params, input, output, 0);
    assert(out =~= ru);
    assert forall|k: int| 0 <= k < n implies input[k] == #[trigger] rl[k] by {
        lemma_owner_tile_cell(sim, frame, k);
        assert(0 <= sigma(k) < n);
        let o = owner(k, sim, frame);
        assert(cl[workgroup_number(o, cx) * TILE_CELLS + slot(k, sim, frame)] == loaded_tile(input, workgroup_base(workgroup_id(workgroup_number(o, cx), cx), frame), sim)[slot(k, sim, frame)]);
    }
    assert(input =~= rl);
    lemma_reindex_to_multiset(cu, sigma, tau);
    lemma_reindex_to_multiset(cl, sigma, tau);
}

/// When the simulation is a whole number of tiles wide and high, a compute
/// pass leaves every non-empty cell of the simulation's bottom row in place,
/// on shifted and unshifted frames alike: nothing falls through the bottom
/// edge to reappear at the top.
pub proof fn lemma_pass_keeps_bottom_row(params: ShaderParams, input: Seq<Cell>, output: Seq<Cell>, k: int)
    requires
        tiled_exactly(params.sim_size),
        input.len() == params.sim_size.x * params.sim_size.y,
        output.len() == input.len(),
        0 <= k < input.len(),
        k / (params.sim_size.x as int) == params.sim_size.y - 1,
        input[k].material != Material::Empty,
    ensures
        compute_pass_output(params, input, output)[k] == input[k],
{
    let sim = params.sim_size;
    let frame = params.frame;
    lemma_pass_writes_every_cell(params, input, output, k);
    lemma_owner_tile_cell(sim, frame, k);
    let o = owner(k, sim, frame);
    let i = slot(k, sim, frame);
    let base = workgroup_base(o, frame);
    let gp = global_pos_of(base, tile_pos(i), sim);
    vstd::arithmetic::div_mod::lemma_mod_bound(base.x + tile_pos(i).x, sim.x as int);
    vstd::arithmetic::div_mod::lemma_mod_bound(base.y + tile_pos(i).y, sim.y as int);
    assert(global_index(gp, sim) == k);
    vstd::arithmetic::div_mod::lemma_fundamental_div_mod_converse(k, sim.x as int, gp.y as int, gp.x as int);
    lemma_workgroup_keeps_bottom_row(params, o, input, i);
}

/// Which cells a workgroup covers: on frame `frame`, the tile cell at local
/// `(lx, ly)` of workgroup `wid` is the simulation cell
/// `((32 wid.x + shift + lx) mod width, (32 wid.y + shift + ly) mod height)`,
/// with `shift` 16 on odd frames and 0 on even ones. Before the first second
/// has passed a workgroup copies each cell it covers from input to output.
pub proof fn lemma_workgroup_copies_covered_cells(
    params: ShaderParams,
    wid: UVec2,
    input: Seq<Cell>,
    output: Seq<Cell>,
    lx: int,
    ly: int,
)
    requires
        tiled_exactly(params.sim_size),
        wid.x < tiles_to_cover(params.sim_size.x),
        wid.y < tiles_to_cover(params.sim_size.y),
        input.len() == params.sim_size.x * params.sim_size.y,
        output.len() == input.len(),
        0 <= lx < SIM_TILE_SIZE,
        0 <= ly < SIM_TILE_SIZE,
        !f32_bits_above_one(params.time_bits),
    ensures
        ({
            let w = params.sim_size.x as int;
            let h = params.sim_size.y as int;
            let shift = if params.frame % 2 == 1 { 16int } else { 0int };
            let k = ((wid.y * 32 + shift + ly) % h) * w + (wid.x * 32 + shift + lx) % w;
            &&& 0 <= k < w * h
            &&& workgroup_output(params, wid, input, output)[k] == input[k]
        }),
{
    let sim = params.sim_size;
    let frame = params.frame;
    let i = ly * 32 + lx;
    vstd::arithmetic::div_mod::lemma_fundamental_div_mod_converse(i, 32, ly, lx);
    lemma_tile_cell_owner(sim, frame, wid, i);
    let base = workgroup_base(wid, frame);
    let k = cell_global_index(base, sim, i);
    assert(tile_pos(i) == Pos { x: lx as usize, y: ly as usize });
    lemma_workgroup_conserves_tile(params, wid, input);
    lemma_stored_at(output, updated_tile(params, wid, input), sim, frame, wid, TILE_CELLS as nat, k);
}

} // verus!

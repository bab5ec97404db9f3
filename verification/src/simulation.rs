//! The host side of the simulation: the starting grid, the two buffers that
//! take turns as input and output, and what each frame's compute pass does.

use vstd::prelude::*;
use crate::cell::{Cell, plain_cell};
use crate::geometry::SIM_TILE_SIZE;
use crate::material::Material;
use crate::workgroup::{workgroup_count, tiles_to_cover};

verus! {

/// Width of the simulation grid, in cells.
pub const SIM_WIDTH: u32 = 512;
/// Height of the simulation grid, in cells.
pub const SIM_HEIGHT: u32 = 512;
/// Number of cells of the simulation grid.
pub const SIM_CELLS: usize = 262144;

/// The material of the starting grid at column `x`, row `y`: a line of sand
/// along row 400 from column 0 to 399, and a block of sand over rows 0 to 255
/// and columns 350 to 511; empty elsewhere.
pub open spec fn initial_material(x: int, y: int) -> Material {
    if (y == 400 && 0 <= x < 400) || (0 <= y < 256 && 350 <= x < 512) {
        Material::Sand
    } else {
        Material::Empty
    }
}

/// The cells of the starting grid, row by row.
pub fn initial_cells() -> (cells: Vec<Cell>)
    ensures
        cells@.len() == SIM_CELLS,
        forall|i: int|
            0 <= i < SIM_CELLS ==> #[trigger] cells@[i] == plain_cell(
                initial_material(i % (SIM_WIDTH as int), i / (SIM_WIDTH as int)),
            ),
{
    let mut cells: Vec<Cell> = Vec::new();
    let mut i: usize = 0;
    while i < SIM_CELLS
        invariant
            i <= SIM_CELLS,
            cells@.len() == i,
            forall|j: int| 0 <= j < i ==> #[trigger] cells@[j] == plain_cell(Material::Empty),
        decreases SIM_CELLS - i,
    {
        cells.push(Cell::new_material(Material::Empty));
        i = i + 1;
    }

    // The line along row 400.
    let mut x: usize = 0;
    while x < 400
        invariant
            x <= 400,
            cells@.len() == SIM_CELLS,
            forall|j: int|
                0 <= j < SIM_CELLS ==> #[trigger] cells@[j] == plain_cell(
                    if j / 512 == 400 && j % 512 < x { Material::Sand } else { Material::Empty },
                ),
        decreases 400 - x,
    {
        let idx: usize = 400 * 512 + x;
        proof {
            vstd::arithmetic::div_mod::lemma_fundamental_div_mod_converse(idx as int, 512, 400, x as int);
        }
        cells.set(idx, Cell::new_material(Material::Sand));
        proof {
            assert forall|j: int| 0 <= j < SIM_CELLS implies #[trigger] cells@[j] == plain_cell(
                if j / 512 == 400 && j % 512 < x + 1 { Material::Sand } else { Material::Empty },
            ) by {
                if j != idx {
                    assert(j / 512 == 400 && j % 512 == x ==> j == idx) by {
                        vstd::arithmetic::div_mod::lemma_fundamental_div_mod(j, 512);
                    }
                }
            }
        }
        x = x + 1;
    }

    // The block in the upper right corner.
    let mut y: usize = 0;
    while y < 256
        invariant
            y <= 256,
            cells@.len() == SIM_CELLS,
            forall|j: int|
                0 <= j < SIM_CELLS ==> #[trigger] cells@[j] == plain_cell(
                    if (j / 512 == 400 && j % 512 < 400) || (j / 512 < y && 350 <= j % 512) {
                        Material::Sand
                    } else {
                        Material::Empty
                    },
                ),
        decreases 256 - y,
    {
        let mut x: usize = 350;
        while x < 512
            invariant
                y < 256,
                350 <= x <= 512,
                cells@.len() == SIM_CELLS,
                forall|j: int|
                    0 <= j < SIM_CELLS ==> #[trigger] cells@[j] == plain_cell(
                        if (j / 512 == 400 && j % 512 < 400) || (j / 512 < y && 350 <= j % 512) || (j
                            / 512 == y && 350 <= j % 512 < x) {
                            Material::Sand
                        } else {
                            Material::Empty
                        },
                    ),
            decreases 512 - x,
        {
            let idx: usize = y * 512 + x;
            proof {
                vstd::arithmetic::div_mod::lemma_fundamental_div_mod_converse(idx as int, 512, y as int, x as int);
            }
            cells.set(idx, Cell::new_material(Material::Sand));
            proof {
                assert forall|j: int| 0 <= j < SIM_CELLS implies #[trigger] cells@[j] == plain_cell(
                    if (j / 512 == 400 && j % 512 < 400) || (j / 512 < y && 350 <= j % 512) || (j / 512
                        == y && 350 <= j % 512 < x + 1) {
                        Material::Sand
                    } else {
                        Material::Empty
                    },
                ) by {
                    if j != idx {
                        assert(j / 512 == y && j % 512 == x ==> j == idx) by {
                            vstd::arithmetic::div_mod::lemma_fundamental_div_mod(j, 512);
                        }
                    }
                }
            }
            x = x + 1;
        }
        y = y + 1;
    }
    proof {
        assert forall|j: int| 0 <= j < SIM_CELLS implies #[trigger] cells@[j] == plain_cell(
            initial_material(j % (SIM_WIDTH as int), j / (SIM_WIDTH as int)),
        ) by {
            vstd::arithmetic::div_mod::lemma_mod_bound(j, 512);
        }
    }
    cells
}

/// One of the two bind groups of the compute pass.
#[derive(Clone, Copy, PartialEq, Eq, Structural, Debug)]
pub enum BindGroupChoice {
    /// Reads the input buffer and writes the output buffer.
    A,
    /// Reads the output buffer and writes the input buffer.
    B,
}

/// One of the two cell buffers.
#[derive(Clone, Copy, PartialEq, Eq, Structural, Debug)]
pub enum CellBuffer {
    Input,
    Output,
}

/// The buffer a compute pass with bind group `g` reads.
pub open spec fn reads(g: BindGroupChoice) -> CellBuffer {
    match g {
        BindGroupChoice::A => CellBuffer::Input,
        BindGroupChoice::B => CellBuffer::Output,
    }
}

/// The buffer a compute pass with bind group `g` writes.
pub open spec fn writes(g: BindGroupChoice) -> CellBuffer {
    match g {
        BindGroupChoice::A => CellBuffer::Output,
        BindGroupChoice::B => CellBuffer::Input,
    }
}

/// What one frame's compute pass does.
#[derive(Clone, Copy, PartialEq, Eq, Structural, Debug)]
pub struct ExecutePlan {
    /// The bind group the pass uses.
    pub bind_group: BindGroupChoice,
    /// Whether the parameters are handed over as push constants.
    pub set_push_constants: bool,
    /// Whether GPU timestamps are written around the pass.
    pub write_timestamps: bool,
    /// Number of workgroups along `x`.
    pub workgroups_x: u32,
    /// Number of workgroups along `y`.
    pub workgroups_y: u32,
}

/// The host's decisions about the simulation: its size, how parameters reach
/// the shader, whether passes are timed, and which bind group is current.
pub struct SimulationState {
    pub sim_width: u32,
    pub sim_height: u32,
    pub emulate_push_constants_with_storage_buffer: bool,
    pub current_bind_group_a: bool,
    pub timestamping: bool,
}

impl SimulationState {
    /// The state after a frame's compute pass: the other bind group is current.
    pub open spec fn executed(self) -> SimulationState {
        SimulationState {
            sim_width: self.sim_width,
            sim_height: self.sim_height,
            emulate_push_constants_with_storage_buffer: self.emulate_push_constants_with_storage_buffer,
            current_bind_group_a: !self.current_bind_group_a,
            timestamping: self.timestamping,
        }
    }

    /// The compute pass run in state `self`, once its bind group is current.
    pub open spec fn planned(self) -> ExecutePlan {
        ExecutePlan {
            bind_group: if self.current_bind_group_a { BindGroupChoice::A } else { BindGroupChoice::B },
            set_push_constants: !self.emulate_push_constants_with_storage_buffer,
            write_timestamps: self.timestamping,
            workgroups_x: tiles_to_cover(self.sim_width) as u32,
            workgroups_y: tiles_to_cover(self.sim_height) as u32,
        }
    }

    /// The buffer that the latest compute pass wrote.
    pub open spec fn latest_buffer(self) -> CellBuffer {
        if self.current_bind_group_a { CellBuffer::Output } else { CellBuffer::Input }
    }

    /// A 512 by 512 simulation with bind group `A` current.
    pub fn new(timestamping: bool, emulate_push_constants_with_storage_buffer: bool) -> (s: SimulationState)
        ensures
            s.sim_width == SIM_WIDTH,
            s.sim_height == SIM_HEIGHT,
            s.current_bind_group_a,
            s.timestamping == timestamping,
            s.emulate_push_constants_with_storage_buffer == emulate_push_constants_with_storage_buffer,
    {
        SimulationState {
            sim_width: SIM_WIDTH,
            sim_height: SIM_HEIGHT,
            emulate_push_constants_with_storage_buffer,
            current_bind_group_a: true,
            timestamping,
        }
    }

    /// Decides one frame's compute pass: the other bind group becomes current
    /// and the pass uses it; parameters go as push constants unless they are
    /// emulated with a storage buffer; timestamps are written when timing is
    /// on; and enough workgroups are dispatched to cover the simulation.
    pub fn execute(&mut self) -> (plan: ExecutePlan)
        ensures
            *final(self) == old(self).executed(),
            plan == final(self).planned(),
    {
        self.current_bind_group_a = !self.current_bind_group_a;
        let bind_group = if self.current_bind_group_a { BindGroupChoice::A } else { BindGroupChoice::B };
        ExecutePlan {
            bind_group,
            set_push_constants: !self.emulate_push_constants_with_storage_buffer,
            write_timestamps: self.timestamping,
            workgroups_x: workgroup_count(self.sim_width),
            workgroups_y: workgroup_count(self.sim_height),
        }
    }

    /// The most recent buffer that has been written to.
    pub fn current_buffer(&self) -> (b: CellBuffer)
        ensures
            b == self.latest_buffer(),
    {
        if self.current_bind_group_a {
            CellBuffer::Output
        } else {
            CellBuffer::Input
        }
    }
}

/// `current_buffer` names the buffer that the latest compute pass wrote, and
/// each pass reads the buffer that the pass before it wrote: the two buffers
/// take turns, and two passes bring the state back to where it was.
pub proof fn lemma_buffers_take_turns(s: SimulationState)
    ensures
        s.executed().latest_buffer() == writes(s.executed().planned().bind_group),
        reads(s.executed().executed().planned().bind_group) == writes(s.executed().planned().bind_group),
        s.executed().executed() == s,
{
}

/// Ticks between the two GPU timestamps written around a compute pass.
pub fn elapsed_ticks(timings: &Vec<u64>) -> (ticks: u64)
    requires
        timings@.len() >= 2,
        timings@[0] <= timings@[1],
    ensures
        ticks == timings@[1] - timings@[0],
{
    timings[1] - timings[0]
}

/// The compute pass dispatches enough workgroups to cover the simulation,
/// with less than one tile to spare along each axis.
pub proof fn lemma_plan_covers_grid(s: SimulationState)
    ensures
        s.planned().workgroups_x * SIM_TILE_SIZE >= s.sim_width,
        s.planned().workgroups_x * SIM_TILE_SIZE < s.sim_width + SIM_TILE_SIZE,
        s.planned().workgroups_y * SIM_TILE_SIZE >= s.sim_height,
        s.planned().workgroups_y * SIM_TILE_SIZE < s.sim_height + SIM_TILE_SIZE,
{
    vstd::arithmetic::div_mod::lemma_fundamental_div_mod(s.sim_width + 31, 32);
    vstd::arithmetic::div_mod::lemma_fundamental_div_mod(s.sim_height + 31, 32);
    vstd::arithmetic::div_mod::lemma_mod_bound(s.sim_width + 31, 32);
    vstd::arithmetic::div_mod::lemma_mod_bound(s.sim_height + 31, 32);
}

} // verus!

//! What the display pass computes: which cell a pixel shows and in which
//! colour, and the corners of the triangle that covers the screen.

use vstd::prelude::*;
use crate::cell::{Cell, f32_bits_positive, f32_bits_is_positive};
use crate::material::{Color, Material, rgba};
use crate::params::UVec2;

verus! {

/// The colour that marks an empty cell with a tint.
pub open spec fn tinted_empty_color() -> Color {
    rgba(255, 0, 0, 255)
}

/// The colour in which `cell` is shown: its material's colour, except that
/// an empty cell whose red or green tint is above zero is shown red.
pub open spec fn cell_display_color(cell: Cell) -> Color {
    if cell.material == Material::Empty && (f32_bits_positive(cell.color.r) || f32_bits_positive(cell.color.g)) {
        tinted_empty_color()
    } else {
        cell.material.display_color()
    }
}

/// The simulation cell a pixel shows: its scaled position, limited to the grid.
pub open spec fn displayed_cell(sim_pos: UVec2, sim_size: UVec2) -> UVec2 {
    UVec2 {
        x: if sim_pos.x < sim_size.x - 1 { sim_pos.x } else { (sim_size.x - 1) as u32 },
        y: if sim_pos.y < sim_size.y - 1 { sim_pos.y } else { (sim_size.y - 1) as u32 },
    }
}

/// The buffer index of the cell a pixel shows.
pub open spec fn displayed_index(sim_pos: UVec2, sim_size: UVec2) -> int {
    let p = displayed_cell(sim_pos, sim_size);
    p.y * sim_size.x + p.x
}

/// The colour of the pixel whose position, scaled to the simulation grid and
/// rounded down, is `sim_pos`: the position is limited to the grid, the cell
/// there is looked up in the row-major `sim_state`, and the cell's display
/// colour is returned.
pub fn fragment_color(sim_pos: UVec2, sim_size: UVec2, sim_state: &Vec<Cell>) -> (c: Color)
    requires
        sim_size.x >= 1,
        sim_size.y >= 1,
        displayed_index(sim_pos, sim_size) <= u32::MAX,
        displayed_index(sim_pos, sim_size) < sim_state@.len(),
    ensures
        c == cell_display_color(sim_state@[displayed_index(sim_pos, sim_size)]),
{
    let max_x = sim_size.x - 1;
    let max_y = sim_size.y - 1;
    let px = if sim_pos.x < max_x { sim_pos.x } else { max_x };
    let py = if sim_pos.y < max_y { sim_pos.y } else { max_y };
    assert(py * sim_size.x + px == displayed_index(sim_pos, sim_size));
    let idx = (py * sim_size.x + px) as usize;
    let cell = sim_state[idx];
    let mut output = cell.material.color();
    if cell.material.is_empty() && (f32_bits_is_positive(cell.color.r) || f32_bits_is_positive(cell.color.g)) {
        output = Color { r: 255, g: 0, b: 0, a: 255 };
    }
    output
}

/// The corner, in units of half the screen, of the full-screen triangle for
/// vertex `vert_idx`: bit 0 of the index chooses `x`, bit 1 chooses `y`.
pub open spec fn fullscreen_corner(vert_idx: i32) -> (i32, i32) {
    (
        if vert_idx % 2 == 1 { 2i32 } else { 0i32 },
        if (vert_idx / 2) % 2 == 1 { 2i32 } else { 0i32 },
    )
}

/// The corner of the full-screen triangle for vertex `vert_idx`.
pub fn fullscreen_triangle_corner(vert_idx: i32) -> (c: (i32, i32))
    ensures
        c == fullscreen_corner(vert_idx),
{
    let u: i32 = (vert_idx << 1u32) & 2;
    let v: i32 = vert_idx & 2;
    assert(((vert_idx << 1u32) & 2) == (if vert_idx % 2 == 1 { 2i32 } else { 0i32 })) by (bit_vector);
    assert((vert_idx & 2) == (if (vert_idx / 2) % 2 == 1 { 2i32 } else { 0i32 })) by (bit_vector);
    (u, v)
}

} // verus!

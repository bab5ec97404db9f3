use sand_simulation::cell::Cell;
use sand_simulation::compute::cell_update;
use sand_simulation::geometry::{pos_to_idx, Pos, TILE_CELLS};
use sand_simulation::grid::Grid;
use sand_simulation::material::Material;
use sand_simulation::params::{ShaderParams, UVec2};

fn empty_tile() -> Vec<Cell> {
    vec![Cell::new_empty(); TILE_CELLS]
}

fn grid_with_sand(at: &[(usize, usize)], topleft: Pos, sim: UVec2) -> Grid {
    let mut tile = empty_tile();
    for &(x, y) in at {
        tile[pos_to_idx(Pos::new(x, y))] = Cell::new_material(Material::Sand);
    }
    Grid::new(tile, topleft, sim)
}

fn material_at(g: &Grid, x: usize, y: usize) -> Material {
    g.get(Pos::new(x, y)).material
}

fn params_for_frame(frame: u32) -> ShaderParams {
    let mut p = ShaderParams::default();
    p.frame = frame;
    p
}

#[test]
fn clamp_pos_keeps_inside_positions() {
    let g = grid_with_sand(&[], Pos::new(0, 0), UVec2::new(512, 512));
    assert_eq!(g.clamp_pos(Pos::new(5, 5), Pos::new(6, 6)), Pos::new(6, 6));
    assert_eq!(g.clamp_pos(Pos::new(0, 0), Pos::new(0, 0)), Pos::new(0, 0));
}

#[test]
fn clamp_pos_limits_to_tile() {
    let g = grid_with_sand(&[], Pos::new(0, 0), UVec2::new(512, 512));
    assert_eq!(g.clamp_pos(Pos::new(31, 31), Pos::new(31, 32)), Pos::new(31, 31));
    assert_eq!(g.clamp_pos(Pos::new(31, 5), Pos::new(32, 5)), Pos::new(31, 5));
}

#[test]
fn clamp_pos_limits_to_simulation_edge() {
    // The tile's row 3 is the last row of a 100-row simulation.
    let g = grid_with_sand(&[], Pos::new(0, 96), UVec2::new(512, 100));
    assert_eq!(g.clamp_pos(Pos::new(4, 3), Pos::new(4, 4)), Pos::new(4, 3));
    // Column 0 of a tile whose left edge is at global column 0.
    let h = grid_with_sand(&[], Pos::new(0, 0), UVec2::new(512, 512));
    assert_eq!(h.clamp_pos(Pos::new(1, 3), Pos::new(0, 3)), Pos::new(0, 3));
}

#[test]
fn clamp_pos_wraps_own_position() {
    // The tile starts past the right edge; its cell (0, 0) is global column 8 of 40.
    let g = grid_with_sand(&[], Pos::new(48, 0), UVec2::new(40, 512));
    // Column 31 of the tile is global column 39, the last; column 32 would be outside.
    assert_eq!(g.clamp_pos(Pos::new(31, 0), Pos::new(31, 0)), Pos::new(31, 0));
    assert_eq!(g.clamp_pos(Pos::new(30, 0), Pos::new(31, 0)), Pos::new(31, 0));
}

#[test]
fn move_cell_swaps() {
    let mut g = grid_with_sand(&[(2, 2)], Pos::new(0, 0), UVec2::new(512, 512));
    g.set_cell(Pos::new(2, 3), Cell::new_undefined());
    g.move_cell(Pos::new(2, 2), Pos::new(2, 3), true);
    assert_eq!(material_at(&g, 2, 3), Material::Sand);
    assert_eq!(material_at(&g, 2, 2), Material::Undefined);
}

#[test]
fn move_cell_without_swap_leaves_empty() {
    let mut g = grid_with_sand(&[(2, 2)], Pos::new(0, 0), UVec2::new(512, 512));
    g.set_cell(Pos::new(2, 3), Cell::new_undefined());
    g.move_cell(Pos::new(2, 2), Pos::new(2, 3), false);
    assert_eq!(material_at(&g, 2, 3), Material::Sand);
    assert_eq!(material_at(&g, 2, 2), Material::Empty);
}

#[test]
fn move_cell_onto_itself_changes_nothing() {
    let mut g = grid_with_sand(&[(2, 2)], Pos::new(0, 0), UVec2::new(512, 512));
    g.move_cell(Pos::new(2, 2), Pos::new(2, 2), false);
    assert_eq!(material_at(&g, 2, 2), Material::Sand);
}

#[test]
fn swapping_back_restores_tile() {
    let mut g = grid_with_sand(&[(7, 1)], Pos::new(0, 0), UVec2::new(512, 512));
    g.set_cell(Pos::new(9, 4), Cell::new_undefined());
    let before = g.into_tile();
    let mut g = Grid::new(before.clone(), Pos::new(0, 0), UVec2::new(512, 512));
    g.move_cell(Pos::new(7, 1), Pos::new(9, 4), true);
    g.move_cell(Pos::new(9, 4), Pos::new(7, 1), true);
    assert!(g.into_tile() == before);
}

#[test]
fn get_idx_and_get_idx_mut() {
    let mut g = grid_with_sand(&[(1, 0)], Pos::new(0, 0), UVec2::new(512, 512));
    assert_eq!(g.get_idx(1).material, Material::Sand);
    g.get_idx_mut(1).material = Material::Undefined;
    assert_eq!(g.get(Pos::new(1, 0)).material, Material::Undefined);
}

#[test]
fn sand_falls_into_empty_cell_below() {
    let mut g = grid_with_sand(&[(4, 4)], Pos::new(0, 0), UVec2::new(512, 512));
    cell_update(&params_for_frame(0), &mut g, Pos::new(4, 4), Pos::new(4, 4), pos_to_idx(Pos::new(4, 4)));
    assert_eq!(material_at(&g, 4, 5), Material::Sand);
    assert_eq!(material_at(&g, 4, 4), Material::Empty);
}

#[test]
fn sand_slides_right_on_even_frames_and_left_on_odd() {
    let mut g = grid_with_sand(&[(4, 4), (4, 5)], Pos::new(0, 0), UVec2::new(512, 512));
    cell_update(&params_for_frame(2), &mut g, Pos::new(4, 4), Pos::new(4, 4), pos_to_idx(Pos::new(4, 4)));
    assert_eq!(material_at(&g, 5, 5), Material::Sand);
    assert_eq!(material_at(&g, 4, 4), Material::Empty);

    let mut h = grid_with_sand(&[(4, 4), (4, 5)], Pos::new(0, 0), UVec2::new(512, 512));
    cell_update(&params_for_frame(3), &mut h, Pos::new(4, 4), Pos::new(4, 4), pos_to_idx(Pos::new(4, 4)));
    assert_eq!(material_at(&h, 3, 5), Material::Sand);
    assert_eq!(material_at(&h, 4, 4), Material::Empty);
}

#[test]
fn sand_slides_the_other_way_when_first_side_is_blocked() {
    // Even frame: the right side is tried first, but the cell to the right is sand.
    let mut g = grid_with_sand(&[(4, 4), (4, 5), (5, 4)], Pos::new(0, 0), UVec2::new(512, 512));
    cell_update(&params_for_frame(0), &mut g, Pos::new(4, 4), Pos::new(4, 4), pos_to_idx(Pos::new(4, 4)));
    assert_eq!(material_at(&g, 3, 5), Material::Sand);
    assert_eq!(material_at(&g, 4, 4), Material::Empty);
}

#[test]
fn sand_rests_when_surrounded() {
    let mut g = grid_with_sand(&[(4, 4), (3, 5), (4, 5), (5, 5)], Pos::new(0, 0), UVec2::new(512, 512));
    let before = g.into_tile();
    let mut g = Grid::new(before.clone(), Pos::new(0, 0), UVec2::new(512, 512));
    cell_update(&params_for_frame(0), &mut g, Pos::new(4, 4), Pos::new(4, 4), pos_to_idx(Pos::new(4, 4)));
    assert!(g.into_tile() == before);
}

#[test]
fn sand_stays_on_last_row_of_tile() {
    let mut g = grid_with_sand(&[(4, 31)], Pos::new(0, 0), UVec2::new(512, 512));
    cell_update(&params_for_frame(0), &mut g, Pos::new(4, 31), Pos::new(4, 31), pos_to_idx(Pos::new(4, 31)));
    assert_eq!(material_at(&g, 4, 31), Material::Sand);
}

#[test]
fn sand_stays_on_last_row_of_simulation() {
    // Tile row 3 is the last row of a 100-row simulation.
    let mut g = grid_with_sand(&[(4, 3)], Pos::new(0, 96), UVec2::new(512, 100));
    cell_update(&params_for_frame(0), &mut g, Pos::new(4, 3), Pos::new(4, 3), pos_to_idx(Pos::new(4, 3)));
    assert_eq!(material_at(&g, 4, 3), Material::Sand);
    assert_eq!(material_at(&g, 4, 4), Material::Empty);
}

#[test]
fn only_sand_moves() {
    let mut g = grid_with_sand(&[], Pos::new(0, 0), UVec2::new(512, 512));
    g.set_cell(Pos::new(4, 4), Cell::new_undefined());
    cell_update(&params_for_frame(0), &mut g, Pos::new(4, 4), Pos::new(4, 4), pos_to_idx(Pos::new(4, 4)));
    assert_eq!(material_at(&g, 4, 4), Material::Undefined);
    assert_eq!(material_at(&g, 4, 5), Material::Empty);
}

#[test]
fn sand_at_right_edge_of_tile_does_not_slide() {
    // Below is sand, and the right neighbour lies outside the tile.
    let mut g = grid_with_sand(&[(31, 4), (31, 5)], Pos::new(0, 0), UVec2::new(512, 512));
    cell_update(&params_for_frame(1), &mut g, Pos::new(31, 4), Pos::new(31, 4), pos_to_idx(Pos::new(31, 4)));
    assert_eq!(material_at(&g, 31, 4), Material::Sand);
    assert_eq!(material_at(&g, 30, 5), Material::Empty);
}

#[test]
fn read_after_set_cell() {
    let mut g = grid_with_sand(&[(0, 0)], Pos::new(0, 0), UVec2::new(512, 512));
    g.set_cell(Pos::new(5, 6), Cell::new_undefined());
    assert_eq!(material_at(&g, 5, 6), Material::Undefined);
    assert_eq!(material_at(&g, 0, 0), Material::Sand);
    assert_eq!(material_at(&g, 6, 5), Material::Empty);
}

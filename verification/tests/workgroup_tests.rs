use sand_simulation::cell::Cell;
use sand_simulation::material::Material;
use sand_simulation::params::{ShaderParams, UVec2};
use sand_simulation::workgroup::{main_cs, run_compute_pass, workgroup_count};

fn params(width: u32, height: u32, frame: u32, time: f32) -> ShaderParams {
    let mut p = ShaderParams::default();
    p.sim_size = UVec2::new(width, height);
    p.frame = frame;
    p.time_bits = time.to_bits();
    p
}

fn grid(width: usize, height: usize, sand: &[(usize, usize)]) -> Vec<Cell> {
    let mut cells = vec![Cell::new_empty(); width * height];
    for &(x, y) in sand {
        cells[y * width + x] = Cell::new_material(Material::Sand);
    }
    cells
}

fn sand_count(cells: &[Cell]) -> usize {
    cells.iter().filter(|c| c.material == Material::Sand).count()
}

#[test]
fn workgroup_count_rounds_up() {
    assert_eq!(workgroup_count(0), 0);
    assert_eq!(workgroup_count(1), 1);
    assert_eq!(workgroup_count(512), 16);
    assert_eq!(workgroup_count(513), 17);
    assert_eq!(workgroup_count(u32::MAX), 134217728);
}

#[test]
fn main_cs_moves_sand_one_row_down() {
    let input = grid(64, 64, &[(10, 10)]);
    let mut output = input.clone();
    main_cs(&params(64, 64, 0, 1.5), UVec2::new(0, 0), &input, &mut output);
    assert_eq!(output[11 * 64 + 10].material, Material::Sand);
    assert_eq!(output[10 * 64 + 10].material, Material::Empty);
    assert_eq!(sand_count(&output), 1);
}

#[test]
fn main_cs_waits_for_the_first_second() {
    let input = grid(64, 64, &[(10, 10)]);
    let mut output = vec![Cell::new_undefined(); 64 * 64];
    main_cs(&params(64, 64, 0, 0.5), UVec2::new(0, 0), &input, &mut output);
    // The workgroup's tile is copied unchanged; the rest of the output is untouched.
    assert_eq!(output[10 * 64 + 10].material, Material::Sand);
    assert_eq!(output[31 * 64 + 31].material, Material::Empty);
    assert_eq!(output[32 * 64 + 32].material, Material::Undefined);
}

#[test]
fn main_cs_shifts_tiles_on_odd_frames() {
    // On odd frames workgroup (0, 0) covers columns and rows 16..48.
    let input = grid(64, 64, &[(40, 40)]);
    let mut output = vec![Cell::new_undefined(); 64 * 64];
    main_cs(&params(64, 64, 1, 2.0), UVec2::new(0, 0), &input, &mut output);
    assert_eq!(output[41 * 64 + 40].material, Material::Sand);
    assert_eq!(output[15 * 64 + 15].material, Material::Undefined);
    assert_eq!(output[16 * 64 + 16].material, Material::Empty);
}

#[test]
fn main_cs_wraps_around_the_simulation() {
    // On odd frames workgroup (1, 1) of a 64 by 64 simulation covers 48..80, wrapping to 0..16.
    let input = grid(64, 64, &[(2, 2)]);
    let mut output = vec![Cell::new_undefined(); 64 * 64];
    main_cs(&params(64, 64, 1, 2.0), UVec2::new(1, 1), &input, &mut output);
    assert_eq!(output[3 * 64 + 2].material, Material::Sand);
    assert_eq!(output[2 * 64 + 2].material, Material::Empty);
}

#[test]
fn compute_pass_conserves_sand() {
    let sand: Vec<(usize, usize)> = (0..64).flat_map(|x| [(x, 5), (x, 30), (x, 31), (x, 63)]).chain((20..40).map(|y| (7, y))).collect();
    let input = grid(64, 64, &sand);
    let mut output = input.clone();
    for frame in 0..4 {
        let before = if frame % 2 == 0 { input.clone() } else { output.clone() };
        let mut after = before.clone();
        run_compute_pass(&params(64, 64, frame, 3.0), &before, &mut after);
        assert_eq!(sand_count(&after), sand_count(&before));
        output = after;
    }
    assert_eq!(sand_count(&output), sand_count(&input));
}

#[test]
fn compute_pass_moves_each_grain_at_most_one_row() {
    let input = grid(64, 64, &[(3, 0), (3, 1), (3, 2)]);
    let mut output = input.clone();
    run_compute_pass(&params(64, 64, 0, 3.0), &input, &mut output);
    // The bottom grain falls; the column above it then has a gap to fill.
    assert_eq!(output[3 * 64 + 3].material, Material::Sand);
    assert_eq!(sand_count(&output), 3);
    for y in 4..64 {
        assert_eq!(output[y * 64 + 3].material, Material::Empty);
    }
}

#[test]
fn compute_pass_writes_every_cell() {
    for frame in 0..2 {
        let input = grid(64, 96, &[(1, 1), (40, 70)]);
        let mut output = vec![Cell::new_undefined(); 64 * 96];
        run_compute_pass(&params(64, 96, frame, 0.0), &input, &mut output);
        // Before the first second nothing moves, and every cell is written.
        assert!(output == input);
    }
}

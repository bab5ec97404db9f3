use sand_simulation::cell::Cell;
use sand_simulation::geometry::{get_pos, get_pos_custom, pos_to_idx, Offset, Pos};
use sand_simulation::material::{Color, Material};

#[test]
fn pos_to_idx_is_row_major() {
    assert_eq!(pos_to_idx(Pos::new(3, 2)), 67);
    assert_eq!(pos_to_idx(Pos::new(0, 0)), 0);
    assert_eq!(pos_to_idx(Pos::new(31, 31)), 1023);
}

#[test]
fn offset_tuples() {
    assert_eq!(Offset::Up.tuple(), (0, -1));
    assert_eq!(Offset::Left.tuple(), (-1, 0));
    assert_eq!(Offset::Right.tuple(), (1, 0));
    assert_eq!(Offset::UpRight.tuple(), (1, -1));
    assert_eq!(Offset::DownRight.tuple(), (1, 1));
    assert_eq!(Offset::DownLeft.tuple(), (-1, 1));
    assert_eq!(Offset::UpLeft.tuple(), (-1, -1));
    assert_eq!(Offset::Down.tuple(), (0, 1));
}

#[test]
fn get_pos_moves_by_offset() {
    assert_eq!(get_pos(Pos::new(5, 5), Offset::DownLeft), Pos::new(4, 6));
    assert_eq!(get_pos(Pos::new(5, 5), Offset::UpRight), Pos::new(6, 4));
}

#[test]
fn get_pos_saturates_at_zero() {
    assert_eq!(get_pos(Pos::new(0, 0), Offset::UpLeft), Pos::new(0, 0));
    assert_eq!(get_pos(Pos::new(0, 3), Offset::Left), Pos::new(0, 3));
}

#[test]
fn get_pos_custom_moves_and_saturates() {
    assert_eq!(get_pos_custom(Pos::new(10, 2), -3, 5), Pos::new(7, 7));
    assert_eq!(get_pos_custom(Pos::new(2, 2), -5, -1), Pos::new(0, 1));
    assert_eq!(get_pos_custom(Pos::new(2, 2), 0, 0), Pos::new(2, 2));
}

#[test]
fn named_offsets_agree_with_custom_steps() {
    let p = Pos::new(1, 1);
    for o in [Offset::Up, Offset::Left, Offset::Right, Offset::UpRight, Offset::DownRight, Offset::DownLeft, Offset::UpLeft, Offset::Down] {
        let (x, y) = o.tuple();
        assert_eq!(get_pos(p, o), get_pos_custom(p, x, y));
    }
}

#[test]
fn material_colors() {
    assert_eq!(Material::Undefined.color(), Color { r: 255, g: 0, b: 255, a: 255 });
    assert_eq!(Material::Empty.color(), Color { r: 0, g: 0, b: 0, a: 255 });
    assert_eq!(Material::Sand.color(), Color { r: 255, g: 255, b: 0, a: 255 });
}

#[test]
fn material_is_empty() {
    assert!(Material::Empty.is_empty());
    assert!(!Material::Sand.is_empty());
    assert!(!Material::Undefined.is_empty());
}

#[test]
fn cell_constructors() {
    assert_eq!(Cell::new_empty().material, Material::Empty);
    assert_eq!(Cell::new_undefined().material, Material::Undefined);
    let sand = Cell::new_material(Material::Sand);
    assert_eq!(sand.material, Material::Sand);
    assert_eq!((sand.color.r, sand.color.g, sand.color.b, sand.color.a), (0, 0, 0, 0));
}

#[test]
fn tile_indices_are_distinct_and_dense() {
    let mut seen = vec![false; 1024];
    for y in 0..32 {
        for x in 0..32 {
            let i = pos_to_idx(Pos::new(x, y));
            assert!(i < 1024);
            assert!(!seen[i]);
            seen[i] = true;
        }
    }
    assert!(seen.iter().all(|&s| s));
}

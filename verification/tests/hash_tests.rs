use sand_simulation::hash::{uhash11, uhash12, uhash13, uhash14, uhash21, uhash22, uhash23, uhash31, uhash32, uhash33, uhash44, UVec3, UVec4};
use sand_simulation::params::UVec2;

#[test]
fn hash_to_one_lane() {
    assert_eq!(uhash11(0), 0);
    assert_eq!(uhash11(1), 28192936);
    assert_eq!(uhash12(UVec2::new(1, 2)), 3724694931);
    assert_eq!(uhash13(UVec3 { x: 1, y: 2, z: 3 }), 1537594238);
    assert_eq!(uhash14(UVec4 { x: 1, y: 2, z: 3, w: 4 }), 3393149866);
}

#[test]
fn hash_to_two_lanes() {
    assert_eq!(uhash21(7), UVec2::new(4073747576, 4053076792));
    assert_eq!(uhash22(UVec2::new(5, 9)), UVec2::new(2075681172, 626542260));
    assert_eq!(uhash23(UVec3 { x: 1, y: 2, z: 3 }), UVec2::new(1537594238, 3937978414));
}

#[test]
fn hash_to_three_and_four_lanes() {
    assert_eq!(uhash31(7), UVec3 { x: 2690857489, y: 2916429881, z: 3047211263 });
    assert_eq!(uhash32(UVec2::new(5, 9)), UVec3 { x: 3523711135, y: 482749943, z: 870645585 });
    assert_eq!(uhash33(UVec3 { x: 1, y: 2, z: 3 }), UVec3 { x: 1537594238, y: 3937978414, z: 1327558754 });
    assert_eq!(
        uhash44(UVec4 { x: 1, y: 2, z: 3, w: 4 }),
        UVec4 { x: 3393149866, y: 1559695674, z: 1854923510, w: 971076978 }
    );
}

#[test]
fn hash_family_is_consistent() {
    for q in [0u32, 1, 7, 123456789, u32::MAX] {
        assert_eq!(uhash11(q), uhash21(q).x);
        assert_eq!(uhash11(q), uhash12(UVec2::new(q, q)));
        assert_eq!(uhash31(q), uhash33(UVec3 { x: q, y: q, z: q }));
        assert_eq!(uhash32(UVec2::new(q, 3)), uhash33(UVec3 { x: q, y: 3, z: q }));
    }
}

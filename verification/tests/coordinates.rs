use ndrcraft::types::{Extent3d, Offset3d};
use ndrcraft::voxel::World;

fn world(width: u32, height: u32, depth: u32) -> World {
    World::new(Extent3d::new(width, height, depth), 1).unwrap()
}

#[test]
fn index_of_the_first_cell_is_zero() {
    let world = world(4, 3, 5);
    assert_eq!(world.get_voxel_index(Offset3d::new(-2, -1, -2)), Some(0));
}

#[test]
fn index_follows_the_row_major_formula() {
    // zero-based (3, 2, 4) in a 4 x 3 x 5 world: 4 * 4 * 3 + 2 * 4 + 3
    let world = world(4, 3, 5);
    assert_eq!(world.get_voxel_index(Offset3d::new(1, 1, 2)), Some(59));
    // zero-based (1, 0, 2): 2 * 4 * 3 + 0 * 4 + 1
    assert_eq!(world.get_voxel_index(Offset3d::new(-1, -1, 0)), Some(25));
}

#[test]
fn position_follows_the_inverse_formula() {
    let world = world(4, 3, 5);
    assert_eq!(world.get_voxel_position(59), Some(Offset3d::new(1, 1, 2)));
    assert_eq!(world.get_voxel_position(25), Some(Offset3d::new(-1, -1, 0)));
    assert_eq!(world.get_voxel_position(0), Some(Offset3d::new(-2, -1, -2)));
}

#[test]
fn index_round_trips_through_position() {
    let world = world(4, 3, 5);
    for index in 0..60 {
        let position = world.get_voxel_position(index).unwrap();
        assert_eq!(world.get_voxel_index(position), Some(index));
    }
}

#[test]
fn position_round_trips_through_index() {
    let world = world(4, 3, 5);
    for z in -2..3 {
        for y in -1..2 {
            for x in -2..2 {
                let position = Offset3d::new(x, y, z);
                let index = world.get_voxel_index(position).unwrap();
                assert_eq!(world.get_voxel_position(index), Some(position));
            }
        }
    }
}

#[test]
fn index_at_or_above_the_cell_count_has_no_position() {
    let world = world(4, 3, 5);
    assert_eq!(world.get_voxel_position(60), None);
    assert_eq!(world.get_voxel_position(usize::MAX), None);
}

#[test]
fn position_outside_the_world_has_no_index() {
    let world = world(4, 3, 5);
    assert_eq!(world.get_voxel_index(Offset3d::new(2, 0, 0)), None);
    assert_eq!(world.get_voxel_index(Offset3d::new(-3, 0, 0)), None);
    assert_eq!(world.get_voxel_index(Offset3d::new(0, 2, 0)), None);
    assert_eq!(world.get_voxel_index(Offset3d::new(0, -2, 0)), None);
    assert_eq!(world.get_voxel_index(Offset3d::new(0, 0, 3)), None);
    assert_eq!(world.get_voxel_index(Offset3d::new(0, 0, -3)), None);
    assert_eq!(world.get_voxel_index(Offset3d::new(i32::MAX, i32::MAX, i32::MAX)), None);
    assert_eq!(world.get_voxel_index(Offset3d::new(i32::MIN, i32::MIN, i32::MIN)), None);
}

#[test]
fn odd_extent_is_centred_on_the_origin() {
    let world = world(3, 1, 3);
    assert_eq!(world.get_voxel_index(Offset3d::new(-1, 0, -1)), Some(0));
    assert_eq!(world.get_voxel_index(Offset3d::new(0, 0, 0)), Some(4));
    assert_eq!(world.get_voxel_index(Offset3d::new(1, 0, 1)), Some(8));
    assert_eq!(world.get_voxel_index(Offset3d::new(0, 1, 0)), None);
    assert_eq!(world.get_voxel_index(Offset3d::new(0, -1, 0)), None);
}

#[test]
fn world_without_cells_has_no_position() {
    let world = world(0, 4, 4);
    assert_eq!(world.get_voxel_index(Offset3d::new(0, 0, 0)), None);
    assert_eq!(world.get_voxel_position(0), None);
}

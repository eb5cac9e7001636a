use ndrcraft::graphics;
use ndrcraft::types::{Extent3d, Offset3d};
use ndrcraft::voxel::{Face, Faces, Voxel, World, WorldError};

const ALL: [Face; 6] = [Face::PosX, Face::NegX, Face::PosY, Face::NegY, Face::PosZ, Face::NegZ];

fn marked(world: &World, position: Offset3d<i32>, face: Face) -> bool {
    world.get_voxel_data(position).unwrap().faces.contains(Faces::from(face))
}

fn marks(world: &World, position: Offset3d<i32>) -> Vec<Face> {
    ALL.iter().copied().filter(|face| marked(world, position, *face)).collect()
}

/// The number of faces that are drawn: the marked faces of blocks.
fn exposed(world: &World, position: Offset3d<i32>) -> usize {
    match world.get_voxel(position) {
        Some(Voxel::Tile(_)) => marks(world, position).len(),
        _ => 0,
    }
}

fn positions(world: &World) -> Vec<Offset3d<i32>> {
    let size = world.size();
    let count = (size.width * size.height * size.depth) as usize;
    (0..count).map(|index| world.get_voxel_position(index).unwrap()).collect()
}

fn neighbour(position: Offset3d<i32>, face: Face) -> Offset3d<i32> {
    let step = face.get_adjacent_voxel_position();
    Offset3d::new(position.x + step.x, position.y + step.y, position.z + step.z)
}

/// Every face of every block is marked exactly where nothing is behind it.
fn assert_consistent(world: &World) {
    for position in positions(world) {
        if let Some(Voxel::Tile(_)) = world.get_voxel(position) {
            for face in ALL {
                let open = match world.get_voxel(neighbour(position, face)) {
                    None | Some(Voxel::Void) => true,
                    Some(Voxel::Tile(_)) => false,
                };
                assert_eq!(marked(world, position, face), open, "{position:?} {face:?}");
            }
        }
    }
}

fn snapshot(world: &World) -> Vec<(Voxel, Vec<Face>)> {
    positions(world)
        .into_iter()
        .map(|position| (*world.get_voxel(position).unwrap(), marks(world, position)))
        .collect()
}

#[test]
fn new_world_is_empty() {
    let world = World::new(Extent3d::new(3, 2, 4), 2).unwrap();
    assert_eq!(world.size(), Extent3d::new(3, 2, 4));
    assert_eq!(world.max_tiles(), 2);
    let all = positions(&world);
    assert_eq!(all.len(), 24);
    for position in all {
        assert_eq!(world.get_voxel(position), Some(&Voxel::Void));
        assert!(marks(&world, position).is_empty());
    }
    assert!(world.mesh().vertices.is_empty());
    assert!(world.mesh().submeshes.is_empty());
    assert_eq!(world.texture().pixels(), vec![0u8; 2 * 768]);
    assert_eq!(world.texture().size(), Extent3d::new(16, 24, 1));
}

#[test]
fn world_without_tiles_is_refused() {
    let result = World::new(Extent3d::new(3, 2, 4), 0);
    assert_eq!(
        result.err(),
        Some(WorldError::Graphics(graphics::Error::Texture(graphics::texture::Error::SizeInvalid)))
    );
}

#[test]
fn get_outside_the_world_is_none() {
    let world = World::new(Extent3d::new(3, 1, 3), 1).unwrap();
    for position in [
        Offset3d::new(2, 0, 0),
        Offset3d::new(-2, 0, 0),
        Offset3d::new(0, 1, 0),
        Offset3d::new(0, -1, 0),
        Offset3d::new(0, 0, 2),
        Offset3d::new(0, 0, -2),
        Offset3d::new(i32::MAX, 0, 0),
        Offset3d::new(i32::MIN, 0, 0),
    ] {
        assert_eq!(world.get_voxel(position), None);
        assert!(world.get_voxel_data(position).is_none());
    }
}

#[test]
fn set_outside_the_world_is_refused() {
    let mut world = World::new(Extent3d::new(3, 1, 3), 1).unwrap();
    world.set_voxel(Offset3d::new(0, 0, 0), Voxel::Tile(0)).unwrap();
    let before = snapshot(&world);
    for position in [
        Offset3d::new(2, 0, 0),
        Offset3d::new(-2, 0, 0),
        Offset3d::new(0, 1, 0),
        Offset3d::new(0, -1, 0),
        Offset3d::new(0, 0, 2),
        Offset3d::new(0, 0, -2),
        Offset3d::new(i32::MAX, i32::MAX, i32::MAX),
        Offset3d::new(i32::MIN, i32::MIN, i32::MIN),
    ] {
        assert_eq!(world.set_voxel(position, Voxel::Tile(0)), Err(WorldError::PositionInvalid(position)));
        assert_eq!(world.set_voxel(position, Voxel::Void), Err(WorldError::PositionInvalid(position)));
    }
    assert_eq!(snapshot(&world), before);
}

#[test]
fn position_is_checked_before_the_tile() {
    let mut world = World::new(Extent3d::new(3, 1, 3), 1).unwrap();
    let outside = Offset3d::new(5, 0, 0);
    assert_eq!(world.set_voxel(outside, Voxel::Tile(9)), Err(WorldError::PositionInvalid(outside)));
}

#[test]
fn tile_outside_the_atlas_is_refused() {
    let mut world = World::new(Extent3d::new(3, 3, 3), 2).unwrap();
    let centre = Offset3d::new(0, 0, 0);
    world.set_voxel(centre, Voxel::Tile(1)).unwrap();
    world.set_voxel(Offset3d::new(1, 0, 0), Voxel::Tile(0)).unwrap();
    let before = snapshot(&world);
    assert_eq!(world.set_voxel(centre, Voxel::Tile(2)), Err(WorldError::TileIndexInvalid(2)));
    assert_eq!(world.set_voxel(centre, Voxel::Tile(u32::MAX)), Err(WorldError::TileIndexInvalid(u32::MAX)));
    assert_eq!(world.get_voxel(centre), Some(&Voxel::Tile(1)));
    assert_eq!(snapshot(&world), before);
}

#[test]
fn set_returns_what_the_cell_held() {
    let mut world = World::new(Extent3d::new(3, 3, 3), 3).unwrap();
    let centre = Offset3d::new(0, 0, 0);
    assert_eq!(world.set_voxel(centre, Voxel::Tile(2)), Ok(Voxel::Void));
    assert_eq!(world.get_voxel(centre), Some(&Voxel::Tile(2)));
    assert_eq!(world.set_voxel(centre, Voxel::Tile(1)), Ok(Voxel::Tile(2)));
    assert_eq!(world.set_voxel(centre, Voxel::Void), Ok(Voxel::Tile(1)));
    assert_eq!(world.get_voxel(centre), Some(&Voxel::Void));
}

#[test]
fn single_block_shows_all_faces_and_its_neighbours_none() {
    let mut world = World::new(Extent3d::new(3, 3, 3), 1).unwrap();
    let centre = Offset3d::new(0, 0, 0);
    world.set_voxel(centre, Voxel::Tile(0)).unwrap();
    assert_eq!(marks(&world, centre), ALL.to_vec());
    assert_eq!(exposed(&world, centre), 6);
    for face in ALL {
        let beside = neighbour(centre, face);
        assert_eq!(world.get_voxel(beside), Some(&Voxel::Void));
        assert_eq!(exposed(&world, beside), 0);
        assert!(marks(&world, beside).is_empty());
    }
    assert_consistent(&world);
}

#[test]
fn single_block_at_a_corner_shows_all_faces() {
    let mut world = World::new(Extent3d::new(2, 2, 2), 1).unwrap();
    let corner = Offset3d::new(-1, -1, -1);
    world.set_voxel(corner, Voxel::Tile(0)).unwrap();
    assert_eq!(marks(&world, corner), ALL.to_vec());
    assert_consistent(&world);
}

#[test]
fn adjacent_blocks_hide_the_face_between_them() {
    for face in ALL {
        let mut world = World::new(Extent3d::new(5, 5, 5), 2).unwrap();
        let first = Offset3d::new(0, 0, 0);
        let second = neighbour(first, face);
        world.set_voxel(first, Voxel::Tile(0)).unwrap();
        world.set_voxel(second, Voxel::Tile(1)).unwrap();
        for other in ALL {
            assert_eq!(marked(&world, first, other), other != face);
            assert_eq!(marked(&world, second, other), other != face.opposite());
        }
        assert_consistent(&world);
    }
}

#[test]
fn adjacent_blocks_at_the_edge_keep_their_outer_faces() {
    let mut world = World::new(Extent3d::new(2, 1, 1), 1).unwrap();
    let left = Offset3d::new(-1, 0, 0);
    let right = Offset3d::new(0, 0, 0);
    world.set_voxel(left, Voxel::Tile(0)).unwrap();
    world.set_voxel(right, Voxel::Tile(0)).unwrap();
    assert_eq!(marks(&world, left), vec![Face::NegX, Face::PosY, Face::NegY, Face::PosZ, Face::NegZ]);
    assert_eq!(marks(&world, right), vec![Face::PosX, Face::PosY, Face::NegY, Face::PosZ, Face::NegZ]);
}

#[test]
fn setting_the_same_block_twice_changes_nothing() {
    let mut world = World::new(Extent3d::new(3, 3, 3), 1).unwrap();
    world.set_voxel(Offset3d::new(1, 0, 0), Voxel::Tile(0)).unwrap();
    let position = Offset3d::new(0, 0, 0);
    world.set_voxel(position, Voxel::Tile(0)).unwrap();
    let once = snapshot(&world);
    assert_eq!(world.set_voxel(position, Voxel::Tile(0)), Ok(Voxel::Tile(0)));
    assert_eq!(snapshot(&world), once);
}

#[test]
fn emptying_the_same_cell_twice_changes_nothing() {
    let mut world = World::new(Extent3d::new(3, 3, 3), 1).unwrap();
    let position = Offset3d::new(0, 0, 0);
    world.set_voxel(position, Voxel::Tile(0)).unwrap();
    world.set_voxel(Offset3d::new(0, 1, 0), Voxel::Tile(0)).unwrap();
    world.set_voxel(position, Voxel::Void).unwrap();
    let once = snapshot(&world);
    assert_eq!(world.set_voxel(position, Voxel::Void), Ok(Voxel::Void));
    assert_eq!(snapshot(&world), once);
}

#[test]
fn removing_a_block_shows_the_faces_of_its_neighbours_again() {
    let mut world = World::new(Extent3d::new(3, 3, 3), 1).unwrap();
    let centre = Offset3d::new(0, 0, 0);
    for position in positions(&world) {
        world.set_voxel(position, Voxel::Tile(0)).unwrap();
    }
    assert_eq!(exposed(&world, centre), 0);
    world.set_voxel(centre, Voxel::Void).unwrap();
    for face in ALL {
        assert!(marked(&world, neighbour(centre, face), face.opposite()));
    }
    assert_consistent(&world);
}

#[test]
fn block_put_back_beside_a_later_neighbour_hides_its_face() {
    // The cell is emptied while its marks are stale, gets a neighbour, and
    // is filled again: the face towards the neighbour must not be shown.
    let mut world = World::new(Extent3d::new(3, 3, 3), 1).unwrap();
    let centre = Offset3d::new(0, 0, 0);
    let beside = Offset3d::new(1, 0, 0);
    world.set_voxel(centre, Voxel::Tile(0)).unwrap();
    world.set_voxel(centre, Voxel::Void).unwrap();
    world.set_voxel(beside, Voxel::Tile(0)).unwrap();
    world.set_voxel(centre, Voxel::Tile(0)).unwrap();
    assert!(!marked(&world, centre, Face::PosX));
    assert!(!marked(&world, beside, Face::NegX));
    assert_eq!(exposed(&world, centre), 5);
    assert_eq!(exposed(&world, beside), 5);
    assert_consistent(&world);
}

#[test]
fn emptied_cell_at_the_edge_keeps_the_marks_towards_the_edge() {
    let mut world = World::new(Extent3d::new(3, 1, 3), 1).unwrap();
    let centre = Offset3d::new(0, 0, 0);
    world.set_voxel(centre, Voxel::Void).unwrap();
    assert_eq!(marks(&world, centre), vec![Face::PosY, Face::NegY]);
    assert_eq!(exposed(&world, centre), 0);
}

#[test]
fn marks_stay_consistent_over_many_edits() {
    let mut world = World::new(Extent3d::new(4, 3, 5), 3).unwrap();
    let all = positions(&world);
    let mut state: u32 = 12345;
    for _ in 0..2000 {
        state = state.wrapping_mul(1664525).wrapping_add(1013904223);
        let position = all[(state >> 8) as usize % all.len()];
        state = state.wrapping_mul(1664525).wrapping_add(1013904223);
        let voxel = match (state >> 8) % 4 {
            0 => Voxel::Void,
            tile => Voxel::Tile(tile - 1),
        };
        world.set_voxel(position, voxel).unwrap();
    }
    assert_consistent(&world);
    world.generate_mesh();
    let drawn: usize = all.iter().map(|position| exposed(&world, *position)).sum();
    assert_eq!(world.mesh().vertices.len(), 6 * drawn);
}

#[test]
fn walk_hands_out_every_cell_in_storage_order() {
    let mut world = World::new(Extent3d::new(2, 2, 2), 1).unwrap();
    world.set_voxel(Offset3d::new(0, -1, 0), Voxel::Tile(0)).unwrap();
    let mut cells = world.iter();
    let mut index = 0;
    while let Some((position, data)) = cells.next() {
        assert_eq!(world.get_voxel_position(index), Some(position));
        assert_eq!(Some(&data.voxel), world.get_voxel(position));
        index += 1;
    }
    assert_eq!(index, 8);
    assert!(cells.next().is_none());
}

#[test]
fn centre_and_neighbour_of_a_flat_world() {
    let mut world = World::new(Extent3d::new(3, 1, 3), 1).unwrap();
    let centre = Offset3d::new(0, 0, 0);
    let beside = Offset3d::new(1, 0, 0);

    assert_eq!(world.set_voxel(centre, Voxel::Tile(0)), Ok(Voxel::Void));
    assert_eq!(exposed(&world, centre), 6);
    world.generate_mesh();
    assert_eq!(world.mesh().vertices.len(), 36);

    assert_eq!(world.set_voxel(beside, Voxel::Tile(0)), Ok(Voxel::Void));
    assert!(!marked(&world, centre, Face::PosX));
    assert!(!marked(&world, beside, Face::NegX));
    assert_eq!(exposed(&world, centre), 5);
    assert_eq!(exposed(&world, beside), 5);
    // the mesh follows only when it is generated anew
    assert_eq!(world.mesh().vertices.len(), 36);
    world.generate_mesh();
    assert_eq!(world.mesh().vertices.len(), 60);
}

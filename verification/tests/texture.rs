use ndrcraft::graphics::texture::{
    check_write, AddressMode, Error, FilterMode, Format, Sampler, Size, Texture,
};
use ndrcraft::types::{Extent2d, Extent3d, Offset3d};
use ndrcraft::voxel::{TextureLayout, World, WorldError, TILE_BYTES, TILE_HEIGHT, TILE_WIDTH};

fn ramp(len: usize) -> Vec<u8> {
    (0..len).map(|index| (index % 251) as u8 + 1).collect()
}

#[test]
fn size_is_valid_when_positive() {
    assert!(Size::D2(Extent2d::new(1, 1)).is_valid());
    assert!(Size::D2(Extent2d::new(8, 24)).is_valid());
    assert!(!Size::D2(Extent2d::new(0, 24)).is_valid());
    assert!(!Size::D2(Extent2d::new(8, 0)).is_valid());
    assert!(!Size::D2(Extent2d::new(0, 0)).is_valid());
}

#[test]
fn flat_size_is_one_texel_deep() {
    assert_eq!(Size::D2(Extent2d::new(8, 24)).extent(), Extent3d::new(8, 24, 1));
}

#[test]
fn texel_of_four_channels_has_four_bytes() {
    assert_eq!(Format::Rgba8Unorm.block_size(), 4);
}

#[test]
fn sampler_keeps_its_modes() {
    let sampler = Sampler::new(FilterMode::Linear, AddressMode::MirrorRepeat);
    assert_eq!(sampler.filter, FilterMode::Linear);
    assert_eq!(sampler.address, AddressMode::MirrorRepeat);
    assert_eq!(sampler, Sampler { filter: FilterMode::Linear, address: AddressMode::MirrorRepeat });
}

#[test]
fn check_accepts_a_region_inside_the_texture() {
    let texture = Extent3d::new(16, 24, 1);
    assert_eq!(check_write(texture, 4, Offset3d::new(8, 0, 0), Extent3d::new(8, 24, 1), 768), Ok(()));
    assert_eq!(check_write(texture, 4, Offset3d::new(0, 0, 0), Extent3d::new(16, 24, 1), 1536), Ok(()));
    assert_eq!(check_write(texture, 4, Offset3d::new(15, 23, 0), Extent3d::new(1, 1, 1), 4), Ok(()));
    assert_eq!(check_write(texture, 4, Offset3d::new(8, 0, 0), Extent3d::new(8, 24, 1), 5000), Ok(()));
}

#[test]
fn check_refuses_an_empty_region() {
    let texture = Extent3d::new(16, 24, 1);
    for size in [Extent3d::new(0, 1, 1), Extent3d::new(1, 0, 1), Extent3d::new(1, 1, 0)] {
        assert_eq!(check_write(texture, 4, Offset3d::new(0, 0, 0), size, 1000), Err(Error::SizeInvalid));
    }
    // an empty region is refused before its place is looked at
    assert_eq!(
        check_write(texture, 4, Offset3d::new(99, 0, 0), Extent3d::new(0, 1, 1), 0),
        Err(Error::SizeInvalid)
    );
}

#[test]
fn check_refuses_a_region_that_leaves_the_texture() {
    let texture = Extent3d::new(16, 24, 1);
    let enough = 100_000;
    for (origin, size) in [
        (Offset3d::new(9, 0, 0), Extent3d::new(8, 24, 1)),
        (Offset3d::new(0, 1, 0), Extent3d::new(8, 24, 1)),
        (Offset3d::new(0, 0, 1), Extent3d::new(8, 24, 1)),
        (Offset3d::new(0, 0, 0), Extent3d::new(17, 1, 1)),
        (Offset3d::new(0, 0, 0), Extent3d::new(1, 25, 1)),
        (Offset3d::new(0, 0, 0), Extent3d::new(1, 1, 2)),
        (Offset3d::new(u32::MAX, 0, 0), Extent3d::new(u32::MAX, 1, 1)),
    ] {
        assert_eq!(check_write(texture, 4, origin, size, enough), Err(Error::OriginInvalid));
    }
    // the place is looked at before the bytes are counted
    assert_eq!(
        check_write(texture, 4, Offset3d::new(9, 0, 0), Extent3d::new(8, 24, 1), 0),
        Err(Error::OriginInvalid)
    );
}

#[test]
fn check_refuses_too_few_bytes() {
    let texture = Extent3d::new(16, 24, 1);
    assert_eq!(
        check_write(texture, 4, Offset3d::new(8, 0, 0), Extent3d::new(8, 24, 1), 767),
        Err(Error::PixelsInvalid)
    );
    assert_eq!(
        check_write(texture, 4, Offset3d::new(0, 0, 0), Extent3d::new(1, 1, 1), 3),
        Err(Error::PixelsInvalid)
    );
    assert_eq!(
        check_write(texture, 2, Offset3d::new(0, 0, 0), Extent3d::new(3, 5, 1), 29),
        Err(Error::PixelsInvalid)
    );
    assert_eq!(check_write(texture, 2, Offset3d::new(0, 0, 0), Extent3d::new(3, 5, 1), 30), Ok(()));
}

#[test]
fn check_counts_huge_regions_without_wrapping() {
    let texture = Extent3d::new(u32::MAX, u32::MAX, u32::MAX);
    assert_eq!(
        check_write(texture, 255, Offset3d::new(0, 0, 0), texture, usize::MAX),
        Err(Error::PixelsInvalid)
    );
}

#[test]
fn new_texture_is_blank() {
    let sampler = Some(Sampler::new(FilterMode::Nearest, AddressMode::ClampToEdge));
    let texture = Texture::new(Size::D2(Extent2d::new(3, 2)), Format::Rgba8Unorm, sampler, None).unwrap();
    assert_eq!(texture.size(), Extent3d::new(3, 2, 1));
    assert_eq!(texture.format(), Format::Rgba8Unorm);
    assert_eq!(texture.sampler(), sampler);
    assert_eq!(texture.pixels(), vec![0u8; 24]);
}

#[test]
fn new_texture_takes_its_bytes() {
    let bytes = ramp(24);
    let texture =
        Texture::new(Size::D2(Extent2d::new(3, 2)), Format::Rgba8Unorm, None, Some(&bytes)).unwrap();
    assert_eq!(texture.pixels(), bytes);
    assert_eq!(texture.sampler(), None);
}

#[test]
fn new_texture_takes_only_as_many_bytes_as_it_has() {
    let bytes = ramp(30);
    let texture =
        Texture::new(Size::D2(Extent2d::new(3, 2)), Format::Rgba8Unorm, None, Some(&bytes)).unwrap();
    assert_eq!(texture.pixels(), &bytes[..24]);
}

#[test]
fn new_texture_of_no_size_is_refused() {
    let result = Texture::new(Size::D2(Extent2d::new(0, 2)), Format::Rgba8Unorm, None, None);
    assert_eq!(result.err(), Some(Error::SizeInvalid));
    let bytes = ramp(8);
    let result = Texture::new(Size::D2(Extent2d::new(2, 0)), Format::Rgba8Unorm, None, Some(&bytes));
    assert_eq!(result.err(), Some(Error::SizeInvalid));
}

#[test]
fn new_texture_with_too_few_bytes_is_refused() {
    let bytes = ramp(23);
    let result = Texture::new(Size::D2(Extent2d::new(3, 2)), Format::Rgba8Unorm, None, Some(&bytes));
    assert_eq!(result.err(), Some(Error::PixelsInvalid));
}

#[test]
fn write_fills_the_region_row_by_row() {
    let mut texture = Texture::new(Size::D2(Extent2d::new(4, 3)), Format::Rgba8Unorm, None, None).unwrap();
    let bytes = ramp(16);
    assert_eq!(texture.write(Offset3d::new(1, 1, 0), Extent3d::new(2, 2, 1), &bytes), Ok(()));
    let mut expected = vec![0u8; 48];
    // row 1, texels 1 and 2
    expected[20..28].copy_from_slice(&bytes[0..8]);
    // row 2, texels 1 and 2
    expected[36..44].copy_from_slice(&bytes[8..16]);
    assert_eq!(texture.pixels(), expected);
}

#[test]
fn write_keeps_what_an_earlier_write_left_outside_the_region() {
    let mut texture = Texture::new(Size::D2(Extent2d::new(2, 2)), Format::Rgba8Unorm, None, None).unwrap();
    texture.write(Offset3d::new(0, 0, 0), Extent3d::new(2, 2, 1), &[7u8; 16]).unwrap();
    texture.write(Offset3d::new(1, 0, 0), Extent3d::new(1, 2, 1), &[9u8; 8]).unwrap();
    assert_eq!(texture.pixels(), [7, 7, 7, 7, 9, 9, 9, 9, 7, 7, 7, 7, 9, 9, 9, 9]);
}

#[test]
fn refused_write_leaves_the_texture() {
    let mut texture = Texture::new(Size::D2(Extent2d::new(2, 2)), Format::Rgba8Unorm, None, None).unwrap();
    texture.write(Offset3d::new(0, 0, 0), Extent3d::new(2, 2, 1), &ramp(16)).unwrap();
    let before = texture.pixels().to_vec();
    assert_eq!(
        texture.write(Offset3d::new(0, 0, 0), Extent3d::new(0, 2, 1), &[5u8; 16]),
        Err(Error::SizeInvalid)
    );
    assert_eq!(
        texture.write(Offset3d::new(1, 0, 0), Extent3d::new(2, 2, 1), &[5u8; 16]),
        Err(Error::OriginInvalid)
    );
    assert_eq!(
        texture.write(Offset3d::new(0, 0, 0), Extent3d::new(2, 2, 1), &[5u8; 15]),
        Err(Error::PixelsInvalid)
    );
    assert_eq!(texture.pixels(), before);
}

#[test]
fn tile_image_is_eight_by_twenty_four_texels() {
    assert_eq!(TILE_WIDTH, 8);
    assert_eq!(TILE_HEIGHT, 24);
    assert_eq!(TILE_BYTES, 4 * 8 * 24);
}

#[test]
fn tile_image_one_byte_short_is_refused() {
    let mut world = World::new(Extent3d::new(1, 1, 1), 2).unwrap();
    let bytes = ramp(TILE_BYTES - 1);
    assert_eq!(world.set_voxel_texture(1, TextureLayout::Single, &bytes), Err(WorldError::DataInvalid));
    assert_eq!(world.set_voxel_texture(0, TextureLayout::Single, &[]), Err(WorldError::DataInvalid));
    assert_eq!(world.texture().pixels(), vec![0u8; 2 * TILE_BYTES]);
}

#[test]
fn tile_image_of_the_right_size_is_written_to_its_column() {
    let mut world = World::new(Extent3d::new(1, 1, 1), 3).unwrap();
    let bytes = ramp(TILE_BYTES);
    assert_eq!(world.set_voxel_texture(1, TextureLayout::Single, &bytes), Ok(()));
    let atlas = world.texture().pixels();
    assert_eq!(atlas.len(), 3 * TILE_BYTES);
    let row_bytes = 3 * 8 * 4;
    for row in 0..24 {
        for column in 0..(3 * 8) {
            for byte in 0..4 {
                let at = row * row_bytes + column * 4 + byte;
                let expected = if (8..16).contains(&column) {
                    bytes[(row * 8 + column - 8) * 4 + byte]
                } else {
                    0
                };
                assert_eq!(atlas[at], expected);
            }
        }
    }
}

#[test]
fn tile_image_with_spare_bytes_is_written_from_its_start() {
    let mut world = World::new(Extent3d::new(1, 1, 1), 1).unwrap();
    let bytes = ramp(TILE_BYTES + 100);
    assert_eq!(world.set_voxel_texture(0, TextureLayout::Single, &bytes), Ok(()));
    assert_eq!(world.texture().pixels(), &bytes[..TILE_BYTES]);
}

#[test]
fn tile_outside_the_atlas_has_no_image() {
    let mut world = World::new(Extent3d::new(1, 1, 1), 2).unwrap();
    let bytes = ramp(TILE_BYTES);
    assert_eq!(
        world.set_voxel_texture(2, TextureLayout::Single, &bytes),
        Err(WorldError::TileIndexInvalid(2))
    );
    // the tile is checked before the bytes are counted
    assert_eq!(world.set_voxel_texture(7, TextureLayout::Single, &[]), Err(WorldError::TileIndexInvalid(7)));
    assert_eq!(world.texture().pixels(), vec![0u8; 2 * TILE_BYTES]);
}

#[test]
fn tile_images_do_not_touch_each_other() {
    let mut world = World::new(Extent3d::new(1, 1, 1), 2).unwrap();
    world.set_voxel_texture(0, TextureLayout::Single, &[1u8; 768]).unwrap();
    world.set_voxel_texture(1, TextureLayout::Single, &[2u8; 768]).unwrap();
    let atlas = world.texture().pixels();
    for (at, byte) in atlas.iter().enumerate() {
        let column = (at / 4) % 16;
        assert_eq!(*byte, if column < 8 { 1 } else { 2 });
    }
}

#[test]
fn default_layout_is_single() {
    assert_eq!(TextureLayout::default(), TextureLayout::Single);
}

use voxel_core::render::atlas::{Atlas, AtlasError, AtlasImage, MaterialType, Region};
use voxel_core::render::pipelines::terrain::BlockVertex;
use voxel_core::render::DeviceLimits;

fn limits() -> DeviceLimits {
    DeviceLimits { max_texture_dimension_2d: 8192, max_buffer_size: 1 << 28 }
}

fn image(columns: u32, rows: u32, tile_size: u32) -> AtlasImage {
    AtlasImage {
        columns,
        rows,
        tile_size,
        data_len: columns as u64 * tile_size as u64 * rows as u64 * tile_size as u64 * 4,
    }
}

fn corner(material: MaterialType, u: u8, v: u8) -> BlockVertex {
    BlockVertex { x: 0, y: 0, z: 0, u, v, material }
}

#[test]
fn materials_have_their_tiles() {
    assert_eq!(MaterialType::GRASS.tile_index(), 0);
    assert_eq!(MaterialType::DIRT.tile_index(), 1);
    assert_eq!(MaterialType::STONE.tile_index(), 2);
}

#[test]
fn atlas_is_laid_out_as_the_image_says() {
    let atlas = Atlas::new(&limits(), &image(2, 3, 16)).unwrap();
    assert_eq!(atlas.width(), 32);
    assert_eq!(atlas.height(), 48);
}

#[test]
fn atlas_without_tiles_is_refused() {
    assert_eq!(Atlas::new(&limits(), &image(0, 2, 16)), Err(AtlasError::Empty));
    assert_eq!(Atlas::new(&limits(), &image(2, 0, 16)), Err(AtlasError::Empty));
    assert_eq!(Atlas::new(&limits(), &image(2, 2, 0)), Err(AtlasError::Empty));
}

#[test]
fn atlas_larger_than_the_device_takes_is_refused() {
    assert_eq!(Atlas::new(&limits(), &image(513, 1, 16)), Err(AtlasError::TooLarge));
    assert_eq!(Atlas::new(&limits(), &image(1, 513, 16)), Err(AtlasError::TooLarge));
    assert!(Atlas::new(&limits(), &image(512, 512, 16)).is_ok());
    let huge = AtlasImage { columns: u32::MAX, rows: u32::MAX, tile_size: u32::MAX, data_len: 0 };
    assert_eq!(Atlas::new(&limits(), &huge), Err(AtlasError::TooLarge));
}

#[test]
fn atlas_with_the_wrong_amount_of_data_is_refused() {
    let mut short = image(2, 2, 16);
    short.data_len -= 1;
    assert_eq!(Atlas::new(&limits(), &short), Err(AtlasError::Undecodable));
    let mut long = image(2, 2, 16);
    long.data_len += 4;
    assert_eq!(Atlas::new(&limits(), &long), Err(AtlasError::Undecodable));
    assert_eq!(image(2, 2, 16).data_len, 4096);
}

#[test]
fn emptiness_is_found_before_size_and_size_before_data() {
    let empty_and_short = AtlasImage { columns: 0, rows: 9000, tile_size: 16, data_len: 1 };
    assert_eq!(Atlas::new(&limits(), &empty_and_short), Err(AtlasError::Empty));
    let large_and_short = AtlasImage { columns: 9000, rows: 1, tile_size: 1, data_len: 1 };
    assert_eq!(Atlas::new(&limits(), &large_and_short), Err(AtlasError::TooLarge));
}

#[test]
fn tiles_are_counted_row_by_row() {
    let atlas = Atlas::new(&limits(), &image(2, 2, 16)).unwrap();
    assert_eq!(
        atlas.region(MaterialType::GRASS),
        Some(Region { x: 0, y: 0, width: 16, height: 16 })
    );
    assert_eq!(
        atlas.region(MaterialType::DIRT),
        Some(Region { x: 16, y: 0, width: 16, height: 16 })
    );
    assert_eq!(
        atlas.region(MaterialType::STONE),
        Some(Region { x: 0, y: 16, width: 16, height: 16 })
    );
}

#[test]
fn a_column_of_tiles_puts_each_material_in_its_row() {
    let atlas = Atlas::new(&limits(), &image(1, 3, 8)).unwrap();
    assert_eq!(
        atlas.region(MaterialType::STONE),
        Some(Region { x: 0, y: 16, width: 8, height: 8 })
    );
}

#[test]
fn material_without_a_tile_has_no_region() {
    let atlas = Atlas::new(&limits(), &image(1, 1, 16)).unwrap();
    assert!(atlas.region(MaterialType::GRASS).is_some());
    assert_eq!(atlas.region(MaterialType::DIRT), None);
    assert_eq!(atlas.region(MaterialType::STONE), None);
    assert_eq!(atlas.texel(&corner(MaterialType::STONE, 0, 0)), None);
    let pair = Atlas::new(&limits(), &image(2, 1, 16)).unwrap();
    assert!(pair.region(MaterialType::DIRT).is_some());
    assert_eq!(pair.region(MaterialType::STONE), None);
}

#[test]
fn texels_are_the_corners_of_the_tile() {
    let atlas = Atlas::new(&limits(), &image(2, 2, 16)).unwrap();
    assert_eq!(atlas.texel(&corner(MaterialType::DIRT, 0, 0)), Some((16, 0)));
    assert_eq!(atlas.texel(&corner(MaterialType::DIRT, 1, 0)), Some((32, 0)));
    assert_eq!(atlas.texel(&corner(MaterialType::DIRT, 0, 1)), Some((16, 16)));
    assert_eq!(atlas.texel(&corner(MaterialType::DIRT, 1, 1)), Some((32, 16)));
    assert_eq!(atlas.texel(&corner(MaterialType::STONE, 1, 1)), Some((16, 32)));
}

#[test]
fn largest_atlas_does_not_overflow() {
    let all = DeviceLimits { max_texture_dimension_2d: u32::MAX, max_buffer_size: u64::MAX };
    let wide = AtlasImage { columns: 1, rows: 1, tile_size: u32::MAX, data_len: 0 };
    assert_eq!(Atlas::new(&all, &wide), Err(AtlasError::Undecodable));
    let strip = AtlasImage { columns: u32::MAX, rows: 1, tile_size: 1, data_len: u32::MAX as u64 * 4 };
    let atlas = Atlas::new(&all, &strip).unwrap();
    assert_eq!(atlas.width(), u32::MAX);
    assert_eq!(atlas.texel(&corner(MaterialType::STONE, 1, 1)), Some((3, 1)));
}

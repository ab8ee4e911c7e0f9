use voxel_core::render::atlas::MaterialType;
use voxel_core::render::mesh::Mesh;
use voxel_core::render::model::{Model, ModelError, INDEX_BYTES};
use voxel_core::render::pipelines::terrain::BlockVertex;
use voxel_core::render::{DeviceLimits, Vertex};
use voxel_core::scene::terrain::block::Block;

fn limits(max_buffer_size: u64) -> DeviceLimits {
    DeviceLimits { max_texture_dimension_2d: 8192, max_buffer_size }
}

fn mesh_of(blocks: usize) -> Mesh {
    let mut mesh = Mesh::new();
    for i in 0..blocks {
        mesh.push_block(Block::new(MaterialType::STONE, [i as i32, 0, 0], [0, 0, 0]));
    }
    mesh
}

#[test]
fn model_holds_what_the_mesh_held() {
    let mesh = mesh_of(3);
    let model = Model::new(&limits(1 << 20), &mesh).unwrap();
    assert_eq!(model.vbuf(), mesh.vertex_data());
    assert_eq!(model.ibuf(), mesh.index_data());
}

#[test]
fn num_indices_is_the_length_of_the_index_buffer() {
    for blocks in 1..20 {
        let mesh = mesh_of(blocks);
        let model = Model::new(&limits(1 << 20), &mesh).unwrap();
        assert_eq!(model.num_indices() as usize, model.ibuf().len());
        assert_eq!(model.num_indices() as usize, mesh.index_count());
        assert_eq!(model.num_indices() as usize, 36 * blocks);
    }
}

#[test]
fn buffers_are_sized_to_the_contents() {
    assert_eq!(BlockVertex::size(), 20);
    assert_eq!(INDEX_BYTES, 2);
    let model = Model::new(&limits(1 << 20), &mesh_of(1)).unwrap();
    assert_eq!(model.vertex_bytes(), 480);
    assert_eq!(model.index_bytes(), 72);
    let model = Model::new(&limits(1 << 20), &mesh_of(2)).unwrap();
    assert_eq!(model.vertex_bytes(), 960);
    assert_eq!(model.index_bytes(), 144);
}

#[test]
fn empty_mesh_is_refused() {
    let result = Model::new(&limits(1 << 20), &Mesh::new());
    assert_eq!(result.unwrap_err(), ModelError::EmptyMesh);
    let result = Model::new(&limits(0), &Mesh::new());
    assert_eq!(result.unwrap_err(), ModelError::EmptyMesh);
}

#[test]
fn mesh_larger_than_a_buffer_is_refused() {
    let mesh = mesh_of(1);
    assert_eq!(Model::new(&limits(479), &mesh).unwrap_err(), ModelError::BufferTooLarge);
    assert_eq!(Model::new(&limits(0), &mesh).unwrap_err(), ModelError::BufferTooLarge);
    assert!(Model::new(&limits(480), &mesh).is_ok());
    let mesh = mesh_of(2730);
    assert_eq!(Model::new(&limits(1_310_399), &mesh).unwrap_err(), ModelError::BufferTooLarge);
    let model = Model::new(&limits(1_310_400), &mesh).unwrap();
    assert_eq!(model.num_indices(), 98_280);
}

use voxel_core::render::pipelines::terrain::IndexFormat;
use voxel_core::render::pipelines::BindGroup;
use voxel_core::render::renderer::{DrawCommand, RenderPass, Renderer, Size, SurfaceError};
use voxel_core::render::DeviceLimits;

fn limits() -> DeviceLimits {
    DeviceLimits { max_texture_dimension_2d: 8192, max_buffer_size: 1 << 28 }
}

fn renderer() -> Renderer {
    Renderer::new(Size { width: 800, height: 600 }, limits(), 1_000)
}

#[test]
fn size_without_pixels_is_empty() {
    assert!(Size { width: 0, height: 600 }.is_empty());
    assert!(Size { width: 800, height: 0 }.is_empty());
    assert!(Size { width: 0, height: 0 }.is_empty());
    assert!(!Size { width: 1, height: 1 }.is_empty());
}

#[test]
fn new_renderer_keeps_what_it_was_given() {
    let renderer = renderer();
    assert_eq!(renderer.size, Size { width: 800, height: 600 });
    assert_eq!(renderer.last_render_time, 1_000);
    assert_eq!(renderer.limits, limits());
}

#[test]
fn resize_to_zero_width_changes_nothing() {
    let mut renderer = renderer();
    let before = renderer;
    assert_eq!(renderer.resize(Size { width: 0, height: 480 }), None);
    assert_eq!(renderer, before);
}

#[test]
fn resize_to_zero_height_changes_nothing() {
    let mut renderer = renderer();
    let before = renderer;
    assert_eq!(renderer.resize(Size { width: 640, height: 0 }), None);
    assert_eq!(renderer, before);
    assert_eq!(renderer.resize(Size { width: 0, height: 0 }), None);
    assert_eq!(renderer, before);
}

#[test]
fn resize_records_the_size_and_asks_for_the_surface() {
    let mut renderer = renderer();
    let new_size = Size { width: 1024, height: 768 };
    assert_eq!(renderer.resize(new_size), Some(new_size));
    assert_eq!(renderer.size, new_size);
    assert_eq!(renderer.last_render_time, 1_000);
    assert_eq!(renderer.limits, limits());
}

#[test]
fn resize_twice_is_resize_once() {
    let new_size = Size { width: 1024, height: 768 };
    let mut once = renderer();
    once.resize(new_size);
    let mut twice = renderer();
    twice.resize(new_size);
    assert_eq!(twice.resize(new_size), Some(new_size));
    assert_eq!(once, twice);
}

#[test]
fn tick_measures_the_time_since_the_last_frame() {
    let mut renderer = renderer();
    assert_eq!(renderer.tick(1_016), 16);
    assert_eq!(renderer.last_render_time, 1_016);
    assert_eq!(renderer.tick(1_016), 0);
    assert_eq!(renderer.tick(u64::MAX), u64::MAX - 1_016);
    assert_eq!(renderer.size, Size { width: 800, height: 600 });
}

#[test]
fn tick_does_not_run_backwards() {
    let mut renderer = renderer();
    assert_eq!(renderer.tick(400), 0);
    assert_eq!(renderer.last_render_time, 400);
    assert_eq!(renderer.tick(450), 50);
}

#[test]
fn pass_records_commands_in_order() {
    let mut pass = RenderPass::begin();
    assert!(pass.recorded().is_empty());
    pass.set_pipeline();
    pass.set_bind_group(3, BindGroup::Globals);
    pass.set_vertex_buffer(2);
    pass.set_index_buffer(IndexFormat::Uint32);
    pass.draw_indexed(6, 12, -1, 2, 5);
    assert_eq!(
        pass.recorded(),
        &vec![
            DrawCommand::SetPipeline,
            DrawCommand::SetBindGroup { index: 3, group: BindGroup::Globals },
            DrawCommand::SetVertexBuffer { slot: 2 },
            DrawCommand::SetIndexBuffer { format: IndexFormat::Uint32 },
            DrawCommand::DrawIndexed {
                first_index: 6,
                end_index: 12,
                base_vertex: -1,
                first_instance: 2,
                end_instance: 5,
            },
        ]
    );
}

#[test]
fn surface_errors_are_told_apart() {
    let all = [
        SurfaceError::Timeout,
        SurfaceError::Outdated,
        SurfaceError::Lost,
        SurfaceError::OutOfMemory,
        SurfaceError::Other,
    ];
    for (i, a) in all.iter().enumerate() {
        for (j, b) in all.iter().enumerate() {
            assert_eq!(a == b, i == j);
        }
    }
}

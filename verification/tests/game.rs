use voxel_core::event::{
    Cursor, CursorGrab, DeviceEvent, Direction, Effect, ElementState, Key, WindowEvent,
};
use voxel_core::render::atlas::{AtlasError, AtlasImage, MaterialType};
use voxel_core::render::mesh::Mesh;
use voxel_core::render::model::ModelError;
use voxel_core::render::pipelines::terrain::IndexFormat;
use voxel_core::render::pipelines::BindGroup;
use voxel_core::render::renderer::{DrawCommand, Size, SurfaceError};
use voxel_core::render::DeviceLimits;
use voxel_core::scene::camera::{Camera, CameraController};
use voxel_core::scene::terrain::block::Block;
use voxel_core::scene::terrain::{Terrain, TerrainError};
use voxel_core::{GameState, State};

const SIZE: Size = Size { width: 800, height: 600 };

fn limits() -> DeviceLimits {
    DeviceLimits { max_texture_dimension_2d: 8192, max_buffer_size: 1 << 28 }
}

fn image() -> AtlasImage {
    AtlasImage { columns: 2, rows: 2, tile_size: 16, data_len: 4096 }
}

fn game_of(size: Size) -> GameState {
    GameState::new(size, limits(), &image(), 1_000)
}

fn game() -> GameState {
    game_of(SIZE)
}

fn key(key: Key, state: ElementState) -> WindowEvent {
    WindowEvent::KeyboardInput { key, state }
}

fn press_escape() -> WindowEvent {
    key(Key::Escape, ElementState::Pressed)
}

fn release_escape() -> WindowEvent {
    key(Key::Escape, ElementState::Released)
}

const SHOWN: Cursor = Cursor { visible: true, grab: CursorGrab::Free };
const HIDDEN: Cursor = Cursor { visible: false, grab: CursorGrab::Locked };

#[test]
fn game_starts_playing() {
    let game = game();
    assert_eq!(game.state(), State::PLAYING);
    assert_eq!(game.cursor(), SHOWN);
    assert_eq!(game.renderer().size, SIZE);
    assert_eq!(game.renderer().last_render_time, 1_000);
    assert_eq!(game.renderer().limits, limits());
    assert_eq!(game.camera(), Camera::new());
    assert_eq!(game.terrain().model().num_indices(), 36);
}

#[test]
fn game_holds_the_world_block() {
    let game = game();
    let mut mesh = Mesh::new();
    mesh.push_block(Block::new(MaterialType::GRASS, [0, 0, 0], [0, 0, 0]));
    assert_eq!(game.terrain().model().vbuf(), mesh.vertex_data());
    assert_eq!(game.terrain().model().ibuf(), mesh.index_data());
    assert_eq!(game.terrain().atlas().width(), 32);
    assert_eq!(game.terrain().atlas().height(), 32);
}

#[test]
fn scene_that_cannot_be_built_is_told_before_the_game_is() {
    let short = AtlasImage { columns: 2, rows: 2, tile_size: 16, data_len: 7 };
    assert_eq!(
        Terrain::check(&limits(), &short),
        Err(TerrainError::Atlas(AtlasError::Undecodable))
    );
    let small = DeviceLimits { max_texture_dimension_2d: 8192, max_buffer_size: 100 };
    assert_eq!(
        Terrain::check(&small, &image()),
        Err(TerrainError::Model(ModelError::BufferTooLarge))
    );
    assert_eq!(Terrain::check(&limits(), &image()), Ok(()));
}

#[test]
fn initialize_hides_locks_and_centres_the_cursor() {
    let mut game = game();
    let effects = game.initialize();
    assert_eq!(
        effects,
        vec![
            Effect::SetCursorVisible(false),
            Effect::SetCursorGrab(CursorGrab::Locked),
            Effect::SetCursorPosition { x: 400, y: 300 },
        ]
    );
    assert_eq!(game.cursor(), HIDDEN);
    assert_eq!(game.state(), State::PLAYING);
}

#[test]
fn centre_rounds_down() {
    let mut game = game_of(Size { width: 801, height: 1 });
    let effects = game.initialize();
    assert_eq!(effects[2], Effect::SetCursorPosition { x: 400, y: 0 });
}

#[test]
fn escape_pauses_and_frees_the_cursor() {
    let mut game = game();
    game.initialize();
    let effects = game.handle_window_event(press_escape(), 2_000);
    assert_eq!(game.state(), State::PAUSED);
    assert_eq!(game.cursor(), SHOWN);
    assert_eq!(
        effects,
        vec![
            Effect::SetCursorPosition { x: 400, y: 300 },
            Effect::SetCursorGrab(CursorGrab::Free),
            Effect::SetCursorVisible(true),
        ]
    );
}

#[test]
fn second_escape_resumes_and_locks_the_cursor() {
    let mut game = game();
    game.initialize();
    game.handle_window_event(press_escape(), 2_000);
    assert!(game.handle_window_event(release_escape(), 2_100).is_empty());
    assert_eq!(game.state(), State::PAUSED);
    let effects = game.handle_window_event(press_escape(), 2_200);
    assert_eq!(game.state(), State::PLAYING);
    assert_eq!(game.cursor(), HIDDEN);
    assert_eq!(
        effects,
        vec![Effect::SetCursorGrab(CursorGrab::Locked), Effect::SetCursorVisible(false)]
    );
}

#[test]
fn holding_escape_does_not_toggle_again() {
    let mut game = game();
    game.handle_window_event(press_escape(), 2_000);
    for repeat in 0..10 {
        let effects = game.handle_window_event(press_escape(), 2_000 + repeat);
        assert!(effects.is_empty());
        assert_eq!(game.state(), State::PAUSED);
        assert_eq!(game.cursor(), SHOWN);
    }
    game.handle_window_event(release_escape(), 3_000);
    assert_eq!(game.state(), State::PAUSED);
    game.handle_window_event(press_escape(), 3_100);
    assert_eq!(game.state(), State::PLAYING);
    for repeat in 0..10 {
        assert!(game.handle_window_event(press_escape(), 3_200 + repeat).is_empty());
        assert_eq!(game.state(), State::PLAYING);
    }
}

#[test]
fn every_edge_toggles() {
    let mut game = game();
    for edge in 0..6 {
        game.handle_window_event(press_escape(), edge);
        let expected = if edge % 2 == 0 { State::PAUSED } else { State::PLAYING };
        assert_eq!(game.state(), expected);
        game.handle_window_event(release_escape(), edge);
        assert_eq!(game.state(), expected);
    }
}

#[test]
fn pause_centres_the_cursor_in_the_current_size() {
    let mut game = game();
    game.handle_window_event(WindowEvent::Resized(Size { width: 1024, height: 768 }), 0);
    let effects = game.handle_window_event(press_escape(), 0);
    assert_eq!(effects[0], Effect::SetCursorPosition { x: 512, y: 384 });
}

#[test]
fn movement_keys_stop_at_the_scene() {
    let directions = [
        Direction::Forward,
        Direction::Backward,
        Direction::Left,
        Direction::Right,
        Direction::Up,
        Direction::Down,
    ];
    for direction in directions {
        for state in [ElementState::Pressed, ElementState::Released] {
            let mut game = game();
            let before = (game.state(), game.cursor(), game.renderer());
            let effects = game.handle_window_event(key(Key::Move(direction), state), 5_000);
            assert!(effects.is_empty());
            assert_eq!((game.state(), game.cursor(), game.renderer()), before);
            let held = state == ElementState::Pressed;
            for other in directions {
                let pressed = game.camera().camera_controller.is_pressed(other);
                assert_eq!(pressed, held && other == direction);
            }
        }
    }
}

#[test]
fn movement_key_is_held_until_it_is_released() {
    let mut game = game();
    game.handle_window_event(key(Key::Move(Direction::Left), ElementState::Pressed), 0);
    game.handle_window_event(key(Key::Move(Direction::Up), ElementState::Pressed), 0);
    game.handle_window_event(WindowEvent::RedrawRequested, 16);
    let controller = game.camera().camera_controller;
    assert!(controller.left && controller.up);
    assert!(!controller.right && !controller.down && !controller.forward && !controller.backward);
    game.handle_window_event(key(Key::Move(Direction::Left), ElementState::Released), 20);
    let controller = game.camera().camera_controller;
    assert!(!controller.left && controller.up);
}

#[test]
fn consumed_key_does_not_disturb_a_held_escape() {
    let mut game = game();
    game.handle_window_event(press_escape(), 0);
    game.handle_window_event(key(Key::Move(Direction::Forward), ElementState::Pressed), 1);
    assert!(game.handle_window_event(press_escape(), 2).is_empty());
    assert_eq!(game.state(), State::PAUSED);
}

#[test]
fn close_request_ends_the_loop() {
    let mut game = game();
    assert_eq!(game.handle_window_event(WindowEvent::CloseRequested, 0), vec![Effect::Exit]);
    assert_eq!(game.state(), State::PLAYING);
}

#[test]
fn resized_goes_to_the_renderer_and_the_camera() {
    let mut game = game();
    let new_size = Size { width: 1024, height: 768 };
    let effects = game.handle_window_event(WindowEvent::Resized(new_size), 0);
    assert_eq!(effects, vec![Effect::ConfigureSurface(new_size), Effect::ResizeCamera(new_size)]);
    assert_eq!(game.renderer().size, new_size);
    assert_eq!(game.resize(new_size), effects);
    assert_eq!(game.renderer().size, new_size);
}

#[test]
fn resized_without_pixels_leaves_the_surface_alone() {
    for empty in [
        Size { width: 0, height: 600 },
        Size { width: 800, height: 0 },
        Size { width: 0, height: 0 },
    ] {
        let mut game = game();
        let before = game.renderer();
        let effects = game.handle_window_event(WindowEvent::Resized(empty), 0);
        assert_eq!(effects, vec![Effect::ResizeCamera(empty)]);
        assert_eq!(game.renderer(), before);
        assert_eq!(game.resize(empty), vec![Effect::ResizeCamera(empty)]);
        assert_eq!(game.renderer(), before);
    }
}

#[test]
fn redraw_request_updates_then_renders() {
    let mut game = game();
    let effects = game.handle_window_event(WindowEvent::RedrawRequested, 17_000);
    assert_eq!(effects, vec![Effect::Update { dt: 16_000 }, Effect::Render]);
    assert_eq!(game.renderer().last_render_time, 17_000);
    let effects = game.handle_window_event(WindowEvent::RedrawRequested, 17_500);
    assert_eq!(effects, vec![Effect::Update { dt: 500 }, Effect::Render]);
    let effects = game.handle_window_event(WindowEvent::RedrawRequested, 100);
    assert_eq!(effects, vec![Effect::Update { dt: 0 }, Effect::Render]);
    assert_eq!(game.renderer().last_render_time, 100);
}

#[test]
fn wheel_goes_to_the_camera_controller() {
    let mut game = game();
    assert_eq!(game.handle_window_event(WindowEvent::MouseWheel, 0), vec![Effect::Scroll]);
    game.handle_window_event(press_escape(), 0);
    assert_eq!(game.handle_window_event(WindowEvent::MouseWheel, 0), vec![Effect::Scroll]);
}

#[test]
fn other_events_are_ignored() {
    let mut game = game();
    let before = (game.state(), game.cursor(), game.renderer(), game.camera());
    assert!(game.handle_window_event(WindowEvent::Other, 9).is_empty());
    assert!(game.handle_window_event(key(Key::Other, ElementState::Pressed), 9).is_empty());
    assert!(game.handle_window_event(key(Key::Other, ElementState::Released), 9).is_empty());
    assert_eq!((game.state(), game.cursor(), game.renderer(), game.camera()), before);
}

#[test]
fn acquired_frame_is_recorded_for_submission() {
    let mut game = game();
    let redraw = game.redraw(Ok(()));
    assert!(redraw.effects.is_empty());
    let pass = redraw.pass.unwrap();
    assert_eq!(
        pass.recorded(),
        &vec![
            DrawCommand::SetPipeline,
            DrawCommand::SetBindGroup { index: 0, group: BindGroup::Atlas },
            DrawCommand::SetVertexBuffer { slot: 0 },
            DrawCommand::SetBindGroup { index: 1, group: BindGroup::Globals },
            DrawCommand::SetIndexBuffer { format: IndexFormat::Uint16 },
            DrawCommand::DrawIndexed {
                first_index: 0,
                end_index: 36,
                base_vertex: 0,
                first_instance: 0,
                end_instance: 1,
            },
        ]
    );
}

#[test]
fn lost_surface_is_configured_again_and_the_next_frame_is_drawn() {
    let mut game = game();
    let before = game.renderer();
    let redraw = game.redraw(Err(SurfaceError::Lost));
    assert!(redraw.pass.is_none());
    assert_eq!(redraw.effects, vec![Effect::ConfigureSurface(SIZE)]);
    assert_eq!(game.renderer(), before);
    let next = game.redraw(Ok(()));
    assert!(next.effects.is_empty());
    assert_eq!(next.pass.unwrap().recorded().len(), 6);
}

#[test]
fn lost_surface_of_an_empty_window_is_left_alone() {
    let mut game = game_of(Size { width: 0, height: 0 });
    let redraw = game.redraw(Err(SurfaceError::Lost));
    assert!(redraw.pass.is_none());
    assert!(redraw.effects.is_empty());
}

#[test]
fn out_of_memory_asks_for_exit_once() {
    let mut game = game();
    let redraw = game.redraw(Err(SurfaceError::OutOfMemory));
    assert!(redraw.pass.is_none());
    assert_eq!(redraw.effects, vec![Effect::Exit]);
    assert_eq!(redraw.effects.iter().filter(|effect| **effect == Effect::Exit).count(), 1);
}

#[test]
fn other_render_errors_are_logged() {
    for error in [SurfaceError::Outdated, SurfaceError::Timeout, SurfaceError::Other] {
        let mut game = game();
        let before = (game.state(), game.cursor(), game.renderer());
        let redraw = game.redraw(Err(error));
        assert!(redraw.pass.is_none());
        assert_eq!(redraw.effects, vec![Effect::Log(error)]);
        assert_eq!((game.state(), game.cursor(), game.renderer()), before);
        assert!(game.redraw(Ok(())).pass.is_some());
    }
}

#[test]
fn device_events_reach_the_camera_only_while_playing() {
    let mut game = game();
    assert!(game.input(&DeviceEvent::MouseMotion));
    assert!(game.input(&DeviceEvent::Other));
    game.handle_window_event(press_escape(), 0);
    assert!(!game.input(&DeviceEvent::MouseMotion));
    assert!(!game.input(&DeviceEvent::Other));
    game.handle_window_event(release_escape(), 0);
    game.handle_window_event(press_escape(), 0);
    assert!(game.input(&DeviceEvent::MouseMotion));
    assert!(game.input(&DeviceEvent::Other));
}

#[test]
fn input_changes_nothing() {
    let game = game();
    let before = (game.state(), game.cursor(), game.renderer(), game.camera());
    game.input(&DeviceEvent::MouseMotion);
    game.input(&DeviceEvent::Other);
    assert_eq!((game.state(), game.cursor(), game.renderer(), game.camera()), before);
}

#[test]
fn input_keyboard_reports_what_the_camera_consumed() {
    let mut game = game();
    assert!(game.input_keyboard(&key(Key::Move(Direction::Down), ElementState::Pressed)));
    assert!(game.camera().camera_controller.down);
    assert!(game.input_keyboard(&key(Key::Move(Direction::Down), ElementState::Released)));
    assert!(!game.camera().camera_controller.down);
    assert!(!game.input_keyboard(&press_escape()));
    assert!(!game.input_keyboard(&key(Key::Other, ElementState::Pressed)));
    assert!(!game.input_keyboard(&WindowEvent::MouseWheel));
    assert!(!game.input_keyboard(&WindowEvent::CloseRequested));
    assert_eq!(game.state(), State::PLAYING);
    assert_eq!(game.camera(), Camera::new());
}

#[test]
fn controller_takes_movement_keys_and_no_others() {
    let mut controller = CameraController::new();
    assert!(controller.process_keyboard(Key::Move(Direction::Right), ElementState::Pressed));
    assert!(controller.is_pressed(Direction::Right));
    assert!(!controller.is_pressed(Direction::Left));
    assert!(!controller.process_keyboard(Key::Escape, ElementState::Pressed));
    assert!(!controller.process_keyboard(Key::Other, ElementState::Released));
    assert!(controller.is_pressed(Direction::Right));
    assert!(controller.process_keyboard(Key::Move(Direction::Right), ElementState::Released));
    assert_eq!(controller, CameraController::new());
}

#[test]
fn events_never_change_the_terrain() {
    let mut game = game();
    let vertices = game.terrain().model().vbuf().clone();
    let indices = game.terrain().model().ibuf().clone();
    game.initialize();
    game.handle_window_event(press_escape(), 1);
    game.handle_window_event(WindowEvent::Resized(Size { width: 10, height: 10 }), 2);
    game.handle_window_event(WindowEvent::RedrawRequested, 3);
    game.redraw(Err(SurfaceError::Lost));
    game.redraw(Ok(()));
    assert_eq!(game.terrain().model().vbuf(), &vertices);
    assert_eq!(game.terrain().model().ibuf(), &indices);
}

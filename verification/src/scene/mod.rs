use crate::event::WindowEvent;
use crate::render::atlas::AtlasImage;
use crate::render::mesh::{cube_indices, cube_vertices};
use crate::render::renderer::Renderer;
use crate::scene::camera::{Camera, consumes};
use crate::scene::terrain::{Terrain, terrain_outcome, world_block};
use vstd::prelude::*;

pub mod camera;
pub mod terrain;

verus! {

/// What is shown: the terrain, and the camera it is seen through.
#[derive(Debug)]
pub struct Scene {
    pub terrain: Terrain,
    pub camera: Camera,
}

impl Scene {
    /// Builds the terrain for the renderer's device and a camera with no key held.
    pub fn new(renderer: &Renderer, image: &AtlasImage) -> (scene: Scene)
        requires
            terrain_outcome(renderer.limits, *image) is Ok,
        ensures
            scene.terrain.atlas().columns() == image.columns,
            scene.terrain.atlas().rows() == image.rows,
            scene.terrain.atlas().tile_size() == image.tile_size,
            scene.terrain.model().vertices() == cube_vertices(world_block()),
            scene.terrain.model().indices() == cube_indices(0),
            scene.camera == Camera::new(),
    {
        Scene { terrain: Terrain::new(renderer, image), camera: Camera::new() }
    }

    /// Offers a window event to the scene before anyone else sees it, and says
    /// whether the scene consumed it. Only the camera takes events.
    pub fn handle_input_event(&mut self, event: &WindowEvent) -> (consumed: bool)
        ensures
            consumed == consumes(*event),
            final(self).camera == old(self).camera.after_event(*event),
            final(self).terrain == old(self).terrain,
    {
        self.camera.input_keyboard(event)
    }
}

} // verus!

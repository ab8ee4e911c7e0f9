use crate::render::atlas::{Atlas, AtlasError, AtlasImage, MaterialType, atlas_outcome};
use crate::render::mesh::{Mesh, BLOCK_INDICES, BLOCK_VERTICES, cube_indices, cube_vertices};
use crate::render::model::{Model, ModelError, INDEX_BYTES, upload_outcome};
use crate::render::pipelines::terrain::{BlockVertex, IndexFormat, TerrainPipeline};
use crate::render::pipelines::{BindGroup, GlobalsLayouts};
use crate::render::renderer::{Draw, DrawCommand, DrawError, RenderPass, Renderer, draw_calls};
use crate::render::{DeviceLimits, Vertex};
use crate::scene::terrain::block::Block;
use vstd::prelude::*;

pub mod block;

verus! {

/// Why the terrain could not be built.
#[derive(Clone, Copy, Debug, PartialEq, Eq, Structural)]
pub enum TerrainError {
    Atlas(AtlasError),
    Model(ModelError),
}

/// The one block that the world holds for now: grass, at the origin, not turned.
pub open spec fn world_block() -> Block {
    Block { material: MaterialType::GRASS, position: [0, 0, 0], rotation: [0, 0, 0] }
}

/// Whether a terrain can be built on a device for an atlas image: the atlas is
/// laid out first, then the one block's geometry is held against the limits.
pub open spec fn terrain_outcome(limits: DeviceLimits, image: AtlasImage) -> Result<
    (),
    TerrainError,
> {
    match atlas_outcome(limits, image) {
        Err(error) => Err(TerrainError::Atlas(error)),
        Ok(_) => match upload_outcome(
            limits,
            BlockVertex::stride(),
            cube_vertices(world_block()).len(),
            cube_indices(0).len(),
        ) {
            Err(error) => Err(TerrainError::Model(error)),
            Ok(_) => Ok(()),
        },
    }
}

/// The terrain as it is drawn: its pipeline, its atlas and the one model of the
/// whole visible world.
#[derive(Debug)]
pub struct Terrain {
    pipeline: TerrainPipeline,
    atlas: Atlas,
    model: Model<BlockVertex>,
}

impl Terrain {
    #[verifier::type_invariant]
    spec fn inv(self) -> bool {
        &&& self.pipeline == TerrainPipeline::new_spec(GlobalsLayouts::new())
        &&& self.model.indices().len() <= u32::MAX
        &&& forall|i: int|
            0 <= i < self.model.vertices().len() ==> self.atlas.covers(
                (#[trigger] self.model.vertices()[i]).material,
            )
    }

    pub closed spec fn spec_pipeline(&self) -> TerrainPipeline {
        self.pipeline
    }

    pub closed spec fn spec_atlas(&self) -> Atlas {
        self.atlas
    }

    pub closed spec fn spec_model(&self) -> &Model<BlockVertex> {
        &self.model
    }

    /// Whether a terrain can be built on a device for an atlas image, and if not,
    /// why not. Nothing is built.
    pub fn check(limits: &DeviceLimits, image: &AtlasImage) -> (result: Result<(), TerrainError>)
        ensures
            result == terrain_outcome(*limits, *image),
    {
        match Atlas::new(limits, image) {
            Ok(_) => {},
            Err(error) => {
                return Err(TerrainError::Atlas(error));
            },
        }
        let vertex_bytes: u64 = BLOCK_VERTICES as u64 * BlockVertex::size();
        let index_bytes: u64 = BLOCK_INDICES as u64 * INDEX_BYTES;
        if vertex_bytes > limits.max_buffer_size || index_bytes > limits.max_buffer_size {
            Err(TerrainError::Model(ModelError::BufferTooLarge))
        } else {
            Ok(())
        }
    }

    /// Builds the atlas for the image, meshes the world's one block and uploads
    /// it. A terrain is built whole: a device or an image on which the atlas or
    /// the upload would fail is not taken, and `check` tells them apart.
    pub fn new(renderer: &Renderer, image: &AtlasImage) -> (terrain: Terrain)
        requires
            terrain_outcome(renderer.limits, *image) is Ok,
        ensures
            terrain.atlas().columns() == image.columns,
            terrain.atlas().rows() == image.rows,
            terrain.atlas().tile_size() == image.tile_size,
            terrain.model().vertices() == cube_vertices(world_block()),
            terrain.model().indices() == cube_indices(0),
            terrain.pipeline() == TerrainPipeline::new_spec(GlobalsLayouts::new()),
    {
        let global_layouts = GlobalsLayouts::new();
        let atlas = Atlas::new(&renderer.limits, image).unwrap();
        let pipeline = TerrainPipeline::new(&global_layouts);
        let block = Block::new(MaterialType::GRASS, [0, 0, 0], [0, 0, 0]);
        let mut mesh = Mesh::new();
        mesh.push_block(block);
        proof {
            assert(block.position =~= world_block().position);
            assert(block.rotation =~= world_block().rotation);
            assert(block == world_block());
        }
        let model = Model::new(&renderer.limits, &mesh).unwrap();
        proof {
            assert(0 < atlas.columns() * atlas.rows()) by (nonlinear_arith)
                requires
                    atlas.columns() > 0,
                    atlas.rows() > 0,
            ;
            assert(model.indices().len() == 36);
        }
        Terrain { pipeline, atlas, model }
    }

    /// The state of the pipeline: the same for every terrain.
    #[verifier::when_used_as_spec(spec_pipeline)]
    pub fn pipeline(&self) -> (pipeline: TerrainPipeline)
        ensures
            pipeline == self.spec_pipeline(),
            pipeline == TerrainPipeline::new_spec(GlobalsLayouts::new()),
    {
        proof {
            use_type_invariant(self);
        }
        self.pipeline
    }

    #[verifier::when_used_as_spec(spec_atlas)]
    pub fn atlas(&self) -> (atlas: Atlas)
        ensures
            atlas == self.spec_atlas(),
    {
        self.atlas
    }

    #[verifier::when_used_as_spec(spec_model)]
    pub fn model(&self) -> (model: &Model<BlockVertex>)
        ensures
            model == self.spec_model(),
    {
        &self.model
    }

    /// The place in the atlas texture that a vertex of the model is textured from.
    pub fn texel(&self, index: usize) -> (texel: (u32, u32))
        requires
            index < self.model().vertices().len(),
        ensures
            self.atlas().covers(self.model().vertices()[index as int].material),
            texel == self.atlas().texel_of(self.model().vertices()[index as int]),
    {
        proof {
            use_type_invariant(self);
        }
        let vertex: &BlockVertex = &self.model.vbuf()[index];
        match self.atlas.texel(vertex) {
            Some(texel) => texel,
            None => (0, 0),
        }
    }
}

/// What drawing a terrain records: the pipeline, the atlas in its slot, the
/// vertices, the globals in their slot, the indices, and one draw of all
/// `num_indices` indices for one instance.
pub open spec fn terrain_commands(pipeline: TerrainPipeline, num_indices: u32) -> Seq<DrawCommand> {
    seq![
        DrawCommand::SetPipeline,
        DrawCommand::SetBindGroup {
            index: pipeline.layouts.slot(BindGroup::Atlas),
            group: BindGroup::Atlas,
        },
        DrawCommand::SetVertexBuffer { slot: 0 },
        DrawCommand::SetBindGroup {
            index: pipeline.layouts.slot(BindGroup::Globals),
            group: BindGroup::Globals,
        },
        DrawCommand::SetIndexBuffer { format: pipeline.index_format },
        DrawCommand::DrawIndexed {
            first_index: 0,
            end_index: num_indices,
            base_vertex: 0,
            first_instance: 0,
            end_instance: 1,
        },
    ]
}

/// A terrain is drawn with one draw call and no more. The call is the last
/// command, it covers all indices and it draws one instance.
pub proof fn lemma_terrain_draws_once(pipeline: TerrainPipeline, num_indices: u32)
    ensures
        draw_calls(terrain_commands(pipeline, num_indices)) == 1,
        terrain_commands(pipeline, num_indices).last() == (DrawCommand::DrawIndexed {
            first_index: 0,
            end_index: num_indices,
            base_vertex: 0,
            first_instance: 0,
            end_instance: 1,
        }),
        terrain_commands(pipeline, num_indices).last().instances() == 1,
{
    let commands = terrain_commands(pipeline, num_indices);
    reveal_with_fuel(draw_calls, 7);
    assert(commands.drop_last().drop_last().drop_last().drop_last().drop_last().drop_last().len()
        == 0);
}

/// The slots that drawing binds are those that the terrain's pipeline was laid
/// out with: the atlas in slot 0, the globals in slot 1, and 16-bit indices.
pub proof fn lemma_draw_matches_pipeline(num_indices: u32)
    ensures
        ({
            let pipeline = TerrainPipeline::new_spec(GlobalsLayouts::new());
            let commands = terrain_commands(pipeline, num_indices);
            &&& commands[1] == (DrawCommand::SetBindGroup { index: 0, group: BindGroup::Atlas })
            &&& commands[3] == (DrawCommand::SetBindGroup { index: 1, group: BindGroup::Globals })
            &&& commands[4] == (DrawCommand::SetIndexBuffer { format: IndexFormat::Uint16 })
        }),
{
}

impl Draw for Terrain {
    open spec fn commands(&self) -> Seq<DrawCommand> {
        terrain_commands(self.pipeline(), self.model().indices().len() as u32)
    }

    /// Recording the terrain cannot fail.
    open spec fn outcome(&self) -> Result<(), DrawError> {
        Ok(())
    }

    fn draw(&self, render_pass: &mut RenderPass) -> (result: Result<(), DrawError>) {
        let pipeline = self.pipeline();
        render_pass.set_pipeline();
        render_pass.set_bind_group(pipeline.layouts.slot_of(BindGroup::Atlas), BindGroup::Atlas);
        render_pass.set_vertex_buffer(0);
        render_pass.set_bind_group(pipeline.layouts.slot_of(BindGroup::Globals), BindGroup::Globals);
        render_pass.set_index_buffer(pipeline.index_format);
        render_pass.draw_indexed(0, self.model.num_indices(), 0, 0, 1);
        proof {
            assert(final(render_pass).commands() =~= old(render_pass).commands() + self.commands());
        }
        Ok(())
    }
}

} // verus!

use crate::render::atlas::MaterialType;
use crate::render::pipelines::GlobalsLayouts;
use crate::render::Vertex;
use vstd::prelude::*;

verus! {

/// A corner of a block's face, before it is turned into floats for the GPU.
#[derive(Clone, Copy, Debug, PartialEq, Eq, Structural)]
pub struct BlockVertex {
    /// Position in world units.
    pub x: i64,
    pub y: i64,
    pub z: i64,
    /// Corner of the material's atlas tile: 0 is the tile's left edge, 1 its right edge.
    pub u: u8,
    /// 0 is the tile's top edge, 1 its bottom edge.
    pub v: u8,
    pub material: MaterialType,
}

impl Vertex for BlockVertex {
    /// Three floats of position and two of texture coordinates, four bytes each.
    open spec fn stride() -> nat {
        20
    }

    fn size() -> (bytes: u64) {
        20
    }
}

/// Which winding of a triangle counts as its front.
#[derive(Clone, Copy, Debug, PartialEq, Eq, Structural)]
pub enum FrontFace {
    Ccw,
    Cw,
}

/// A side of a triangle.
#[derive(Clone, Copy, Debug, PartialEq, Eq, Structural)]
pub enum Face {
    Front,
    Back,
}

/// The width of the indices in an index buffer.
#[derive(Clone, Copy, Debug, PartialEq, Eq, Structural)]
pub enum IndexFormat {
    Uint16,
    Uint32,
}

/// The type of a vertex attribute.
#[derive(Clone, Copy, Debug, PartialEq, Eq, Structural)]
pub enum VertexFormat {
    Float32x2,
    Float32x3,
}

impl VertexFormat {
    pub open spec fn bytes(self) -> nat {
        match self {
            VertexFormat::Float32x2 => 8,
            VertexFormat::Float32x3 => 12,
        }
    }
}

/// Where the shader finds one input within a vertex.
#[derive(Clone, Copy, Debug, PartialEq, Eq, Structural)]
pub struct VertexAttribute {
    pub format: VertexFormat,
    pub offset: u64,
    pub shader_location: u32,
}

impl VertexAttribute {
    /// The first byte after the attribute.
    pub open spec fn end(self) -> int {
        self.offset + self.format.bytes()
    }
}

/// The fixed state of the pipeline that draws the terrain.
#[derive(Clone, Copy, Debug, PartialEq, Eq, Structural)]
pub struct TerrainPipeline {
    pub layouts: GlobalsLayouts,
    pub vertex_stride: u64,
    pub position: VertexAttribute,
    pub tex_coords: VertexAttribute,
    pub front_face: FrontFace,
    pub cull_mode: Option<Face>,
    pub index_format: IndexFormat,
}

impl TerrainPipeline {
    /// The attributes follow each other without a gap and fill the vertex.
    pub open spec fn packed(self) -> bool {
        &&& self.position.offset == 0
        &&& self.tex_coords.offset == self.position.end()
        &&& self.vertex_stride == self.tex_coords.end()
    }

    /// Vertices of twenty bytes, position first; triangles that run against the
    /// clock are front faces and back faces are culled; indices have 16 bits.
    pub open spec fn new_spec(layouts: GlobalsLayouts) -> TerrainPipeline {
        TerrainPipeline {
            layouts,
            vertex_stride: 20,
            position: VertexAttribute {
                format: VertexFormat::Float32x3,
                offset: 0,
                shader_location: 0,
            },
            tex_coords: VertexAttribute {
                format: VertexFormat::Float32x2,
                offset: 12,
                shader_location: 1,
            },
            front_face: FrontFace::Ccw,
            cull_mode: Some(Face::Back),
            index_format: IndexFormat::Uint16,
        }
    }

    pub fn new(layouts: &GlobalsLayouts) -> (pipeline: TerrainPipeline)
        ensures
            pipeline == Self::new_spec(*layouts),
            pipeline.vertex_stride == BlockVertex::stride(),
            pipeline.packed(),
    {
        TerrainPipeline {
            layouts: *layouts,
            vertex_stride: BlockVertex::size(),
            position: VertexAttribute {
                format: VertexFormat::Float32x3,
                offset: 0,
                shader_location: 0,
            },
            tex_coords: VertexAttribute {
                format: VertexFormat::Float32x2,
                offset: 12,
                shader_location: 1,
            },
            front_face: FrontFace::Ccw,
            cull_mode: Some(Face::Back),
            index_format: IndexFormat::Uint16,
        }
    }
}

} // verus!

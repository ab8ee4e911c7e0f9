use vstd::prelude::*;

pub mod atlas;
pub mod mesh;
pub mod model;
pub mod pipelines;
pub mod renderer;

verus! {

/// The limits of the GPU device that decide whether a resource can be created.
#[derive(Clone, Copy, Debug, PartialEq, Eq, Structural)]
pub struct DeviceLimits {
    /// Largest width or height of a two-dimensional texture, in texels.
    pub max_texture_dimension_2d: u32,
    /// Largest size of a buffer, in bytes.
    pub max_buffer_size: u64,
}

/// A vertex that a vertex buffer can hold.
pub trait Vertex: Copy {
    /// The bytes that one vertex takes in a vertex buffer.
    spec fn stride() -> nat;

    fn size() -> (bytes: u64)
        ensures
            bytes == Self::stride(),
            bytes > 0,
    ;
}

} // verus!

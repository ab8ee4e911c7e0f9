use crate::render::mesh::Mesh;
use crate::render::pipelines::terrain::BlockVertex;
use crate::render::{DeviceLimits, Vertex};
use vstd::prelude::*;

verus! {

/// Why a mesh could not be uploaded.
#[derive(Clone, Copy, Debug, PartialEq, Eq, Structural)]
pub enum ModelError {
    /// The mesh holds nothing to draw.
    EmptyMesh,
    /// The vertices or the indices take more bytes than a buffer of the device
    /// may have.
    BufferTooLarge,
}

/// Bytes that one 16-bit index takes.
pub const INDEX_BYTES: u64 = 2;

/// What uploading `vertices` vertices of `stride` bytes each and `indices` indices
/// gives on a device: nothing is cut short to make it fit.
pub open spec fn upload_outcome(limits: DeviceLimits, stride: nat, vertices: nat, indices: nat) -> Result<
    (),
    ModelError,
> {
    if vertices == 0 || indices == 0 {
        Err(ModelError::EmptyMesh)
    } else if vertices * stride > limits.max_buffer_size || indices * INDEX_BYTES
        > limits.max_buffer_size {
        Err(ModelError::BufferTooLarge)
    } else {
        Ok(())
    }
}

/// The contents of a vertex buffer and an index buffer as they were uploaded,
/// with the number of indices to draw. Nothing changes them afterwards.
#[derive(Debug)]
pub struct Model<V: Vertex> {
    vertices: Vec<V>,
    indices: Vec<u16>,
    num_indices: u32,
}

fn copy_of<T: Copy>(source: &Vec<T>) -> (copy: Vec<T>)
    ensures
        copy@ == source@,
{
    let mut copy: Vec<T> = Vec::new();
    let mut i: usize = 0;
    while i < source.len()
        invariant
            i <= source.len(),
            copy@ == source@.subrange(0, i as int),
        decreases source.len() - i,
    {
        copy.push(source[i]);
        proof {
            assert(copy@ =~= source@.subrange(0, i + 1));
        }
        i = i + 1;
    }
    proof {
        assert(source@.subrange(0, source.len() as int) =~= source@);
    }
    copy
}

impl<V: Vertex> Model<V> {
    #[verifier::type_invariant]
    spec fn inv(self) -> bool {
        &&& self.num_indices == self.indices@.len()
        &&& self.vertices@.len() * V::stride() <= u64::MAX
    }

    /// What the vertex buffer holds.
    pub closed spec fn vertices(&self) -> Seq<V> {
        self.vertices@
    }

    /// What the index buffer holds.
    pub closed spec fn indices(&self) -> Seq<u16> {
        self.indices@
    }

    pub fn vbuf(&self) -> (data: &Vec<V>)
        ensures
            data@ == self.vertices(),
    {
        &self.vertices
    }

    pub fn ibuf(&self) -> (data: &Vec<u16>)
        ensures
            data@ == self.indices(),
    {
        &self.indices
    }

    /// The number of indices in the index buffer: no more and no fewer.
    pub fn num_indices(&self) -> (count: u32)
        ensures
            count == self.indices().len(),
    {
        proof {
            use_type_invariant(self);
        }
        self.num_indices
    }

    /// The size of the vertex buffer in bytes.
    pub fn vertex_bytes(&self) -> (bytes: u64)
        ensures
            bytes == self.vertices().len() * V::stride(),
    {
        proof {
            use_type_invariant(self);
        }
        let stride: u64 = V::size();
        let count: u64 = self.vertices.len() as u64;
        count * stride
    }

    /// The size of the index buffer in bytes.
    pub fn index_bytes(&self) -> (bytes: u64)
        ensures
            bytes == self.indices().len() * INDEX_BYTES,
    {
        proof {
            use_type_invariant(self);
        }
        self.num_indices as u64 * INDEX_BYTES
    }
}

impl Model<BlockVertex> {
    /// Uploads a mesh: the buffers hold exactly what the mesh holds, or the reason
    /// why the device cannot take it is reported.
    pub fn new(limits: &DeviceLimits, mesh: &Mesh) -> (result: Result<Model<BlockVertex>, ModelError>)
        requires
            mesh.wf(),
        ensures
            match result {
                Ok(model) => {
                    &&& upload_outcome(
                        *limits,
                        BlockVertex::stride(),
                        mesh.vertices().len(),
                        mesh.indices().len(),
                    ) is Ok
                    &&& model.vertices() == mesh.vertices()
                    &&& model.indices() == mesh.indices()
                },
                Err(error) => upload_outcome(
                    *limits,
                    BlockVertex::stride(),
                    mesh.vertices().len(),
                    mesh.indices().len(),
                ) == Err::<(), ModelError>(error),
            },
    {
        proof {
            mesh.lemma_indices_in_range();
        }
        let vertex_count: usize = mesh.vertex_count();
        let index_count: usize = mesh.index_count();
        if vertex_count == 0 || index_count == 0 {
            return Err(ModelError::EmptyMesh);
        }
        let stride: u64 = BlockVertex::size();
        if vertex_count as u64 * stride > limits.max_buffer_size || index_count as u64 * INDEX_BYTES
            > limits.max_buffer_size {
            return Err(ModelError::BufferTooLarge);
        }
        Ok(
            Model {
                vertices: copy_of(mesh.vertex_data()),
                indices: copy_of(mesh.index_data()),
                num_indices: index_count as u32,
            },
        )
    }
}

} // verus!

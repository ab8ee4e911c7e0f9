use crate::render::pipelines::terrain::BlockVertex;
use crate::scene::terrain::block::Block;
use vstd::prelude::*;

verus! {

/// The most vertices a mesh can hold: one more than the largest 16-bit index.
pub const MAX_VERTICES: usize = 65536;

/// Faces of a cube.
pub const FACES: usize = 6;

/// Vertices that one block adds: four to a face.
pub const BLOCK_VERTICES: usize = 24;

/// Indices that one block adds: two triangles to a face.
pub const BLOCK_INDICES: usize = 36;

/// A step in space, in world units.
pub struct Vector {
    pub x: int,
    pub y: int,
    pub z: int,
}

impl Vector {
    pub open spec fn plus(self, other: Vector) -> Vector {
        Vector { x: self.x + other.x, y: self.y + other.y, z: self.z + other.z }
    }

    pub open spec fn minus(self, other: Vector) -> Vector {
        Vector { x: self.x - other.x, y: self.y - other.y, z: self.z - other.z }
    }

    /// The cross product: at right angles to both, by the right-hand rule.
    pub open spec fn cross(self, other: Vector) -> Vector {
        Vector {
            x: self.y * other.z - self.z * other.y,
            y: self.z * other.x - self.x * other.z,
            z: self.x * other.y - self.y * other.x,
        }
    }
}

pub open spec fn zero() -> Vector {
    Vector { x: 0, y: 0, z: 0 }
}

/// The direction a face looks in, away from the cube. Faces are numbered
/// +x, -x, +y, -y, +z, -z.
pub open spec fn face_normal(face: int) -> Vector {
    if face == 0 {
        Vector { x: 1, y: 0, z: 0 }
    } else if face == 1 {
        Vector { x: -1, y: 0, z: 0 }
    } else if face == 2 {
        Vector { x: 0, y: 1, z: 0 }
    } else if face == 3 {
        Vector { x: 0, y: -1, z: 0 }
    } else if face == 4 {
        Vector { x: 0, y: 0, z: 1 }
    } else {
        Vector { x: 0, y: 0, z: -1 }
    }
}

/// The bottom left corner of a face as seen from outside the cube, counted from
/// the cube's corner of smallest coordinates.
pub open spec fn face_origin(face: int) -> Vector {
    if face == 0 {
        Vector { x: 1, y: 0, z: 1 }
    } else if face == 1 {
        Vector { x: 0, y: 0, z: 0 }
    } else if face == 2 {
        Vector { x: 0, y: 1, z: 1 }
    } else if face == 3 {
        Vector { x: 0, y: 0, z: 0 }
    } else if face == 4 {
        Vector { x: 0, y: 0, z: 1 }
    } else {
        Vector { x: 1, y: 0, z: 0 }
    }
}

/// The edge of a face that runs to the right as seen from outside the cube.
pub open spec fn face_right(face: int) -> Vector {
    if face == 0 {
        Vector { x: 0, y: 0, z: -1 }
    } else if face == 1 {
        Vector { x: 0, y: 0, z: 1 }
    } else if face == 5 {
        Vector { x: -1, y: 0, z: 0 }
    } else {
        Vector { x: 1, y: 0, z: 0 }
    }
}

/// The edge of a face that runs upwards as seen from outside the cube.
pub open spec fn face_up(face: int) -> Vector {
    if face == 2 {
        Vector { x: 0, y: 0, z: -1 }
    } else if face == 3 {
        Vector { x: 0, y: 0, z: 1 }
    } else {
        Vector { x: 0, y: 1, z: 0 }
    }
}

/// Corners of a face are numbered from the bottom left against the clock:
/// bottom left, bottom right, top right, top left.
pub open spec fn corner_is_right(corner: int) -> bool {
    corner == 1 || corner == 2
}

pub open spec fn corner_is_top(corner: int) -> bool {
    corner == 2 || corner == 3
}

/// Where a corner of a face lies, counted from the cube's corner of smallest coordinates.
pub open spec fn corner_offset(face: int, corner: int) -> Vector {
    face_origin(face).plus(
        if corner_is_right(corner) {
            face_right(face)
        } else {
            zero()
        },
    ).plus(
        if corner_is_top(corner) {
            face_up(face)
        } else {
            zero()
        },
    )
}

/// The vertex that a block has at a corner of a face.
pub open spec fn face_vertex(block: Block, face: int, corner: int) -> BlockVertex {
    let offset = corner_offset(face, corner);
    BlockVertex {
        x: (block.position[0] + offset.x) as i64,
        y: (block.position[1] + offset.y) as i64,
        z: (block.position[2] + offset.z) as i64,
        u: if corner_is_right(corner) {
            1
        } else {
            0
        },
        v: if corner_is_top(corner) {
            0
        } else {
            1
        },
        material: block.material,
    }
}

/// The vertices of a block: face after face, four corners each.
pub open spec fn cube_vertices(block: Block) -> Seq<BlockVertex> {
    Seq::new(24, |i: int| face_vertex(block, i / 4, i % 4))
}

/// The corners of a face in the order its two triangles name them.
pub open spec fn quad_corner(step: int) -> int {
    if step == 0 {
        0
    } else if step == 1 {
        1
    } else if step == 2 {
        2
    } else if step == 3 {
        2
    } else if step == 4 {
        3
    } else {
        0
    }
}

/// The indices of a block whose first vertex has the number `base`: face after
/// face, two triangles each.
pub open spec fn cube_indices(base: nat) -> Seq<u16> {
    Seq::new(36, |j: int| (base + 4 * (j / 6) + quad_corner(j % 6)) as u16)
}

/// The vertices that a run of blocks leaves in a mesh that was empty before.
pub open spec fn mesh_vertices(blocks: Seq<Block>) -> Seq<BlockVertex>
    decreases blocks.len(),
{
    if blocks.len() == 0 {
        Seq::empty()
    } else {
        mesh_vertices(blocks.drop_last()) + cube_vertices(blocks.last())
    }
}

/// The indices that a run of blocks leaves in a mesh that was empty before.
pub open spec fn mesh_indices(blocks: Seq<Block>) -> Seq<u16>
    decreases blocks.len(),
{
    if blocks.len() == 0 {
        Seq::empty()
    } else {
        mesh_indices(blocks.drop_last()) + cube_indices(mesh_vertices(blocks.drop_last()).len())
    }
}

/// However many blocks are pushed, as long as their vertices can be numbered with
/// 16 bits: the mesh holds 24 vertices and 36 indices for each block, and every
/// index names a vertex that the mesh holds.
pub proof fn lemma_no_dangling_index(blocks: Seq<Block>)
    requires
        blocks.len() * BLOCK_VERTICES <= MAX_VERTICES,
    ensures
        mesh_vertices(blocks).len() == blocks.len() * BLOCK_VERTICES,
        mesh_indices(blocks).len() == blocks.len() * BLOCK_INDICES,
        forall|i: int|
            0 <= i < mesh_indices(blocks).len() ==> (#[trigger] mesh_indices(blocks)[i])
                < mesh_vertices(blocks).len(),
    decreases blocks.len(),
{
    if blocks.len() > 0 {
        lemma_no_dangling_index(blocks.drop_last());
    }
}

/// Twice the area of a triangle of a face, as a vector at right angles to it.
/// It points to the side from which the triangle's corners run against the clock.
/// `triangle` is 0 or 1.
pub open spec fn triangle_normal(face: int, triangle: int) -> Vector {
    let a = corner_offset(face, quad_corner(3 * triangle));
    let b = corner_offset(face, quad_corner(3 * triangle + 1));
    let c = corner_offset(face, quad_corner(3 * triangle + 2));
    b.minus(a).cross(c.minus(a))
}

/// How far a point lies in the direction a face looks in.
pub open spec fn height_over(face: int, point: Vector) -> int {
    let normal = face_normal(face);
    normal.x * point.x + normal.y * point.y + normal.z * point.z
}

/// Every face lies on the side of the unit cube that it looks away from, and seen
/// from outside both of its triangles run against the clock. With counter-clockwise
/// front faces and back faces culled, the faces are seen from outside the block
/// and not from inside.
pub proof fn lemma_faces_wind_outwards(face: int)
    requires
        0 <= face < FACES,
    ensures
        triangle_normal(face, 0) == face_normal(face),
        triangle_normal(face, 1) == face_normal(face),
        forall|corner: int|
            0 <= corner < 4 ==> #[trigger] height_over(face, corner_offset(face, corner)) == (if face
                % 2 == 0 {
                1int
            } else {
                0int
            }),
        forall|corner: int|
            0 <= corner < 4 ==> {
                let offset = #[trigger] corner_offset(face, corner);
                0 <= offset.x <= 1 && 0 <= offset.y <= 1 && 0 <= offset.z <= 1
            },
{
    let right = face_right(face);
    let up = face_up(face);
    let a = corner_offset(face, 0);
    let b = corner_offset(face, 1);
    let c = corner_offset(face, 2);
    let d = corner_offset(face, 3);
    assert(b.minus(a) == right);
    assert(c.minus(a) == right.plus(up));
    assert(d.minus(c) == zero().minus(right));
    assert(a.minus(c) == zero().minus(right).minus(up));
    assert(quad_corner(0) == 0 && quad_corner(1) == 1 && quad_corner(2) == 2);
    assert(quad_corner(3) == 2 && quad_corner(4) == 3 && quad_corner(5) == 0);
    lemma_cross_of_sheared(right, up);
    assert(triangle_normal(face, 0) == right.cross(up));
    assert(triangle_normal(face, 1) == right.cross(up));
    assert(right.cross(up) == face_normal(face)) by {
        assert(right.x == 0 || right.x == 1 || right.x == -1);
        assert(right.y == 0 && (right.z == 0 || right.z == 1 || right.z == -1));
        assert(up.x == 0 && (up.y == 0 || up.y == 1));
        assert(up.z == 0 || up.z == 1 || up.z == -1);
    }
}

/// The cross product of two edges of a parallelogram does not change when one
/// edge is replaced by the diagonal, nor when both are turned round.
proof fn lemma_cross_of_sheared(right: Vector, up: Vector)
    ensures
        right.cross(right.plus(up)) == right.cross(up),
        zero().minus(right).cross(zero().minus(right).minus(up)) == right.cross(up),
{
    assert(right.y * (right.z + up.z) - right.z * (right.y + up.y) == right.y * up.z - right.z
        * up.y) by (nonlinear_arith);
    assert(right.z * (right.x + up.x) - right.x * (right.z + up.z) == right.z * up.x - right.x
        * up.z) by (nonlinear_arith);
    assert(right.x * (right.y + up.y) - right.y * (right.x + up.x) == right.x * up.y - right.y
        * up.x) by (nonlinear_arith);
    assert((0 - right.y) * (0 - right.z - up.z) - (0 - right.z) * (0 - right.y - up.y) == right.y
        * up.z - right.z * up.y) by (nonlinear_arith);
    assert((0 - right.z) * (0 - right.x - up.x) - (0 - right.x) * (0 - right.z - up.z) == right.z
        * up.x - right.x * up.z) by (nonlinear_arith);
    assert((0 - right.x) * (0 - right.y - up.y) - (0 - right.y) * (0 - right.x - up.x) == right.x
        * up.y - right.y * up.x) by (nonlinear_arith);
}

/// Vertices and indices gathered block by block, ready for upload.
pub struct Mesh {
    vertices: Vec<BlockVertex>,
    indices: Vec<u16>,
    blocks: Ghost<Seq<Block>>,
}

struct Axes {
    origin: (i64, i64, i64),
    right: (i64, i64, i64),
    up: (i64, i64, i64),
}

spec fn as_vector(v: (i64, i64, i64)) -> Vector {
    Vector { x: v.0 as int, y: v.1 as int, z: v.2 as int }
}

fn face_axes(face: usize) -> (axes: Axes)
    requires
        face < FACES,
    ensures
        as_vector(axes.origin) == face_origin(face as int),
        as_vector(axes.right) == face_right(face as int),
        as_vector(axes.up) == face_up(face as int),
{
    if face == 0 {
        Axes { origin: (1, 0, 1), right: (0, 0, -1), up: (0, 1, 0) }
    } else if face == 1 {
        Axes { origin: (0, 0, 0), right: (0, 0, 1), up: (0, 1, 0) }
    } else if face == 2 {
        Axes { origin: (0, 1, 1), right: (1, 0, 0), up: (0, 0, -1) }
    } else if face == 3 {
        Axes { origin: (0, 0, 0), right: (1, 0, 0), up: (0, 0, 1) }
    } else if face == 4 {
        Axes { origin: (0, 0, 1), right: (1, 0, 0), up: (0, 1, 0) }
    } else {
        Axes { origin: (1, 0, 0), right: (-1, 0, 0), up: (0, 1, 0) }
    }
}

fn corner_vertex(block: &Block, face: usize, corner: usize) -> (vertex: BlockVertex)
    requires
        face < FACES,
        corner < 4,
    ensures
        vertex == face_vertex(*block, face as int, corner as int),
{
    let axes = face_axes(face);
    let right: bool = corner == 1 || corner == 2;
    let top: bool = corner == 2 || corner == 3;
    let mut x: i64 = block.position[0] as i64 + axes.origin.0;
    let mut y: i64 = block.position[1] as i64 + axes.origin.1;
    let mut z: i64 = block.position[2] as i64 + axes.origin.2;
    if right {
        x = x + axes.right.0;
        y = y + axes.right.1;
        z = z + axes.right.2;
    }
    if top {
        x = x + axes.up.0;
        y = y + axes.up.1;
        z = z + axes.up.2;
    }
    BlockVertex {
        x,
        y,
        z,
        u: if right {
            1
        } else {
            0
        },
        v: if top {
            0
        } else {
            1
        },
        material: block.material,
    }
}

impl Mesh {
    pub closed spec fn vertices(&self) -> Seq<BlockVertex> {
        self.vertices@
    }

    pub closed spec fn indices(&self) -> Seq<u16> {
        self.indices@
    }

    /// The blocks that were pushed, in the order of the calls.
    pub closed spec fn blocks(&self) -> Seq<Block> {
        self.blocks@
    }

    /// What holds of every mesh: it holds the geometry of the blocks that were
    /// pushed and nothing else, and its vertices can be numbered with 16 bits.
    pub open spec fn wf(&self) -> bool {
        &&& self.blocks().len() * BLOCK_VERTICES <= MAX_VERTICES
        &&& self.vertices() == mesh_vertices(self.blocks())
        &&& self.indices() == mesh_indices(self.blocks())
    }

    /// Whether one more block fits.
    pub open spec fn has_room(&self) -> bool {
        self.vertices().len() + BLOCK_VERTICES <= MAX_VERTICES
    }

    /// A mesh holds 24 vertices and 36 indices for each of its blocks, and none
    /// of its indices points past its last vertex.
    pub proof fn lemma_indices_in_range(&self)
        requires
            self.wf(),
        ensures
            self.vertices().len() == self.blocks().len() * BLOCK_VERTICES,
            self.indices().len() == self.blocks().len() * BLOCK_INDICES,
            forall|i: int|
                0 <= i < self.indices().len() ==> (#[trigger] self.indices()[i])
                    < self.vertices().len(),
    {
        lemma_no_dangling_index(self.blocks());
    }

    pub fn new() -> (mesh: Mesh)
        ensures
            mesh.wf(),
            mesh.blocks() == Seq::<Block>::empty(),
            mesh.vertices() == Seq::<BlockVertex>::empty(),
            mesh.indices() == Seq::<u16>::empty(),
    {
        Mesh { vertices: Vec::new(), indices: Vec::new(), blocks: Ghost(Seq::empty()) }
    }

    /// Appends the six faces of a block. What the mesh held before stays as it
    /// was, and every index, old or new, names a vertex that the mesh holds.
    pub fn push_block(&mut self, block: Block)
        requires
            old(self).wf(),
            old(self).has_room(),
        ensures
            final(self).wf(),
            final(self).blocks() == old(self).blocks().push(block),
            final(self).vertices() == old(self).vertices() + cube_vertices(block),
            final(self).indices() == old(self).indices() + cube_indices(
                old(self).vertices().len(),
            ),
            forall|i: int|
                0 <= i < final(self).indices().len() ==> (#[trigger] final(self).indices()[i])
                    < final(self).vertices().len(),
    {
        let base: usize = self.vertices.len();
        let mut face: usize = 0;
        while face < FACES
            invariant
                face <= FACES,
                base + BLOCK_VERTICES <= MAX_VERTICES,
                base == old(self).vertices@.len(),
                self.blocks == old(self).blocks,
                self.vertices@ == old(self).vertices@ + cube_vertices(block).subrange(
                    0,
                    4 * face as int,
                ),
                self.indices@ == old(self).indices@ + cube_indices(base as nat).subrange(
                    0,
                    6 * face as int,
                ),
            decreases FACES - face,
        {
            self.vertices.push(corner_vertex(&block, face, 0));
            self.vertices.push(corner_vertex(&block, face, 1));
            self.vertices.push(corner_vertex(&block, face, 2));
            self.vertices.push(corner_vertex(&block, face, 3));
            let first: usize = base + 4 * face;
            self.indices.push(first as u16);
            self.indices.push((first + 1) as u16);
            self.indices.push((first + 2) as u16);
            self.indices.push((first + 2) as u16);
            self.indices.push((first + 3) as u16);
            self.indices.push(first as u16);
            proof {
                let cube = cube_vertices(block);
                let order = cube_indices(base as nat);
                assert(self.vertices@ =~= old(self).vertices@ + cube.subrange(
                    0,
                    4 * (face + 1) as int,
                ));
                assert(self.indices@ =~= old(self).indices@ + order.subrange(
                    0,
                    6 * (face + 1) as int,
                ));
            }
            face = face + 1;
        }
        proof {
            assert(cube_vertices(block).subrange(0, 24) =~= cube_vertices(block));
            assert(cube_indices(base as nat).subrange(0, 36) =~= cube_indices(base as nat));
            let before = old(self).blocks();
            let after = before.push(block);
            lemma_no_dangling_index(before);
            assert(after.drop_last() =~= before);
            assert(after.last() == block);
            self.blocks@ = after;
            lemma_no_dangling_index(after);
        }
    }

    pub fn vertex_count(&self) -> (count: usize)
        ensures
            count == self.vertices().len(),
    {
        self.vertices.len()
    }

    pub fn index_count(&self) -> (count: usize)
        ensures
            count == self.indices().len(),
    {
        self.indices.len()
    }

    /// Whether `push_block` may be called.
    pub fn can_push(&self) -> (room: bool)
        ensures
            room == self.has_room(),
    {
        self.vertices.len() <= MAX_VERTICES - BLOCK_VERTICES
    }

    pub fn vertex_data(&self) -> (data: &Vec<BlockVertex>)
        ensures
            data@ == self.vertices(),
    {
        &self.vertices
    }

    pub fn index_data(&self) -> (data: &Vec<u16>)
        ensures
            data@ == self.indices(),
    {
        &self.indices
    }
}

} // verus!

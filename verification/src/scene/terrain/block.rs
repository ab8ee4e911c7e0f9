use crate::render::atlas::MaterialType;
use vstd::prelude::*;

verus! {

/// One unit cube of the world: what it is made of, where it stands, and how it is turned.
///
/// A block is a plain value. Meshing reads it and keeps only the geometry derived from it.
#[derive(Clone, Copy, Debug, PartialEq, Eq)]
pub struct Block {
    pub material: MaterialType,
    /// The corner of the cube with the smallest coordinates, in world units.
    pub position: [i32; 3],
    /// The block's orientation. The geometry of a cube does not depend on it.
    pub rotation: [i32; 3],
}

impl Block {
    pub fn new(material: MaterialType, position: [i32; 3], rotation: [i32; 3]) -> (block: Block)
        ensures
            block.material == material,
            block.position == position,
            block.rotation == rotation,
    {
        Block { material, position, rotation }
    }
}

} // verus!

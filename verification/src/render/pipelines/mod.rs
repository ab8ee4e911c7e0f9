use vstd::prelude::*;

pub mod terrain;

verus! {

/// The two bind groups that the terrain shader reads.
#[derive(Clone, Copy, Debug, PartialEq, Eq, Structural)]
pub enum BindGroup {
    /// The atlas texture and its sampler.
    Atlas,
    /// The uniforms shared by everything drawn in a pass, such as the camera's matrix.
    Globals,
}

/// The bind group slot of each shared resource. The shader, the pipeline and every
/// draw call go by these numbers.
#[derive(Clone, Copy, Debug, PartialEq, Eq, Structural)]
pub struct GlobalsLayouts {
    pub atlas: u32,
    pub globals: u32,
}

impl GlobalsLayouts {
    /// The atlas goes to slot 0, the globals go to slot 1.
    pub open spec fn new_spec() -> GlobalsLayouts {
        GlobalsLayouts { atlas: 0, globals: 1 }
    }

    #[verifier::when_used_as_spec(new_spec)]
    pub fn new() -> (layouts: GlobalsLayouts)
        ensures
            layouts == Self::new_spec(),
    {
        GlobalsLayouts { atlas: 0, globals: 1 }
    }

    pub open spec fn slot(self, group: BindGroup) -> u32 {
        match group {
            BindGroup::Atlas => self.atlas,
            BindGroup::Globals => self.globals,
        }
    }

    /// The slot that a bind group goes to.
    pub fn slot_of(&self, group: BindGroup) -> (slot: u32)
        ensures
            slot == self.slot(group),
    {
        match group {
            BindGroup::Atlas => self.atlas,
            BindGroup::Globals => self.globals,
        }
    }
}

} // verus!

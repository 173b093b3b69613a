//! The settings of a camera that depth peeling reads.
use vstd::prelude::*;

verus! {

/// Screen-space transmission of one camera.
#[derive(Clone, Copy, Debug, PartialEq, Eq, Structural)]
pub struct ScreenSpaceTransmission {
    /// Whether transmissive meshes are peeled by depth.
    pub depth_peeling: bool,
    /// How many layers are peeled.
    pub steps: usize,
}

impl ScreenSpaceTransmission {
    /// Whether there is anything to peel.
    pub open spec fn peels(self) -> bool {
        self.depth_peeling && self.steps != 0
    }

    /// Whether there is anything to peel.
    pub fn is_peeling(&self) -> (peeling: bool)
        ensures
            peeling == self.peels(),
    {
        self.depth_peeling && self.steps != 0
    }
}

} // verus!

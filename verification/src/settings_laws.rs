//! Laws of the settings.
use vstd::prelude::*;
use crate::settings::ScreenSpaceTransmission;

verus! {

/// A camera peels exactly if depth peeling is on and there is at least one step.
pub proof fn peeling_needs_a_step(settings: ScreenSpaceTransmission, peeling: bool)
    requires
        call_ensures(ScreenSpaceTransmission::is_peeling, (&settings,), peeling),
    ensures
        peeling <==> settings.depth_peeling && settings.steps >= 1,
        settings.peels() <==> settings.depth_peeling && settings.steps >= 1,
        call_requires(ScreenSpaceTransmission::is_peeling, (&settings,)),
{
}

} // verus!

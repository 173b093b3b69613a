//! Laws that hold across a frame: from the cameras to the render passes.
use vstd::prelude::*;
use crate::pass::{peeling_steps, PassInput, PassStep};
use crate::pass_laws::every_layer_is_drawn;
use crate::phase::Entry;
use crate::queue::ViewInput;
use crate::settings::ScreenSpaceTransmission;
use crate::textures::extent_of;
use crate::views::{camera_view, extracted, live_views, CameraInput, RetainedView};

verus! {

/// A view is live exactly if it is the view of a camera that renders and peels.
pub proof fn live_views_are_of_live_cameras(cameras: Seq<CameraInput>, view: RetainedView)
    ensures
        live_views(cameras).contains(view) <==> exists|i: int|
            0 <= i < cameras.len() && (#[trigger] cameras[i]).live() && view == camera_view(
                cameras[i].main_entity,
            ),
    decreases cameras.len(),
{
    if cameras.len() > 0 {
        let rest = cameras.drop_last();
        let last = cameras.len() - 1;
        live_views_are_of_live_cameras(rest, view);
        if live_views(rest).contains(view) {
            let k = live_views(rest).index_of(view);
            assert(live_views(cameras)[k] == view);
            let i = choose|i: int|
                0 <= i < rest.len() && (#[trigger] rest[i]).live() && view == camera_view(
                    rest[i].main_entity,
                );
            assert(cameras[i] == rest[i]);
        }
        if live_views(cameras).contains(view) && !live_views(rest).contains(view) {
            let k = live_views(cameras).index_of(view);
            assert(live_views(cameras)[k] == view);
            if cameras.last().live() && k < live_views(rest).len() {
                assert(live_views(rest)[k] == view);
            }
            if !cameras.last().live() {
                assert(live_views(rest).contains(view));
            }
            assert(cameras[last].live() && view == camera_view(cameras[last].main_entity));
        }
        if exists|i: int|
            0 <= i < cameras.len() && (#[trigger] cameras[i]).live() && view == camera_view(
                cameras[i].main_entity,
            ) {
            let i = choose|i: int|
                0 <= i < cameras.len() && (#[trigger] cameras[i]).live() && view == camera_view(
                    cameras[i].main_entity,
                );
            if i < last {
                assert(rest[i] == cameras[i]);
            } else {
                assert(live_views(cameras).last() == view);
            }
        }
    }
}

/// Views have both phases or neither, whatever phases there were before.
pub proof fn views_have_both_phases(
    depth: Map<RetainedView, Seq<Entry>>,
    color: Map<RetainedView, Seq<Entry>>,
    live: Seq<RetainedView>,
)
    ensures
        extracted(depth, live).dom() == extracted(color, live).dom(),
        forall|view: RetainedView| #[trigger]
            extracted(depth, live).contains_key(view) <==> live.contains(view),
{
    assert(extracted(depth, live).dom() =~= extracted(color, live).dom());
}

/// Extracting the same cameras again changes nothing.
pub proof fn extraction_is_idempotent(
    phases: Map<RetainedView, Seq<Entry>>,
    live: Seq<RetainedView>,
)
    ensures
        extracted(extracted(phases, live), live) == extracted(phases, live),
{
    assert(extracted(extracted(phases, live), live) =~= extracted(phases, live));
}

/// A camera that does not peel has no phases, no meshes queued and no passes.
pub proof fn nothing_is_done_without_peeling(
    settings: ScreenSpaceTransmission,
    camera: CameraInput,
    view: ViewInput,
    pass: PassInput,
    layers: nat,
)
    requires
        !settings.peels(),
        camera.settings == settings,
        view.settings == settings,
        pass.settings == settings,
    ensures
        !camera.live(),
        !view.complete(),
        peeling_steps(pass, layers).len() == 0,
{
}

/// A camera that renders and peels, and whose view has been extracted and given as many
/// textures as its settings say, has each of its layers rendered, and drawn onto its picture
/// where there is one to draw onto. There are no other steps but the one that clears.
pub proof fn each_layer_of_a_camera_is_drawn(
    camera: CameraInput,
    pass: PassInput,
    depth: Map<RetainedView, Seq<Entry>>,
    color: Map<RetainedView, Seq<Entry>>,
    cameras: Seq<CameraInput>,
    i: int,
)
    requires
        0 <= i < cameras.len(),
        cameras[i] == camera,
        camera.live(),
        pass.settings == camera.settings,
        pass.has_depth_phase == extracted(depth, live_views(cameras)).contains_key(
            camera_view(camera.main_entity),
        ),
        pass.has_color_phase == extracted(color, live_views(cameras)).contains_key(
            camera_view(camera.main_entity),
        ),
    ensures
        forall|layer: usize|
            layer < camera.settings.steps ==> #[trigger] peeling_steps(
                pass,
                camera.settings.steps as nat,
            ).contains(PassStep::Depth { layer }),
        forall|layer: usize|
            layer < camera.settings.steps && pass.composites() ==> #[trigger] peeling_steps(
                pass,
                camera.settings.steps as nat,
            ).contains(PassStep::Color { layer, extent: extent_of(pass.target_size->0) }),
        pass.composites() ==> peeling_steps(pass, camera.settings.steps as nat).len() == 1 + 2
            * camera.settings.steps,
        !pass.composites() ==> peeling_steps(pass, camera.settings.steps as nat).len() == 1
            + camera.settings.steps,
{
    live_views_are_of_live_cameras(cameras, camera_view(camera.main_entity));
    let layers = camera.settings.steps as nat;
    assert forall|layer: usize| layer < layers implies #[trigger] peeling_steps(
        pass,
        layers,
    ).contains(PassStep::Depth { layer }) by {
        every_layer_is_drawn(pass, layers, layer);
    }
    assert forall|layer: usize| layer < layers && pass.composites() implies #[trigger] peeling_steps(
        pass,
        layers,
    ).contains(PassStep::Color { layer, extent: extent_of(pass.target_size->0) }) by {
        every_layer_is_drawn(pass, layers, layer);
    }
}

} // verus!

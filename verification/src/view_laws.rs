//! Laws of the views that have phases.
use vstd::prelude::*;
use crate::phase::{entries, PhaseItems};
use crate::views::{
    extract_depth_peel_camera_phases, list_live_views, live_views, CameraInput, RetainedView,
    ViewPhases,
};

verus! {

/// Cameras are taken one after the other.
proof fn live_views_append(a: Seq<CameraInput>, b: Seq<CameraInput>)
    ensures
        live_views(a + b) == live_views(a) + live_views(b),
    decreases b.len(),
{
    if b.len() == 0 {
        assert(a + b =~= a);
        assert(live_views(a) + live_views(b) =~= live_views(a));
    } else {
        live_views_append(a, b.drop_last());
        assert((a + b).drop_last() =~= a + b.drop_last());
        assert((a + b).last() == b.last());
        assert(live_views(a + b) =~= live_views(a) + live_views(b));
    }
}

/// A camera has one live view, its own, exactly if it renders, has depth peeling on and has
/// at least one step.
pub proof fn one_camera_has_one_view(cameras: Vec<CameraInput>, live: Vec<RetainedView>)
    requires
        call_ensures(list_live_views, (&cameras,), live),
        cameras@.len() == 1,
    ensures
        live@.len() == if cameras@[0].is_active && cameras@[0].settings.depth_peeling
            && cameras@[0].settings.steps > 0 {
            1nat
        } else {
            0nat
        },
        live@.len() == 1 ==> live@[0].main_entity == cameras@[0].main_entity
            && live@[0].auxiliary_entity is None && live@[0].subview_index == 0,
        call_requires(list_live_views, (&cameras,)),
{
    assert(cameras@.drop_last() =~= Seq::empty());
    assert(live_views(cameras@.drop_last()) =~= Seq::empty());
}

/// The live views of cameras and more cameras are those of the first, then those of the
/// others.
pub proof fn cameras_are_listed_in_turn(
    first: Vec<CameraInput>,
    second: Vec<CameraInput>,
    both: Vec<CameraInput>,
    live_first: Vec<RetainedView>,
    live_second: Vec<RetainedView>,
    live_both: Vec<RetainedView>,
)
    requires
        call_ensures(list_live_views, (&first,), live_first),
        call_ensures(list_live_views, (&second,), live_second),
        call_ensures(list_live_views, (&both,), live_both),
        both@ == first@ + second@,
    ensures
        live_both@ == live_first@ + live_second@,
{
    live_views_append(first@, second@);
}

/// After extraction exactly the live views have phases, of both kinds, with the draws that
/// they had.
pub proof fn live_views_keep_their_draws(
    depth: &mut ViewPhases,
    color: &mut ViewPhases,
    cameras: Vec<CameraInput>,
    live: Vec<RetainedView>,
    listed: Vec<RetainedView>,
    view: RetainedView,
)
    requires
        old(depth).wf(),
        old(color).wf(),
        call_ensures(extract_depth_peel_camera_phases, (depth, color, &cameras), live),
        call_ensures(list_live_views, (&cameras,), listed),
    ensures
        live@ == listed@,
        final(depth).wf() && final(color).wf(),
        final(depth)@.contains_key(view) <==> live@.contains(view),
        final(color)@.contains_key(view) <==> live@.contains(view),
        live@.contains(view) && old(depth)@.contains_key(view) ==> final(depth)@[view] == old(depth)@[view],
        live@.contains(view) && !old(depth)@.contains_key(view) ==> final(depth)@[view].len() == 0,
        live@.contains(view) && old(color)@.contains_key(view) ==> final(color)@[view] == old(color)@[view],
        live@.contains(view) && !old(color)@.contains_key(view) ==> final(color)@[view].len() == 0,
        call_requires(extract_depth_peel_camera_phases, (depth, color, &cameras)),
{
}

/// What a camera that renders and peels has to do with it: its view is among the live ones
/// exactly if there is such a camera.
pub proof fn cameras_that_peel_have_live_views(
    cameras: Vec<CameraInput>,
    live: Vec<RetainedView>,
    view: RetainedView,
)
    requires
        call_ensures(list_live_views, (&cameras,), live),
    ensures
        live@.contains(view) <==> view.auxiliary_entity is None && view.subview_index == 0
            && exists|i: int|
            0 <= i < cameras@.len() && (#[trigger] cameras@[i]).is_active
                && cameras@[i].settings.depth_peeling && cameras@[i].settings.steps > 0
                && cameras@[i].main_entity == view.main_entity,
{
    members_of_live_views(cameras@, view);
}

/// As [`cameras_that_peel_have_live_views`], by the cameras alone.
proof fn members_of_live_views(cameras: Seq<CameraInput>, view: RetainedView)
    ensures
        live_views(cameras).contains(view) <==> view.auxiliary_entity is None
            && view.subview_index == 0 && exists|i: int|
            0 <= i < cameras.len() && (#[trigger] cameras[i]).is_active
                && cameras[i].settings.depth_peeling && cameras[i].settings.steps > 0
                && cameras[i].main_entity == view.main_entity,
    decreases cameras.len(),
{
    if cameras.len() > 0 {
        let rest = cameras.drop_last();
        let last = cameras.len() - 1;
        members_of_live_views(rest, view);
        assert(forall|i: int| 0 <= i < last ==> #[trigger] rest[i] == cameras[i]);
        assert(cameras[last] == cameras.last());
        if live_views(rest).contains(view) {
            let k = live_views(rest).index_of(view);
            assert(live_views(cameras)[k] == view);
        }
        if live_views(cameras).contains(view) && !live_views(rest).contains(view) {
            let k = live_views(cameras).index_of(view);
            assert(live_views(cameras)[k] == view);
            if k < live_views(rest).len() {
                assert(live_views(rest)[k] == view);
            }
        }
        if cameras[last].is_active && cameras[last].settings.depth_peeling
            && cameras[last].settings.steps > 0 && cameras[last].main_entity == view.main_entity
            && view.auxiliary_entity is None && view.subview_index == 0 {
            assert(live_views(cameras).last() == view);
        }
        if exists|i: int|
            0 <= i < cameras.len() && (#[trigger] cameras[i]).is_active
                && cameras[i].settings.depth_peeling && cameras[i].settings.steps > 0
                && cameras[i].main_entity == view.main_entity {
            let i = choose|i: int|
                0 <= i < cameras.len() && (#[trigger] cameras[i]).is_active
                    && cameras[i].settings.depth_peeling && cameras[i].settings.steps > 0
                    && cameras[i].main_entity == view.main_entity;
            if i < last {
                assert(rest[i] == cameras[i]);
            }
        }
    }
}

/// A phase that is put in is the one that is taken out, and neither touches another view.
pub proof fn phases_come_out_as_they_went_in(
    phases: &mut ViewPhases,
    view: RetainedView,
    phase: PhaseItems,
    again: &mut ViewPhases,
    taken: Option<PhaseItems>,
    other: RetainedView,
)
    requires
        old(phases).wf(),
        !old(phases)@.contains_key(view),
        call_ensures(ViewPhases::put, (phases, view, phase), ()),
        *old(again) == *final(phases),
        call_ensures(ViewPhases::take, (again, &view), taken),
    ensures
        final(phases).wf() && final(again).wf(),
        final(phases)@.contains_key(view),
        taken is Some,
        entries(taken->0) == entries(phase),
        !final(again)@.contains_key(view),
        other != view ==> (final(phases)@.contains_key(other) <==> old(phases)@.contains_key(
            other,
        )) && (final(again)@.contains_key(other) <==> old(phases)@.contains_key(other)),
        other != view && old(phases)@.contains_key(other) ==> final(phases)@[other] == old(phases)@[other] && final(again)@[other] == old(phases)@[other],
{
}

/// Taking finds a phase exactly if there is one, and so does looking. A new collection has
/// none.
pub proof fn phases_are_found_where_they_are(
    fresh: ViewPhases,
    phases: &mut ViewPhases,
    view: RetainedView,
    taken: Option<PhaseItems>,
    found: bool,
)
    requires
        call_ensures(ViewPhases::new, (), fresh),
        old(phases).wf(),
        call_ensures(ViewPhases::take, (phases, &view), taken),
        call_ensures(ViewPhases::contains, (&*old(phases), &view), found),
    ensures
        fresh.wf(),
        !fresh@.contains_key(view),
        found <==> old(phases)@.contains_key(view),
        taken is Some <==> old(phases)@.contains_key(view),
        taken is Some ==> entries(taken->0) == old(phases)@[view],
{
}

/// Preparing a view gives it an empty phase exactly if it has none, and changes nothing else.
pub proof fn preparing_changes_nothing_that_is_there(
    phases: &mut ViewPhases,
    view: RetainedView,
    other: RetainedView,
)
    requires
        old(phases).wf(),
        call_ensures(ViewPhases::prepare_for_new_frame, (phases, view), ()),
    ensures
        final(phases).wf(),
        final(phases)@.contains_key(view),
        !old(phases)@.contains_key(view) ==> final(phases)@[view].len() == 0,
        old(phases)@.contains_key(other) ==> final(phases)@.contains_key(other) && final(phases)@[other] == old(phases)@[other],
        other != view && !old(phases)@.contains_key(other) ==> !final(phases)@.contains_key(other),
{
}

/// Retaining keeps the phases of the listed views as they are, and no others.
pub proof fn retaining_keeps_listed_views(
    phases: &mut ViewPhases,
    live: Vec<RetainedView>,
    view: RetainedView,
)
    requires
        old(phases).wf(),
        call_ensures(ViewPhases::retain, (phases, &live), ()),
    ensures
        final(phases).wf(),
        final(phases)@.contains_key(view) <==> old(phases)@.contains_key(view) && live@.contains(
            view,
        ),
        final(phases)@.contains_key(view) ==> final(phases)@[view] == old(phases)@[view],
{
}

} // verus!

//! Which views have depth peeling phases.
use vstd::prelude::*;
use crate::phase::{entries, new_phase, Entry, PhaseItems};
use crate::settings::ScreenSpaceTransmission;

verus! {

/// A view that is the same from frame to frame: an entity of the main world, another that
/// goes with it, and an index among its views.
#[derive(Clone, Copy, Debug, PartialEq, Eq, Structural)]
pub struct RetainedView {
    pub main_entity: u64,
    pub auxiliary_entity: Option<u64>,
    pub subview_index: u32,
}

/// The one view of a camera.
pub open spec fn camera_view(main_entity: u64) -> RetainedView {
    RetainedView { main_entity, auxiliary_entity: None, subview_index: 0 }
}

/// What is read of a camera of the main world.
#[derive(Clone, Copy, Debug, PartialEq, Eq)]
pub struct CameraInput {
    pub main_entity: u64,
    pub is_active: bool,
    pub settings: ScreenSpaceTransmission,
}

impl CameraInput {
    /// The camera renders, and peels.
    pub open spec fn live(self) -> bool {
        self.is_active && self.settings.peels()
    }
}

/// The views of the cameras that render and peel, in the order of the cameras.
pub open spec fn live_views(cameras: Seq<CameraInput>) -> Seq<RetainedView>
    decreases cameras.len(),
{
    if cameras.len() == 0 {
        Seq::empty()
    } else if cameras.last().live() {
        live_views(cameras.drop_last()).push(camera_view(cameras.last().main_entity))
    } else {
        live_views(cameras.drop_last())
    }
}

/// The phases of one kind, by view.
pub struct ViewPhases {
    phases: Vec<(RetainedView, PhaseItems)>,
}

impl View for ViewPhases {
    type V = Map<RetainedView, Seq<Entry>>;

    closed spec fn view(&self) -> Map<RetainedView, Seq<Entry>> {
        Map::new(
            |view: RetainedView|
                exists|i: int| 0 <= i < self.phases@.len() && (#[trigger] self.phases@[i]).0 == view,
            |view: RetainedView| entries(self.phases@[self.index_of(view)].1),
        )
    }
}

impl ViewPhases {
    closed spec fn index_of(&self, view: RetainedView) -> int {
        choose|i: int| 0 <= i < self.phases@.len() && (#[trigger] self.phases@[i]).0 == view
    }

    /// Each view is there once.
    pub closed spec fn wf(&self) -> bool {
        forall|i: int, j: int|
            0 <= i < j < self.phases@.len() ==> (#[trigger] self.phases@[i]).0 != (
            #[trigger] self.phases@[j]).0
    }

    /// What the map holds at each view of the list.
    proof fn view_at(&self, i: int)
        requires
            self.wf(),
            0 <= i < self.phases@.len(),
        ensures
            self@.contains_key(self.phases@[i].0),
            self@[self.phases@[i].0] == entries(self.phases@[i].1),
            self.index_of(self.phases@[i].0) == i,
    {
        let j = self.index_of(self.phases@[i].0);
        assert(0 <= j < self.phases@.len() && self.phases@[j].0 == self.phases@[i].0);
    }

    /// No phases.
    pub fn new() -> (phases: ViewPhases)
        ensures
            phases.wf(),
            phases@ == Map::<RetainedView, Seq<Entry>>::empty(),
    {
        let phases = ViewPhases { phases: Vec::new() };
        assert(phases@ =~= Map::<RetainedView, Seq<Entry>>::empty());
        phases
    }

    /// Whether there is a phase for a view.
    pub fn contains(&self, view: &RetainedView) -> (found: bool)
        requires
            self.wf(),
        ensures
            found == self@.contains_key(*view),
    {
        let mut i: usize = 0;
        while i < self.phases.len()
            invariant
                self.wf(),
                i <= self.phases@.len(),
                forall|j: int| 0 <= j < i ==> (#[trigger] self.phases@[j]).0 != *view,
            decreases self.phases@.len() - i,
        {
            if self.phases[i].0 == *view {
                proof {
                    self.view_at(i as int);
                }
                return true;
            }
            i = i + 1;
        }
        false
    }

    /// Takes the phase of a view out.
    pub fn take(&mut self, view: &RetainedView) -> (phase: Option<PhaseItems>)
        requires
            old(self).wf(),
        ensures
            final(self).wf(),
            final(self)@ == old(self)@.remove(*view),
            phase is Some <==> old(self)@.contains_key(*view),
            phase is Some ==> entries(phase->0) == old(self)@[*view],
    {
        let mut i: usize = 0;
        while i < self.phases.len()
            invariant
                *self == *old(self),
                self.wf(),
                i <= self.phases@.len(),
                forall|j: int| 0 <= j < i ==> (#[trigger] self.phases@[j]).0 != *view,
            decreases self.phases@.len() - i,
        {
            if self.phases[i].0 == *view {
                proof {
                    self.view_at(i as int);
                }
                return Some(self.remove_at(i));
            }
            i = i + 1;
        }
        assert(self@ =~= old(self)@.remove(*view));
        None
    }

    /// Takes out the phase at an index of the list.
    fn remove_at(&mut self, index: usize) -> (phase: PhaseItems)
        requires
            old(self).wf(),
            index < old(self).phases@.len(),
        ensures
            final(self).wf(),
            final(self)@ == old(self)@.remove(old(self).phases@[index as int].0),
            phase == old(self).phases@[index as int].1,
            final(self).phases@.len() == old(self).phases@.len() - 1,
            forall|i: int|
                0 <= i < index ==> #[trigger] final(self).phases@[i] == old(self).phases@[i],
    {
        let ghost before = *self;
        let removed = self.phases.swap_remove(index);
        proof {
            let last = before.phases@.len() - 1;
            let gone = before.phases@[index as int].0;
            assert forall|view: RetainedView| #[trigger]
                self@.contains_key(view) == before@.remove(gone).contains_key(view) by {
                if self@.contains_key(view) {
                    let i = self.index_of(view);
                    assert(0 <= i < self.phases@.len() && self.phases@[i].0 == view);
                    let j = if i == index { last } else { i };
                    assert(before.phases@[j] == self.phases@[i]);
                    before.view_at(j);
                }
                if before@.remove(gone).contains_key(view) {
                    let j = before.index_of(view);
                    assert(0 <= j < before.phases@.len() && before.phases@[j].0 == view);
                    let i = if j == last { index as int } else { j };
                    assert(self.phases@[i] == before.phases@[j]);
                    self.view_at(i);
                }
            }
            assert forall|view: RetainedView| #[trigger] self@.contains_key(view) implies self@[view]
                == before@[view] by {
                let i = self.index_of(view);
                assert(0 <= i < self.phases@.len() && self.phases@[i].0 == view);
                let j = if i == index { last } else { i };
                assert(before.phases@[j] == self.phases@[i]);
                before.view_at(j);
                self.view_at(i);
            }
            assert(self@ =~= before@.remove(gone));
        }
        removed.1
    }

    /// Puts a phase in for a view that has none.
    pub fn put(&mut self, view: RetainedView, phase: PhaseItems)
        requires
            old(self).wf(),
            !old(self)@.contains_key(view),
        ensures
            final(self).wf(),
            final(self)@ == old(self)@.insert(view, entries(phase)),
    {
        let ghost before = *self;
        self.phases.push((view, phase));
        proof {
            let last = before.phases@.len() as int;
            assert forall|i: int| 0 <= i < last implies (#[trigger] before.phases@[i]).0 != view by {
                before.view_at(i);
            }
            assert(forall|i: int| 0 <= i < last ==> self.phases@[i] == before.phases@[i]);
            self.view_at(last);
            assert forall|v: RetainedView| #[trigger] self@.contains_key(v) == before@.insert(
                view,
                entries(phase),
            ).contains_key(v) by {
                if self@.contains_key(v) {
                    let i = self.index_of(v);
                    assert(0 <= i < self.phases@.len() && self.phases@[i].0 == v);
                    if i < last {
                        before.view_at(i);
                    }
                }
                if before@.contains_key(v) {
                    let i = before.index_of(v);
                    assert(0 <= i < before.phases@.len() && before.phases@[i].0 == v);
                    self.view_at(i);
                }
            }
            assert forall|v: RetainedView| #[trigger] self@.contains_key(v) implies self@[v]
                == before@.insert(view, entries(phase))[v] by {
                let i = self.index_of(v);
                assert(0 <= i < self.phases@.len() && self.phases@[i].0 == v);
                self.view_at(i);
                if i < last {
                    before.view_at(i);
                }
            }
            assert(self@ =~= before@.insert(view, entries(phase)));
        }
    }

    /// Sees to it that a view has a phase. The draws of a phase that is there stay in it.
    pub fn prepare_for_new_frame(&mut self, view: RetainedView)
        requires
            old(self).wf(),
        ensures
            final(self).wf(),
            final(self)@ == if old(self)@.contains_key(view) {
                old(self)@
            } else {
                old(self)@.insert(view, Seq::empty())
            },
    {
        if !self.contains(&view) {
            self.put(view, new_phase());
        }
    }

    /// Keeps the phases of the live views, and no others.
    pub fn retain(&mut self, live: &Vec<RetainedView>)
        requires
            old(self).wf(),
        ensures
            final(self).wf(),
            final(self)@ == retained(old(self)@, live@),
    {
        let ghost before = self@;
        let mut i: usize = 0;
        while i < self.phases.len()
            invariant
                self.wf(),
                i <= self.phases@.len(),
                forall|j: int| 0 <= j < i ==> live@.contains((#[trigger] self.phases@[j]).0),
                retained(self@, live@) == retained(before, live@),
            decreases self.phases@.len() - i,
        {
            if contains_view(live, &self.phases[i].0) {
                i = i + 1;
            } else {
                let ghost held = self@;
                let ghost gone = self.phases@[i as int].0;
                self.remove_at(i);
                assert(retained(held.remove(gone), live@) =~= retained(held, live@));
            }
        }
        proof {
            assert forall|view: RetainedView| #[trigger] self@.contains_key(view) implies live@.contains(
                view,
            ) by {
                let j = self.index_of(view);
                assert(0 <= j < self.phases@.len() && self.phases@[j].0 == view);
            }
            assert(self@ =~= retained(self@, live@));
        }
    }
}

/// The phases of the live views, and no others.
pub open spec fn retained(
    phases: Map<RetainedView, Seq<Entry>>,
    live: Seq<RetainedView>,
) -> Map<RetainedView, Seq<Entry>> {
    Map::new(
        |view: RetainedView| phases.contains_key(view) && live.contains(view),
        |view: RetainedView| phases[view],
    )
}

/// A phase for each live view, with the draws that it had, and for no other.
pub open spec fn extracted(
    phases: Map<RetainedView, Seq<Entry>>,
    live: Seq<RetainedView>,
) -> Map<RetainedView, Seq<Entry>> {
    Map::new(
        |view: RetainedView| live.contains(view),
        |view: RetainedView|
            if phases.contains_key(view) {
                phases[view]
            } else {
                Seq::empty()
            },
    )
}

/// `phases` with a phase for each live view.
spec fn prepared(
    phases: Map<RetainedView, Seq<Entry>>,
    live: Seq<RetainedView>,
) -> Map<RetainedView, Seq<Entry>> {
    Map::new(
        |view: RetainedView| phases.contains_key(view) || live.contains(view),
        |view: RetainedView|
            if phases.contains_key(view) {
                phases[view]
            } else {
                Seq::empty()
            },
    )
}

/// Whether a view is in a list.
fn contains_view(views: &Vec<RetainedView>, view: &RetainedView) -> (found: bool)
    ensures
        found == views@.contains(*view),
{
    let mut i: usize = 0;
    while i < views.len()
        invariant
            i <= views@.len(),
            forall|j: int| 0 <= j < i ==> views@[j] != *view,
        decreases views@.len() - i,
    {
        if views[i] == *view {
            assert(views@[i as int] == *view);
            return true;
        }
        i = i + 1;
    }
    false
}

/// The views of the cameras that render and peel.
pub fn list_live_views(cameras: &Vec<CameraInput>) -> (live: Vec<RetainedView>)
    ensures
        live@ == live_views(cameras@),
{
    let mut live: Vec<RetainedView> = Vec::new();
    let mut i: usize = 0;
    while i < cameras.len()
        invariant
            i <= cameras@.len(),
            live@ == live_views(cameras@.take(i as int)),
        decreases cameras@.len() - i,
    {
        let camera = cameras[i];
        assert(cameras@.take(i + 1).drop_last() =~= cameras@.take(i as int));
        if camera.is_active && camera.settings.is_peeling() {
            live.push(
                RetainedView {
                    main_entity: camera.main_entity,
                    auxiliary_entity: None,
                    subview_index: 0,
                },
            );
        }
        i = i + 1;
    }
    assert(cameras@.take(cameras@.len() as int) =~= cameras@);
    live
}

/// Gives each camera that renders and peels its two phases, takes the phases of all other
/// views away, and returns the views that have them.
pub fn extract_depth_peel_camera_phases(
    depth_phases: &mut ViewPhases,
    color_phases: &mut ViewPhases,
    cameras: &Vec<CameraInput>,
) -> (live: Vec<RetainedView>)
    requires
        old(depth_phases).wf(),
        old(color_phases).wf(),
    ensures
        final(depth_phases).wf(),
        final(color_phases).wf(),
        live@ == live_views(cameras@),
        final(depth_phases)@ == extracted(old(depth_phases)@, live@),
        final(color_phases)@ == extracted(old(color_phases)@, live@),
{
    let ghost depth_before = depth_phases@;
    let ghost color_before = color_phases@;
    let live = list_live_views(cameras);
    let mut i: usize = 0;
    assert(depth_phases@ =~= prepared(depth_before, live@.take(0)));
    assert(color_phases@ =~= prepared(color_before, live@.take(0)));
    while i < live.len()
        invariant
            i <= live@.len(),
            depth_phases.wf(),
            color_phases.wf(),
            depth_phases@ == prepared(depth_before, live@.take(i as int)),
            color_phases@ == prepared(color_before, live@.take(i as int)),
        decreases live@.len() - i,
    {
        let view = live[i];
        depth_phases.prepare_for_new_frame(view);
        color_phases.prepare_for_new_frame(view);
        proof {
            prepared_after(depth_before, live@, i as int);
            prepared_after(color_before, live@, i as int);
        }
        i = i + 1;
    }
    assert(live@.take(live@.len() as int) =~= live@);
    depth_phases.retain(&live);
    color_phases.retain(&live);
    assert(depth_phases@ =~= extracted(depth_before, live@));
    assert(color_phases@ =~= extracted(color_before, live@));
    live
}

/// One more live view is given a phase.
proof fn prepared_after(
    phases: Map<RetainedView, Seq<Entry>>,
    live: Seq<RetainedView>,
    i: int,
)
    requires
        0 <= i < live.len(),
    ensures
        prepared(phases, live.take(i + 1)) == if prepared(phases, live.take(i)).contains_key(live[i]) {
            prepared(phases, live.take(i))
        } else {
            prepared(phases, live.take(i)).insert(live[i], Seq::empty())
        },
{
    let earlier = live.take(i);
    let later = live.take(i + 1);
    assert(later =~= earlier.push(live[i]));
    assert(later.last() == live[i]);
    assert forall|view: RetainedView| #[trigger] later.contains(view) == (earlier.contains(view)
        || view == live[i]) by {
        if earlier.contains(view) {
            let k = earlier.index_of(view);
            assert(later[k] == view);
        }
        if later.contains(view) && view != live[i] {
            let k = later.index_of(view);
            assert(earlier[k] == view);
        }
    }
    assert(prepared(phases, later) =~= if prepared(phases, earlier).contains_key(live[i]) {
        prepared(phases, earlier)
    } else {
        prepared(phases, earlier).insert(live[i], Seq::empty())
    });
}

} // verus!

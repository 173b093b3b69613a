//! Laws of queueing.
use vstd::prelude::*;
use crate::phase::{
    distinct_keys, entries, keys_of, stably_sorted, Entry, ExtraIndex, ItemKey, PhaseItem,
    PhaseItems, SortingInfo,
};
use crate::phase_laws::{sort_keeps_equal_distances, with_item_keys};
use crate::queue::{
    color_item, color_phase, depth_item, depth_phase, mesh_key, queue_view, MeshQueue, Outcome,
    QueueAction, QueueConfig, QueueState, Stage, ViewInput, ViewQueue, VisibleMesh,
    PLACEHOLDER_ENTITY,
};

verus! {

/// The two phases of a view hold the same entities in the same sequence, each once.
pub proof fn phases_have_same_entities(
    config: QueueConfig,
    meshes: Seq<VisibleMesh>,
    outcomes: Seq<Outcome>,
)
    ensures
        keys_of(depth_phase(config, meshes, outcomes)) == keys_of(
            color_phase(config, meshes, outcomes),
        ),
        distinct_keys(depth_phase(config, meshes, outcomes)),
        distinct_keys(color_phase(config, meshes, outcomes)),
    decreases outcomes.len(),
{
    if outcomes.len() == 0 {
        assert(keys_of(depth_phase(config, meshes, outcomes)) =~= keys_of(
            color_phase(config, meshes, outcomes),
        ));
    } else {
        let rest = outcomes.drop_last();
        phases_have_same_entities(config, meshes, rest);
        match outcomes.last() {
            Outcome::Queued { depth_pipeline, color_pipeline, sorting_info } => {
                let mesh = meshes[outcomes.len() - 1];
                with_item_keys(
                    depth_phase(config, meshes, rest),
                    depth_item(config, mesh, depth_pipeline),
                );
                with_item_keys(
                    color_phase(config, meshes, rest),
                    color_item(config, mesh, color_pipeline, sorting_info),
                );
            },
            _ => {},
        }
    }
}

/// A mesh entity is in the depth phase exactly if a visible mesh of that entity has been
/// queued. By [`phases_have_same_entities`] the same holds of the colour phase.
pub proof fn phases_hold_queued_entities(
    config: QueueConfig,
    meshes: Seq<VisibleMesh>,
    outcomes: Seq<Outcome>,
    key: ItemKey,
)
    requires
        outcomes.len() <= meshes.len(),
    ensures
        keys_of(depth_phase(config, meshes, outcomes)).contains(key) <==> exists|i: int|
            0 <= i < outcomes.len() && (#[trigger] outcomes[i]) is Queued && key == (
                PLACEHOLDER_ENTITY,
                meshes[i].entity,
            ),
    decreases outcomes.len(),
{
    let phase = depth_phase(config, meshes, outcomes);
    if outcomes.len() == 0 {
        assert(keys_of(phase).len() == 0);
    } else {
        let rest = outcomes.drop_last();
        let last = outcomes.len() - 1;
        let before = depth_phase(config, meshes, rest);
        phases_hold_queued_entities(config, meshes, rest, key);
        phases_have_same_entities(config, meshes, rest);
        assert(outcomes[last] == outcomes.last());
        match outcomes.last() {
            Outcome::Queued { depth_pipeline, .. } => {
                let item = depth_item(config, meshes[last], depth_pipeline);
                with_item_keys(before, item);
                if keys_of(phase).contains(key) && key != item.entity {
                    let k = choose|k: int|
                        0 <= k < keys_of(phase).len() && keys_of(phase)[k] == key;
                    assert(keys_of(before)[k] == key);
                }
                if keys_of(before).contains(key) {
                    let k = choose|k: int|
                        0 <= k < keys_of(before).len() && keys_of(before)[k] == key;
                    assert(keys_of(phase)[k] == key);
                }
                if key == item.entity && !keys_of(before).contains(key) {
                    assert(keys_of(phase).last() == key);
                }
            },
            _ => {},
        }
        if keys_of(before).contains(key) {
            let i = choose|i: int|
                0 <= i < rest.len() && (#[trigger] rest[i]) is Queued && key == (
                    PLACEHOLDER_ENTITY,
                    meshes[i].entity,
                );
            assert(outcomes[i] == rest[i]);
        }
        if exists|i: int|
            0 <= i < outcomes.len() && (#[trigger] outcomes[i]) is Queued && key == (
                PLACEHOLDER_ENTITY,
                meshes[i].entity,
            ) {
            let i = choose|i: int|
                0 <= i < outcomes.len() && (#[trigger] outcomes[i]) is Queued && key == (
                    PLACEHOLDER_ENTITY,
                    meshes[i].entity,
                );
            if i < last {
                assert(rest[i] == outcomes[i]);
            }
        }
    }
}

/// Which of the visible meshes have been queued, in their order.
pub open spec fn queued(outcomes: Seq<Outcome>) -> Seq<int>
    decreases outcomes.len(),
{
    if outcomes.len() == 0 {
        Seq::empty()
    } else if outcomes.last() is Queued {
        queued(outcomes.drop_last()).push(outcomes.len() - 1)
    } else {
        queued(outcomes.drop_last())
    }
}

/// No entity is seen twice.
pub open spec fn distinct_entities(meshes: Seq<VisibleMesh>) -> bool {
    forall|i: int, j: int|
        0 <= i < j < meshes.len() ==> (#[trigger] meshes[i]).entity != (
        #[trigger] meshes[j]).entity
}

/// The queued meshes are listed in the order of the visible list, each once, and no others
/// are.
pub proof fn queued_is_in_visible_order(outcomes: Seq<Outcome>)
    ensures
        forall|k: int|
            0 <= k < queued(outcomes).len() ==> 0 <= #[trigger] queued(outcomes)[k]
                < outcomes.len() && outcomes[queued(outcomes)[k]] is Queued,
        forall|j: int, k: int|
            0 <= j < k < queued(outcomes).len() ==> queued(outcomes)[j] < queued(outcomes)[k],
        forall|i: int|
            0 <= i < outcomes.len() && (#[trigger] outcomes[i]) is Queued ==> queued(
                outcomes,
            ).contains(i),
    decreases outcomes.len(),
{
    if outcomes.len() > 0 {
        let rest = outcomes.drop_last();
        queued_is_in_visible_order(rest);
        assert forall|k: int| 0 <= k < queued(outcomes).len() implies 0 <= #[trigger] queued(
            outcomes,
        )[k] < outcomes.len() && outcomes[queued(outcomes)[k]] is Queued by {
            if k < queued(rest).len() {
                assert(queued(outcomes)[k] == queued(rest)[k]);
                assert(rest[queued(rest)[k]] == outcomes[queued(rest)[k]]);
            }
        }
        assert forall|j: int, k: int| 0 <= j < k < queued(outcomes).len() implies queued(
            outcomes,
        )[j] < queued(outcomes)[k] by {
            assert(queued(outcomes)[j] == queued(rest)[j]);
            if k < queued(rest).len() {
                assert(queued(outcomes)[k] == queued(rest)[k]);
            }
        }
        assert forall|i: int| 0 <= i < outcomes.len() && (#[trigger] outcomes[i]) is Queued implies queued(
            outcomes,
        ).contains(i) by {
            if i < rest.len() {
                assert(rest[i] == outcomes[i]);
                let k = queued(rest).index_of(i);
                assert(queued(outcomes)[k] == i);
            } else {
                assert(queued(outcomes).last() == i);
            }
        }
    }
}

/// Where no entity is seen twice, both phases hold the queued meshes in the order of the
/// visible list, each by its own draw.
pub proof fn phases_are_in_visible_order(
    config: QueueConfig,
    meshes: Seq<VisibleMesh>,
    outcomes: Seq<Outcome>,
)
    requires
        distinct_entities(meshes),
        outcomes.len() <= meshes.len(),
    ensures
        depth_phase(config, meshes, outcomes) == queued(outcomes).map_values(
            |i: int|
                (
                    (PLACEHOLDER_ENTITY, meshes[i].entity),
                    depth_item(config, meshes[i], outcomes[i]->depth_pipeline),
                ),
        ),
        color_phase(config, meshes, outcomes) == queued(outcomes).map_values(
            |i: int|
                (
                    (PLACEHOLDER_ENTITY, meshes[i].entity),
                    color_item(
                        config,
                        meshes[i],
                        outcomes[i]->color_pipeline,
                        outcomes[i]->sorting_info,
                    ),
                ),
        ),
    decreases outcomes.len(),
{
    let depth = depth_phase(config, meshes, outcomes);
    let color = color_phase(config, meshes, outcomes);
    if outcomes.len() > 0 {
        let rest = outcomes.drop_last();
        let last = outcomes.len() - 1;
        phases_are_in_visible_order(config, meshes, rest);
        queued_is_in_visible_order(rest);
        if outcomes.last() is Queued {
            let key = (PLACEHOLDER_ENTITY, meshes[last].entity);
            phases_hold_queued_entities(config, meshes, rest, key);
            phases_have_same_entities(config, meshes, rest);
            assert(!keys_of(depth_phase(config, meshes, rest)).contains(key)) by {
                if keys_of(depth_phase(config, meshes, rest)).contains(key) {
                    let i = choose|i: int|
                        0 <= i < rest.len() && (#[trigger] rest[i]) is Queued && key == (
                            PLACEHOLDER_ENTITY,
                            meshes[i].entity,
                        );
                    assert(meshes[i].entity != meshes[last].entity);
                }
            }
        }
        assert forall|k: int| 0 <= k < queued(rest).len() implies rest[#[trigger] queued(rest)[k]]
            == outcomes[queued(rest)[k]] by {}
    }
    assert(depth =~= queued(outcomes).map_values(
        |i: int|
            (
                (PLACEHOLDER_ENTITY, meshes[i].entity),
                depth_item(config, meshes[i], outcomes[i]->depth_pipeline),
            ),
    ));
    assert(color =~= queued(outcomes).map_values(
        |i: int|
            (
                (PLACEHOLDER_ENTITY, meshes[i].entity),
                color_item(
                    config,
                    meshes[i],
                    outcomes[i]->color_pipeline,
                    outcomes[i]->sorting_info,
                ),
            ),
    ));
}

/// The draws of a mesh in the two phases agree on whether it has an index buffer.
pub proof fn phases_agree_on_indices(
    config: QueueConfig,
    meshes: Seq<VisibleMesh>,
    outcomes: Seq<Outcome>,
    k: int,
)
    requires
        0 <= k < depth_phase(config, meshes, outcomes).len(),
    ensures
        k < color_phase(config, meshes, outcomes).len(),
        depth_phase(config, meshes, outcomes)[k].1.entity == color_phase(
            config,
            meshes,
            outcomes,
        )[k].1.entity,
        depth_phase(config, meshes, outcomes)[k].1.indexed == color_phase(
            config,
            meshes,
            outcomes,
        )[k].1.indexed,
    decreases outcomes.len(),
{
    phases_have_same_entities(config, meshes, outcomes);
    let depth = depth_phase(config, meshes, outcomes);
    let color = color_phase(config, meshes, outcomes);
    assert(keys_of(depth).len() == depth.len());
    assert(keys_of(color).len() == color.len());
    if outcomes.len() > 0 {
        let rest = outcomes.drop_last();
        phases_have_same_entities(config, meshes, rest);
        let depth_before = depth_phase(config, meshes, rest);
        let color_before = color_phase(config, meshes, rest);
        assert(keys_of(depth_before).len() == depth_before.len());
        assert(keys_of(color_before).len() == color_before.len());
        if k < depth_before.len() {
            phases_agree_on_indices(config, meshes, rest, k);
        }
    }
}

/// Only meshes whose material reads the view transmission texture, and that were found
/// with all they need, are drawn by depth peeling.
pub proof fn only_transmissive_meshes_are_queued(state: QueueState, i: int)
    requires
        state.valid(),
        0 <= i < state.outcomes.len(),
        state.outcomes[i] is Queued,
    ensures
        state.meshes[i].transmissive(),
{
}

/// A mesh that is not queued is left out for a reason: depth peeling does not draw it, or
/// one of its pipelines could not be specialized.
pub proof fn meshes_are_left_out_for_a_reason(state: QueueState, i: int)
    requires
        state.valid(),
        0 <= i < state.outcomes.len(),
        !(state.outcomes[i] is Queued),
    ensures
        state.meshes[i].transmissive() <==> state.outcomes[i] is DepthFailed
            || state.outcomes[i] is ColorFailed,
{
}

/// All draws of the depth phase are at distance zero.
pub proof fn depth_draws_are_at_zero(
    config: QueueConfig,
    meshes: Seq<VisibleMesh>,
    outcomes: Seq<Outcome>,
)
    ensures
        forall|i: int|
            0 <= i < depth_phase(config, meshes, outcomes).len() ==> (#[trigger] depth_phase(
                config,
                meshes,
                outcomes,
            )[i]).1.distance == 0,
    decreases outcomes.len(),
{
    if outcomes.len() > 0 {
        depth_draws_are_at_zero(config, meshes, outcomes.drop_last());
    }
}

/// Sorting the depth phase leaves it as it was queued: the meshes of a layer are drawn in
/// the sequence in which they were seen.
pub proof fn depth_phase_stays_as_queued(
    config: QueueConfig,
    meshes: Seq<VisibleMesh>,
    outcomes: Seq<Outcome>,
    sorted_phase: Seq<Entry>,
)
    requires
        stably_sorted(depth_phase(config, meshes, outcomes), sorted_phase),
    ensures
        sorted_phase == depth_phase(config, meshes, outcomes),
{
    depth_draws_are_at_zero(config, meshes, outcomes);
    sort_keeps_equal_distances(depth_phase(config, meshes, outcomes), sorted_phase, 0);
}

/// The key of a mesh has every bit that the view, the mesh, its topology and its material
/// ask for, and the bit that says that the view transmission texture is read.
pub proof fn mesh_key_has_all_bits(config: QueueConfig, visible: VisibleMesh)
    ensures
        mesh_key(config, visible) & config.view_key == config.view_key,
        mesh_key(config, visible) & visible.mesh->0.key_bits == visible.mesh->0.key_bits,
        mesh_key(config, visible) & visible.mesh->0.topology_bits == visible.mesh->0.topology_bits,
        mesh_key(config, visible) & visible.material->0.mesh_pipeline_key_bits
            == visible.material->0.mesh_pipeline_key_bits,
        mesh_key(config, visible) & config.reads_view_transmission_texture
            == config.reads_view_transmission_texture,
{
    let a = config.view_key;
    let b = visible.mesh->0.key_bits;
    let c = visible.material->0.mesh_pipeline_key_bits;
    let d = visible.mesh->0.topology_bits;
    let e = config.reads_view_transmission_texture;
    assert((a | b | c | d | e) & a == a && (a | b | c | d | e) & b == b && (a | b | c | d | e) & c
        == c && (a | b | c | d | e) & d == d && (a | b | c | d | e) & e == e) by (bit_vector);
}

/// Skipping keeps what has been decided, and skips nothing but meshes that depth peeling
/// does not draw.
pub proof fn skipping_keeps_outcomes(state: QueueState)
    requires
        state.outcomes.len() <= state.meshes.len(),
    ensures
        state.skipped().config == state.config,
        state.skipped().meshes == state.meshes,
        state.skipped().stage == state.stage,
        state.outcomes.len() <= state.skipped().outcomes.len() <= state.meshes.len(),
        forall|i: int|
            0 <= i < state.outcomes.len() ==> #[trigger] state.skipped().outcomes[i]
                == state.outcomes[i],
        forall|i: int|
            state.outcomes.len() <= i < state.skipped().outcomes.len() ==> (
            #[trigger] state.skipped().outcomes[i]) is Skipped && !state.meshes[i].transmissive(),
        !state.skipped().done() ==> state.meshes[state.skipped().outcomes.len() as int].transmissive(),
    decreases state.meshes.len() - state.outcomes.len(),
{
    if state.outcomes.len() < state.meshes.len()
        && !state.meshes[state.outcomes.len() as int].transmissive() {
        let next = QueueState { outcomes: state.outcomes.push(Outcome::Skipped), ..state };
        skipping_keeps_outcomes(next);
        assert forall|i: int| 0 <= i < state.outcomes.len() implies
            #[trigger] state.skipped().outcomes[i] == state.outcomes[i] by {
            assert(next.skipped().outcomes[i] == next.outcomes[i]);
        }
        assert(next.skipped().outcomes[state.outcomes.len() as int] == next.outcomes[state.outcomes.len() as int]);
    }
}

/// How far a queue has come.
pub open spec fn progress(state: QueueState) -> int {
    3 * state.outcomes.len() + match state.stage {
        Stage::Depth => 0int,
        Stage::Color { .. } => 1int,
        Stage::Location { .. } => 2int,
    }
}

/// Queueing comes to an end: whatever the renderer answers brings the queue further, and
/// it is done after three answers for each visible mesh at the latest.
pub proof fn queueing_ends(state: QueueState, outcome: Outcome, id: u64)
    requires
        state.valid(),
        !state.done(),
    ensures
        0 <= progress(state) < 3 * state.meshes.len(),
        progress(state) < progress(state.closed(outcome)),
        state.stage is Depth ==> progress(state) < progress(
            QueueState { stage: Stage::Color { depth_pipeline: id }, ..state },
        ),
        state.stage is Color ==> progress(state) < progress(
            QueueState {
                stage: Stage::Location {
                    depth_pipeline: state.stage->Color_depth_pipeline,
                    color_pipeline: id,
                },
                ..state
            },
        ),
{
    skipping_keeps_outcomes(
        QueueState { outcomes: state.outcomes.push(outcome), stage: Stage::Depth, ..state },
    );
}

/// A visible mesh with all that it takes to be drawn: a material that was found and reads
/// the view transmission texture, and a mesh that was found.
pub open spec fn has_all_it_takes(visible: VisibleMesh) -> bool {
    match (visible.material, visible.mesh) {
        (Some(material), Some(_)) => visible.has_material_instance
            && material.reads_view_transmission_texture && visible.has_mesh_instance,
        _ => false,
    }
}

/// A visible mesh is drawn exactly if it has all that it takes, whether it has an index
/// buffer or not and whatever it adds to the key.
pub proof fn meshes_are_drawn_by_five_fields(visible: VisibleMesh, transmissive: bool)
    requires
        call_ensures(VisibleMesh::is_transmissive, (&visible,), transmissive),
    ensures
        !transmissive <==> !visible.has_material_instance || visible.material is None
            || !visible.material->0.reads_view_transmission_texture || !visible.has_mesh_instance
            || visible.mesh is None,
        transmissive <==> has_all_it_takes(visible),
        call_requires(VisibleMesh::is_transmissive, (&visible,)),
{
}

/// Of the meshes that have been dealt with, exactly those are skipped that have no material
/// instance, no material, a material that does not read the view transmission texture, no
/// mesh instance or no mesh.
pub proof fn meshes_are_skipped_by_five_fields(queue: MeshQueue, i: int)
    requires
        queue.wf(),
        0 <= i < queue@.outcomes.len(),
    ensures
        queue@.outcomes[i] is Skipped <==> !queue@.meshes[i].has_material_instance
            || queue@.meshes[i].material is None
            || !queue@.meshes[i].material->0.reads_view_transmission_texture
            || !queue@.meshes[i].has_mesh_instance || queue@.meshes[i].mesh is None,
{
    queue.wf_is_valid();
    assert(queue@.meshes[i].transmissive() == has_all_it_takes(queue@.meshes[i]));
}

/// From `start` on, meshes are skipped up to the first that has all it takes.
pub open spec fn skips_to_the_next(meshes: Seq<VisibleMesh>, outcomes: Seq<Outcome>, start: nat) -> bool {
    &&& start <= outcomes.len() <= meshes.len()
    &&& forall|i: int|
        start <= i < outcomes.len() ==> (#[trigger] outcomes[i]) is Skipped && !has_all_it_takes(
            meshes[i],
        )
    &&& outcomes.len() < meshes.len() ==> has_all_it_takes(meshes[outcomes.len() as int])
}

/// A new queue has its meshes, has dealt with none that has all it takes, and waits for the
/// depth pipeline of the first such mesh.
pub proof fn queues_start_at_the_first_mesh(
    config: QueueConfig,
    meshes: Vec<VisibleMesh>,
    depth: PhaseItems,
    color: PhaseItems,
    queue: MeshQueue,
)
    requires
        call_ensures(MeshQueue::new, (config, meshes, depth, color), queue),
    ensures
        queue.wf(),
        queue@.config == config,
        queue@.meshes == meshes@,
        queue@.stage is Depth,
        skips_to_the_next(meshes@, queue@.outcomes, 0),
        call_requires(MeshQueue::new, (config, meshes, depth, color)),
{
    skipping_keeps_outcomes(
        QueueState { config, meshes: meshes@, outcomes: Seq::empty(), stage: Stage::Depth },
    );
}

/// What a new queue asks for first: the depth pipeline of the first mesh that has all it
/// takes, with a key that has a bit exactly if the view, the mesh, its material, its
/// topology or the reading of the view transmission texture has it. Where no mesh has all it
/// takes, nothing.
pub proof fn new_queues_ask_for_the_first_mesh(
    config: QueueConfig,
    meshes: Vec<VisibleMesh>,
    depth: PhaseItems,
    color: PhaseItems,
    queue: MeshQueue,
    action: QueueAction,
    first: usize,
    mask: u64,
)
    requires
        call_ensures(MeshQueue::new, (config, meshes, depth, color), queue),
        call_ensures(MeshQueue::action, (&queue,), action),
        first <= meshes@.len(),
        forall|i: int| 0 <= i < first ==> !has_all_it_takes(#[trigger] meshes@[i]),
        first < meshes@.len() ==> has_all_it_takes(meshes@[first as int]),
    ensures
        first == meshes@.len() <==> action is Done,
        first < meshes@.len() ==> {
            &&& action is SpecializeDepth
            &&& action->SpecializeDepth_index == first
            &&& (action->SpecializeDepth_mesh_key & mask == 0 <==> config.view_key & mask == 0
                && meshes@[first as int].mesh->0.key_bits & mask == 0
                && meshes@[first as int].mesh->0.topology_bits & mask == 0
                && meshes@[first as int].material->0.mesh_pipeline_key_bits & mask == 0
                && config.reads_view_transmission_texture & mask == 0)
        },
{
    queues_start_at_the_first_mesh(config, meshes, depth, color, queue);
    let reached = queue@.outcomes.len() as int;
    if reached < first {
        assert(has_all_it_takes(meshes@[reached]));
    }
    if first < reached {
        assert(queue@.outcomes[first as int] is Skipped);
    }
    if first < meshes@.len() {
        key_has_exactly_these_bits(config, meshes@[first as int], mask);
    }
}

/// A key has a bit exactly if one of its parts has it.
pub proof fn key_has_exactly_these_bits(config: QueueConfig, visible: VisibleMesh, mask: u64)
    ensures
        mesh_key(config, visible) & mask == 0 <==> config.view_key & mask == 0
            && visible.mesh->0.key_bits & mask == 0 && visible.mesh->0.topology_bits & mask == 0
            && visible.material->0.mesh_pipeline_key_bits & mask == 0
            && config.reads_view_transmission_texture & mask == 0,
{
    let a = config.view_key;
    let b = visible.mesh->0.key_bits;
    let c = visible.material->0.mesh_pipeline_key_bits;
    let d = visible.mesh->0.topology_bits;
    let e = config.reads_view_transmission_texture;
    assert((a | b | c | d | e) & mask == 0 <==> a & mask == 0 && b & mask == 0 && d & mask == 0 && c
        & mask == 0 && e & mask == 0) by (bit_vector);
}

/// A queue asks for what it waits for, for the mesh after those that have been dealt with,
/// with its key. It asks for nothing exactly if all have been dealt with.
pub proof fn queues_ask_for_what_they_wait_for(queue: MeshQueue, action: QueueAction, mask: u64)
    requires
        queue.wf(),
        queue@.meshes.len() <= usize::MAX,
        call_ensures(MeshQueue::action, (&queue,), action),
    ensures
        action is Done <==> queue@.outcomes.len() == queue@.meshes.len(),
        !(action is Done) ==> {
            &&& action is SpecializeDepth <==> queue@.stage is Depth
            &&& action is SpecializeColor <==> queue@.stage is Color
            &&& action is Locate <==> queue@.stage is Location
        },
        action is SpecializeDepth ==> action->SpecializeDepth_index == queue@.outcomes.len(),
        action is SpecializeColor ==> action->SpecializeColor_index == queue@.outcomes.len(),
        action is Locate ==> action->Locate_index == queue@.outcomes.len(),
        action is SpecializeDepth || action is SpecializeColor ==> {
            let visible = queue@.meshes[queue@.outcomes.len() as int];
            let key = if action is SpecializeDepth {
                action->SpecializeDepth_mesh_key
            } else {
                action->SpecializeColor_mesh_key
            };
            key & mask == 0 <==> queue@.config.view_key & mask == 0 && visible.mesh->0.key_bits
                & mask == 0 && visible.mesh->0.topology_bits & mask == 0
                && visible.material->0.mesh_pipeline_key_bits & mask == 0
                && queue@.config.reads_view_transmission_texture & mask == 0
        },
        call_requires(MeshQueue::action, (&queue,)),
{
    queue.wf_is_valid();
    if !queue@.done() {
        key_has_exactly_these_bits(
            queue@.config,
            queue@.meshes[queue@.outcomes.len() as int],
            mask,
        );
    }
}

/// A mesh has been dealt with: what came before stays, its outcome is noted, and the queue
/// waits for the depth pipeline of the next mesh that has all it takes.
pub open spec fn moves_on(before: QueueState, outcome: Outcome, after: QueueState) -> bool {
    &&& after.config == before.config
    &&& after.meshes == before.meshes
    &&& after.stage is Depth
    &&& after.outcomes.len() > before.outcomes.len()
    &&& forall|i: int|
        0 <= i < before.outcomes.len() ==> #[trigger] after.outcomes[i] == before.outcomes[i]
    &&& after.outcomes[before.outcomes.len() as int] == outcome
    &&& skips_to_the_next(after.meshes, after.outcomes, before.outcomes.len() + 1)
}

/// What is read off a state that has been closed.
proof fn closing_moves_on(before: QueueState, outcome: Outcome)
    requires
        before.outcomes.len() < before.meshes.len(),
    ensures
        moves_on(before, outcome, before.closed(outcome)),
{
    let noted = QueueState {
        outcomes: before.outcomes.push(outcome),
        stage: Stage::Depth,
        ..before
    };
    skipping_keeps_outcomes(noted);
    let after = before.closed(outcome);
    assert forall|i: int| 0 <= i < before.outcomes.len() implies #[trigger] after.outcomes[i]
        == before.outcomes[i] by {
        assert(noted.skipped().outcomes[i] == noted.outcomes[i]);
    }
    assert(noted.skipped().outcomes[before.outcomes.len() as int]
        == noted.outcomes[before.outcomes.len() as int]);
    assert forall|i: int|
        before.outcomes.len() + 1 <= i < after.outcomes.len() implies (#[trigger] after.outcomes[i])
            is Skipped && !has_all_it_takes(after.meshes[i]) by {
        assert(noted.skipped().outcomes[i] is Skipped);
        assert(after.meshes[i].transmissive() == has_all_it_takes(after.meshes[i]));
    }
}

/// A depth pipeline is remembered for the same mesh; without one the mesh is left out.
pub proof fn depth_pipelines_are_remembered<E>(queue: &mut MeshQueue, pipeline: Result<u64, E>)
    requires
        old(queue).wf(),
        old(queue)@.outcomes.len() < old(queue)@.meshes.len(),
        old(queue)@.stage is Depth,
        call_ensures(MeshQueue::depth_specialized::<E>, (queue, pipeline), ()),
    ensures
        final(queue).wf(),
        pipeline is Ok ==> {
            &&& final(queue)@.config == old(queue)@.config
            &&& final(queue)@.meshes == old(queue)@.meshes
            &&& final(queue)@.outcomes == old(queue)@.outcomes
            &&& final(queue)@.stage is Color
            &&& final(queue)@.stage->Color_depth_pipeline == pipeline->Ok_0
        },
        pipeline is Err ==> moves_on(old(queue)@, Outcome::DepthFailed, final(queue)@),
        call_requires(MeshQueue::depth_specialized::<E>, (queue, pipeline)),
{
    closing_moves_on(old(queue)@, Outcome::DepthFailed);
}

/// A colour pipeline is remembered beside the depth pipeline of the same mesh; without one
/// the mesh is left out.
pub proof fn color_pipelines_are_remembered<E>(queue: &mut MeshQueue, pipeline: Result<u64, E>)
    requires
        old(queue).wf(),
        old(queue)@.outcomes.len() < old(queue)@.meshes.len(),
        old(queue)@.stage is Color,
        call_ensures(MeshQueue::color_specialized::<E>, (queue, pipeline), ()),
    ensures
        final(queue).wf(),
        pipeline is Ok ==> {
            &&& final(queue)@.config == old(queue)@.config
            &&& final(queue)@.meshes == old(queue)@.meshes
            &&& final(queue)@.outcomes == old(queue)@.outcomes
            &&& final(queue)@.stage is Location
            &&& final(queue)@.stage->Location_depth_pipeline == old(queue)@.stage->Color_depth_pipeline
            &&& final(queue)@.stage->Location_color_pipeline == pipeline->Ok_0
        },
        pipeline is Err ==> moves_on(old(queue)@, Outcome::ColorFailed, final(queue)@),
        call_requires(MeshQueue::color_specialized::<E>, (queue, pipeline)),
{
    closing_moves_on(old(queue)@, Outcome::ColorFailed);
}

/// A mesh that has been located is queued with both of its pipelines.
pub proof fn located_meshes_are_queued(queue: &mut MeshQueue, sorting_info: SortingInfo)
    requires
        old(queue).wf(),
        old(queue)@.outcomes.len() < old(queue)@.meshes.len(),
        old(queue)@.stage is Location,
        call_ensures(MeshQueue::located, (queue, sorting_info), ()),
    ensures
        final(queue).wf(),
        moves_on(
            old(queue)@,
            Outcome::Queued {
                depth_pipeline: old(queue)@.stage->Location_depth_pipeline,
                color_pipeline: old(queue)@.stage->Location_color_pipeline,
                sorting_info,
            },
            final(queue)@,
        ),
        call_requires(MeshQueue::located, (queue, sorting_info)),
{
    closing_moves_on(
        old(queue)@,
        Outcome::Queued {
            depth_pipeline: old(queue)@.stage->Location_depth_pipeline,
            color_pipeline: old(queue)@.stage->Location_color_pipeline,
            sorting_info,
        },
    );
}

/// A fresh draw of a mesh: of its entity in the main world and of none in the render world,
/// at distance zero, of one instance, and indexed as the mesh is.
pub open spec fn fresh_draw(
    entry: Entry,
    visible: VisibleMesh,
    pipeline: u64,
    draw_function: u32,
    sorting_info: Option<SortingInfo>,
) -> bool {
    let (key, item) = entry;
    &&& key.0 == 1
    &&& key.1 == visible.entity
    &&& item.entity.0 == 1
    &&& item.entity.1 == visible.entity
    &&& item.pipeline == pipeline
    &&& item.draw_function == draw_function
    &&& item.sorting_info == sorting_info
    &&& item.distance == 0
    &&& item.batch_range.0 == 0
    &&& item.batch_range.1 == 1
    &&& item.extra_index is Absent
    &&& item.indexed == visible.mesh->0.indexed
}

/// Where no entity is seen twice, the phases of a queue hold a fresh draw for each queued
/// mesh, in the order of the visible list, and no others. A draw of the depth phase has the
/// depth pipeline and the draw function of that phase and is not sorted; one of the colour
/// phase has the colour pipeline, its draw function and where the mesh is.
pub proof fn phases_hold_the_queued_meshes(
    queue: MeshQueue,
    phases: (PhaseItems, PhaseItems),
    k: int,
)
    requires
        queue.wf(),
        call_ensures(MeshQueue::into_phases, (queue,), phases),
        forall|i: int, j: int|
            0 <= i < j < queue@.meshes.len() ==> (#[trigger] queue@.meshes[i]).entity != (
            #[trigger] queue@.meshes[j]).entity,
        0 <= k < queued(queue@.outcomes).len(),
    ensures
        entries(phases.0).len() == queued(queue@.outcomes).len(),
        entries(phases.1).len() == queued(queue@.outcomes).len(),
        ({
            let i = queued(queue@.outcomes)[k];
            let outcome = queue@.outcomes[i];
            &&& fresh_draw(
                entries(phases.0)[k],
                queue@.meshes[i],
                outcome->depth_pipeline,
                queue@.config.draw_depth,
                None,
            )
            &&& fresh_draw(
                entries(phases.1)[k],
                queue@.meshes[i],
                outcome->color_pipeline,
                queue@.config.draw_color,
                Some(outcome->sorting_info),
            )
        }),
        call_requires(MeshQueue::into_phases, (queue,)),
{
    queue.wf_is_valid();
    phases_are_in_visible_order(queue@.config, queue@.meshes, queue@.outcomes);
}

/// A queue that has queued nothing leaves both phases empty.
pub proof fn phases_hold_nothing_else(queue: MeshQueue, phases: (PhaseItems, PhaseItems))
    requires
        queue.wf(),
        call_ensures(MeshQueue::into_phases, (queue,), phases),
        forall|i: int|
            0 <= i < queue@.outcomes.len() ==> !((#[trigger] queue@.outcomes[i]) is Queued),
    ensures
        entries(phases.0).len() == 0,
        entries(phases.1).len() == 0,
{
    nothing_queued_is_nothing(queue@.config, queue@.meshes, queue@.outcomes);
}

/// As [`phases_hold_nothing_else`], by the outcomes alone.
proof fn nothing_queued_is_nothing(
    config: QueueConfig,
    meshes: Seq<VisibleMesh>,
    outcomes: Seq<Outcome>,
)
    requires
        forall|i: int| 0 <= i < outcomes.len() ==> !((#[trigger] outcomes[i]) is Queued),
    ensures
        depth_phase(config, meshes, outcomes).len() == 0,
        color_phase(config, meshes, outcomes).len() == 0,
    decreases outcomes.len(),
{
    if outcomes.len() > 0 {
        let rest = outcomes.drop_last();
        assert(forall|i: int| 0 <= i < rest.len() ==> #[trigger] rest[i] == outcomes[i]);
        assert(outcomes.last() == outcomes[outcomes.len() - 1]);
        nothing_queued_is_nothing(config, meshes, rest);
    }
}

/// A mesh whose entity has been queued before is drawn once, as it was seen last: its draws
/// take the place of those that were there.
pub proof fn meshes_seen_again_replace_their_draws(
    config: QueueConfig,
    meshes: Seq<VisibleMesh>,
    outcomes: Seq<Outcome>,
    place: int,
)
    requires
        0 < outcomes.len() <= meshes.len(),
        outcomes.last() is Queued,
        0 <= place < depth_phase(config, meshes, outcomes.drop_last()).len(),
        depth_phase(config, meshes, outcomes.drop_last())[place].0 == (
            1u64,
            meshes[outcomes.len() - 1].entity,
        ),
    ensures
        depth_phase(config, meshes, outcomes).len() == depth_phase(
            config,
            meshes,
            outcomes.drop_last(),
        ).len(),
        color_phase(config, meshes, outcomes).len() == depth_phase(config, meshes, outcomes).len(),
        fresh_draw(
            depth_phase(config, meshes, outcomes)[place],
            meshes[outcomes.len() - 1],
            outcomes.last()->depth_pipeline,
            config.draw_depth,
            None,
        ),
        fresh_draw(
            color_phase(config, meshes, outcomes)[place],
            meshes[outcomes.len() - 1],
            outcomes.last()->color_pipeline,
            config.draw_color,
            Some(outcomes.last()->sorting_info),
        ),
        forall|i: int|
            0 <= i < depth_phase(config, meshes, outcomes).len() && i != place ==> #[trigger] depth_phase(
                config,
                meshes,
                outcomes,
            )[i] == depth_phase(config, meshes, outcomes.drop_last())[i],
        forall|i: int|
            0 <= i < color_phase(config, meshes, outcomes).len() && i != place ==> #[trigger] color_phase(
                config,
                meshes,
                outcomes,
            )[i] == color_phase(config, meshes, outcomes.drop_last())[i],
{
    let rest = outcomes.drop_last();
    let depth = depth_phase(config, meshes, rest);
    let color = color_phase(config, meshes, rest);
    let key = (PLACEHOLDER_ENTITY, meshes[outcomes.len() - 1].entity);
    phases_have_same_entities(config, meshes, rest);
    assert(keys_of(depth).len() == depth.len());
    assert(keys_of(color).len() == color.len());
    assert(keys_of(depth)[place] == key);
    assert(keys_of(color)[place] == key);
    assert(color[place].0 == key);
    let d = keys_of(depth).index_of(key);
    assert(keys_of(depth)[d] == key && depth[d].0 == key);
    assert(d == place);
    let c = keys_of(color).index_of(key);
    assert(keys_of(color)[c] == key && color[c].0 == key);
    assert(c == place);
}

/// A view is queued exactly if it peels, has both phases, has its part of the key and has
/// had its meshes collected. Otherwise its phases are as they were.
pub proof fn views_are_queued_when_complete(
    view: ViewInput,
    reads_view_transmission_texture: u64,
    draw_depth: u32,
    draw_color: u32,
    result: ViewQueue,
)
    requires
        call_ensures(
            queue_view,
            (view, reads_view_transmission_texture, draw_depth, draw_color),
            result,
        ),
    ensures
        result is Queueing <==> view.settings.depth_peeling && view.settings.steps > 0
            && view.depth is Some && view.color is Some && view.view_key is Some
            && view.meshes is Some,
        result is Skipped ==> result->Skipped_depth == view.depth && result->Skipped_color
            == view.color,
        result is Queueing ==> {
            let queue = result->Queueing_0;
            &&& queue.wf()
            &&& queue@.config.view_key == view.view_key->0
            &&& queue@.config.reads_view_transmission_texture == reads_view_transmission_texture
            &&& queue@.config.draw_depth == draw_depth
            &&& queue@.config.draw_color == draw_color
            &&& queue@.meshes == view.meshes->0@
            &&& queue@.stage is Depth
            &&& skips_to_the_next(queue@.meshes, queue@.outcomes, 0)
        },
        call_requires(
            queue_view,
            (view, reads_view_transmission_texture, draw_depth, draw_color),
        ),
{
    if view.view_key is Some && view.meshes is Some {
        skipping_keeps_outcomes(
            QueueState {
                config: QueueConfig {
                    view_key: view.view_key->0,
                    reads_view_transmission_texture,
                    draw_depth,
                    draw_color,
                },
                meshes: view.meshes->0@,
                outcomes: Seq::empty(),
                stage: Stage::Depth,
            },
        );
    }
}

/// A mesh whose entity has not been queued before is drawn last in both phases, and the
/// draws before it stay as they are.
pub proof fn meshes_seen_first_come_last(
    config: QueueConfig,
    meshes: Seq<VisibleMesh>,
    outcomes: Seq<Outcome>,
)
    requires
        0 < outcomes.len() <= meshes.len(),
        outcomes.last() is Queued,
        forall|i: int|
            0 <= i < depth_phase(config, meshes, outcomes.drop_last()).len() ==> (
            #[trigger] depth_phase(config, meshes, outcomes.drop_last())[i]).0 != (
                1u64,
                meshes[outcomes.len() - 1].entity,
            ),
    ensures
        depth_phase(config, meshes, outcomes).drop_last() == depth_phase(
            config,
            meshes,
            outcomes.drop_last(),
        ),
        color_phase(config, meshes, outcomes).drop_last() == color_phase(
            config,
            meshes,
            outcomes.drop_last(),
        ),
        depth_phase(config, meshes, outcomes).len() > 0,
        color_phase(config, meshes, outcomes).len() > 0,
        fresh_draw(
            depth_phase(config, meshes, outcomes).last(),
            meshes[outcomes.len() - 1],
            outcomes.last()->depth_pipeline,
            config.draw_depth,
            None,
        ),
        fresh_draw(
            color_phase(config, meshes, outcomes).last(),
            meshes[outcomes.len() - 1],
            outcomes.last()->color_pipeline,
            config.draw_color,
            Some(outcomes.last()->sorting_info),
        ),
{
    let rest = outcomes.drop_last();
    let depth = depth_phase(config, meshes, rest);
    let color = color_phase(config, meshes, rest);
    let key = (PLACEHOLDER_ENTITY, meshes[outcomes.len() - 1].entity);
    phases_have_same_entities(config, meshes, rest);
    if keys_of(depth).contains(key) {
        let i = keys_of(depth).index_of(key);
        assert(keys_of(depth)[i] == depth[i].0);
    }
    assert(!keys_of(color).contains(key));
    assert(depth_phase(config, meshes, outcomes).drop_last() =~= depth);
    assert(color_phase(config, meshes, outcomes).drop_last() =~= color);
}

/// A mesh that is not queued changes neither phase.
pub proof fn meshes_left_out_change_nothing(
    config: QueueConfig,
    meshes: Seq<VisibleMesh>,
    outcomes: Seq<Outcome>,
)
    requires
        0 < outcomes.len() <= meshes.len(),
        !(outcomes.last() is Queued),
    ensures
        depth_phase(config, meshes, outcomes) == depth_phase(config, meshes, outcomes.drop_last()),
        color_phase(config, meshes, outcomes) == color_phase(config, meshes, outcomes.drop_last()),
{
}

/// The phases of a queue are those of its outcomes.
pub proof fn phases_are_those_of_the_outcomes(queue: MeshQueue, phases: (PhaseItems, PhaseItems))
    requires
        queue.wf(),
        call_ensures(MeshQueue::into_phases, (queue,), phases),
    ensures
        entries(phases.0) == depth_phase(queue@.config, queue@.meshes, queue@.outcomes),
        entries(phases.1) == color_phase(queue@.config, queue@.meshes, queue@.outcomes),
{
}

} // verus!

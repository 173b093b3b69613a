//! Queueing the transmissive meshes of a view.
//!
//! For each visible mesh two pipelines have to be specialized, and the mesh has to be
//! located in the world. Only the renderer can do that. [`MeshQueue`] decides what is to
//! be done next, is told how it went, and fills the two phases of the view.
use vstd::prelude::*;
use crate::phase::{
    add_item, clear, entries, with_item, Entry, ExtraIndex, PhaseItem, PhaseItems, SortingInfo,
};
use crate::settings::ScreenSpaceTransmission;

verus! {

/// The bits of the entity that stands for no entity.
pub const PLACEHOLDER_ENTITY: u64 = 1;

/// What queueing reads of a material.
#[derive(Clone, Copy, Debug, PartialEq, Eq)]
pub struct MaterialInfo {
    pub reads_view_transmission_texture: bool,
    /// What the material adds to the mesh pipeline key.
    pub mesh_pipeline_key_bits: u64,
}

/// What queueing reads of a mesh.
#[derive(Clone, Copy, Debug, PartialEq, Eq)]
pub struct MeshInfo {
    /// What the mesh adds to the mesh pipeline key.
    pub key_bits: u64,
    /// What its primitive topology and strip index format add to the key.
    pub topology_bits: u64,
    pub indexed: bool,
}

/// What the renderer knows of one visible mesh entity. Each lookup may come back empty.
#[derive(Clone, Copy, Debug, PartialEq, Eq)]
pub struct VisibleMesh {
    /// The entity of the main world.
    pub entity: u64,
    pub has_material_instance: bool,
    pub material: Option<MaterialInfo>,
    pub has_mesh_instance: bool,
    pub mesh: Option<MeshInfo>,
}

/// What is the same for all meshes of a view.
#[derive(Clone, Copy, Debug, PartialEq, Eq)]
pub struct QueueConfig {
    /// The view's part of the mesh pipeline key.
    pub view_key: u64,
    /// The bit of the key that says that the view transmission texture is read.
    pub reads_view_transmission_texture: u64,
    /// Draw function of the depth phase.
    pub draw_depth: u32,
    /// Draw function of the colour phase.
    pub draw_color: u32,
}

/// What became of a visible mesh.
pub enum Outcome {
    /// It is not drawn by depth peeling.
    Skipped,
    /// The depth pipeline could not be specialized.
    DepthFailed,
    /// The colour pipeline could not be specialized.
    ColorFailed,
    /// It is in both phases.
    Queued { depth_pipeline: u64, color_pipeline: u64, sorting_info: SortingInfo },
}

/// What the queue waits for.
#[derive(Clone, Copy, Debug, PartialEq, Eq)]
pub enum Stage {
    Depth,
    Color { depth_pipeline: u64 },
    Location { depth_pipeline: u64, color_pipeline: u64 },
}

/// What the renderer is to do next.
#[derive(Clone, Copy, Debug, PartialEq, Eq)]
pub enum QueueAction {
    /// Specialize the depth pipeline for the mesh at `index`, then call
    /// [`MeshQueue::depth_specialized`].
    SpecializeDepth { index: usize, mesh_key: u64 },
    /// Specialize the colour pipeline for the mesh at `index`, then call
    /// [`MeshQueue::color_specialized`].
    SpecializeColor { index: usize, mesh_key: u64 },
    /// Locate the mesh at `index` in the world, then call [`MeshQueue::located`].
    Locate { index: usize },
    /// Nothing: all meshes have been dealt with.
    Done,
}

/// The state of a queue, as its contracts see it: the meshes, what became of those that
/// have been dealt with, and what is awaited for the next one.
pub struct QueueState {
    pub config: QueueConfig,
    pub meshes: Seq<VisibleMesh>,
    pub outcomes: Seq<Outcome>,
    pub stage: Stage,
}

impl VisibleMesh {
    /// Whether depth peeling draws the mesh: all lookups came back, and the material reads
    /// the view transmission texture.
    pub open spec fn transmissive(self) -> bool {
        &&& self.has_material_instance
        &&& self.material is Some
        &&& self.material->0.reads_view_transmission_texture
        &&& self.has_mesh_instance
        &&& self.mesh is Some
    }

    /// Whether depth peeling draws the mesh.
    pub fn is_transmissive(&self) -> (transmissive: bool)
        ensures
            transmissive == self.transmissive(),
    {
        if !self.has_material_instance {
            return false;
        }
        match self.material {
            None => {
                return false;
            },
            Some(material) => {
                if !material.reads_view_transmission_texture {
                    return false;
                }
            },
        }
        if !self.has_mesh_instance {
            return false;
        }
        self.mesh.is_some()
    }
}

/// The key that both pipelines of a mesh are specialized with.
pub open spec fn mesh_key(config: QueueConfig, mesh: VisibleMesh) -> u64 {
    config.view_key | mesh.mesh->0.key_bits | mesh.material->0.mesh_pipeline_key_bits
        | mesh.mesh->0.topology_bits | config.reads_view_transmission_texture
}

/// The draw of a mesh in the depth phase.
pub open spec fn depth_item(config: QueueConfig, mesh: VisibleMesh, pipeline: u64) -> PhaseItem {
    PhaseItem {
        sorting_info: None,
        distance: 0,
        entity: (PLACEHOLDER_ENTITY, mesh.entity),
        pipeline,
        draw_function: config.draw_depth,
        batch_range: (0, 1),
        extra_index: ExtraIndex::Absent,
        indexed: mesh.mesh->0.indexed,
    }
}

/// The draw of a mesh in the colour phase.
pub open spec fn color_item(
    config: QueueConfig,
    mesh: VisibleMesh,
    pipeline: u64,
    sorting_info: SortingInfo,
) -> PhaseItem {
    PhaseItem {
        sorting_info: Some(sorting_info),
        distance: 0,
        entity: (PLACEHOLDER_ENTITY, mesh.entity),
        pipeline,
        draw_function: config.draw_color,
        batch_range: (0, 1),
        extra_index: ExtraIndex::Absent,
        indexed: mesh.mesh->0.indexed,
    }
}

/// The depth phase after `outcomes`: the draws of the queued meshes, filed one after the
/// other.
pub open spec fn depth_phase(
    config: QueueConfig,
    meshes: Seq<VisibleMesh>,
    outcomes: Seq<Outcome>,
) -> Seq<Entry>
    decreases outcomes.len(),
{
    if outcomes.len() == 0 {
        Seq::empty()
    } else {
        let before = depth_phase(config, meshes, outcomes.drop_last());
        match outcomes.last() {
            Outcome::Queued { depth_pipeline, .. } => with_item(
                before,
                depth_item(config, meshes[outcomes.len() - 1], depth_pipeline),
            ),
            _ => before,
        }
    }
}

/// The colour phase after `outcomes`: the draws of the queued meshes, filed one after the
/// other.
pub open spec fn color_phase(
    config: QueueConfig,
    meshes: Seq<VisibleMesh>,
    outcomes: Seq<Outcome>,
) -> Seq<Entry>
    decreases outcomes.len(),
{
    if outcomes.len() == 0 {
        Seq::empty()
    } else {
        let before = color_phase(config, meshes, outcomes.drop_last());
        match outcomes.last() {
            Outcome::Queued { color_pipeline, sorting_info, .. } => with_item(
                before,
                color_item(config, meshes[outcomes.len() - 1], color_pipeline, sorting_info),
            ),
            _ => before,
        }
    }
}

/// Of the meshes that have been dealt with, exactly those that depth peeling does not draw
/// have been skipped.
pub open spec fn skips_agree(meshes: Seq<VisibleMesh>, outcomes: Seq<Outcome>) -> bool {
    &&& outcomes.len() <= meshes.len()
    &&& forall|i: int|
        0 <= i < outcomes.len() ==> (outcomes[i] is Skipped
            <==> !(#[trigger] meshes[i]).transmissive())
}

/// One more mesh is dealt with.
proof fn skips_agree_after(meshes: Seq<VisibleMesh>, outcomes: Seq<Outcome>, outcome: Outcome)
    requires
        skips_agree(meshes, outcomes),
        outcomes.len() < meshes.len(),
        outcome is Skipped <==> !meshes[outcomes.len() as int].transmissive(),
    ensures
        skips_agree(meshes, outcomes.push(outcome)),
        outcomes.push(outcome).drop_last() == outcomes,
{
    let after = outcomes.push(outcome);
    assert(after.drop_last() =~= outcomes);
    assert forall|i: int| 0 <= i < after.len() implies (after[i] is Skipped <==> !(
    #[trigger] meshes[i]).transmissive()) by {
        if i < outcomes.len() {
            assert(after[i] == outcomes[i]);
        }
    }
}

impl QueueState {
    /// All meshes have been dealt with.
    pub open spec fn done(self) -> bool {
        self.outcomes.len() == self.meshes.len()
    }

    /// Exactly the meshes that depth peeling does not draw have been skipped, and what is
    /// awaited is for one that it draws.
    pub open spec fn valid(self) -> bool {
        &&& skips_agree(self.meshes, self.outcomes)
        &&& !self.done() ==> self.meshes[self.outcomes.len() as int].transmissive()
    }

    /// Skips meshes up to the next one that depth peeling draws.
    pub open spec fn skipped(self) -> QueueState
        decreases self.meshes.len() - self.outcomes.len(),
    {
        if self.outcomes.len() < self.meshes.len()
            && !self.meshes[self.outcomes.len() as int].transmissive() {
            QueueState { outcomes: self.outcomes.push(Outcome::Skipped), ..self }.skipped()
        } else {
            self
        }
    }

    /// The current mesh has been dealt with; on to the next one.
    pub open spec fn closed(self, outcome: Outcome) -> QueueState {
        QueueState { outcomes: self.outcomes.push(outcome), stage: Stage::Depth, ..self }.skipped()
    }

    /// What the renderer is to do in this state.
    pub open spec fn action(self) -> QueueAction {
        let index = self.outcomes.len();
        if self.done() {
            QueueAction::Done
        } else {
            match self.stage {
                Stage::Depth => QueueAction::SpecializeDepth {
                    index: index as usize,
                    mesh_key: mesh_key(self.config, self.meshes[index as int]),
                },
                Stage::Color { .. } => QueueAction::SpecializeColor {
                    index: index as usize,
                    mesh_key: mesh_key(self.config, self.meshes[index as int]),
                },
                Stage::Location { .. } => QueueAction::Locate { index: index as usize },
            }
        }
    }
}

/// The transmissive meshes of one view on their way into its two phases.
pub struct MeshQueue {
    config: QueueConfig,
    meshes: Vec<VisibleMesh>,
    cursor: usize,
    stage: Stage,
    depth: PhaseItems,
    color: PhaseItems,
    outcomes: Ghost<Seq<Outcome>>,
}

/// What is known of a view when its meshes are to be queued.
pub struct ViewInput {
    pub settings: ScreenSpaceTransmission,
    /// The view's phases, where it has them.
    pub depth: Option<PhaseItems>,
    pub color: Option<PhaseItems>,
    /// The view's part of the mesh pipeline key, once it is known.
    pub view_key: Option<u64>,
    /// The visible meshes of the view, once they have been collected.
    pub meshes: Option<Vec<VisibleMesh>>,
}

/// Whether a view's meshes are queued.
pub enum ViewQueue {
    /// They are not: the view does not peel, or something is missing. Its phases are as
    /// they were.
    Skipped { depth: Option<PhaseItems>, color: Option<PhaseItems> },
    /// They are: both phases start out empty.
    Queueing(MeshQueue),
}

impl ViewInput {
    /// The view peels and nothing is missing.
    pub open spec fn complete(self) -> bool {
        &&& self.settings.peels()
        &&& self.depth is Some
        &&& self.color is Some
        &&& self.view_key is Some
        &&& self.meshes is Some
    }
}

/// Starts to queue the meshes of a view, where it peels and nothing is missing.
pub fn queue_view(
    view: ViewInput,
    reads_view_transmission_texture: u64,
    draw_depth: u32,
    draw_color: u32,
) -> (queue: ViewQueue)
    ensures
        !view.complete() ==> queue == (ViewQueue::Skipped { depth: view.depth, color: view.color }),
        view.complete() ==> queue is Queueing && {
            &&& queue->Queueing_0.wf()
            &&& queue->Queueing_0@ == (QueueState {
                config: QueueConfig {
                    view_key: view.view_key->0,
                    reads_view_transmission_texture,
                    draw_depth,
                    draw_color,
                },
                meshes: view.meshes->0@,
                outcomes: Seq::empty(),
                stage: Stage::Depth,
            }).skipped()
        },
{
    if !view.settings.is_peeling() {
        return ViewQueue::Skipped { depth: view.depth, color: view.color };
    }
    match (view.depth, view.color, view.view_key, view.meshes) {
        (Some(depth), Some(color), Some(view_key), Some(meshes)) => {
            let config = QueueConfig {
                view_key,
                reads_view_transmission_texture,
                draw_depth,
                draw_color,
            };
            ViewQueue::Queueing(MeshQueue::new(config, meshes, depth, color))
        },
        (depth, color, _, _) => ViewQueue::Skipped { depth, color },
    }
}

/// `bevy_ecs::entity::Entity::PLACEHOLDER`, as `Entity::to_bits` gives it: the largest
/// index, which is stored as its distance from the largest `u32`, in the first generation.
#[verifier::external_body]
fn placeholder_entity() -> (bits: u64)
    ensures
        bits == PLACEHOLDER_ENTITY,
{
    bevy_ecs::entity::Entity::PLACEHOLDER.to_bits()
}

impl View for MeshQueue {
    type V = QueueState;

    closed spec fn view(&self) -> QueueState {
        QueueState {
            config: self.config,
            meshes: self.meshes@,
            outcomes: self.outcomes@,
            stage: self.stage,
        }
    }
}

impl MeshQueue {
    /// The phases hold what the outcomes put there.
    pub closed spec fn wf(&self) -> bool {
        &&& self@.valid()
        &&& self.cursor == self.outcomes@.len()
        &&& entries(self.depth) == depth_phase(self.config, self.meshes@, self.outcomes@)
        &&& entries(self.color) == color_phase(self.config, self.meshes@, self.outcomes@)
    }

    /// A queue is in a valid state.
    pub proof fn wf_is_valid(&self)
        requires
            self.wf(),
        ensures
            self@.valid(),
    {
    }

    /// As [`MeshQueue::wf`], before the next mesh has been looked for.
    closed spec fn wf_unsettled(&self) -> bool {
        &&& skips_agree(self.meshes@, self.outcomes@)
        &&& self.cursor == self.outcomes@.len()
        &&& entries(self.depth) == depth_phase(self.config, self.meshes@, self.outcomes@)
        &&& entries(self.color) == color_phase(self.config, self.meshes@, self.outcomes@)
    }

    /// A queue for `meshes` that fills two phases, which are cleared first.
    pub fn new(
        config: QueueConfig,
        meshes: Vec<VisibleMesh>,
        depth: PhaseItems,
        color: PhaseItems,
    ) -> (queue: MeshQueue)
        ensures
            queue.wf(),
            queue@ == (QueueState {
                config,
                meshes: meshes@,
                outcomes: Seq::empty(),
                stage: Stage::Depth,
            }).skipped(),
    {
        let mut depth = depth;
        let mut color = color;
        clear(&mut depth);
        clear(&mut color);
        let mut queue = MeshQueue {
            config,
            meshes,
            cursor: 0,
            stage: Stage::Depth,
            depth,
            color,
            outcomes: Ghost(Seq::empty()),
        };
        queue.skip();
        queue
    }

    /// Moves on to the next mesh that depth peeling draws.
    fn skip(&mut self)
        requires
            old(self).wf_unsettled(),
        ensures
            final(self).wf(),
            final(self)@ == old(self)@.skipped(),
    {
        let ghost target = self@.skipped();
        while self.cursor < self.meshes.len() && !self.meshes[self.cursor].is_transmissive()
            invariant
                self.wf_unsettled(),
                self@.skipped() == target,
            decreases self.meshes@.len() - self.cursor,
        {
            proof {
                skips_agree_after(self.meshes@, self.outcomes@, Outcome::Skipped);
            }
            self.cursor = self.cursor + 1;
            self.outcomes = Ghost(self.outcomes@.push(Outcome::Skipped));
        }
    }

    /// What the renderer is to do next.
    pub fn action(&self) -> (action: QueueAction)
        requires
            self.wf(),
        ensures
            action == self@.action(),
    {
        if self.cursor == self.meshes.len() {
            return QueueAction::Done;
        }
        match self.stage {
            Stage::Depth => QueueAction::SpecializeDepth {
                index: self.cursor,
                mesh_key: self.current_key(),
            },
            Stage::Color { .. } => QueueAction::SpecializeColor {
                index: self.cursor,
                mesh_key: self.current_key(),
            },
            Stage::Location { .. } => QueueAction::Locate { index: self.cursor },
        }
    }

    /// The key for the pipelines of the current mesh.
    fn current_key(&self) -> (key: u64)
        requires
            self.wf(),
            !self@.done(),
        ensures
            key == mesh_key(self@.config, self@.meshes[self@.outcomes.len() as int]),
    {
        let visible = self.meshes[self.cursor];
        let mesh: MeshInfo = visible.mesh.unwrap();
        let material: MaterialInfo = visible.material.unwrap();
        let mut key: u64 = self.config.view_key | mesh.key_bits | material.mesh_pipeline_key_bits;
        key = key | mesh.topology_bits;
        key = key | self.config.reads_view_transmission_texture;
        key
    }

    /// Notes what became of the current mesh, which is in neither phase, and moves on.
    fn fail(&mut self, Ghost(outcome): Ghost<Outcome>)
        requires
            old(self).wf(),
            !old(self)@.done(),
            outcome is DepthFailed || outcome is ColorFailed,
        ensures
            final(self).wf(),
            final(self)@ == old(self)@.closed(outcome),
    {
        proof {
            skips_agree_after(self.meshes@, self.outcomes@, outcome);
            assert(self.cursor < self.meshes.len());
        }
        self.cursor = self.cursor + 1;
        self.stage = Stage::Depth;
        self.outcomes = Ghost(self.outcomes@.push(outcome));
        self.skip();
    }

    /// The depth pipeline of the current mesh has been specialized, or could not be: then
    /// the mesh is left out.
    pub fn depth_specialized<E>(&mut self, pipeline: Result<u64, E>)
        requires
            old(self).wf(),
            old(self)@.action() is SpecializeDepth,
        ensures
            final(self).wf(),
            final(self)@ == match pipeline {
                Ok(id) => QueueState { stage: Stage::Color { depth_pipeline: id }, ..old(self)@ },
                Err(_) => old(self)@.closed(Outcome::DepthFailed),
            },
    {
        match pipeline {
            Ok(id) => {
                self.stage = Stage::Color { depth_pipeline: id };
            },
            Err(_) => {
                self.fail(Ghost(Outcome::DepthFailed));
            },
        }
    }

    /// The colour pipeline of the current mesh has been specialized, or could not be: then
    /// the mesh is left out.
    pub fn color_specialized<E>(&mut self, pipeline: Result<u64, E>)
        requires
            old(self).wf(),
            old(self)@.action() is SpecializeColor,
        ensures
            final(self).wf(),
            final(self)@ == match pipeline {
                Ok(id) => QueueState {
                    stage: Stage::Location {
                        depth_pipeline: old(self)@.stage->Color_depth_pipeline,
                        color_pipeline: id,
                    },
                    ..old(self)@
                },
                Err(_) => old(self)@.closed(Outcome::ColorFailed),
            },
    {
        match pipeline {
            Ok(id) => {
                if let Stage::Color { depth_pipeline } = self.stage {
                    self.stage = Stage::Location { depth_pipeline, color_pipeline: id };
                }
            },
            Err(_) => {
                self.fail(Ghost(Outcome::ColorFailed));
            },
        }
    }

    /// The current mesh has been located: it goes into both phases.
    pub fn located(&mut self, sorting_info: SortingInfo)
        requires
            old(self).wf(),
            old(self)@.action() is Locate,
        ensures
            final(self).wf(),
            final(self)@ == old(self)@.closed(
                Outcome::Queued {
                    depth_pipeline: old(self)@.stage->Location_depth_pipeline,
                    color_pipeline: old(self)@.stage->Location_color_pipeline,
                    sorting_info,
                },
            ),
    {
        if let Stage::Location { depth_pipeline, color_pipeline } = self.stage {
            let visible = self.meshes[self.cursor];
            let mesh: MeshInfo = visible.mesh.unwrap();
            let entity: (u64, u64) = (placeholder_entity(), visible.entity);
            let depth_draw = PhaseItem {
                sorting_info: None,
                distance: 0,
                entity,
                pipeline: depth_pipeline,
                draw_function: self.config.draw_depth,
                batch_range: (0, 1),
                extra_index: ExtraIndex::Absent,
                indexed: mesh.indexed,
            };
            let color_draw = PhaseItem {
                sorting_info: Some(sorting_info),
                distance: 0,
                entity,
                pipeline: color_pipeline,
                draw_function: self.config.draw_color,
                batch_range: (0, 1),
                extra_index: ExtraIndex::Absent,
                indexed: mesh.indexed,
            };
            add_item(&mut self.depth, depth_draw);
            add_item(&mut self.color, color_draw);
            let ghost outcome = Outcome::Queued { depth_pipeline, color_pipeline, sorting_info };
            proof {
                skips_agree_after(self.meshes@, self.outcomes@, outcome);
                assert(self.cursor < self.meshes.len());
            }
            self.cursor = self.cursor + 1;
            self.stage = Stage::Depth;
            self.outcomes = Ghost(self.outcomes@.push(outcome));
            self.skip();
        }
    }

    /// The depth phase and the colour phase of the view.
    pub fn into_phases(self) -> (phases: (PhaseItems, PhaseItems))
        requires
            self.wf(),
        ensures
            entries(phases.0) == depth_phase(self@.config, self@.meshes, self@.outcomes),
            entries(phases.1) == color_phase(self@.config, self@.meshes, self@.outcomes),
    {
        (self.depth, self.color)
    }
}

} // verus!

use bevy_ecs::entity::Entity;
use depth_peeling::phase::{add_item, len, new_phase, sort, ExtraIndex, PhaseItem, SortingInfo};
use depth_peeling::queue::{
    queue_view, MaterialInfo, MeshInfo, MeshQueue, QueueAction, QueueConfig, ViewInput, ViewQueue,
    VisibleMesh, PLACEHOLDER_ENTITY,
};
use depth_peeling::settings::ScreenSpaceTransmission;

const READS: u64 = 1 << 40;

fn mesh(entity: u64) -> VisibleMesh {
    VisibleMesh {
        entity,
        has_material_instance: true,
        material: Some(MaterialInfo {
            reads_view_transmission_texture: true,
            mesh_pipeline_key_bits: 0x100,
        }),
        has_mesh_instance: true,
        mesh: Some(MeshInfo { key_bits: 0x10, topology_bits: 0x1000, indexed: entity % 2 == 0 }),
    }
}

fn config() -> QueueConfig {
    QueueConfig {
        view_key: 0x1,
        reads_view_transmission_texture: READS,
        draw_depth: 21,
        draw_color: 22,
    }
}

fn at(depth_bias: u32) -> SortingInfo {
    SortingInfo { mesh_center: (1, 2, 3), depth_bias }
}

fn opaque(entity: u64) -> VisibleMesh {
    let mut opaque = mesh(entity);
    opaque.material = Some(MaterialInfo {
        reads_view_transmission_texture: false,
        mesh_pipeline_key_bits: 0,
    });
    opaque
}

fn view(settings: ScreenSpaceTransmission) -> ViewInput {
    let mut depth = new_phase();
    add_item(&mut depth, stale());
    ViewInput {
        settings,
        depth: Some(depth),
        color: Some(new_phase()),
        view_key: Some(0x1),
        meshes: Some(vec![mesh(4)]),
    }
}

fn stale() -> PhaseItem {
    PhaseItem {
        sorting_info: None,
        distance: 0,
        entity: (1, 99),
        pipeline: 0,
        draw_function: 0,
        batch_range: (0, 1),
        extra_index: ExtraIndex::Absent,
        indexed: false,
    }
}

const PEELS: ScreenSpaceTransmission = ScreenSpaceTransmission { depth_peeling: true, steps: 2 };

#[test]
fn placeholder_is_that_of_the_ecs() {
    assert_eq!(PLACEHOLDER_ENTITY, Entity::PLACEHOLDER.to_bits());
}

#[test]
fn mesh_key_joins_all_bits() {
    let queue = MeshQueue::new(config(), vec![mesh(4)], new_phase(), new_phase());
    assert_eq!(
        queue.action(),
        QueueAction::SpecializeDepth { index: 0, mesh_key: 0x1111 | READS }
    );
}

#[test]
fn queued_mesh_is_in_both_phases() {
    let mut queue = MeshQueue::new(config(), vec![mesh(4)], new_phase(), new_phase());
    queue.depth_specialized::<()>(Ok(7));
    assert_eq!(
        queue.action(),
        QueueAction::SpecializeColor { index: 0, mesh_key: 0x1111 | READS }
    );
    queue.color_specialized::<()>(Ok(8));
    assert_eq!(queue.action(), QueueAction::Locate { index: 0 });
    queue.located(at(5));
    assert_eq!(queue.action(), QueueAction::Done);
    let (depth, color) = queue.into_phases();
    let key = (Entity::PLACEHOLDER.to_bits(), 4);
    assert_eq!(len(&depth), 1);
    assert_eq!(len(&color), 1);
    assert_eq!(
        depth[&key],
        PhaseItem {
            sorting_info: None,
            distance: 0,
            entity: key,
            pipeline: 7,
            draw_function: 21,
            batch_range: (0, 1),
            extra_index: ExtraIndex::Absent,
            indexed: true,
        }
    );
    assert_eq!(
        color[&key],
        PhaseItem {
            sorting_info: Some(at(5)),
            distance: 0,
            entity: key,
            pipeline: 8,
            draw_function: 22,
            batch_range: (0, 1),
            extra_index: ExtraIndex::Absent,
            indexed: true,
        }
    );
}

#[test]
fn meshes_that_are_not_transmissive_are_skipped() {
    let mut no_instance = mesh(1);
    no_instance.has_material_instance = false;
    let mut no_material = mesh(2);
    no_material.material = None;
    let mut no_mesh_instance = mesh(3);
    no_mesh_instance.has_mesh_instance = false;
    let mut no_mesh = mesh(5);
    no_mesh.mesh = None;
    let skipped = vec![no_instance, no_material, opaque(6), no_mesh_instance, no_mesh];
    for visible in &skipped {
        assert!(!visible.is_transmissive());
    }
    assert!(mesh(4).is_transmissive());
    let queue = MeshQueue::new(config(), skipped, new_phase(), new_phase());
    assert_eq!(queue.action(), QueueAction::Done);
    let (depth, color) = queue.into_phases();
    assert_eq!(len(&depth), 0);
    assert_eq!(len(&color), 0);
}

#[test]
fn a_mesh_whose_pipeline_fails_is_left_out() {
    let meshes = vec![opaque(1), mesh(2), opaque(3), mesh(4), mesh(6), opaque(8)];
    let mut queue = MeshQueue::new(config(), meshes, new_phase(), new_phase());
    assert!(matches!(queue.action(), QueueAction::SpecializeDepth { index: 1, .. }));
    queue.depth_specialized(Err("no positions"));
    assert!(matches!(queue.action(), QueueAction::SpecializeDepth { index: 3, .. }));
    queue.depth_specialized::<&str>(Ok(1));
    queue.color_specialized(Err("no shader"));
    assert!(matches!(queue.action(), QueueAction::SpecializeDepth { index: 4, .. }));
    queue.depth_specialized::<&str>(Ok(2));
    queue.color_specialized::<&str>(Ok(3));
    queue.located(at(0));
    assert_eq!(queue.action(), QueueAction::Done);
    let (depth, color) = queue.into_phases();
    assert_eq!(depth.keys().map(|key| key.1).collect::<Vec<u64>>(), vec![6]);
    assert_eq!(color.keys().map(|key| key.1).collect::<Vec<u64>>(), vec![6]);
}

#[test]
fn both_phases_have_the_same_entities_in_sequence() {
    let meshes = vec![mesh(8), mesh(2), mesh(8), mesh(6)];
    let mut queue = MeshQueue::new(config(), meshes, new_phase(), new_phase());
    let mut answers: u64 = 0;
    while queue.action() != QueueAction::Done {
        match queue.action() {
            QueueAction::SpecializeDepth { .. } => queue.depth_specialized::<()>(Ok(answers)),
            QueueAction::SpecializeColor { .. } => queue.color_specialized::<()>(Ok(answers)),
            QueueAction::Locate { .. } => queue.located(at(0)),
            QueueAction::Done => unreachable!(),
        }
        answers += 1;
    }
    assert_eq!(answers, 12);
    let (mut depth, color) = queue.into_phases();
    let entities = vec![(PLACEHOLDER_ENTITY, 8), (PLACEHOLDER_ENTITY, 2), (PLACEHOLDER_ENTITY, 6)];
    assert_eq!(depth.keys().copied().collect::<Vec<(u64, u64)>>(), entities);
    assert_eq!(color.keys().copied().collect::<Vec<(u64, u64)>>(), entities);
    assert_eq!(depth[&entities[0]].pipeline, 6);
    sort(&mut depth);
    assert_eq!(depth.keys().copied().collect::<Vec<(u64, u64)>>(), entities);
}

#[test]
fn a_complete_view_is_queued_from_empty_phases() {
    match queue_view(view(PEELS), READS, 21, 22) {
        ViewQueue::Skipped { .. } => panic!("skipped"),
        ViewQueue::Queueing(queue) => {
            assert!(matches!(queue.action(), QueueAction::SpecializeDepth { index: 0, .. }));
            let (depth, _) = queue.into_phases();
            assert_eq!(len(&depth), 0);
        }
    }
}

#[test]
fn an_incomplete_view_keeps_its_phases() {
    let off = ScreenSpaceTransmission { depth_peeling: false, steps: 2 };
    let no_steps = ScreenSpaceTransmission { depth_peeling: true, steps: 0 };
    let mut no_color = view(PEELS);
    no_color.color = None;
    let mut no_key = view(PEELS);
    no_key.view_key = None;
    let mut no_meshes = view(PEELS);
    no_meshes.meshes = None;
    for incomplete in [view(off), view(no_steps), no_color, no_key, no_meshes] {
        match queue_view(incomplete, READS, 21, 22) {
            ViewQueue::Queueing(_) => panic!("queued"),
            ViewQueue::Skipped { depth, .. } => {
                assert_eq!(depth.unwrap()[&(1, 99)], stale());
            }
        }
    }
    let mut no_depth = view(PEELS);
    no_depth.depth = None;
    match queue_view(no_depth, READS, 21, 22) {
        ViewQueue::Queueing(_) => panic!("queued"),
        ViewQueue::Skipped { depth, color } => {
            assert!(depth.is_none());
            assert!(color.is_some());
        }
    }
}

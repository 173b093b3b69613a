use depth_peeling::phase::{add_item, len, new_phase, ExtraIndex, PhaseItem};
use depth_peeling::settings::ScreenSpaceTransmission;
use depth_peeling::views::{
    extract_depth_peel_camera_phases, CameraInput, RetainedView, ViewPhases,
};

fn camera(main_entity: u64, is_active: bool, depth_peeling: bool, steps: usize) -> CameraInput {
    CameraInput {
        main_entity,
        is_active,
        settings: ScreenSpaceTransmission { depth_peeling, steps },
    }
}

fn view(main_entity: u64) -> RetainedView {
    RetainedView { main_entity, auxiliary_entity: None, subview_index: 0 }
}

fn draw(entity: u64) -> PhaseItem {
    PhaseItem {
        sorting_info: None,
        distance: 0,
        entity: (1, entity),
        pipeline: 0,
        draw_function: 0,
        batch_range: (0, 1),
        extra_index: ExtraIndex::Absent,
        indexed: false,
    }
}

#[test]
fn phases_follow_the_live_cameras() {
    let mut depth = ViewPhases::new();
    let mut color = ViewPhases::new();
    let cameras = vec![
        camera(1, true, true, 4),
        camera(2, false, true, 4),
        camera(3, true, false, 4),
        camera(4, true, true, 0),
        camera(5, true, true, 1),
    ];
    let live = extract_depth_peel_camera_phases(&mut depth, &mut color, &cameras);
    assert_eq!(live, vec![view(1), view(5)]);
    for main_entity in 1..=5 {
        let expected = main_entity == 1 || main_entity == 5;
        assert_eq!(depth.contains(&view(main_entity)), expected);
        assert_eq!(color.contains(&view(main_entity)), expected);
    }

    let live = extract_depth_peel_camera_phases(
        &mut depth,
        &mut color,
        &vec![camera(3, true, true, 2), camera(5, true, true, 1)],
    );
    assert_eq!(live, vec![view(3), view(5)]);
    assert!(!depth.contains(&view(1)));
    assert!(!color.contains(&view(1)));
    assert!(depth.contains(&view(3)));
    assert!(color.contains(&view(5)));
}

#[test]
fn draws_of_a_live_view_stay() {
    let mut depth = ViewPhases::new();
    let mut color = ViewPhases::new();
    let mut phase = new_phase();
    add_item(&mut phase, draw(7));
    depth.put(view(1), phase);
    depth.put(view(2), new_phase());
    let cameras = vec![camera(1, true, true, 1)];
    extract_depth_peel_camera_phases(&mut depth, &mut color, &cameras);
    extract_depth_peel_camera_phases(&mut depth, &mut color, &cameras);
    assert!(depth.take(&view(2)).is_none());
    let phase = depth.take(&view(1)).unwrap();
    assert_eq!(phase[&(1, 7)], draw(7));
    assert!(!depth.contains(&view(1)));
    assert_eq!(len(&color.take(&view(1)).unwrap()), 0);
}

#[test]
fn no_cameras_no_phases() {
    let mut depth = ViewPhases::new();
    let mut color = ViewPhases::new();
    depth.prepare_for_new_frame(view(1));
    color.prepare_for_new_frame(view(2));
    assert!(depth.contains(&view(1)));
    let live = extract_depth_peel_camera_phases(&mut depth, &mut color, &vec![]);
    assert_eq!(live, vec![]);
    assert!(!depth.contains(&view(1)));
    assert!(!color.contains(&view(2)));
}

#[test]
fn retaining_keeps_only_listed_views() {
    let mut phases = ViewPhases::new();
    for main_entity in 0..6 {
        phases.prepare_for_new_frame(view(main_entity));
    }
    let mut shadow = view(3);
    shadow.subview_index = 1;
    phases.prepare_for_new_frame(shadow);
    phases.retain(&vec![view(1), shadow, view(4), view(9)]);
    for main_entity in 0..6 {
        assert_eq!(phases.contains(&view(main_entity)), main_entity == 1 || main_entity == 4);
    }
    assert!(phases.contains(&shadow));
    assert!(!phases.contains(&view(9)));
}

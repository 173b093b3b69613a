use bevy_render::render_resource::TextureUsages;
use depth_peeling::pass::{
    depth_peeling_pass_3d, DepthLoad, PassInput, PassStep, RenderPassPlan, StoreOp,
};
use depth_peeling::settings::ScreenSpaceTransmission;
use depth_peeling::textures::{
    configure_depth_peeling_view_targets, layer_resources, prepare_depth_peel_bind_groups,
    prepare_depth_peel_textures, select_bind_group, to_extents, CameraTarget, DepthFormat, Extent3d,
    PeelTexture, TextureDescriptor, TextureDimension, TexturePlan, ViewDepthPeelTextures,
};

const PEELS: ScreenSpaceTransmission = ScreenSpaceTransmission { depth_peeling: true, steps: 3 };

fn input() -> PassInput {
    PassInput {
        settings: PEELS,
        has_depth_phase: true,
        has_color_phase: true,
        has_transmission_texture: true,
        target_size: Some((640, 480)),
    }
}

fn textures(layers: usize) -> ViewDepthPeelTextures<String> {
    ViewDepthPeelTextures {
        initial: String::from("initial"),
        layers: (0..layers).map(|layer| format!("layer {layer}")).collect(),
    }
}

const SIZE: Extent3d = Extent3d { width: 640, height: 480, depth_or_array_layers: 1 };

#[test]
fn layers_are_peeled_then_drawn_back_to_front() {
    assert_eq!(
        depth_peeling_pass_3d(&input(), &textures(3)),
        vec![
            PassStep::ClearInitial,
            PassStep::Depth { layer: 0 },
            PassStep::Depth { layer: 1 },
            PassStep::Depth { layer: 2 },
            PassStep::Color { layer: 2, extent: SIZE },
            PassStep::Color { layer: 1, extent: SIZE },
            PassStep::Color { layer: 0, extent: SIZE },
        ]
    );
}

#[test]
fn nothing_is_drawn_without_a_picture() {
    let depth_only = vec![PassStep::ClearInitial, PassStep::Depth { layer: 0 }];
    let mut no_texture = input();
    no_texture.has_transmission_texture = false;
    assert_eq!(depth_peeling_pass_3d(&no_texture, &textures(1)), depth_only);
    let mut no_size = input();
    no_size.target_size = None;
    assert_eq!(depth_peeling_pass_3d(&no_size, &textures(1)), depth_only);
}

#[test]
fn nothing_is_peeled_without_layers_or_phases() {
    assert_eq!(depth_peeling_pass_3d(&input(), &textures(0)), vec![]);
    let mut off = input();
    off.settings.depth_peeling = false;
    let mut no_steps = input();
    no_steps.settings.steps = 0;
    let mut no_depth = input();
    no_depth.has_depth_phase = false;
    let mut no_color = input();
    no_color.has_color_phase = false;
    for input in [off, no_steps, no_depth, no_color] {
        assert_eq!(depth_peeling_pass_3d(&input, &textures(3)), vec![]);
    }
}

#[test]
fn render_passes_of_the_steps() {
    assert_eq!(
        PassStep::ClearInitial.render_pass(),
        RenderPassPlan {
            label: "transmission_depth_peel_clear_initial_previous",
            depth_attachment: PeelTexture::Initial,
            depth_load: DepthLoad::ClearToOne,
            depth_store: StoreOp::Store,
            stencil: false,
            color_attachment: false,
        }
    );
    assert_eq!(
        PassStep::Depth { layer: 2 }.render_pass(),
        RenderPassPlan {
            label: "transmission_depth_peel_depth_layer",
            depth_attachment: PeelTexture::Layer(2),
            depth_load: DepthLoad::ClearToZero,
            depth_store: StoreOp::Store,
            stencil: false,
            color_attachment: false,
        }
    );
    assert_eq!(
        PassStep::Color { layer: 1, extent: SIZE }.render_pass(),
        RenderPassPlan {
            label: "transmission_depth_peel_color_layer",
            depth_attachment: PeelTexture::Layer(1),
            depth_load: DepthLoad::Load,
            depth_store: StoreOp::Store,
            stencil: false,
            color_attachment: true,
        }
    );
}

#[test]
fn each_layer_is_peeled_against_the_one_before() {
    let textures = textures(3);
    let opaque = String::from("opaque");
    assert_eq!(
        prepare_depth_peel_bind_groups(&opaque, &textures),
        vec![vec!["opaque", "initial"], vec!["opaque", "layer 0"], vec!["opaque", "layer 1"]]
    );
    assert_eq!(layer_resources(&opaque, &textures, 1), vec!["opaque", "layer 0"]);
    assert_eq!(textures.previous(0), "initial");
    assert_eq!(textures.previous(2), "layer 1");
}

#[test]
fn a_draw_finds_the_bind_group_of_its_layer() {
    let groups = vec!["first", "second"];
    assert_eq!(select_bind_group(&groups, 0), Ok(&"first"));
    assert_eq!(select_bind_group(&groups, 1), Ok(&"second"));
    assert_eq!(
        select_bind_group(&groups, 2),
        Err("missing transmission depth peel bind group")
    );
}

#[test]
fn every_current_layer_has_a_bind_group() {
    let textures = textures(4);
    let opaque = String::from("opaque");
    let groups = prepare_depth_peel_bind_groups(&opaque, &textures);
    for step in depth_peeling_pass_3d(&input(), &textures) {
        if let PassStep::Depth { layer } = step {
            assert!(select_bind_group(&groups, layer).is_ok());
            assert!(!groups[layer].contains(&&textures.layers[layer]));
        }
    }
}

#[test]
fn textures_for_a_view_that_peels() {
    let layer = TextureDescriptor {
        label: "transmission_depth_peel_layer_texture",
        size: SIZE,
        mip_level_count: 1,
        sample_count: 1,
        dimension: TextureDimension::D2,
        format: DepthFormat::Core3d,
        usage: (TextureUsages::RENDER_ATTACHMENT | TextureUsages::TEXTURE_BINDING).bits(),
        view_formats: &[],
    };
    let initial = TextureDescriptor {
        label: "transmission_depth_peel_initial_previous_texture",
        ..layer
    };
    assert_eq!(
        prepare_depth_peel_textures(&PEELS, Some((640, 480))),
        TexturePlan::Allocate { initial, layer, layers: 3 }
    );
    assert_eq!(prepare_depth_peel_textures(&PEELS, None), TexturePlan::Keep);
    assert_eq!(layer.usage, 0x14);
}

#[test]
fn textures_of_a_view_that_does_not_peel_go() {
    let off = ScreenSpaceTransmission { depth_peeling: false, steps: 3 };
    let no_steps = ScreenSpaceTransmission { depth_peeling: true, steps: 0 };
    assert_eq!(prepare_depth_peel_textures(&off, Some((1, 1))), TexturePlan::Remove);
    assert_eq!(prepare_depth_peel_textures(&no_steps, None), TexturePlan::Remove);
}

#[test]
fn depth_textures_of_peeling_cameras_become_bindable() {
    let attachment = TextureUsages::RENDER_ATTACHMENT.bits();
    let camera = |depth_peeling, steps| CameraTarget {
        transmission: ScreenSpaceTransmission { depth_peeling, steps },
        depth_texture_usages: attachment,
    };
    let mut cameras = vec![camera(true, 1), camera(false, 1), camera(true, 0)];
    configure_depth_peeling_view_targets(&mut cameras);
    let bindable = attachment | TextureUsages::TEXTURE_BINDING.bits();
    let usages: Vec<u32> = cameras.iter().map(|camera| camera.depth_texture_usages).collect();
    assert_eq!(usages, vec![bindable, attachment, bindable]);
    let once = cameras.clone();
    configure_depth_peeling_view_targets(&mut cameras);
    assert_eq!(cameras, once);
}

#[test]
fn extents_have_one_layer() {
    assert_eq!(to_extents((640, 480)), SIZE);
}

#[test]
fn each_texture_is_cleared_once_and_then_loaded() {
    let textures = textures(3);
    let mut cleared = vec![];
    for step in depth_peeling_pass_3d(&input(), &textures) {
        let pass = step.render_pass();
        if pass.depth_load == DepthLoad::Load {
            assert!(pass.color_attachment);
            assert!(cleared.contains(&pass.depth_attachment));
        } else {
            assert!(!pass.color_attachment);
            assert!(!cleared.contains(&pass.depth_attachment));
            cleared.push(pass.depth_attachment);
        }
    }
    assert_eq!(cleared.len(), 4);
}

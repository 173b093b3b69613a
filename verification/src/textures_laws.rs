//! Laws of the depth textures of a view.
use vstd::prelude::*;
use crate::settings::ScreenSpaceTransmission;
use crate::textures::{
    configure_depth_peeling_view_targets, layer_resources, prepare_depth_peel_bind_groups,
    prepare_depth_peel_textures, select_bind_group, to_extents, CameraTarget, DepthFormat, Extent3d,
    TextureDescriptor, TextureDimension, TexturePlan, ViewDepthPeelTextures, VIEW_BIND_GROUP_LABEL,
};

verus! {

/// The depth texture of a camera with depth peeling becomes bindable, whatever its steps,
/// and that is all that changes.
pub proof fn configuring_adds_one_usage(camera: &mut CameraTarget)
    requires
        call_ensures(CameraTarget::configure, (camera,), ()),
    ensures
        final(camera).transmission == old(camera).transmission,
        final(camera).depth_texture_usages & 0x04 == if old(camera).transmission.depth_peeling {
            0x04
        } else {
            old(camera).depth_texture_usages & 0x04
        },
        final(camera).depth_texture_usages & !0x04 == old(camera).depth_texture_usages & !0x04,
{
    let before = old(camera).depth_texture_usages;
    assert((before | 0x04) & 0x04 == 0x04 && (before | 0x04) & !0x04 == before & !0x04)
        by (bit_vector);
}

/// The cameras are configured one by one.
pub proof fn cameras_are_configured_one_by_one(
    cameras: &mut Vec<CameraTarget>,
    camera: &mut CameraTarget,
    i: int,
)
    requires
        call_ensures(configure_depth_peeling_view_targets, (cameras,), ()),
        call_ensures(CameraTarget::configure, (camera,), ()),
        0 <= i < old(cameras)@.len(),
        *old(camera) == old(cameras)@[i],
    ensures
        final(cameras)@.len() == old(cameras)@.len(),
        final(cameras)@[i] == *final(camera),
{
}

/// The extent of a size has its width and its height, and one layer.
pub proof fn extents_have_the_size(size: (u32, u32), extent: Extent3d)
    requires
        call_ensures(to_extents, (size,), extent),
    ensures
        extent.width == size.0,
        extent.height == size.1,
        extent.depth_or_array_layers == 1,
{
}

/// The textures of a view that does not peel go, whatever its size.
pub proof fn views_that_do_not_peel_lose_their_textures(
    settings: ScreenSpaceTransmission,
    target_size: Option<(u32, u32)>,
    plan: TexturePlan,
)
    requires
        call_ensures(prepare_depth_peel_textures, (&settings, target_size), plan),
    ensures
        plan is Remove <==> !settings.depth_peeling || settings.steps == 0,
        plan is Keep <==> settings.depth_peeling && settings.steps > 0 && target_size is None,
        call_requires(prepare_depth_peel_textures, (&settings, target_size)),
{
}

/// A view that peels and has a size gets one texture more than it has steps. All of them can
/// be rendered to and read, and for nothing else, are as large as the picture and differ in
/// the label alone.
pub proof fn views_that_peel_get_their_textures(
    settings: ScreenSpaceTransmission,
    size: (u32, u32),
    plan: TexturePlan,
)
    requires
        call_ensures(prepare_depth_peel_textures, (&settings, Some(size)), plan),
        settings.depth_peeling,
        settings.steps > 0,
    ensures
        plan is Allocate,
        plan->layers == settings.steps,
        plan->initial.label@ == "transmission_depth_peel_initial_previous_texture"@,
        plan->layer.label@ == "transmission_depth_peel_layer_texture"@,
        forall|texture: TextureDescriptor|
            texture == plan->initial || texture == plan->layer ==> {
                &&& (#[trigger] texture.size).width == size.0
                &&& texture.size.height == size.1
                &&& texture.size.depth_or_array_layers == 1
                &&& texture.mip_level_count == 1
                &&& texture.sample_count == 1
                &&& texture.dimension is D2
                &&& texture.format is Core3d
                &&& texture.usage == 0x14
                &&& texture.view_formats@.len() == 0
            },
{
    assert(0x10u32 | 0x04u32 == 0x14u32) by (bit_vector);
}

/// The first layer is peeled against the texture that stands before it, each other layer
/// against the layer before.
pub proof fn layers_are_peeled_in_a_chain<T>(
    textures: ViewDepthPeelTextures<T>,
    layer: usize,
    previous: &T,
)
    requires
        layer < textures.layers@.len(),
        call_ensures(ViewDepthPeelTextures::<T>::previous, (&textures, layer), previous),
    ensures
        layer == 0 ==> *previous == textures.initial,
        layer > 0 ==> *previous == textures.layers@[layer - 1],
        call_requires(ViewDepthPeelTextures::<T>::previous, (&textures, layer)),
{
}

/// A bind group holds the opaque depth, then what its layer is peeled against.
pub proof fn bind_groups_hold_two_depths<T>(
    opaque_depth: &T,
    textures: ViewDepthPeelTextures<T>,
    layer: usize,
    resources: Vec<&T>,
)
    requires
        layer < textures.layers@.len(),
        call_ensures(layer_resources::<T>, (opaque_depth, &textures, layer), resources),
    ensures
        resources@.len() == 2,
        *resources@[0] == *opaque_depth,
        layer == 0 ==> *resources@[1] == textures.initial,
        layer > 0 ==> *resources@[1] == textures.layers@[layer - 1],
        call_requires(layer_resources::<T>, (opaque_depth, &textures, layer)),
{
}

/// A view has a bind group for each layer. All of them hold the opaque depth; that of a
/// layer holds the layer before it, and that of the first the texture that stands before it.
/// They have one label.
pub proof fn each_layer_has_its_bind_group<T>(
    opaque_depth: &T,
    textures: ViewDepthPeelTextures<T>,
    groups: Vec<Vec<&T>>,
    layer: usize,
)
    requires
        call_ensures(prepare_depth_peel_bind_groups::<T>, (opaque_depth, &textures), groups),
        layer < textures.layers@.len(),
    ensures
        groups@.len() == textures.layers@.len(),
        groups@[layer as int]@.len() == 2,
        *groups@[layer as int]@[0] == *opaque_depth,
        *groups@[0]@[1] == textures.initial,
        layer + 1 < textures.layers@.len() ==> *groups@[layer + 1]@[1] == textures.layers@[layer as int],
        VIEW_BIND_GROUP_LABEL@ == "transmission_depth_peel_view_bind_group"@,
        call_requires(prepare_depth_peel_bind_groups::<T>, (opaque_depth, &textures)),
{
}

/// A draw gets the bind group of its layer, and fails exactly if there is none.
pub proof fn bind_groups_are_selected_by_layer<B>(
    bind_groups: Vec<B>,
    layer: usize,
    group: Result<&B, &'static str>,
)
    requires
        call_ensures(select_bind_group::<B>, (&bind_groups, layer), group),
    ensures
        group is Ok <==> layer < bind_groups@.len(),
        group is Ok ==> *group->Ok_0 == bind_groups@[layer as int],
        group is Err ==> group->Err_0@ == "missing transmission depth peel bind group"@,
        call_requires(select_bind_group::<B>, (&bind_groups, layer)),
{
}

} // verus!

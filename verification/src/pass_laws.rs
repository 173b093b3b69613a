//! Laws of peeling a view.
use vstd::prelude::*;
use crate::pass::{
    depth_peeling_pass_3d, peeling_steps, DepthLoad, PassInput, PassStep, RenderPassPlan, StoreOp,
};
use crate::textures::{
    extent_of, previous_texture, CameraTarget, Extent3d, PeelTexture, ViewDepthPeelTextures,
    TEXTURE_BINDING,
};

verus! {

/// Nothing is done for a view that does not peel, has no layers or lacks a phase; another
/// view has its layers peeled, and drawn onto its picture where there is one to draw onto.
pub proof fn number_of_steps(input: PassInput, layers: nat)
    ensures
        peeling_steps(input, layers).len() == if !input.ready(layers) {
            0nat
        } else if !input.composites() {
            1 + layers
        } else {
            1 + 2 * layers
        },
{
}

/// A view that does not peel, has no layers or lacks one of its phases has no steps.
pub proof fn views_that_lack_something_have_no_steps<T>(
    input: PassInput,
    textures: ViewDepthPeelTextures<T>,
    steps: Vec<PassStep>,
)
    requires
        call_ensures(depth_peeling_pass_3d::<T>, (&input, &textures), steps),
        !input.settings.depth_peeling || input.settings.steps == 0 || textures.layers@.len() == 0
            || !input.has_depth_phase || !input.has_color_phase,
    ensures
        steps@.len() == 0,
        call_requires(depth_peeling_pass_3d::<T>, (&input, &textures)),
{
}

/// A view that peels, with both phases and with layers, has its initial texture cleared
/// first and then each layer rendered, nearest first. Nothing follows unless the view has a
/// transmission texture and a size.
pub proof fn layers_are_rendered_nearest_first<T>(
    input: PassInput,
    textures: ViewDepthPeelTextures<T>,
    steps: Vec<PassStep>,
    layer: usize,
)
    requires
        call_ensures(depth_peeling_pass_3d::<T>, (&input, &textures), steps),
        input.settings.depth_peeling,
        input.settings.steps > 0,
        input.has_depth_phase,
        input.has_color_phase,
        layer < textures.layers@.len(),
    ensures
        steps@[0] == PassStep::ClearInitial,
        steps@[1 + layer] == (PassStep::Depth { layer }),
        !input.has_transmission_texture || input.target_size is None ==> steps@.len() == 1
            + textures.layers@.len(),
{
}

/// Where that view has a transmission texture and a size, each layer is also drawn onto the
/// picture, whatever the number of steps in its settings: farthest first, after all depths,
/// in the size of the picture. Those are all steps.
pub proof fn layers_are_drawn_farthest_first<T>(
    input: PassInput,
    textures: ViewDepthPeelTextures<T>,
    steps: Vec<PassStep>,
    layer: usize,
    size: (u32, u32),
)
    requires
        call_ensures(depth_peeling_pass_3d::<T>, (&input, &textures), steps),
        input.settings.depth_peeling,
        input.settings.steps > 0,
        input.has_depth_phase,
        input.has_color_phase,
        input.has_transmission_texture,
        input.target_size == Some(size),
        layer < textures.layers@.len(),
    ensures
        steps@.len() == 1 + 2 * textures.layers@.len(),
        steps@[2 * textures.layers@.len() - layer] == (PassStep::Color {
            layer,
            extent: Extent3d { width: size.0, height: size.1, depth_or_array_layers: 1 },
        }),
        steps@.contains(
            PassStep::Color {
                layer,
                extent: Extent3d { width: size.0, height: size.1, depth_or_array_layers: 1 },
            },
        ),
{
    let layers = textures.layers@.len();
    let k = 2 * layers - layer;
    assert(input.ready(layers));
    assert(input.composites());
    step_at(input, layers, k);
    assert(steps@[k] == (PassStep::Color {
        layer,
        extent: Extent3d { width: size.0, height: size.1, depth_or_array_layers: 1 },
    }));
}

/// What a step renders to and how it begins, by the step. Depth is always kept, there is
/// never a stencil, and the picture is attached exactly where a layer is drawn onto it.
pub proof fn passes_of_the_steps(step: PassStep, pass: RenderPassPlan)
    requires
        call_ensures(PassStep::render_pass, (&step,), pass),
    ensures
        pass.depth_store is Store,
        !pass.stencil,
        step is ClearInitial ==> {
            &&& pass.label@ == "transmission_depth_peel_clear_initial_previous"@
            &&& pass.depth_attachment is Initial
            &&& pass.depth_load is ClearToOne
            &&& !pass.color_attachment
        },
        step is Depth ==> {
            &&& pass.label@ == "transmission_depth_peel_depth_layer"@
            &&& pass.depth_attachment == PeelTexture::Layer(step->Depth_layer)
            &&& pass.depth_load is ClearToZero
            &&& !pass.color_attachment
        },
        step is Color ==> {
            &&& pass.label@ == "transmission_depth_peel_color_layer"@
            &&& pass.depth_attachment == PeelTexture::Layer(step->Color_layer)
            &&& pass.depth_load is Load
            &&& pass.color_attachment
        },
        call_requires(PassStep::render_pass, (&step,)),
{
}

/// Which step is where.
pub proof fn step_at(input: PassInput, layers: nat, k: int)
    requires
        0 <= k < peeling_steps(input, layers).len(),
    ensures
        input.ready(layers),
        k == 0 ==> peeling_steps(input, layers)[k] == PassStep::ClearInitial,
        1 <= k <= layers ==> peeling_steps(input, layers)[k] == (PassStep::Depth {
            layer: (k - 1) as usize,
        }),
        layers < k ==> input.composites() && peeling_steps(input, layers)[k] == (PassStep::Color {
            layer: (2 * layers - k) as usize,
            extent: extent_of(input.target_size->0),
        }),
{
}

/// What a layer is peeled against has been rendered, or cleared, by an earlier step.
pub proof fn previous_depth_is_ready(input: PassInput, layers: nat, k: int)
    requires
        layers <= usize::MAX,
        0 <= k < peeling_steps(input, layers).len(),
        peeling_steps(input, layers)[k] is Depth,
    ensures
        exists|j: int|
            0 <= j < k && !((#[trigger] peeling_steps(input, layers)[j]) is Color)
                && peeling_steps(input, layers)[j].attachment() == previous_texture(
                peeling_steps(input, layers)[k]->Depth_layer as int,
            ),
{
    step_at(input, layers, k);
    step_at(input, layers, k - 1);
    assert(peeling_steps(input, layers)[k - 1].attachment() == previous_texture(
        peeling_steps(input, layers)[k]->Depth_layer as int,
    ));
}

/// The texture that stands before the first layer is cleared to one, the textures of the
/// layers to zero, each by one step alone. The steps that draw onto the picture load what
/// is there.
pub proof fn each_texture_is_cleared_once(input: PassInput, layers: nat, j: int, k: int)
    requires
        layers <= usize::MAX,
        0 <= j < k < peeling_steps(input, layers).len(),
    ensures
        peeling_steps(input, layers)[0].attachment() == PeelTexture::Initial,
        peeling_steps(input, layers)[0].depth_load() == DepthLoad::ClearToOne,
        peeling_steps(input, layers)[k].attachment() is Layer,
        peeling_steps(input, layers)[k].depth_load() == if peeling_steps(input, layers)[k] is Color {
            DepthLoad::Load
        } else {
            DepthLoad::ClearToZero
        },
        peeling_steps(input, layers)[j].depth_load() != DepthLoad::Load && peeling_steps(
            input,
            layers,
        )[k].depth_load() != DepthLoad::Load ==> peeling_steps(input, layers)[j].attachment()
            != peeling_steps(input, layers)[k].attachment(),
{
    step_at(input, layers, 0);
    step_at(input, layers, j);
    step_at(input, layers, k);
}

/// No pass reads the texture that it renders to: a layer is peeled against another texture
/// than its own.
pub proof fn no_layer_reads_itself(layer: usize)
    ensures
        previous_texture(layer as int) != PeelTexture::Layer(layer),
{
}

/// A layer is drawn onto the picture only after the depths of all layers have been
/// rendered.
pub proof fn depth_comes_before_color(input: PassInput, layers: nat, j: int, k: int)
    requires
        layers <= usize::MAX,
        0 <= j < peeling_steps(input, layers).len(),
        0 <= k < peeling_steps(input, layers).len(),
        peeling_steps(input, layers)[k] is Color,
        !(peeling_steps(input, layers)[j] is Color),
    ensures
        j < k,
{
    step_at(input, layers, j);
    step_at(input, layers, k);
}

/// Layers are rendered from the nearest to the farthest, and drawn onto the picture from
/// the farthest to the nearest.
pub proof fn layers_are_drawn_back_to_front(input: PassInput, layers: nat, j: int, k: int)
    requires
        layers <= usize::MAX,
        0 <= j < k < peeling_steps(input, layers).len(),
    ensures
        peeling_steps(input, layers)[j] is Depth && peeling_steps(input, layers)[k] is Depth
            ==> peeling_steps(input, layers)[j]->Depth_layer
            < peeling_steps(input, layers)[k]->Depth_layer,
        peeling_steps(input, layers)[j] is Color && peeling_steps(input, layers)[k] is Color
            ==> peeling_steps(input, layers)[j]->Color_layer
            > peeling_steps(input, layers)[k]->Color_layer,
{
    step_at(input, layers, j);
    step_at(input, layers, k);
}

/// Every layer of a view that peels is rendered, and drawn onto the picture where there is
/// one to draw onto.
pub proof fn every_layer_is_drawn(input: PassInput, layers: nat, layer: usize)
    requires
        layers <= usize::MAX,
        layer < layers,
        input.ready(layers),
    ensures
        peeling_steps(input, layers).contains(PassStep::Depth { layer }),
        input.composites() ==> peeling_steps(input, layers).contains(
            PassStep::Color { layer, extent: extent_of(input.target_size->0) },
        ),
{
    let steps = peeling_steps(input, layers);
    assert(steps[1 + layer] == PassStep::Depth { layer });
    if input.composites() {
        let k = 2 * layers - layer;
        step_at(input, layers, k);
        assert(steps[k] == (PassStep::Color { layer, extent: extent_of(input.target_size->0) }));
    }
}

/// A draw of the depth phase always finds its bind group: every layer that is made the
/// current one has a texture, and so a bind group.
pub proof fn current_layer_has_bind_group(input: PassInput, layers: nat, k: int)
    requires
        layers <= usize::MAX,
        0 <= k < peeling_steps(input, layers).len(),
        peeling_steps(input, layers)[k] is Depth,
    ensures
        peeling_steps(input, layers)[k]->Depth_layer < layers,
{
    step_at(input, layers, k);
}

/// Configuring a camera again changes nothing. The depth texture of a camera that peels
/// is bindable, and no usage is lost.
pub proof fn configuring_is_idempotent(camera: CameraTarget)
    ensures
        camera.configured().configured() == camera.configured(),
        camera.transmission.depth_peeling ==> camera.configured().depth_texture_usages
            & TEXTURE_BINDING == TEXTURE_BINDING,
        camera.configured().depth_texture_usages & camera.depth_texture_usages
            == camera.depth_texture_usages,
{
    let usages = camera.depth_texture_usages;
    assert((usages | 0x04) | 0x04 == usages | 0x04 && (usages | 0x04) & 0x04 == 0x04 && (usages
        | 0x04) & usages == usages && usages & usages == usages) by (bit_vector);
}

} // verus!

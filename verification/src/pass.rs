//! The render passes that peel the transmissive meshes of a view.
use vstd::prelude::*;
use crate::settings::ScreenSpaceTransmission;
use crate::textures::{extent_of, to_extents, Extent3d, PeelTexture, ViewDepthPeelTextures};

verus! {

/// What is known of a view when its layers are to be peeled.
#[derive(Clone, Copy, Debug, PartialEq, Eq)]
pub struct PassInput {
    pub settings: ScreenSpaceTransmission,
    pub has_depth_phase: bool,
    pub has_color_phase: bool,
    /// Whether the view has a transmission texture to copy its picture to.
    pub has_transmission_texture: bool,
    pub target_size: Option<(u32, u32)>,
}

/// One step of peeling a view.
#[derive(Clone, Copy, Debug, PartialEq, Eq)]
pub enum PassStep {
    /// Clear the texture that stands before the first layer.
    ClearInitial,
    /// Make `layer` the current layer and draw the depth phase into its texture.
    Depth { layer: usize },
    /// Copy the picture of the view, of size `extent`, to its transmission texture, then
    /// draw the colour phase onto the picture at the depths of `layer`.
    Color { layer: usize, extent: Extent3d },
}

/// How a pass begins with its depth attachment.
#[derive(Clone, Copy, Debug, PartialEq, Eq)]
pub enum DepthLoad {
    /// Everything at depth one, which is nearest.
    ClearToOne,
    /// Everything at depth zero, which is farthest.
    ClearToZero,
    /// What is there.
    Load,
}

/// What becomes of an attachment when a pass ends.
#[derive(Clone, Copy, Debug, PartialEq, Eq)]
pub enum StoreOp {
    /// It is kept.
    Store,
    /// It is thrown away.
    Discard,
}

/// The render pass of a step.
#[derive(Clone, Copy, Debug, PartialEq, Eq)]
pub struct RenderPassPlan {
    pub label: &'static str,
    pub depth_attachment: PeelTexture,
    pub depth_load: DepthLoad,
    pub depth_store: StoreOp,
    /// Whether there is a stencil beside the depth.
    pub stencil: bool,
    /// Whether the picture of the view is attached.
    pub color_attachment: bool,
}

impl PassInput {
    /// The view peels, has layers, and has both phases.
    pub open spec fn ready(self, layers: nat) -> bool {
        &&& self.settings.peels()
        &&& layers != 0
        &&& self.has_depth_phase
        &&& self.has_color_phase
    }

    /// The layers can be drawn onto the picture.
    pub open spec fn composites(self) -> bool {
        self.has_transmission_texture && self.target_size is Some
    }
}

/// The depth of each layer, nearest first.
pub open spec fn depth_steps(layers: nat) -> Seq<PassStep> {
    Seq::new(layers, |i: int| PassStep::Depth { layer: i as usize })
}

/// The colour of each layer, farthest first.
pub open spec fn color_steps(layers: nat, extent: Extent3d) -> Seq<PassStep> {
    Seq::new(layers, |i: int| PassStep::Color { layer: (layers - 1 - i) as usize, extent })
}

/// All steps of peeling a view.
pub open spec fn peeling_steps(input: PassInput, layers: nat) -> Seq<PassStep> {
    if !input.ready(layers) {
        Seq::empty()
    } else {
        seq![PassStep::ClearInitial] + depth_steps(layers) + if input.composites() {
            color_steps(layers, extent_of(input.target_size->0))
        } else {
            Seq::empty()
        }
    }
}

/// The steps of peeling a view.
pub fn depth_peeling_pass_3d<T>(
    input: &PassInput,
    textures: &ViewDepthPeelTextures<T>,
) -> (steps: Vec<PassStep>)
    ensures
        steps@ == peeling_steps(*input, textures.layers@.len()),
{
    let mut steps: Vec<PassStep> = Vec::new();
    let layers: usize = textures.layers.len();
    if !input.settings.is_peeling() || layers == 0 {
        return steps;
    }
    if !input.has_depth_phase {
        return steps;
    }
    if !input.has_color_phase {
        return steps;
    }
    steps.push(PassStep::ClearInitial);
    let mut layer: usize = 0;
    while layer < layers
        invariant
            layer <= layers,
            steps@ == seq![PassStep::ClearInitial] + depth_steps(layers as nat).take(layer as int),
        decreases layers - layer,
    {
        steps.push(PassStep::Depth { layer });
        layer = layer + 1;
    }
    assert(depth_steps(layers as nat).take(layers as int) =~= depth_steps(layers as nat));
    let ghost first = steps@;
    if !input.has_transmission_texture {
        return steps;
    }
    match input.target_size {
        None => {},
        Some(size) => {
            let extent = to_extents(size);
            let mut left: usize = layers;
            while left > 0
                invariant
                    left <= layers,
                    steps@ == first + color_steps(layers as nat, extent).take(layers - left),
                decreases left,
            {
                left = left - 1;
                steps.push(PassStep::Color { layer: left, extent });
            }
            assert(color_steps(layers as nat, extent).take(layers as int) =~= color_steps(
                layers as nat,
                extent,
            ));
        },
    }
    steps
}

impl PassStep {
    /// The texture that the pass of the step renders depth to, or tests against.
    pub open spec fn attachment(self) -> PeelTexture {
        match self {
            PassStep::ClearInitial => PeelTexture::Initial,
            PassStep::Depth { layer } => PeelTexture::Layer(layer),
            PassStep::Color { layer, .. } => PeelTexture::Layer(layer),
        }
    }

    /// How the pass of the step begins with its depth attachment.
    pub open spec fn depth_load(self) -> DepthLoad {
        match self {
            PassStep::ClearInitial => DepthLoad::ClearToOne,
            PassStep::Depth { .. } => DepthLoad::ClearToZero,
            PassStep::Color { .. } => DepthLoad::Load,
        }
    }

    /// The render pass of the step.
    pub fn render_pass(&self) -> (pass: RenderPassPlan)
        ensures
            pass.depth_attachment == self.attachment(),
            pass.depth_load == self.depth_load(),
            pass.depth_store == StoreOp::Store,
            !pass.stencil,
            pass.color_attachment <==> *self is Color,
            pass.label@ == match *self {
                PassStep::ClearInitial => "transmission_depth_peel_clear_initial_previous"@,
                PassStep::Depth { .. } => "transmission_depth_peel_depth_layer"@,
                PassStep::Color { .. } => "transmission_depth_peel_color_layer"@,
            },
    {
        match *self {
            PassStep::ClearInitial => RenderPassPlan {
                label: "transmission_depth_peel_clear_initial_previous",
                depth_attachment: PeelTexture::Initial,
                depth_load: DepthLoad::ClearToOne,
                depth_store: StoreOp::Store,
                stencil: false,
                color_attachment: false,
            },
            PassStep::Depth { layer } => RenderPassPlan {
                label: "transmission_depth_peel_depth_layer",
                depth_attachment: PeelTexture::Layer(layer),
                depth_load: DepthLoad::ClearToZero,
                depth_store: StoreOp::Store,
                stencil: false,
                color_attachment: false,
            },
            PassStep::Color { layer, .. } => RenderPassPlan {
                label: "transmission_depth_peel_color_layer",
                depth_attachment: PeelTexture::Layer(layer),
                depth_load: DepthLoad::Load,
                depth_store: StoreOp::Store,
                stencil: false,
                color_attachment: true,
            },
        }
    }
}

} // verus!

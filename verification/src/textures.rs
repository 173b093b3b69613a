//! The depth textures of a view and how they are used.
use vstd::prelude::*;
use crate::settings::ScreenSpaceTransmission;

verus! {

/// The usage bit of a texture that can be bound in a bind group.
pub const TEXTURE_BINDING: u32 = 0x04;

/// The usage bit of a texture that can be attached to a render pass.
pub const RENDER_ATTACHMENT: u32 = 0x10;

/// `wgpu::TextureUsages::TEXTURE_BINDING`, by way of `bevy_render`: the third bit.
#[verifier::external_body]
fn texture_binding_bits() -> (bits: u32)
    ensures
        bits == TEXTURE_BINDING,
{
    bevy_render::render_resource::TextureUsages::TEXTURE_BINDING.bits()
}

/// `wgpu::TextureUsages::RENDER_ATTACHMENT`, by way of `bevy_render`: the fifth bit.
#[verifier::external_body]
fn render_attachment_bits() -> (bits: u32)
    ensures
        bits == RENDER_ATTACHMENT,
{
    bevy_render::render_resource::TextureUsages::RENDER_ATTACHMENT.bits()
}

/// What the setup of depth peeling reads and changes of a camera.
#[derive(Clone, Copy, Debug, PartialEq, Eq)]
pub struct CameraTarget {
    pub transmission: ScreenSpaceTransmission,
    /// Usage bits of the camera's depth texture.
    pub depth_texture_usages: u32,
}

impl CameraTarget {
    /// The camera with a depth texture that depth peeling can bind, if it peels at all.
    pub open spec fn configured(self) -> CameraTarget {
        if self.transmission.depth_peeling {
            CameraTarget {
                depth_texture_usages: self.depth_texture_usages | TEXTURE_BINDING,
                ..self
            }
        } else {
            self
        }
    }

    /// Makes the depth texture of a camera that peels bindable.
    pub fn configure(&mut self)
        ensures
            *final(self) == old(self).configured(),
    {
        if self.transmission.depth_peeling {
            self.depth_texture_usages = self.depth_texture_usages | texture_binding_bits();
        }
    }
}

/// Makes the depth textures of the cameras that peel bindable.
pub fn configure_depth_peeling_view_targets(cameras: &mut Vec<CameraTarget>)
    ensures
        final(cameras)@ == old(cameras)@.map_values(|camera: CameraTarget| camera.configured()),
{
    let ghost before = cameras@;
    let mut i: usize = 0;
    while i < cameras.len()
        invariant
            i <= cameras@.len() == before.len(),
            forall|j: int| 0 <= j < i ==> #[trigger] cameras@[j] == before[j].configured(),
            forall|j: int| i <= j < before.len() ==> #[trigger] cameras@[j] == before[j],
        decreases cameras@.len() - i,
    {
        let mut camera = cameras[i];
        camera.configure();
        cameras.set(i, camera);
        i = i + 1;
    }
    assert(cameras@ =~= before.map_values(|camera: CameraTarget| camera.configured()));
}

/// The size of a texture.
#[derive(Clone, Copy, Debug, PartialEq, Eq)]
pub struct Extent3d {
    pub width: u32,
    pub height: u32,
    pub depth_or_array_layers: u32,
}

/// The extent of a texture with one layer.
pub open spec fn extent_of(size: (u32, u32)) -> Extent3d {
    Extent3d { width: size.0, height: size.1, depth_or_array_layers: 1 }
}

/// The extent of a texture with one layer.
pub fn to_extents(size: (u32, u32)) -> (extent: Extent3d)
    ensures
        extent == extent_of(size),
{
    Extent3d { width: size.0, height: size.1, depth_or_array_layers: 1 }
}

#[derive(Clone, Copy, Debug, PartialEq, Eq)]
pub enum TextureDimension {
    D1,
    D2,
    D3,
}

#[derive(Clone, Copy, Debug, PartialEq, Eq)]
pub enum DepthFormat {
    /// The depth format of the core 3D pipeline.
    Core3d,
}

/// What a texture is created with.
#[derive(Clone, Copy, Debug, PartialEq, Eq)]
pub struct TextureDescriptor {
    pub label: &'static str,
    pub size: Extent3d,
    pub mip_level_count: u32,
    pub sample_count: u32,
    pub dimension: TextureDimension,
    pub format: DepthFormat,
    pub usage: u32,
    /// The formats that it can be viewed in beside its own.
    pub view_formats: &'static [DepthFormat],
}

impl TextureDescriptor {
    /// A depth texture that can be rendered to and then read, of one layer, without mip maps
    /// or multisampling, and viewed in its own format alone.
    pub open spec fn is_peel_texture(self, label: Seq<char>, size: (u32, u32)) -> bool {
        &&& self.label@ == label
        &&& self.size == extent_of(size)
        &&& self.mip_level_count == 1
        &&& self.sample_count == 1
        &&& self.dimension == TextureDimension::D2
        &&& self.format == DepthFormat::Core3d
        &&& self.usage == RENDER_ATTACHMENT | TEXTURE_BINDING
        &&& self.view_formats@.len() == 0
    }
}

/// What is to be done about the depth peeling textures of a view.
#[derive(Clone, Copy, Debug, PartialEq, Eq)]
pub enum TexturePlan {
    /// The view does not peel: take away its textures and bind groups.
    Remove,
    /// The view has no size yet: leave it as it is.
    Keep,
    /// Get a texture for `initial`, then `layers` textures for `layer`, and give them to
    /// the view.
    Allocate { initial: TextureDescriptor, layer: TextureDescriptor, layers: usize },
}

/// Decides what is to be done about the textures of a view with a target of the given
/// size.
pub fn prepare_depth_peel_textures(
    settings: &ScreenSpaceTransmission,
    target_size: Option<(u32, u32)>,
) -> (plan: TexturePlan)
    ensures
        plan is Remove <==> !settings.peels(),
        plan is Keep <==> settings.peels() && target_size is None,
        settings.peels() && target_size is Some ==> {
            &&& plan is Allocate
            &&& plan->initial.is_peel_texture(
                "transmission_depth_peel_initial_previous_texture"@,
                target_size->0,
            )
            &&& plan->layer.is_peel_texture(
                "transmission_depth_peel_layer_texture"@,
                target_size->0,
            )
            &&& plan->layers == settings.steps
        },
{
    if !settings.is_peeling() {
        return TexturePlan::Remove;
    }
    match target_size {
        None => TexturePlan::Keep,
        Some(size) => {
            let layer = TextureDescriptor {
                label: "transmission_depth_peel_layer_texture",
                size: to_extents(size),
                mip_level_count: 1,
                sample_count: 1,
                dimension: TextureDimension::D2,
                format: DepthFormat::Core3d,
                usage: render_attachment_bits() | texture_binding_bits(),
                view_formats: &[],
            };
            let initial = TextureDescriptor {
                label: "transmission_depth_peel_initial_previous_texture",
                ..layer
            };
            TexturePlan::Allocate { initial, layer, layers: settings.steps }
        },
    }
}

/// The depth textures of a view: one for each layer, and one that stands before the first.
pub struct ViewDepthPeelTextures<T> {
    pub initial: T,
    pub layers: Vec<T>,
}

/// Which of the depth textures of a view.
#[derive(Clone, Copy, Debug, PartialEq, Eq)]
pub enum PeelTexture {
    Initial,
    Layer(usize),
}

/// The texture whose depth a layer is peeled against.
pub open spec fn previous_texture(layer: int) -> PeelTexture {
    if layer == 0 {
        PeelTexture::Initial
    } else {
        PeelTexture::Layer((layer - 1) as usize)
    }
}

impl<T> ViewDepthPeelTextures<T> {
    pub open spec fn texture(self, which: PeelTexture) -> T {
        match which {
            PeelTexture::Initial => self.initial,
            PeelTexture::Layer(layer) => self.layers@[layer as int],
        }
    }

    /// The texture whose depth a layer is peeled against: that of the layer before, or the
    /// one that stands before the first.
    pub fn previous(&self, layer: usize) -> (texture: &T)
        requires
            layer < self.layers@.len(),
        ensures
            *texture == self.texture(previous_texture(layer as int)),
    {
        if layer == 0 {
            &self.initial
        } else {
            &self.layers[layer - 1]
        }
    }
}

/// The label of the bind groups of a view.
pub const VIEW_BIND_GROUP_LABEL: &'static str = "transmission_depth_peel_view_bind_group";

/// What the bind group of a layer binds, in the order of its bindings: the opaque depth of
/// the view, and the depth that the layer is peeled against.
pub fn layer_resources<'a, T>(
    opaque_depth: &'a T,
    textures: &'a ViewDepthPeelTextures<T>,
    layer: usize,
) -> (resources: Vec<&'a T>)
    requires
        layer < textures.layers@.len(),
    ensures
        resources@ == seq![opaque_depth, &textures.texture(previous_texture(layer as int))],
{
    let mut resources: Vec<&'a T> = Vec::with_capacity(2);
    resources.push(opaque_depth);
    resources.push(textures.previous(layer));
    resources
}

/// What the bind groups of a view bind, one group for each layer.
pub fn prepare_depth_peel_bind_groups<'a, T>(
    opaque_depth: &'a T,
    textures: &'a ViewDepthPeelTextures<T>,
) -> (groups: Vec<Vec<&'a T>>)
    ensures
        groups@.len() == textures.layers@.len(),
        forall|layer: int|
            0 <= layer < groups@.len() ==> (#[trigger] groups@[layer])@ == seq![
                opaque_depth,
                &textures.texture(previous_texture(layer)),
            ],
{
    let mut groups: Vec<Vec<&'a T>> = Vec::with_capacity(textures.layers.len());
    let mut layer: usize = 0;
    while layer < textures.layers.len()
        invariant
            layer == groups@.len() <= textures.layers@.len(),
            forall|i: int|
                0 <= i < groups@.len() ==> (#[trigger] groups@[i])@ == seq![
                    opaque_depth,
                    &textures.texture(previous_texture(i)),
                ],
        decreases textures.layers@.len() - layer,
    {
        groups.push(layer_resources(opaque_depth, textures, layer));
        layer = layer + 1;
    }
    groups
}

/// The bind group that a draw of the given layer sets, or why the draw fails.
pub fn select_bind_group<B>(bind_groups: &Vec<B>, layer: usize) -> (group: Result<&B, &'static str>)
    ensures
        layer < bind_groups@.len() ==> group == Ok::<&B, &'static str>(&bind_groups@[layer as int]),
        layer >= bind_groups@.len() ==> group is Err && group->Err_0@
            == "missing transmission depth peel bind group"@,
{
    if layer < bind_groups.len() {
        Ok(&bind_groups[layer])
    } else {
        Err("missing transmission depth peel bind group")
    }
}

} // verus!

//! The render pipelines of the two phases.
//!
//! Shaders (`H`), bind group layouts (`L`) and vertex buffer layouts (`B`) are handed
//! through as they are.
use vstd::prelude::*;
use crate::mesh_layout::{
    check_positions, get_position_layout, has_positions, position_buffer, positions_have_place,
};
use crate::textures::{DepthFormat, TextureDimension};

verus! {

/// The bind group of the depth pipeline that holds the opaque depth and the depth that a
/// layer is peeled against.
pub const DEPTH_PEEL_VIEW_BIND_GROUP: usize = 4;

/// Where the material's bind group layout comes in the colour pipeline.
pub const MATERIAL_LAYOUT_INDEX: usize = 3;

/// The shader location of vertex positions in the depth pipeline.
pub const POSITION_SHADER_LOCATION: u32 = 0;

/// A definition that a shader is compiled with.
#[derive(Debug, PartialEq, Eq)]
pub enum ShaderDefVal {
    Bool(String, bool),
    Int(String, i32),
    UInt(String, u32),
}

/// A shader definition as its contracts see it.
pub enum ShaderDef {
    Bool(Seq<char>, bool),
    Int(Seq<char>, i32),
    UInt(Seq<char>, u32),
}

impl View for ShaderDefVal {
    type V = ShaderDef;

    open spec fn view(&self) -> ShaderDef {
        match *self {
            ShaderDefVal::Bool(name, value) => ShaderDef::Bool(name@, value),
            ShaderDefVal::Int(name, value) => ShaderDef::Int(name@, value),
            ShaderDefVal::UInt(name, value) => ShaderDef::UInt(name@, value),
        }
    }
}

pub open spec fn defs_of(defs: Seq<ShaderDefVal>) -> Seq<ShaderDef> {
    defs.map_values(|def: ShaderDefVal| def@)
}

/// A definition that is merely there.
fn flag(name: &str) -> (def: ShaderDefVal)
    ensures
        def@ == ShaderDef::Bool(name@, true),
{
    ShaderDefVal::Bool(name.to_owned(), true)
}

#[derive(Clone, Copy, Debug, PartialEq, Eq)]
pub enum PrimitiveTopology {
    PointList,
    LineList,
    LineStrip,
    TriangleList,
    TriangleStrip,
}

#[derive(Clone, Copy, Debug, PartialEq, Eq)]
pub enum IndexFormat {
    Uint16,
    Uint32,
}

#[derive(Clone, Copy, Debug, PartialEq, Eq)]
pub enum Face {
    Front,
    Back,
}

/// How a depth is compared with the one that is there.
#[derive(Clone, Copy, Debug, PartialEq, Eq)]
pub enum CompareFunction {
    Never,
    Less,
    Equal,
    LessEqual,
    Greater,
    NotEqual,
    GreaterEqual,
    Always,
}

/// What is done to a stencil value.
#[derive(Clone, Copy, Debug, PartialEq, Eq)]
pub enum StencilOperation {
    Keep,
    Zero,
    Replace,
    Invert,
    IncrementClamp,
    DecrementClamp,
    IncrementWrap,
    DecrementWrap,
}

/// The stencil test of one side of a triangle, and what it does.
#[derive(Clone, Copy, Debug, PartialEq, Eq)]
pub struct StencilFaceState {
    pub compare: CompareFunction,
    pub fail_op: StencilOperation,
    pub depth_fail_op: StencilOperation,
    pub pass_op: StencilOperation,
}

/// The stencil test of a pipeline.
#[derive(Clone, Copy, Debug, PartialEq, Eq)]
pub struct StencilState {
    pub front: StencilFaceState,
    pub back: StencilFaceState,
    pub read_mask: u32,
    pub write_mask: u32,
}

impl StencilState {
    /// The stencil test that always passes and changes nothing.
    pub open spec fn ignored() -> StencilState {
        let face = StencilFaceState {
            compare: CompareFunction::Always,
            fail_op: StencilOperation::Keep,
            depth_fail_op: StencilOperation::Keep,
            pass_op: StencilOperation::Keep,
        };
        StencilState { front: face, back: face, read_mask: 0, write_mask: 0 }
    }

    /// The stencil test that always passes and changes nothing.
    pub fn ignore() -> (state: StencilState)
        ensures
            state == StencilState::ignored(),
    {
        let face = StencilFaceState {
            compare: CompareFunction::Always,
            fail_op: StencilOperation::Keep,
            depth_fail_op: StencilOperation::Keep,
            pass_op: StencilOperation::Keep,
        };
        StencilState { front: face, back: face, read_mask: 0, write_mask: 0 }
    }
}

/// What is added to depths. The slope scale and the clamp are bits of IEEE singles.
#[derive(Clone, Copy, Debug, PartialEq, Eq)]
pub struct DepthBiasState {
    pub constant: i32,
    pub slope_scale: u32,
    pub clamp: u32,
}

/// Which triangles show their front.
#[derive(Clone, Copy, Debug, PartialEq, Eq)]
pub enum FrontFace {
    Ccw,
    Cw,
}

/// How polygons are drawn.
#[derive(Clone, Copy, Debug, PartialEq, Eq)]
pub enum PolygonMode {
    Fill,
    Line,
    Point,
}

/// What a mesh pipeline key says that the depth pipeline depends on.
#[derive(Clone, Copy, Debug, PartialEq, Eq)]
pub struct DepthPeelDepthPipelineKey {
    pub msaa_samples: u32,
    pub primitive_topology: PrimitiveTopology,
    pub strip_index_format: Option<IndexFormat>,
}

/// The layouts of a view's bind groups.
pub struct ViewLayout<L> {
    pub main_layout: L,
    pub binding_array_layout: L,
    pub empty_layout: L,
}

/// The depth test of a pipeline, and whether it writes depth.
#[derive(Clone, Copy, Debug, PartialEq, Eq)]
pub struct DepthTest {
    pub depth_write_enabled: Option<bool>,
    pub depth_compare: Option<CompareFunction>,
}

/// A shader and what it is compiled with.
pub struct ShaderStage<H> {
    pub shader: H,
    pub shader_defs: Vec<ShaderDefVal>,
}

/// The depth pipeline.
pub struct DepthPipelineDescriptor<H, L, B> {
    pub label: &'static str,
    pub layout: Vec<L>,
    pub vertex: ShaderStage<H>,
    /// The function that the vertex stage starts with, if it is not the only one.
    pub vertex_entry_point: Option<&'static str>,
    pub buffers: Vec<B>,
    pub fragment: ShaderStage<H>,
    /// The function that the fragment stage starts with, if it is not the only one.
    pub fragment_entry_point: Option<&'static str>,
    /// How many colour targets the fragment stage writes to.
    pub color_targets: usize,
    pub topology: PrimitiveTopology,
    pub strip_index_format: Option<IndexFormat>,
    pub front_face: FrontFace,
    pub cull_mode: Option<Face>,
    pub unclipped_depth: bool,
    pub polygon_mode: PolygonMode,
    pub conservative: bool,
    pub depth_format: DepthFormat,
    pub depth_test: DepthTest,
    pub stencil: StencilState,
    pub depth_bias: DepthBiasState,
    pub sample_count: u32,
    pub sample_mask: u64,
    pub alpha_to_coverage_enabled: bool,
    pub immediate_size: u32,
    pub zero_initialize_workgroup_memory: bool,
}

/// What the pipelines of depth peeling are made from: the mesh pipeline (`M`), the
/// material pipeline (`P`), the depth shader, and the layout of the bind group for the
/// depths that are read, as it is described and as it is on the device (`G`).
pub struct DepthPeelPipeline<M, P, H, L, G> {
    pub mesh_pipeline: M,
    pub material_pipeline: P,
    pub depth_shader: H,
    pub depth_view_layout: L,
    pub depth_view_bind_group_layout: G,
}

/// What the depth pipeline is specialized from.
pub struct DepthPeelDepthPipeline<M, H, L> {
    pub mesh_pipeline: M,
    pub depth_shader: H,
    pub depth_view_layout: L,
}

/// The textures that the depth pipeline reads, in the order of their bindings.
#[derive(Clone, Copy, Debug, PartialEq, Eq)]
pub enum DepthBinding {
    /// The depth of the opaque meshes.
    OpaqueDepth,
    /// The depth that a layer is peeled against.
    PreviousDepth,
}

/// The shader stages that see a binding.
#[derive(Clone, Copy, Debug, PartialEq, Eq)]
pub enum ShaderVisibility {
    Vertex,
    Fragment,
    VertexAndFragment,
}

/// What is read of a texture.
#[derive(Clone, Copy, Debug, PartialEq, Eq)]
pub enum TextureSampleType {
    Float { filterable: bool },
    Depth,
    Sint,
    Uint,
}

/// How a texture is bound.
#[derive(Clone, Copy, Debug, PartialEq, Eq)]
pub struct TextureBinding {
    pub visibility: ShaderVisibility,
    pub sample_type: TextureSampleType,
    pub dimension: TextureDimension,
    pub multisampled: bool,
}

impl DepthBinding {
    /// How the texture is bound: as a depth texture without multisampling, for the fragment
    /// stage alone.
    pub fn texture_binding(&self) -> (binding: TextureBinding)
        ensures
            binding == (TextureBinding {
                visibility: ShaderVisibility::Fragment,
                sample_type: TextureSampleType::Depth,
                dimension: TextureDimension::D2,
                multisampled: false,
            }),
    {
        TextureBinding {
            visibility: ShaderVisibility::Fragment,
            sample_type: TextureSampleType::Depth,
            dimension: TextureDimension::D2,
            multisampled: false,
        }
    }
}

/// The depth textures that the fragment stage of the depth pipeline reads, and the label
/// of the layout of their bind group.
pub fn depth_view_bindings() -> (bindings: (&'static str, Vec<DepthBinding>))
    ensures
        bindings.0@ == "transmission_depth_peel_view_layout"@,
        bindings.1@ == seq![DepthBinding::OpaqueDepth, DepthBinding::PreviousDepth],
{
    let mut bindings: Vec<DepthBinding> = Vec::new();
    bindings.push(DepthBinding::OpaqueDepth);
    bindings.push(DepthBinding::PreviousDepth);
    ("transmission_depth_peel_view_layout", bindings)
}

/// What the depth shader is compiled with.
pub open spec fn depth_shader_defs(msaa_samples: u32) -> Seq<ShaderDef> {
    let defs = seq![
        ShaderDef::Bool("MESH_PIPELINE"@, true),
        ShaderDef::Bool("VERTEX_OUTPUT_INSTANCE_INDEX"@, true),
        ShaderDef::Bool("TRANSMISSION_DEPTH_PEEL_PASS"@, true),
    ];
    if msaa_samples > 1 {
        defs.push(ShaderDef::Bool("MULTISAMPLED"@, true))
    } else {
        defs
    }
}

/// What the depth shader is compiled with.
fn new_depth_shader_defs(msaa_samples: u32) -> (defs: Vec<ShaderDefVal>)
    ensures
        defs_of(defs@) == depth_shader_defs(msaa_samples),
{
    let mut defs: Vec<ShaderDefVal> = Vec::new();
    defs.push(flag("MESH_PIPELINE"));
    defs.push(flag("VERTEX_OUTPUT_INSTANCE_INDEX"));
    defs.push(flag("TRANSMISSION_DEPTH_PEEL_PASS"));
    if msaa_samples > 1 {
        defs.push(flag("MULTISAMPLED"));
    }
    assert(defs_of(defs@) =~= depth_shader_defs(msaa_samples));
    defs
}

impl<M: Clone, H: Clone, L: Clone> DepthPeelDepthPipeline<M, H, L> {
    /// The part of the resource that the depth pipeline is specialized from.
    pub fn from<P, G>(pipeline: &DepthPeelPipeline<M, P, H, L, G>) -> (depth: Self)
        ensures
            cloned(pipeline.mesh_pipeline, depth.mesh_pipeline),
            cloned(pipeline.depth_shader, depth.depth_shader),
            cloned(pipeline.depth_view_layout, depth.depth_view_layout),
    {
        DepthPeelDepthPipeline {
            mesh_pipeline: pipeline.mesh_pipeline.clone(),
            depth_shader: pipeline.depth_shader.clone(),
            depth_view_layout: pipeline.depth_view_layout.clone(),
        }
    }

    /// Whether a descriptor is that of the depth pipeline: the nearest fragment wins and
    /// its depth is written without bias, no colour is, both faces are drawn, there is one
    /// vertex buffer, and the bind groups are those of the view, its binding array, the
    /// mesh, an empty one, and the depths that are read.
    pub open spec fn describes<B>(
        self,
        key: DepthPeelDepthPipelineKey,
        buffer: B,
        view_layout: ViewLayout<L>,
        mesh_layout: L,
        descriptor: DepthPipelineDescriptor<H, L, B>,
    ) -> bool {
        &&& descriptor.label@ == "transmission_depth_peel_depth_pipeline"@
        &&& descriptor.layout@.len() == 5
        &&& descriptor.layout@[0] == view_layout.main_layout
        &&& descriptor.layout@[1] == view_layout.binding_array_layout
        &&& descriptor.layout@[2] == mesh_layout
        &&& descriptor.layout@[3] == view_layout.empty_layout
        &&& cloned(self.depth_view_layout, descriptor.layout@[DEPTH_PEEL_VIEW_BIND_GROUP as int])
        &&& cloned(self.depth_shader, descriptor.vertex.shader)
        &&& defs_of(descriptor.vertex.shader_defs@) == depth_shader_defs(key.msaa_samples)
        &&& descriptor.vertex_entry_point is None
        &&& descriptor.buffers@ == seq![buffer]
        &&& cloned(self.depth_shader, descriptor.fragment.shader)
        &&& defs_of(descriptor.fragment.shader_defs@) == depth_shader_defs(key.msaa_samples)
        &&& descriptor.fragment_entry_point is None
        &&& descriptor.color_targets == 0
        &&& descriptor.topology == key.primitive_topology
        &&& descriptor.strip_index_format == key.strip_index_format
        &&& descriptor.front_face == FrontFace::Ccw
        &&& descriptor.cull_mode is None
        &&& !descriptor.unclipped_depth
        &&& descriptor.polygon_mode == PolygonMode::Fill
        &&& !descriptor.conservative
        &&& descriptor.depth_format == DepthFormat::Core3d
        &&& descriptor.depth_test.depth_write_enabled == Some(true)
        &&& descriptor.depth_test.depth_compare == Some(CompareFunction::GreaterEqual)
        &&& descriptor.stencil == StencilState::ignored()
        &&& descriptor.depth_bias == (DepthBiasState { constant: 0, slope_scale: 0, clamp: 0 })
        &&& descriptor.sample_count == key.msaa_samples
        &&& descriptor.sample_mask == u64::MAX
        &&& !descriptor.alpha_to_coverage_enabled
        &&& descriptor.immediate_size == 0
        &&& !descriptor.zero_initialize_workgroup_memory
    }

    /// What specializing the depth pipeline results in: its descriptor, where there is a
    /// vertex buffer with positions, and else the reason why there is none.
    pub open spec fn specializes<B, E>(
        self,
        key: DepthPeelDepthPipelineKey,
        buffer: Result<B, E>,
        view_layout: ViewLayout<L>,
        mesh_layout: L,
        descriptor: Result<DepthPipelineDescriptor<H, L, B>, E>,
    ) -> bool {
        match buffer {
            Err(error) => descriptor is Err && descriptor->Err_0 == error,
            Ok(buffer) => descriptor is Ok && self.describes(
                key,
                buffer,
                view_layout,
                mesh_layout,
                descriptor->Ok_0,
            ),
        }
    }

    /// Specializes the depth pipeline for a mesh with the given vertex layout. Positions that
    /// the layout lists have a place in its buffer.
    pub fn specialize(
        &self,
        key: DepthPeelDepthPipelineKey,
        layout: &bevy_mesh::MeshVertexBufferLayout,
        view_layout: ViewLayout<L>,
        mesh_layout: L,
    ) -> (descriptor: Result<
        DepthPipelineDescriptor<H, L, bevy_mesh::VertexBufferLayout>,
        bevy_mesh::MissingVertexAttributeError,
    >)
        requires
            positions_have_place(*layout),
        ensures
            self.specializes(
                key,
                position_buffer(*layout, POSITION_SHADER_LOCATION),
                view_layout,
                mesh_layout,
                descriptor,
            ),
            descriptor is Ok <==> has_positions(*layout),
    {
        let buffer = get_position_layout(layout, POSITION_SHADER_LOCATION);
        self.specialize_with_buffer(key, buffer, view_layout, mesh_layout)
    }

    /// Specializes the depth pipeline as [`DepthPeelDepthPipeline::specialize`] does, unless
    /// the layout lists positions that have no place in its buffer.
    pub fn try_specialize(
        &self,
        key: DepthPeelDepthPipelineKey,
        layout: &bevy_mesh::MeshVertexBufferLayout,
        view_layout: ViewLayout<L>,
        mesh_layout: L,
    ) -> (descriptor: Option<
        Result<
            DepthPipelineDescriptor<H, L, bevy_mesh::VertexBufferLayout>,
            bevy_mesh::MissingVertexAttributeError,
        >,
    >)
        ensures
            descriptor is Some <==> positions_have_place(*layout),
            descriptor is Some ==> {
                &&& self.specializes(
                    key,
                    position_buffer(*layout, POSITION_SHADER_LOCATION),
                    view_layout,
                    mesh_layout,
                    descriptor->0,
                )
                &&& descriptor->0 is Ok <==> has_positions(*layout)
            },
    {
        if check_positions(layout) {
            Some(self.specialize(key, layout, view_layout, mesh_layout))
        } else {
            None
        }
    }

    /// Specializes the depth pipeline. `buffer` is the layout of a vertex buffer with the
    /// positions of the mesh, or why there is none.
    pub fn specialize_with_buffer<B, E>(
        &self,
        key: DepthPeelDepthPipelineKey,
        buffer: Result<B, E>,
        view_layout: ViewLayout<L>,
        mesh_layout: L,
    ) -> (descriptor: Result<DepthPipelineDescriptor<H, L, B>, E>)
        ensures
            self.specializes(key, buffer, view_layout, mesh_layout, descriptor),
    {
        let vertex_buffer_layout = match buffer {
            Ok(layout) => layout,
            Err(error) => {
                return Err(error);
            },
        };
        let mut layout: Vec<L> = Vec::new();
        layout.push(view_layout.main_layout);
        layout.push(view_layout.binding_array_layout);
        layout.push(mesh_layout);
        layout.push(view_layout.empty_layout);
        layout.push(self.depth_view_layout.clone());
        let mut buffers: Vec<B> = Vec::new();
        buffers.push(vertex_buffer_layout);
        Ok(
            DepthPipelineDescriptor {
                label: "transmission_depth_peel_depth_pipeline",
                layout,
                vertex: ShaderStage {
                    shader: self.depth_shader.clone(),
                    shader_defs: new_depth_shader_defs(key.msaa_samples),
                },
                vertex_entry_point: None,
                buffers,
                fragment: ShaderStage {
                    shader: self.depth_shader.clone(),
                    shader_defs: new_depth_shader_defs(key.msaa_samples),
                },
                fragment_entry_point: None,
                color_targets: 0,
                topology: key.primitive_topology,
                strip_index_format: key.strip_index_format,
                front_face: FrontFace::Ccw,
                cull_mode: None,
                unclipped_depth: false,
                polygon_mode: PolygonMode::Fill,
                conservative: false,
                depth_format: DepthFormat::Core3d,
                depth_test: DepthTest {
                    depth_write_enabled: Some(true),
                    depth_compare: Some(CompareFunction::GreaterEqual),
                },
                stencil: StencilState::ignore(),
                depth_bias: DepthBiasState { constant: 0, slope_scale: 0, clamp: 0 },
                sample_count: key.msaa_samples,
                sample_mask: u64::MAX,
                alpha_to_coverage_enabled: false,
                immediate_size: 0,
                zero_initialize_workgroup_memory: false,
            },
        )
    }
}

/// What the colour pipeline changes of the mesh pipeline. Everything else is kept.
pub struct PipelineParts<H, L> {
    pub layout: Vec<L>,
    pub vertex: ShaderStage<H>,
    pub fragment: Option<ShaderStage<H>>,
    pub depth_test: Option<DepthTest>,
}

/// What the colour pipeline takes from a material.
pub struct DepthPeelColorPipeline<H, L> {
    pub vertex_shader: Option<H>,
    pub fragment_shader: Option<H>,
    pub material_layout: Option<L>,
    pub bindless: bool,
    /// The bind group that the shaders find the material in.
    pub material_bind_group: u32,
}

/// `after` is `before` with one more definition, and with `shader` if there is one.
pub open spec fn stage_changed<H>(
    before: ShaderStage<H>,
    shader: Option<H>,
    def: ShaderDef,
    after: ShaderStage<H>,
) -> bool {
    &&& after.shader == match shader {
        Some(shader) => shader,
        None => before.shader,
    }
    &&& defs_of(after.shader_defs@) == defs_of(before.shader_defs@).push(def)
}

/// Adds a definition to a stage, and replaces its shader if there is another.
fn change_stage<H>(stage: ShaderStage<H>, shader: Option<H>, def: ShaderDefVal) -> (after:
    ShaderStage<H>)
    ensures
        stage_changed(stage, shader, def@, after),
{
    let ghost before = stage.shader_defs@;
    let mut shader_defs = stage.shader_defs;
    shader_defs.push(def);
    assert(defs_of(shader_defs@) =~= defs_of(before).push(def@));
    match shader {
        Some(shader) => ShaderStage { shader, shader_defs },
        None => ShaderStage { shader: stage.shader, shader_defs },
    }
}

impl<H, L> DepthPeelColorPipeline<H, L> {
    /// The mesh pipeline that the colour pipeline can be made from: it has bind groups
    /// before the material's, the material has a bind group layout, and a fragment shader
    /// of the material has a stage to go to.
    pub open spec fn fits(self, base: PipelineParts<H, L>) -> bool {
        &&& base.layout@.len() >= MATERIAL_LAYOUT_INDEX
        &&& self.material_layout is Some
        &&& self.fragment_shader is Some ==> base.fragment is Some
    }

    /// `after` is `base` with the shaders and the bind group of the material.
    pub open spec fn with_material(
        self,
        base: PipelineParts<H, L>,
        after: PipelineParts<H, L>,
    ) -> bool {
        let def = ShaderDef::UInt("MATERIAL_BIND_GROUP"@, self.material_bind_group);
        &&& after.layout@ == base.layout@.insert(
            MATERIAL_LAYOUT_INDEX as int,
            self.material_layout->0,
        )
        &&& stage_changed(base.vertex, self.vertex_shader, def, after.vertex)
        &&& after.fragment is Some <==> base.fragment is Some
        &&& base.fragment is Some ==> stage_changed(
            base.fragment->0,
            self.fragment_shader,
            def,
            after.fragment->0,
        )
        &&& after.depth_test == base.depth_test
    }

    /// Gives the mesh pipeline the shaders and the bind group of the material.
    fn add_material(self, base: PipelineParts<H, L>) -> (parts: PipelineParts<H, L>)
        requires
            self.fits(base),
        ensures
            self.with_material(base, parts),
    {
        let mut layout = base.layout;
        layout.insert(MATERIAL_LAYOUT_INDEX, self.material_layout.unwrap());
        let name: &str = "MATERIAL_BIND_GROUP";
        let vertex = change_stage(
            base.vertex,
            self.vertex_shader,
            ShaderDefVal::UInt(name.to_owned(), self.material_bind_group),
        );
        let fragment = match base.fragment {
            Some(stage) => Some(
                change_stage(
                    stage,
                    self.fragment_shader,
                    ShaderDefVal::UInt(name.to_owned(), self.material_bind_group),
                ),
            ),
            None => None,
        };
        PipelineParts { layout, vertex, fragment, depth_test: base.depth_test }
    }

    /// Specializes the colour pipeline. `base` is the mesh pipeline, or why there is none.
    /// `user_specialize` is the material's own say in the matter: it sees the pipeline with
    /// the material added, and what it returns is finished.
    pub fn specialize<E, F>(self, base: Result<PipelineParts<H, L>, E>, user_specialize: Option<F>) -> (
    pipeline: Result<PipelineParts<H, L>, E>) where
        F: FnOnce(PipelineParts<H, L>) -> Result<PipelineParts<H, L>, E>,

        requires
            base is Ok ==> self.fits(base->Ok_0),
            user_specialize is Some ==> forall|parts: PipelineParts<H, L>|
                call_requires(user_specialize->0, (parts,)),
        ensures
            base is Err ==> pipeline is Err && pipeline->Err_0 == base->Err_0,
            base is Ok && user_specialize is None ==> pipeline is Ok && exists|
                with_material: PipelineParts<H, L>,
            | #[trigger]
                self.with_material(base->Ok_0, with_material) && finished(
                    self.bindless,
                    with_material,
                    pipeline->Ok_0,
                ),
            base is Ok && user_specialize is Some ==> exists|
                with_material: PipelineParts<H, L>,
                answer: Result<PipelineParts<H, L>, E>,
            |
                #![trigger self.with_material(base->Ok_0, with_material), call_ensures(user_specialize->0, (with_material,), answer)]
                {
                    &&& self.with_material(base->Ok_0, with_material)
                    &&& call_ensures(user_specialize->0, (with_material,), answer)
                    &&& match answer {
                        Err(error) => pipeline is Err && pipeline->Err_0 == error,
                        Ok(parts) => pipeline is Ok && finished(
                            self.bindless,
                            parts,
                            pipeline->Ok_0,
                        ),
                    }
                },
    {
        let bindless = self.bindless;
        let base_parts = match base {
            Ok(parts) => parts,
            Err(error) => {
                return Err(error);
            },
        };
        let with_material = self.add_material(base_parts);
        match user_specialize {
            None => Ok(finish(bindless, with_material)),
            Some(specialize) => match specialize(with_material) {
                Ok(parts) => Ok(finish(bindless, parts)),
                Err(error) => Err(error),
            },
        }
    }
}

/// `after` is `base` as a pipeline that draws exactly at the depths that are there and
/// writes none.
pub open spec fn finished<H, L>(
    bindless: bool,
    base: PipelineParts<H, L>,
    after: PipelineParts<H, L>,
) -> bool {
    let def = ShaderDef::Bool("BINDLESS"@, true);
    &&& after.layout == base.layout
    &&& !bindless ==> after.vertex == base.vertex && after.fragment == base.fragment
    &&& bindless ==> {
        &&& stage_changed(base.vertex, None, def, after.vertex)
        &&& after.fragment is Some <==> base.fragment is Some
        &&& base.fragment is Some ==> stage_changed(base.fragment->0, None, def, after.fragment->0)
    }
    &&& after.depth_test == match base.depth_test {
        Some(_) => Some(
            DepthTest {
                depth_write_enabled: Some(false),
                depth_compare: Some(CompareFunction::Equal),
            },
        ),
        None => None,
    }
}

/// Lets a pipeline draw exactly at the depths that are there and write none.
fn finish<H, L>(bindless: bool, parts: PipelineParts<H, L>) -> (after: PipelineParts<H, L>)
    ensures
        finished(bindless, parts, after),
{
    let mut after = parts;
    if bindless {
        after.vertex = change_stage(after.vertex, None, flag("BINDLESS"));
        after.fragment = match after.fragment {
            Some(stage) => Some(change_stage(stage, None, flag("BINDLESS"))),
            None => None,
        };
    }
    after.depth_test = match after.depth_test {
        Some(_) => Some(
            DepthTest {
                depth_write_enabled: Some(false),
                depth_compare: Some(CompareFunction::Equal),
            },
        ),
        None => None,
    };
    after
}

} // verus!

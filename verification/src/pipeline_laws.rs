//! Laws of the two pipelines.
use vstd::prelude::*;
use crate::mesh_layout::{attribute_count, attribute_ids, position_buffer, position_id};
use crate::pipeline::{
    defs_of, depth_shader_defs, depth_view_bindings, finished, stage_changed, CompareFunction,
    DepthBinding, DepthPeelColorPipeline, DepthPeelDepthPipeline, DepthPeelDepthPipelineKey,
    DepthPeelPipeline, DepthPipelineDescriptor, DepthTest, PipelineParts, ShaderDef, ShaderDefVal,
    ShaderStage, StencilFaceState, StencilState, TextureBinding, ViewLayout,
    DEPTH_PEEL_VIEW_BIND_GROUP, MATERIAL_LAYOUT_INDEX, POSITION_SHADER_LOCATION,
};
use crate::textures::DepthFormat;

verus! {

/// The depth pipeline writes the depth of the fragment that wins. The colour pipeline draws
/// at the depth that is there alone and leaves it as it is, whatever the material did to the
/// pipeline.
pub proof fn color_is_drawn_at_peeled_depths<M: Clone, H: Clone, L: Clone, B>(
    depth_pipeline: DepthPeelDepthPipeline<M, H, L>,
    key: DepthPeelDepthPipelineKey,
    buffer: B,
    view_layout: ViewLayout<L>,
    mesh_layout: L,
    depth: DepthPipelineDescriptor<H, L, B>,
    bindless: bool,
    customized: PipelineParts<H, L>,
    color: PipelineParts<H, L>,
)
    requires
        depth_pipeline.describes(key, buffer, view_layout, mesh_layout, depth),
        finished(bindless, customized, color),
        customized.depth_test is Some,
    ensures
        depth.depth_test.depth_write_enabled == Some(true),
        depth.depth_test.depth_compare == Some(CompareFunction::GreaterEqual),
        color.depth_test is Some,
        color.depth_test->0.depth_write_enabled == Some(false),
        color.depth_test->0.depth_compare == Some(CompareFunction::Equal),
{
}

/// The material's bind group comes where it belongs. The bind groups before it stay where
/// they are, those after it move up by one.
pub proof fn material_bind_group_is_in_place<H, L>(
    material: DepthPeelColorPipeline<H, L>,
    base: PipelineParts<H, L>,
    after: PipelineParts<H, L>,
)
    requires
        material.fits(base),
        material.with_material(base, after),
    ensures
        after.layout@.len() == base.layout@.len() + 1,
        after.layout@[MATERIAL_LAYOUT_INDEX as int] == material.material_layout->0,
        forall|i: int|
            0 <= i < MATERIAL_LAYOUT_INDEX ==> #[trigger] after.layout@[i] == base.layout@[i],
        forall|i: int|
            MATERIAL_LAYOUT_INDEX <= i < base.layout@.len() ==> after.layout@[i + 1]
                == #[trigger] base.layout@[i],
{
}

/// The depth pipeline has a bind group for the depths that it reads, and it is the last.
pub proof fn depth_view_bind_group_is_last<M: Clone, H: Clone, L: Clone, B>(
    depth_pipeline: DepthPeelDepthPipeline<M, H, L>,
    key: DepthPeelDepthPipelineKey,
    buffer: B,
    view_layout: ViewLayout<L>,
    mesh_layout: L,
    depth: DepthPipelineDescriptor<H, L, B>,
)
    requires
        depth_pipeline.describes(key, buffer, view_layout, mesh_layout, depth),
    ensures
        depth.layout@.len() == DEPTH_PEEL_VIEW_BIND_GROUP + 1,
        cloned(depth_pipeline.depth_view_layout, depth.layout@.last()),
{
}

/// Two depth pipelines are alike. The shaders and the layout of the depths that are read
/// are both clones of the same; all else is equal.
pub open spec fn alike<M: Clone, H: Clone, L: Clone, B>(
    pipeline: DepthPeelDepthPipeline<M, H, L>,
    a: DepthPipelineDescriptor<H, L, B>,
    b: DepthPipelineDescriptor<H, L, B>,
) -> bool {
    let last = DEPTH_PEEL_VIEW_BIND_GROUP as int;
    &&& a.label@ == b.label@
    &&& a.layout@.len() == b.layout@.len() == last + 1
    &&& a.layout@.take(last) == b.layout@.take(last)
    &&& cloned(pipeline.depth_view_layout, a.layout@[last])
    &&& cloned(pipeline.depth_view_layout, b.layout@[last])
    &&& cloned(pipeline.depth_shader, a.vertex.shader)
    &&& cloned(pipeline.depth_shader, b.vertex.shader)
    &&& cloned(pipeline.depth_shader, a.fragment.shader)
    &&& cloned(pipeline.depth_shader, b.fragment.shader)
    &&& defs_of(a.vertex.shader_defs@) == defs_of(b.vertex.shader_defs@)
    &&& defs_of(a.fragment.shader_defs@) == defs_of(b.fragment.shader_defs@)
    &&& a.vertex_entry_point == b.vertex_entry_point
    &&& a.fragment_entry_point == b.fragment_entry_point
    &&& a.buffers@ == b.buffers@
    &&& a.color_targets == b.color_targets
    &&& a.topology == b.topology
    &&& a.strip_index_format == b.strip_index_format
    &&& a.front_face == b.front_face
    &&& a.cull_mode == b.cull_mode
    &&& a.unclipped_depth == b.unclipped_depth
    &&& a.polygon_mode == b.polygon_mode
    &&& a.conservative == b.conservative
    &&& a.depth_format == b.depth_format
    &&& a.depth_test == b.depth_test
    &&& a.stencil == b.stencil
    &&& a.depth_bias == b.depth_bias
    &&& a.sample_count == b.sample_count
    &&& a.sample_mask == b.sample_mask
    &&& a.alpha_to_coverage_enabled == b.alpha_to_coverage_enabled
    &&& a.immediate_size == b.immediate_size
    &&& a.zero_initialize_workgroup_memory == b.zero_initialize_workgroup_memory
}

/// The depth pipeline of a mesh depends on its key by the number of samples, the topology,
/// the strip index format and the layouts of the view alone: where these agree, two
/// specializations fail with the same reason or give pipelines that are alike. They are
/// equal where shaders and layouts are equal to their clones.
pub proof fn depth_pipeline_depends_on_key_parts<M: Clone, H: Clone, L: Clone, B, E>(
    pipeline: DepthPeelDepthPipeline<M, H, L>,
    keys: (DepthPeelDepthPipelineKey, DepthPeelDepthPipelineKey),
    buffer: Result<B, E>,
    view_layouts: (ViewLayout<L>, ViewLayout<L>),
    mesh_layout: L,
    a: Result<DepthPipelineDescriptor<H, L, B>, E>,
    b: Result<DepthPipelineDescriptor<H, L, B>, E>,
)
    requires
        keys.0.msaa_samples == keys.1.msaa_samples,
        keys.0.primitive_topology == keys.1.primitive_topology,
        keys.0.strip_index_format == keys.1.strip_index_format,
        view_layouts.0 == view_layouts.1,
        pipeline.specializes(keys.0, buffer, view_layouts.0, mesh_layout, a),
        pipeline.specializes(keys.1, buffer, view_layouts.1, mesh_layout, b),
    ensures
        a is Ok <==> b is Ok,
        a is Err ==> a->Err_0 == b->Err_0,
        a is Ok ==> alike(pipeline, a->Ok_0, b->Ok_0),
        a is Ok && (forall|l: L| #[trigger]
            cloned(pipeline.depth_view_layout, l) ==> l == pipeline.depth_view_layout) ==> (
        a->Ok_0).layout@ == (b->Ok_0).layout@,
        a is Ok && (forall|h: H| #[trigger]
            cloned(pipeline.depth_shader, h) ==> h == pipeline.depth_shader) ==> (
        a->Ok_0).vertex.shader == (b->Ok_0).vertex.shader && (a->Ok_0).fragment.shader == (
        b->Ok_0).fragment.shader,
{
    if a is Ok {
        let last = DEPTH_PEEL_VIEW_BIND_GROUP as int;
        assert((a->Ok_0).layout@.take(last) =~= (b->Ok_0).layout@.take(last));
        if forall|l: L| #[trigger]
            cloned(pipeline.depth_view_layout, l) ==> l == pipeline.depth_view_layout {
            assert((a->Ok_0).layout@ =~= (b->Ok_0).layout@);
        }
    }
}

/// The depth shader is told of multisampling exactly if there is any.
pub proof fn multisampling_is_told(msaa_samples: u32)
    ensures
        depth_shader_defs(msaa_samples).contains(ShaderDef::Bool("MULTISAMPLED"@, true)) <==> msaa_samples > 1,
{
    reveal_strlit("MULTISAMPLED");
    reveal_strlit("MESH_PIPELINE");
    reveal_strlit("VERTEX_OUTPUT_INSTANCE_INDEX");
    reveal_strlit("TRANSMISSION_DEPTH_PEEL_PASS");
    let defs = depth_shader_defs(msaa_samples);
    if msaa_samples > 1 {
        assert(defs[3] == ShaderDef::Bool("MULTISAMPLED"@, true));
    } else {
        assert("MULTISAMPLED"@.len() == 12);
        assert("MESH_PIPELINE"@.len() == 13);
        assert("VERTEX_OUTPUT_INSTANCE_INDEX"@.len() == 28);
        assert("TRANSMISSION_DEPTH_PEEL_PASS"@.len() == 28);
    }
}

/// The depth pipeline reads two depths: the opaque one, then that which a layer is peeled
/// against.
pub proof fn two_depths_are_read(bindings: (&'static str, Vec<DepthBinding>))
    requires
        call_ensures(depth_view_bindings, (), bindings),
    ensures
        bindings.0@ == "transmission_depth_peel_view_layout"@,
        bindings.1@.len() == 2,
        bindings.1@[0] is OpaqueDepth,
        bindings.1@[1] is PreviousDepth,
        call_requires(depth_view_bindings, ()),
{
}

/// Each of them is bound as a flat depth texture with one sample, for the fragment stage
/// alone.
pub proof fn depths_are_bound_for_the_fragment_stage(binding: DepthBinding, bound: TextureBinding)
    requires
        call_ensures(DepthBinding::texture_binding, (&binding,), bound),
    ensures
        bound.visibility is Fragment,
        bound.sample_type is Depth,
        bound.dimension is D2,
        !bound.multisampled,
        call_requires(DepthBinding::texture_binding, (&binding,)),
{
}

/// A stencil test that is ignored passes always, keeps every value and has no bits.
pub proof fn ignored_stencil_does_nothing(state: StencilState)
    requires
        call_ensures(StencilState::ignore, (), state),
    ensures
        forall|face: StencilFaceState|
            face == state.front || face == state.back ==> (#[trigger] face.compare) is Always
                && face.fail_op is Keep && face.depth_fail_op is Keep && face.pass_op is Keep,
        state.read_mask == 0,
        state.write_mask == 0,
{
}

/// The depth pipeline is specialized from clones of the mesh pipeline, the depth shader and
/// the layout of the depths that are read.
pub proof fn depth_pipeline_is_cloned<M: Clone, P, H: Clone, L: Clone, G>(
    pipeline: DepthPeelPipeline<M, P, H, L, G>,
    depth: DepthPeelDepthPipeline<M, H, L>,
)
    requires
        call_ensures(DepthPeelDepthPipeline::<M, H, L>::from::<P, G>, (&pipeline,), depth),
    ensures
        cloned(pipeline.mesh_pipeline, depth.mesh_pipeline),
        cloned(pipeline.depth_shader, depth.depth_shader),
        cloned(pipeline.depth_view_layout, depth.depth_view_layout),
        call_requires(DepthPeelDepthPipeline::<M, H, L>::from::<P, G>, (&pipeline,)),
{
}

/// Two shader definitions say the same.
pub open spec fn same_def(a: ShaderDefVal, b: ShaderDefVal) -> bool {
    match (a, b) {
        (ShaderDefVal::Bool(x, v), ShaderDefVal::Bool(y, w)) => x@ == y@ && v == w,
        (ShaderDefVal::Int(x, v), ShaderDefVal::Int(y, w)) => x@ == y@ && v == w,
        (ShaderDefVal::UInt(x, v), ShaderDefVal::UInt(y, w)) => x@ == y@ && v == w,
        _ => false,
    }
}

/// A shader definition that is merely there.
pub open spec fn is_flag(def: ShaderDefVal, name: Seq<char>) -> bool {
    def is Bool && def->Bool_0@ == name && def->Bool_1
}

/// The definitions of a stage of the depth shader: three flags always, and a fourth exactly
/// if there is more than one sample.
pub open spec fn depth_stage_flags(defs: Seq<ShaderDefVal>, msaa_samples: u32) -> bool {
    &&& defs.len() >= 3
    &&& is_flag(defs[0], "MESH_PIPELINE"@)
    &&& is_flag(defs[1], "VERTEX_OUTPUT_INSTANCE_INDEX"@)
    &&& is_flag(defs[2], "TRANSMISSION_DEPTH_PEEL_PASS"@)
    &&& msaa_samples <= 1 ==> defs.len() == 3
    &&& msaa_samples > 1 ==> defs.len() == 4 && is_flag(defs[3], "MULTISAMPLED"@)
}

/// What is read off the views of definitions.
proof fn depth_flags_are_read_off(defs: Seq<ShaderDefVal>, msaa_samples: u32)
    requires
        defs_of(defs) == depth_shader_defs(msaa_samples),
    ensures
        depth_stage_flags(defs, msaa_samples),
{
    let views = defs_of(defs);
    assert(views.len() == defs.len());
    assert(views[0] == defs[0]@ && views[1] == defs[1]@ && views[2] == defs[2]@);
    if msaa_samples > 1 {
        assert(views[3] == defs[3]@);
    }
}

/// The depth pipeline of a key assembles vertices as the key says, each topology in its own
/// way, and takes as many samples. It fails exactly if there is no vertex buffer, with the
/// reason for that.
pub proof fn depth_pipelines_follow_the_key<M: Clone, H: Clone, L: Clone, B, E>(
    pipeline: DepthPeelDepthPipeline<M, H, L>,
    key: DepthPeelDepthPipelineKey,
    buffer: Result<B, E>,
    view_layout: ViewLayout<L>,
    mesh_layout: L,
    result: Result<DepthPipelineDescriptor<H, L, B>, E>,
)
    requires
        call_ensures(
            DepthPeelDepthPipeline::<M, H, L>::specialize_with_buffer::<B, E>,
            (&pipeline, key, buffer, view_layout, mesh_layout),
            result,
        ),
    ensures
        result is Ok <==> buffer is Ok,
        buffer is Err ==> result->Err_0 == buffer->Err_0,
        result is Ok ==> {
            let descriptor = result->Ok_0;
            &&& descriptor.topology is PointList <==> key.primitive_topology is PointList
            &&& descriptor.topology is LineList <==> key.primitive_topology is LineList
            &&& descriptor.topology is LineStrip <==> key.primitive_topology is LineStrip
            &&& descriptor.topology is TriangleList <==> key.primitive_topology is TriangleList
            &&& descriptor.topology is TriangleStrip <==> key.primitive_topology is TriangleStrip
            &&& descriptor.strip_index_format is Some <==> key.strip_index_format is Some
            &&& key.strip_index_format is Some ==> (descriptor.strip_index_format->0 is Uint16
                <==> key.strip_index_format->0 is Uint16)
            &&& descriptor.sample_count == key.msaa_samples
            &&& depth_stage_flags(descriptor.vertex.shader_defs@, key.msaa_samples)
            &&& depth_stage_flags(descriptor.fragment.shader_defs@, key.msaa_samples)
        },
        call_requires(
            DepthPeelDepthPipeline::<M, H, L>::specialize_with_buffer::<B, E>,
            (&pipeline, key, buffer, view_layout, mesh_layout),
        ),
{
    if result is Ok {
        let descriptor = result->Ok_0;
        depth_flags_are_read_off(descriptor.vertex.shader_defs@, key.msaa_samples);
        depth_flags_are_read_off(descriptor.fragment.shader_defs@, key.msaa_samples);
    }
}

/// Two keys that differ in topology, strip index format or samples have depth pipelines
/// that differ in the same, whatever else they are specialized with.
pub proof fn depth_pipelines_tell_keys_apart<M: Clone, H: Clone, L: Clone, B, E>(
    pipeline: DepthPeelDepthPipeline<M, H, L>,
    keys: (DepthPeelDepthPipelineKey, DepthPeelDepthPipelineKey),
    buffer: B,
    view_layout: ViewLayout<L>,
    mesh_layout: L,
    a: Result<DepthPipelineDescriptor<H, L, B>, E>,
    b: Result<DepthPipelineDescriptor<H, L, B>, E>,
)
    requires
        call_ensures(
            DepthPeelDepthPipeline::<M, H, L>::specialize_with_buffer::<B, E>,
            (&pipeline, keys.0, Ok(buffer), view_layout, mesh_layout),
            a,
        ),
        call_ensures(
            DepthPeelDepthPipeline::<M, H, L>::specialize_with_buffer::<B, E>,
            (&pipeline, keys.1, Ok(buffer), view_layout, mesh_layout),
            b,
        ),
    ensures
        a is Ok && b is Ok,
        (a->Ok_0).topology == (b->Ok_0).topology <==> keys.0.primitive_topology
            == keys.1.primitive_topology,
        (a->Ok_0).strip_index_format == (b->Ok_0).strip_index_format
            <==> keys.0.strip_index_format == keys.1.strip_index_format,
        (a->Ok_0).sample_count == (b->Ok_0).sample_count <==> keys.0.msaa_samples
            == keys.1.msaa_samples,
{
}

/// The bind groups, shaders and vertex buffer of a depth pipeline are those that it was
/// specialized with.
pub proof fn depth_pipelines_are_made_of_their_parts<M: Clone, H: Clone, L: Clone, B, E>(
    pipeline: DepthPeelDepthPipeline<M, H, L>,
    key: DepthPeelDepthPipelineKey,
    buffer: B,
    view_layout: ViewLayout<L>,
    mesh_layout: L,
    result: Result<DepthPipelineDescriptor<H, L, B>, E>,
)
    requires
        call_ensures(
            DepthPeelDepthPipeline::<M, H, L>::specialize_with_buffer::<B, E>,
            (&pipeline, key, Ok(buffer), view_layout, mesh_layout),
            result,
        ),
    ensures
        result is Ok,
        ({
            let descriptor = result->Ok_0;
            &&& descriptor.label@ == "transmission_depth_peel_depth_pipeline"@
            &&& descriptor.layout@.len() == 5
            &&& descriptor.layout@[0] == view_layout.main_layout
            &&& descriptor.layout@[1] == view_layout.binding_array_layout
            &&& descriptor.layout@[2] == mesh_layout
            &&& descriptor.layout@[3] == view_layout.empty_layout
            &&& cloned(pipeline.depth_view_layout, descriptor.layout@[4])
            &&& cloned(pipeline.depth_shader, descriptor.vertex.shader)
            &&& cloned(pipeline.depth_shader, descriptor.fragment.shader)
            &&& descriptor.buffers@.len() == 1
            &&& descriptor.buffers@[0] == buffer
            &&& descriptor.vertex_entry_point is None
            &&& descriptor.fragment_entry_point is None
        }),
{
}

/// A depth pipeline writes the depth of the nearest fragment, of both faces, and nothing
/// else: no colour, no stencil, no bias. Every sample counts, and polygons are filled.
pub proof fn depth_pipelines_write_depth_alone<M: Clone, H: Clone, L: Clone, B, E>(
    pipeline: DepthPeelDepthPipeline<M, H, L>,
    key: DepthPeelDepthPipelineKey,
    buffer: B,
    view_layout: ViewLayout<L>,
    mesh_layout: L,
    result: Result<DepthPipelineDescriptor<H, L, B>, E>,
)
    requires
        call_ensures(
            DepthPeelDepthPipeline::<M, H, L>::specialize_with_buffer::<B, E>,
            (&pipeline, key, Ok(buffer), view_layout, mesh_layout),
            result,
        ),
    ensures
        result is Ok,
        ({
            let descriptor = result->Ok_0;
            &&& descriptor.depth_format is Core3d
            &&& descriptor.depth_test.depth_write_enabled is Some
            &&& descriptor.depth_test.depth_write_enabled->0
            &&& descriptor.depth_test.depth_compare is Some
            &&& descriptor.depth_test.depth_compare->0 is GreaterEqual
            &&& descriptor.cull_mode is None
            &&& descriptor.front_face is Ccw
            &&& !descriptor.unclipped_depth
            &&& descriptor.polygon_mode is Fill
            &&& !descriptor.conservative
            &&& descriptor.color_targets == 0
            &&& descriptor.depth_bias.constant == 0
            &&& descriptor.depth_bias.slope_scale == 0
            &&& descriptor.depth_bias.clamp == 0
            &&& descriptor.sample_mask == 0xffff_ffff_ffff_ffff
            &&& !descriptor.alpha_to_coverage_enabled
            &&& descriptor.immediate_size == 0
            &&& !descriptor.zero_initialize_workgroup_memory
            &&& forall|face: StencilFaceState|
                face == descriptor.stencil.front || face == descriptor.stencil.back ==> (
                #[trigger] face.compare) is Always && face.fail_op is Keep
                    && face.depth_fail_op is Keep && face.pass_op is Keep
            &&& descriptor.stencil.read_mask == 0
            &&& descriptor.stencil.write_mask == 0
        }),
{
}

/// The depth pipeline of a mesh is that with the buffer of its positions, at the first
/// shader location. There is one exactly if some attribute of the mesh is its positions.
pub proof fn meshes_are_specialized_by_their_positions<M: Clone, H: Clone, L: Clone>(
    pipeline: DepthPeelDepthPipeline<M, H, L>,
    key: DepthPeelDepthPipelineKey,
    layout: bevy_mesh::MeshVertexBufferLayout,
    view_layout: ViewLayout<L>,
    mesh_layout: L,
    result: Result<
        DepthPipelineDescriptor<H, L, bevy_mesh::VertexBufferLayout>,
        bevy_mesh::MissingVertexAttributeError,
    >,
)
    requires
        call_ensures(
            DepthPeelDepthPipeline::<M, H, L>::specialize,
            (&pipeline, key, &layout, view_layout, mesh_layout),
            result,
        ),
    ensures
        result is Ok <==> position_buffer(layout, 0) is Ok,
        result is Ok <==> exists|i: int|
            0 <= i < attribute_ids(layout).len() && position_id(#[trigger] attribute_ids(layout)[i]),
        result is Err ==> result->Err_0 == position_buffer(layout, 0)->Err_0,
        result is Ok ==> {
            &&& (result->Ok_0).buffers@.len() == 1
            &&& (result->Ok_0).buffers@[0] == position_buffer(layout, 0)->Ok_0
            &&& (result->Ok_0).topology == key.primitive_topology
            &&& (result->Ok_0).strip_index_format == key.strip_index_format
            &&& (result->Ok_0).sample_count == key.msaa_samples
            &&& depth_stage_flags((result->Ok_0).vertex.shader_defs@, key.msaa_samples)
            &&& depth_stage_flags((result->Ok_0).fragment.shader_defs@, key.msaa_samples)
            &&& (result->Ok_0).layout@[2] == mesh_layout
        },
{
    let ids = attribute_ids(layout);
    if exists|i: int| 0 <= i < ids.len() && #[trigger] position_id(ids[i]) {
        let i = choose|i: int| 0 <= i < ids.len() && #[trigger] position_id(ids[i]);
        assert(position_id(attribute_ids(layout)[i]));
    }
    if exists|i: int| 0 <= i < ids.len() && position_id(#[trigger] attribute_ids(layout)[i]) {
        let i = choose|i: int| 0 <= i < ids.len() && position_id(#[trigger] attribute_ids(layout)[i]);
        assert(position_id(ids[i]));
    }
    if result is Ok {
        depth_flags_are_read_off((result->Ok_0).vertex.shader_defs@, key.msaa_samples);
        depth_flags_are_read_off((result->Ok_0).fragment.shader_defs@, key.msaa_samples);
    }
}

/// The checked specialization agrees with the other one, and is refused exactly if the first
/// positions that are listed have no place in the buffer.
pub proof fn checked_specialization_agrees<M: Clone, H: Clone, L: Clone>(
    pipeline: DepthPeelDepthPipeline<M, H, L>,
    key: DepthPeelDepthPipelineKey,
    layout: bevy_mesh::MeshVertexBufferLayout,
    view_layout: ViewLayout<L>,
    mesh_layout: L,
    result: Option<
        Result<
            DepthPipelineDescriptor<H, L, bevy_mesh::VertexBufferLayout>,
            bevy_mesh::MissingVertexAttributeError,
        >,
    >,
    first: int,
)
    requires
        call_ensures(
            DepthPeelDepthPipeline::<M, H, L>::try_specialize,
            (&pipeline, key, &layout, view_layout, mesh_layout),
            result,
        ),
        0 <= first < attribute_ids(layout).len(),
        position_id(attribute_ids(layout)[first]),
        forall|i: int| 0 <= i < first ==> !position_id(#[trigger] attribute_ids(layout)[i]),
    ensures
        result is Some <==> first < attribute_count(layout),
        result is Some ==> result->0 is Ok && (result->0->Ok_0).buffers@.len() == 1 && (
        result->0->Ok_0).buffers@[0] == position_buffer(layout, 0)->Ok_0 && (
        result->0->Ok_0).topology == key.primitive_topology && (
        result->0->Ok_0).strip_index_format == key.strip_index_format && (
        result->0->Ok_0).sample_count == key.msaa_samples,
        call_requires(
            DepthPeelDepthPipeline::<M, H, L>::try_specialize,
            (&pipeline, key, &layout, view_layout, mesh_layout),
        ),
{
    let ids = attribute_ids(layout);
    assert forall|i: int|
        0 <= i < ids.len() && #[trigger] position_id(ids[i]) && (forall|j: int|
            0 <= j < i ==> !(#[trigger] position_id(ids[j]))) implies i == first by {
        if i < first {
            assert(!position_id(ids[i]));
        }
        if first < i {
            assert(!position_id(ids[first]));
        }
    }
    assert forall|j: int| 0 <= j < first implies !(#[trigger] position_id(ids[j])) by {
        assert(!position_id(attribute_ids(layout)[j]));
    }
}

/// A stage keeps its definitions and gets more of them at the end. Its shader is `shader`
/// where there is one.
pub open spec fn stage_grows<H>(
    before: ShaderStage<H>,
    shader: Option<H>,
    more: nat,
    after: ShaderStage<H>,
) -> bool {
    &&& shader is Some ==> after.shader == shader->0
    &&& shader is None ==> after.shader == before.shader
    &&& after.shader_defs@.len() == before.shader_defs@.len() + more
    &&& forall|i: int|
        0 <= i < before.shader_defs@.len() ==> same_def(
            #[trigger] after.shader_defs@[i],
            before.shader_defs@[i],
        )
}

/// A stage that has learnt where the material is.
pub open spec fn stage_with_material<H>(
    before: ShaderStage<H>,
    shader: Option<H>,
    material_bind_group: u32,
    after: ShaderStage<H>,
) -> bool {
    let def = after.shader_defs@.last();
    &&& stage_grows(before, shader, 1, after)
    &&& def is UInt
    &&& def->UInt_0@ == "MATERIAL_BIND_GROUP"@
    &&& def->UInt_1 == material_bind_group
}

/// What a stage has when all is done: one flag more exactly if the material is bindless.
pub open spec fn stage_done<H>(bindless: bool, before: ShaderStage<H>, after: ShaderStage<H>) -> bool {
    if bindless {
        stage_grows(before, None, 1, after) && is_flag(after.shader_defs@.last(), "BINDLESS"@)
    } else {
        stage_grows(before, None, 0, after)
    }
}

/// A mesh pipeline that has been given a material: its bind group comes fourth, the others
/// keep their sequence, and both stages know of it.
pub open spec fn has_material<H, L>(
    material: DepthPeelColorPipeline<H, L>,
    base: PipelineParts<H, L>,
    after: PipelineParts<H, L>,
) -> bool {
    &&& after.layout@.len() == base.layout@.len() + 1
    &&& material.material_layout == Some(after.layout@[3])
    &&& forall|i: int| 0 <= i < 3 ==> #[trigger] after.layout@[i] == base.layout@[i]
    &&& forall|i: int|
        3 <= i < base.layout@.len() ==> after.layout@[i + 1] == #[trigger] base.layout@[i]
    &&& stage_with_material(
        base.vertex,
        material.vertex_shader,
        material.material_bind_group,
        after.vertex,
    )
    &&& after.fragment is Some <==> base.fragment is Some
    &&& base.fragment is Some ==> stage_with_material(
        base.fragment->0,
        material.fragment_shader,
        material.material_bind_group,
        after.fragment->0,
    )
    &&& after.depth_test == base.depth_test
}

/// A pipeline that is done: it draws at equal depths alone and writes none, if it tests
/// depth at all.
pub open spec fn is_done<H, L>(
    bindless: bool,
    before: PipelineParts<H, L>,
    after: PipelineParts<H, L>,
) -> bool {
    &&& after.layout@ == before.layout@
    &&& stage_done(bindless, before.vertex, after.vertex)
    &&& after.fragment is Some <==> before.fragment is Some
    &&& before.fragment is Some ==> stage_done(bindless, before.fragment->0, after.fragment->0)
    &&& after.depth_test is Some <==> before.depth_test is Some
    &&& before.depth_test is Some ==> {
        &&& after.depth_test->0.depth_write_enabled is Some
        &&& !after.depth_test->0.depth_write_enabled->0
        &&& after.depth_test->0.depth_compare is Some
        &&& after.depth_test->0.depth_compare->0 is Equal
    }
}

/// Definitions with the same views say the same.
proof fn same_views_say_the_same(a: ShaderDefVal, b: ShaderDefVal)
    requires
        a@ == b@,
    ensures
        same_def(a, b),
{
}

/// What is read off a stage with one definition more.
proof fn changed_stage_grows<H>(
    before: ShaderStage<H>,
    shader: Option<H>,
    def: ShaderDef,
    after: ShaderStage<H>,
)
    requires
        stage_changed(before, shader, def, after),
    ensures
        stage_grows(before, shader, 1, after),
        after.shader_defs@.last()@ == def,
{
    let old_defs = defs_of(before.shader_defs@);
    let new_defs = defs_of(after.shader_defs@);
    assert(new_defs.len() == after.shader_defs@.len());
    assert(old_defs.len() == before.shader_defs@.len());
    assert forall|i: int| 0 <= i < before.shader_defs@.len() implies same_def(
        #[trigger] after.shader_defs@[i],
        before.shader_defs@[i],
    ) by {
        assert(new_defs[i] == after.shader_defs@[i]@);
        assert(old_defs[i] == before.shader_defs@[i]@);
        same_views_say_the_same(after.shader_defs@[i], before.shader_defs@[i]);
    }
    assert(new_defs.last() == after.shader_defs@.last()@);
}

/// A stage that stays as it is.
proof fn same_stage_grows<H>(stage: ShaderStage<H>)
    ensures
        stage_grows(stage, None, 0, stage),
{
    assert forall|i: int| 0 <= i < stage.shader_defs@.len() implies same_def(
        #[trigger] stage.shader_defs@[i],
        stage.shader_defs@[i],
    ) by {
        same_views_say_the_same(stage.shader_defs@[i], stage.shader_defs@[i]);
    }
}

/// What is read off a mesh pipeline with the material added.
proof fn material_is_read_off<H, L>(
    material: DepthPeelColorPipeline<H, L>,
    base: PipelineParts<H, L>,
    after: PipelineParts<H, L>,
)
    requires
        material.with_material(base, after),
        base.layout@.len() >= 3,
        material.material_layout is Some,
    ensures
        has_material(material, base, after),
{
    let def = ShaderDef::UInt("MATERIAL_BIND_GROUP"@, material.material_bind_group);
    changed_stage_grows(base.vertex, material.vertex_shader, def, after.vertex);
    if base.fragment is Some {
        changed_stage_grows(base.fragment->0, material.fragment_shader, def, after.fragment->0);
    }
}

/// What is read off a finished pipeline.
proof fn done_is_read_off<H, L>(
    bindless: bool,
    before: PipelineParts<H, L>,
    after: PipelineParts<H, L>,
)
    requires
        finished(bindless, before, after),
    ensures
        is_done(bindless, before, after),
{
    let def = ShaderDef::Bool("BINDLESS"@, true);
    if bindless {
        changed_stage_grows(before.vertex, None, def, after.vertex);
        if before.fragment is Some {
            changed_stage_grows(before.fragment->0, None, def, after.fragment->0);
        }
    } else {
        same_stage_grows(before.vertex);
        if before.fragment is Some {
            same_stage_grows(before.fragment->0);
        }
    }
}

/// Without a say of the material, a mesh pipeline that the material fits is given the
/// material and then done. Where there is no mesh pipeline, the reason for that is handed on.
pub proof fn color_pipelines_have_the_material<H, L, E, F>(
    material: DepthPeelColorPipeline<H, L>,
    base: Result<PipelineParts<H, L>, E>,
    result: Result<PipelineParts<H, L>, E>,
) where F: FnOnce(PipelineParts<H, L>) -> Result<PipelineParts<H, L>, E>
    requires
        call_ensures(
            DepthPeelColorPipeline::<H, L>::specialize::<E, F>,
            (material, base, None::<F>),
            result,
        ),
        base is Ok ==> (base->Ok_0).layout@.len() >= 3 && material.material_layout is Some && (
        material.fragment_shader is Some ==> (base->Ok_0).fragment is Some),
    ensures
        base is Err ==> result is Err && result->Err_0 == base->Err_0,
        base is Ok ==> result is Ok && exists|given: PipelineParts<H, L>| #[trigger]
            has_material(material, base->Ok_0, given) && is_done(
                material.bindless,
                given,
                result->Ok_0,
            ),
        call_requires(
            DepthPeelColorPipeline::<H, L>::specialize::<E, F>,
            (material, base, None::<F>),
        ),
{
    if base is Ok {
        let given = choose|given: PipelineParts<H, L>| #[trigger]
            material.with_material(base->Ok_0, given) && finished(
                material.bindless,
                given,
                result->Ok_0,
            );
        material_is_read_off(material, base->Ok_0, given);
        done_is_read_off(material.bindless, given, result->Ok_0);
    }
}

/// Where the material has a say, it sees the mesh pipeline with the material given, and what
/// it answers is done; if it refuses, its reason is handed on.
pub proof fn materials_have_their_say<H, L, E, F>(
    material: DepthPeelColorPipeline<H, L>,
    base: PipelineParts<H, L>,
    user_specialize: F,
    result: Result<PipelineParts<H, L>, E>,
) where F: FnOnce(PipelineParts<H, L>) -> Result<PipelineParts<H, L>, E>
    requires
        call_ensures(
            DepthPeelColorPipeline::<H, L>::specialize::<E, F>,
            (material, Ok(base), Some(user_specialize)),
            result,
        ),
        base.layout@.len() >= 3,
        material.material_layout is Some,
        material.fragment_shader is Some ==> base.fragment is Some,
    ensures
        exists|given: PipelineParts<H, L>, answer: Result<PipelineParts<H, L>, E>|
            #![trigger has_material(material, base, given), call_ensures(user_specialize, (given,), answer)]
            {
                &&& has_material(material, base, given)
                &&& call_ensures(user_specialize, (given,), answer)
                &&& answer is Err ==> result is Err && result->Err_0 == answer->Err_0
                &&& answer is Ok ==> result is Ok && is_done(
                    material.bindless,
                    answer->Ok_0,
                    result->Ok_0,
                )
            },
{
    let (given, answer) = choose|
        given: PipelineParts<H, L>,
        answer: Result<PipelineParts<H, L>, E>,
    |
        #![trigger material.with_material(base, given), call_ensures(user_specialize, (given,), answer)]
        {
            &&& material.with_material(base, given)
            &&& call_ensures(user_specialize, (given,), answer)
            &&& match answer {
                Err(error) => result is Err && result->Err_0 == error,
                Ok(parts) => result is Ok && finished(material.bindless, parts, result->Ok_0),
            }
        };
    material_is_read_off(material, base, given);
    if answer is Ok {
        done_is_read_off(material.bindless, answer->Ok_0, result->Ok_0);
    }
}

/// The three ways to specialize the depth pipeline agree: for a mesh, for a mesh that is
/// checked first, and with the buffer of its positions at the first shader location.
pub proof fn specializations_agree<M: Clone, H: Clone, L: Clone>(
    pipeline: DepthPeelDepthPipeline<M, H, L>,
    key: DepthPeelDepthPipelineKey,
    layout: bevy_mesh::MeshVertexBufferLayout,
    view_layout: ViewLayout<L>,
    mesh_layout: L,
    a: Result<
        DepthPipelineDescriptor<H, L, bevy_mesh::VertexBufferLayout>,
        bevy_mesh::MissingVertexAttributeError,
    >,
    b: Option<
        Result<
            DepthPipelineDescriptor<H, L, bevy_mesh::VertexBufferLayout>,
            bevy_mesh::MissingVertexAttributeError,
        >,
    >,
    c: Result<
        DepthPipelineDescriptor<H, L, bevy_mesh::VertexBufferLayout>,
        bevy_mesh::MissingVertexAttributeError,
    >,
)
    requires
        call_ensures(
            DepthPeelDepthPipeline::<M, H, L>::specialize,
            (&pipeline, key, &layout, view_layout, mesh_layout),
            a,
        ),
        call_ensures(
            DepthPeelDepthPipeline::<M, H, L>::try_specialize,
            (&pipeline, key, &layout, view_layout, mesh_layout),
            b,
        ),
        call_ensures(
            DepthPeelDepthPipeline::<M, H, L>::specialize_with_buffer::<
                bevy_mesh::VertexBufferLayout,
                bevy_mesh::MissingVertexAttributeError,
            >,
            (&pipeline, key, position_buffer(layout, 0), view_layout, mesh_layout),
            c,
        ),
    ensures
        a is Ok <==> c is Ok,
        a is Err ==> a->Err_0 == c->Err_0,
        a is Ok ==> alike(pipeline, a->Ok_0, c->Ok_0),
        b is Some ==> (b->0 is Ok <==> c is Ok),
        b is Some && b->0 is Err ==> b->0->Err_0 == c->Err_0,
        b is Some && b->0 is Ok ==> alike(pipeline, b->0->Ok_0, c->Ok_0),
{
    let buffer = position_buffer(layout, 0);
    depth_pipeline_depends_on_key_parts(
        pipeline,
        (key, key),
        buffer,
        (view_layout, view_layout),
        mesh_layout,
        a,
        c,
    );
    if b is Some {
        depth_pipeline_depends_on_key_parts(
            pipeline,
            (key, key),
            buffer,
            (view_layout, view_layout),
            mesh_layout,
            b->0,
            c,
        );
    }
}

} // verus!

use bevy_mesh::{Mesh, MeshVertexBufferLayout, VertexBufferLayout};
use bevy_render::render_resource::{VertexAttribute, VertexFormat, VertexStepMode};
use depth_peeling::mesh_layout::check_positions;
use depth_peeling::pipeline::{
    depth_view_bindings, CompareFunction, DepthBiasState, DepthBinding, DepthPeelColorPipeline,
    DepthPeelDepthPipeline, DepthPeelDepthPipelineKey, DepthPeelPipeline, DepthTest, FrontFace,
    IndexFormat, PipelineParts, PolygonMode, PrimitiveTopology, ShaderDefVal, ShaderStage,
    ShaderVisibility, StencilState, TextureBinding, TextureSampleType, ViewLayout,
    DEPTH_PEEL_VIEW_BIND_GROUP,
};
use depth_peeling::textures::{DepthFormat, TextureDimension};

fn flag(name: &str) -> ShaderDefVal {
    ShaderDefVal::Bool(name.to_string(), true)
}

fn key(msaa_samples: u32) -> DepthPeelDepthPipelineKey {
    DepthPeelDepthPipelineKey {
        msaa_samples,
        primitive_topology: PrimitiveTopology::TriangleStrip,
        strip_index_format: Some(IndexFormat::Uint32),
    }
}

fn depth_pipeline() -> DepthPeelDepthPipeline<u8, String, &'static str> {
    DepthPeelDepthPipeline::from(&DepthPeelPipeline {
        mesh_pipeline: 1u8,
        material_pipeline: (),
        depth_shader: String::from("depth_prepass"),
        depth_view_layout: "depth view",
        depth_view_bind_group_layout: (),
    })
}

fn view_layout() -> ViewLayout<&'static str> {
    ViewLayout { main_layout: "main", binding_array_layout: "array", empty_layout: "empty" }
}

fn base() -> PipelineParts<&'static str, &'static str> {
    PipelineParts {
        layout: vec!["main", "array", "mesh", "extra"],
        vertex: ShaderStage { shader: "mesh", shader_defs: vec![flag("VERTEX")] },
        fragment: Some(ShaderStage { shader: "mesh", shader_defs: vec![flag("FRAGMENT")] }),
        depth_test: Some(DepthTest {
            depth_write_enabled: Some(true),
            depth_compare: Some(CompareFunction::GreaterEqual),
        }),
    }
}

fn material(bindless: bool) -> DepthPeelColorPipeline<&'static str, &'static str> {
    DepthPeelColorPipeline {
        vertex_shader: None,
        fragment_shader: Some("glass"),
        material_layout: Some("material"),
        bindless,
        material_bind_group: 3,
    }
}

type Parts = PipelineParts<&'static str, &'static str>;
type Hook = fn(Parts) -> Result<Parts, &'static str>;

const AT_DEPTH: DepthTest = DepthTest {
    depth_write_enabled: Some(false),
    depth_compare: Some(CompareFunction::Equal),
};

#[test]
fn depth_pipeline_writes_the_nearest_depth() {
    let pipeline = depth_pipeline();
    let descriptor = pipeline.specialize_with_buffer::<_, ()>(key(4), Ok("positions"), view_layout(), "mesh");
    let descriptor = descriptor.unwrap();
    assert_eq!(descriptor.label, "transmission_depth_peel_depth_pipeline");
    assert_eq!(descriptor.layout, vec!["main", "array", "mesh", "empty", "depth view"]);
    assert_eq!(descriptor.layout[DEPTH_PEEL_VIEW_BIND_GROUP], "depth view");
    let defs = vec![
        flag("MESH_PIPELINE"),
        flag("VERTEX_OUTPUT_INSTANCE_INDEX"),
        flag("TRANSMISSION_DEPTH_PEEL_PASS"),
        flag("MULTISAMPLED"),
    ];
    assert_eq!(descriptor.vertex.shader, "depth_prepass");
    assert_eq!(descriptor.vertex.shader_defs, defs);
    assert_eq!(descriptor.buffers, vec!["positions"]);
    assert_eq!(descriptor.fragment.shader, "depth_prepass");
    assert_eq!(descriptor.fragment.shader_defs, defs);
    assert_eq!(descriptor.topology, PrimitiveTopology::TriangleStrip);
    assert_eq!(descriptor.strip_index_format, Some(IndexFormat::Uint32));
    assert_eq!(descriptor.cull_mode, None);
    assert_eq!(descriptor.depth_format, DepthFormat::Core3d);
    assert_eq!(
        descriptor.depth_test,
        DepthTest {
            depth_write_enabled: Some(true),
            depth_compare: Some(CompareFunction::GreaterEqual),
        }
    );
    assert_eq!(descriptor.sample_count, 4);
    assert_eq!(descriptor.color_targets, 0);
    assert_eq!(descriptor.stencil, StencilState::ignore());
    assert_eq!(
        descriptor.depth_bias,
        DepthBiasState { constant: 0, slope_scale: 0.0f32.to_bits(), clamp: 0.0f32.to_bits() }
    );
    assert_eq!(descriptor.vertex_entry_point, None);
    assert_eq!(descriptor.fragment_entry_point, None);
    assert_eq!(descriptor.front_face, FrontFace::Ccw);
    assert_eq!(descriptor.polygon_mode, PolygonMode::Fill);
    assert!(!descriptor.unclipped_depth);
    assert!(!descriptor.conservative);
    assert_eq!(descriptor.sample_mask, !0);
    assert!(!descriptor.alpha_to_coverage_enabled);
    assert_eq!(descriptor.immediate_size, 0);
    assert!(!descriptor.zero_initialize_workgroup_memory);
}

#[test]
fn depth_pipeline_without_multisampling() {
    let pipeline = depth_pipeline();
    let descriptor = pipeline.specialize_with_buffer::<_, ()>(key(1), Ok(()), view_layout(), "mesh").unwrap();
    assert_eq!(descriptor.vertex.shader_defs.len(), 3);
    assert_eq!(descriptor.sample_count, 1);
}

#[test]
fn depth_pipeline_needs_positions() {
    let pipeline = depth_pipeline();
    let refused = pipeline.specialize_with_buffer::<(), _>(key(1), Err("no positions"), view_layout(), "mesh");
    assert_eq!(refused.err(), Some("no positions"));
}

#[test]
fn color_pipeline_draws_the_material_at_peeled_depths() {
    let parts = material(false).specialize(Ok(base()), None::<Hook>).unwrap();
    assert_eq!(parts.layout, vec!["main", "array", "mesh", "material", "extra"]);
    let def = || ShaderDefVal::UInt("MATERIAL_BIND_GROUP".to_string(), 3);
    assert_eq!(parts.vertex.shader, "mesh");
    assert_eq!(parts.vertex.shader_defs, vec![flag("VERTEX"), def()]);
    let fragment = parts.fragment.unwrap();
    assert_eq!(fragment.shader, "glass");
    assert_eq!(fragment.shader_defs, vec![flag("FRAGMENT"), def()]);
    assert_eq!(parts.depth_test, Some(AT_DEPTH));
}

#[test]
fn bindless_materials_say_so_in_both_stages() {
    let parts = material(true).specialize(Ok(base()), None::<Hook>).unwrap();
    assert_eq!(parts.vertex.shader_defs[2], flag("BINDLESS"));
    assert_eq!(parts.fragment.unwrap().shader_defs[2], flag("BINDLESS"));
}

#[test]
fn the_material_sees_the_pipeline_before_it_is_finished() {
    let hook: Hook = |mut parts| {
        assert_eq!(parts.layout[3], "material");
        assert_eq!(parts.vertex.shader_defs.len(), 2);
        parts.vertex.shader = "waves";
        parts.depth_test = Some(DepthTest { depth_write_enabled: None, depth_compare: None });
        Ok(parts)
    };
    let parts = material(true).specialize(Ok(base()), Some(hook)).unwrap();
    assert_eq!(parts.vertex.shader, "waves");
    assert_eq!(parts.vertex.shader_defs.len(), 3);
    assert_eq!(parts.depth_test, Some(AT_DEPTH));
}

#[test]
fn color_pipeline_hands_errors_on() {
    let refuse: Hook = |_| Err("refused");
    assert_eq!(material(false).specialize(Ok(base()), Some(refuse)).err(), Some("refused"));
    let accept: Hook = |parts| Ok(parts);
    assert_eq!(material(false).specialize(Err("no mesh"), Some(accept)).err(), Some("no mesh"));
}

#[test]
fn color_pipeline_without_depth_or_fragment_stage() {
    let mut bare = base();
    bare.depth_test = None;
    bare.fragment = None;
    let mut vertex_only = material(true);
    vertex_only.fragment_shader = None;
    vertex_only.vertex_shader = Some("waves");
    let parts = vertex_only.specialize(Ok(bare), None::<Hook>).unwrap();
    assert_eq!(parts.vertex.shader, "waves");
    assert!(parts.fragment.is_none());
    assert_eq!(parts.depth_test, None);
}

#[test]
fn depth_pipeline_reads_two_depths() {
    assert_eq!(
        depth_view_bindings(),
        (
            "transmission_depth_peel_view_layout",
            vec![DepthBinding::OpaqueDepth, DepthBinding::PreviousDepth]
        )
    );
}

#[test]
fn states_that_are_not_set_are_those_of_the_renderer() {
    let pipeline = depth_pipeline();
    let descriptor = pipeline.specialize_with_buffer::<_, ()>(key(1), Ok(()), view_layout(), "mesh").unwrap();
    let stencil = bevy_render::render_resource::StencilState::default();
    for (ours, theirs) in
        [(descriptor.stencil.front, stencil.front), (descriptor.stencil.back, stencil.back)]
    {
        assert_eq!(format!("{ours:?}"), format!("{theirs:?}"));
    }
    assert_eq!(descriptor.stencil.read_mask, stencil.read_mask);
    assert_eq!(descriptor.stencil.write_mask, stencil.write_mask);
    let bias = bevy_render::render_resource::DepthBiasState::default();
    assert_eq!(descriptor.depth_bias.constant, bias.constant);
    assert_eq!(descriptor.depth_bias.slope_scale, bias.slope_scale.to_bits());
    assert_eq!(descriptor.depth_bias.clamp, bias.clamp.to_bits());
    let primitive = bevy_render::render_resource::PrimitiveState::default();
    assert_eq!(format!("{:?}", descriptor.front_face), format!("{:?}", primitive.front_face));
    assert_eq!(format!("{:?}", descriptor.polygon_mode), format!("{:?}", primitive.polygon_mode));
    assert_eq!(descriptor.unclipped_depth, primitive.unclipped_depth);
    assert_eq!(descriptor.conservative, primitive.conservative);
    let multisample = bevy_render::render_resource::MultisampleState::default();
    assert_eq!(descriptor.sample_mask, multisample.mask);
    assert_eq!(descriptor.alpha_to_coverage_enabled, multisample.alpha_to_coverage_enabled);
}

#[test]
fn equal_keys_give_equal_depth_pipelines() {
    let one = depth_pipeline().specialize_with_buffer::<_, ()>(key(2), Ok(7), view_layout(), "mesh").unwrap();
    let two = depth_pipeline().specialize_with_buffer::<_, ()>(key(2), Ok(7), view_layout(), "mesh").unwrap();
    assert_eq!(one.layout, two.layout);
    assert_eq!(one.vertex.shader, two.vertex.shader);
    assert_eq!(one.vertex.shader_defs, two.vertex.shader_defs);
    assert_eq!(one.fragment.shader, two.fragment.shader);
    assert_eq!(one.fragment.shader_defs, two.fragment.shader_defs);
    assert_eq!(one.buffers, two.buffers);
    assert_eq!(one.sample_count, two.sample_count);
}

#[test]
fn depths_are_bound_for_the_fragment_stage() {
    for binding in depth_view_bindings().1 {
        assert_eq!(
            binding.texture_binding(),
            TextureBinding {
                visibility: ShaderVisibility::Fragment,
                sample_type: TextureSampleType::Depth,
                dimension: TextureDimension::D2,
                multisampled: false,
            }
        );
    }
}

fn attribute(offset: u64, shader_location: u32) -> VertexAttribute {
    VertexAttribute { format: VertexFormat::Float32x3, offset, shader_location }
}

fn vertex_buffer(attributes: Vec<VertexAttribute>) -> VertexBufferLayout {
    VertexBufferLayout { array_stride: 24, step_mode: VertexStepMode::Vertex, attributes }
}

#[test]
fn depth_pipeline_reads_the_positions_of_a_mesh() {
    let layout = MeshVertexBufferLayout::new(
        vec![Mesh::ATTRIBUTE_NORMAL.id, Mesh::ATTRIBUTE_POSITION.id],
        vertex_buffer(vec![attribute(0, 7), attribute(12, 8)]),
    );
    let expected = vec![vertex_buffer(vec![attribute(12, 0)])];
    let pipeline = depth_pipeline();
    let descriptor = pipeline.specialize(key(1), &layout, view_layout(), "mesh").unwrap();
    assert_eq!(descriptor.buffers, expected);
    assert_eq!(descriptor.layout, vec!["main", "array", "mesh", "empty", "depth view"]);
    let descriptor = pipeline.try_specialize(key(1), &layout, view_layout(), "mesh").unwrap();
    assert_eq!(descriptor.unwrap().buffers, expected);
}

#[test]
fn a_mesh_without_positions_is_refused() {
    let layout = MeshVertexBufferLayout::new(
        vec![Mesh::ATTRIBUTE_NORMAL.id],
        vertex_buffer(vec![attribute(0, 0)]),
    );
    let pipeline = depth_pipeline();
    let refused = pipeline.specialize(key(1), &layout, view_layout(), "mesh").err().unwrap();
    assert!(refused.to_string().contains("Vertex_Position"));
    let refused = pipeline.try_specialize(key(1), &layout, view_layout(), "mesh").unwrap();
    assert!(refused.is_err());
}

#[test]
fn positions_need_a_place_in_the_buffer() {
    let ids = || vec![Mesh::ATTRIBUTE_NORMAL.id, Mesh::ATTRIBUTE_POSITION.id];
    let short = MeshVertexBufferLayout::new(ids(), vertex_buffer(vec![attribute(0, 0)]));
    assert!(!check_positions(&short));
    let pipeline = depth_pipeline();
    assert!(pipeline.try_specialize(key(1), &short, view_layout(), "mesh").is_none());
    let first = MeshVertexBufferLayout::new(
        vec![Mesh::ATTRIBUTE_POSITION.id, Mesh::ATTRIBUTE_NORMAL.id],
        vertex_buffer(vec![attribute(0, 0)]),
    );
    assert!(check_positions(&first));
    assert!(pipeline.try_specialize(key(1), &first, view_layout(), "mesh").unwrap().is_ok());
    let none = MeshVertexBufferLayout::new(vec![], vertex_buffer(vec![]));
    assert!(check_positions(&none));
}

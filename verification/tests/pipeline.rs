use frame_orchestrator::frame::BindGroupId;
use frame_orchestrator::pipeline::{
    build_compute_pipeline, build_render_pipeline, BlendDescriptor, BlendFactor, BlendOperation,
    ColorState, ColorWrite, CullMode, FrontFace, IndexFormat, PipelineError, PrimitiveTopology,
    ProgrammableStage, RasterizationState,
};
use frame_orchestrator::shader::{load_shader, ShaderBinary, ShaderStage};
use frame_orchestrator::texture::TextureFormat;
use frame_orchestrator::vertex::{LayoutError, Vertex, VertexFormat};

fn shader(stage: ShaderStage) -> ShaderBinary {
    load_shader(stage, &[0x03, 0x02, 0x23, 0x07, 1, 0, 0, 0]).unwrap()
}

const REPLACE: BlendDescriptor = BlendDescriptor {
    src_factor: BlendFactor::One,
    dst_factor: BlendFactor::Zero,
    operation: BlendOperation::Add,
};

#[test]
fn the_render_pipeline_has_the_fixed_function_defaults() {
    let pipeline = build_render_pipeline(
        &shader(ShaderStage::Vertex),
        &shader(ShaderStage::Fragment),
        Vertex::desc(),
        &Vertex::fields(),
        TextureFormat::Bgra8UnormSrgb,
        true,
    )
    .unwrap();
    assert_eq!(pipeline.bind_group_layouts, vec![BindGroupId::Diffuse]);
    assert_eq!(
        pipeline.vertex_stage,
        ProgrammableStage { stage: ShaderStage::Vertex, entry_point: "main".to_string() }
    );
    assert_eq!(
        pipeline.fragment_stage,
        Some(ProgrammableStage { stage: ShaderStage::Fragment, entry_point: "main".to_string() })
    );
    assert_eq!(
        pipeline.rasterization_state,
        Some(RasterizationState {
            front_face: FrontFace::Ccw,
            cull_mode: CullMode::Back,
            depth_bias: 0,
            depth_bias_slope_scale: 0.0f32.to_bits(),
            depth_bias_clamp: 0.0f32.to_bits(),
        })
    );
    assert_eq!(pipeline.primitive_topology, PrimitiveTopology::TriangleList);
    assert_eq!(
        pipeline.color_states,
        vec![ColorState {
            format: TextureFormat::Bgra8UnormSrgb,
            color_blend: REPLACE,
            alpha_blend: REPLACE,
            write_mask: ColorWrite { red: true, green: true, blue: true, alpha: true },
        }]
    );
    assert!(!pipeline.depth_stencil_test);
    assert_eq!(pipeline.index_format, IndexFormat::Uint16);
    assert_eq!(pipeline.vertex_buffers, vec![Vertex::desc()]);
    assert_eq!(pipeline.sample_count, 1);
    assert_eq!(pipeline.sample_mask, !0);
    assert!(!pipeline.alpha_to_coverage_enabled);
}

#[test]
fn an_untextured_pipeline_declares_no_bind_group_layout() {
    let pipeline = build_render_pipeline(
        &shader(ShaderStage::Vertex),
        &shader(ShaderStage::Fragment),
        Vertex::desc(),
        &Vertex::fields(),
        TextureFormat::Rgba8UnormSrgb,
        false,
    )
    .unwrap();
    assert!(pipeline.bind_group_layouts.is_empty());
    assert_eq!(pipeline.color_states[0].format, TextureFormat::Rgba8UnormSrgb);
}

#[test]
fn a_program_for_another_stage_is_refused() {
    let build = |vertex: ShaderStage, fragment: ShaderStage| {
        build_render_pipeline(
            &shader(vertex),
            &shader(fragment),
            Vertex::desc(),
            &Vertex::fields(),
            TextureFormat::Bgra8UnormSrgb,
            true,
        )
        .map(|p| p.sample_count)
    };
    assert_eq!(build(ShaderStage::Vertex, ShaderStage::Fragment), Ok(1));
    assert_eq!(build(ShaderStage::Fragment, ShaderStage::Fragment), Err(PipelineError::VertexStage));
    assert_eq!(build(ShaderStage::Compute, ShaderStage::Vertex), Err(PipelineError::VertexStage));
    assert_eq!(build(ShaderStage::Vertex, ShaderStage::Vertex), Err(PipelineError::FragmentStage));
    assert_eq!(build(ShaderStage::Vertex, ShaderStage::Compute), Err(PipelineError::FragmentStage));
}

#[test]
fn a_vertex_table_that_does_not_match_the_record_is_refused() {
    let build = |layout, fields: &[VertexFormat]| {
        build_render_pipeline(
            &shader(ShaderStage::Vertex),
            &shader(ShaderStage::Fragment),
            layout,
            fields,
            TextureFormat::Bgra8UnormSrgb,
            true,
        )
        .map(|p| p.sample_count)
    };
    let mut shifted = Vertex::desc();
    shifted.attributes[1].offset = 12;
    assert_eq!(
        build(shifted, &Vertex::fields()),
        Err(PipelineError::Layout(LayoutError::Attribute { index: 1 }))
    );
    let mut wide = Vertex::desc();
    wide.stride = 32;
    assert_eq!(build(wide, &Vertex::fields()), Err(PipelineError::Layout(LayoutError::Stride)));
    assert_eq!(
        build(Vertex::desc(), &[VertexFormat::Float2]),
        Err(PipelineError::Layout(LayoutError::AttributeCount))
    );
    assert_eq!(
        build(Vertex::desc(), &[VertexFormat::Float2, VertexFormat::Float3]),
        Err(PipelineError::Layout(LayoutError::Attribute { index: 1 }))
    );
}

#[test]
fn the_compute_pipeline_runs_the_compute_program_over_its_layout() {
    let pipeline = build_compute_pipeline(&shader(ShaderStage::Compute)).unwrap();
    assert_eq!(pipeline.bind_group_layouts, vec![BindGroupId::Compute]);
    assert_eq!(
        pipeline.compute_stage,
        ProgrammableStage { stage: ShaderStage::Compute, entry_point: "main".to_string() }
    );
    let mut named = shader(ShaderStage::Compute);
    named.entry_point = "transform".to_string();
    assert_eq!(build_compute_pipeline(&named).unwrap().compute_stage.entry_point, "transform");
}

#[test]
fn a_compute_pipeline_refuses_other_programs() {
    assert_eq!(
        build_compute_pipeline(&shader(ShaderStage::Vertex)).map(|p| p.bind_group_layouts),
        Err(PipelineError::ComputeStage)
    );
    assert_eq!(
        build_compute_pipeline(&shader(ShaderStage::Fragment)).map(|p| p.bind_group_layouts),
        Err(PipelineError::ComputeStage)
    );
}

//! Pipelines: the fixed description of shader stages, vertex input and
//! fixed-function state that a render or compute pipeline is created from.

use crate::frame::BindGroupId;
use crate::shader::{ShaderBinary, ShaderStage};
use crate::texture::TextureFormat;
use crate::vertex::{LayoutError, VertexBufferLayout, VertexFormat};
use vstd::prelude::*;

verus! {

/// Which winding of a triangle faces the viewer.
#[derive(Copy, Clone, Debug, PartialEq, Eq, Structural)]
pub enum FrontFace {
    Ccw,
    Cw,
}

/// Which triangles are dropped before rasterization.
#[derive(Copy, Clone, Debug, PartialEq, Eq, Structural)]
pub enum CullMode {
    Neither,
    Front,
    Back,
}

/// How vertices are assembled into primitives.
#[derive(Copy, Clone, Debug, PartialEq, Eq, Structural)]
pub enum PrimitiveTopology {
    PointList,
    LineList,
    LineStrip,
    TriangleList,
    TriangleStrip,
}

/// Width of the indices in an index buffer.
#[derive(Copy, Clone, Debug, PartialEq, Eq, Structural)]
pub enum IndexFormat {
    Uint16,
    Uint32,
}

/// A factor of the blend equation.
#[derive(Copy, Clone, Debug, PartialEq, Eq, Structural)]
pub enum BlendFactor {
    Zero,
    One,
    SrcColor,
    OneMinusSrcColor,
    SrcAlpha,
    OneMinusSrcAlpha,
    DstColor,
    OneMinusDstColor,
    DstAlpha,
    OneMinusDstAlpha,
    SrcAlphaSaturated,
    BlendColor,
    OneMinusBlendColor,
}

/// The operation of the blend equation.
#[derive(Copy, Clone, Debug, PartialEq, Eq, Structural)]
pub enum BlendOperation {
    Add,
    Subtract,
    ReverseSubtract,
    Min,
    Max,
}

/// How a fragment is combined with what the target holds.
#[derive(Copy, Clone, Debug, PartialEq, Eq, Structural)]
pub struct BlendDescriptor {
    pub src_factor: BlendFactor,
    pub dst_factor: BlendFactor,
    pub operation: BlendOperation,
}

/// The channels of the target that are written.
#[derive(Copy, Clone, Debug, PartialEq, Eq, Structural)]
pub struct ColorWrite {
    pub red: bool,
    pub green: bool,
    pub blue: bool,
    pub alpha: bool,
}

/// Format, blending and write mask of one colour target.
#[derive(Copy, Clone, Debug, PartialEq, Eq, Structural)]
pub struct ColorState {
    pub format: TextureFormat,
    pub color_blend: BlendDescriptor,
    pub alpha_blend: BlendDescriptor,
    pub write_mask: ColorWrite,
}

/// Rasterization state. The slope scale and the clamp of the depth bias are
/// IEEE-754 singles, held as their bit patterns.
#[derive(Copy, Clone, Debug, PartialEq, Eq, Structural)]
pub struct RasterizationState {
    pub front_face: FrontFace,
    pub cull_mode: CullMode,
    pub depth_bias: i32,
    pub depth_bias_slope_scale: u32,
    pub depth_bias_clamp: u32,
}

/// One programmable stage: which shader program runs, entered where.
#[derive(Clone, Debug, PartialEq, Eq)]
pub struct ProgrammableStage {
    pub stage: ShaderStage,
    pub entry_point: String,
}

/// What a render pipeline is created from.
#[derive(Clone, Debug, PartialEq, Eq)]
pub struct RenderPipelineDescriptor {
    pub bind_group_layouts: Vec<BindGroupId>,
    pub vertex_stage: ProgrammableStage,
    pub fragment_stage: Option<ProgrammableStage>,
    pub rasterization_state: Option<RasterizationState>,
    pub primitive_topology: PrimitiveTopology,
    pub color_states: Vec<ColorState>,
    pub depth_stencil_test: bool,
    pub index_format: IndexFormat,
    pub vertex_buffers: Vec<VertexBufferLayout>,
    pub sample_count: u32,
    pub sample_mask: u32,
    pub alpha_to_coverage_enabled: bool,
}

/// What a compute pipeline is created from.
#[derive(Clone, Debug, PartialEq, Eq)]
pub struct ComputePipelineDescriptor {
    pub bind_group_layouts: Vec<BindGroupId>,
    pub compute_stage: ProgrammableStage,
}

/// Why a pipeline cannot be built.
#[derive(Copy, Clone, Debug, PartialEq, Eq, Structural)]
pub enum PipelineError {
    /// The program given for the vertex stage was compiled for another stage.
    VertexStage,
    /// The program given for the fragment stage was compiled for another stage.
    FragmentStage,
    /// The program given for the compute stage was compiled for another stage.
    ComputeStage,
    /// The attribute table does not match the vertex record.
    Layout(LayoutError),
}

/// Blending that replaces what the target holds.
pub open spec fn replace() -> BlendDescriptor {
    BlendDescriptor {
        src_factor: BlendFactor::One,
        dst_factor: BlendFactor::Zero,
        operation: BlendOperation::Add,
    }
}

/// Fixed-function rasterization of every render pipeline: counter-clockwise
/// triangles face the viewer, the others are dropped, no depth bias.
pub open spec fn default_rasterization() -> RasterizationState {
    RasterizationState {
        front_face: FrontFace::Ccw,
        cull_mode: CullMode::Back,
        depth_bias: 0,
        depth_bias_slope_scale: 0,
        depth_bias_clamp: 0,
    }
}

/// The one colour target of every render pipeline: opaque, every channel
/// written.
pub open spec fn opaque_target(format: TextureFormat) -> ColorState {
    ColorState {
        format,
        color_blend: replace(),
        alpha_blend: replace(),
        write_mask: ColorWrite { red: true, green: true, blue: true, alpha: true },
    }
}

impl RenderPipelineDescriptor {
    /// This is the render pipeline of a scene: the two stages with their
    /// entry points, the given vertex buffer as the only vertex input with
    /// 16-bit indices, triangle lists, one opaque colour target of the given
    /// format, no depth or stencil test, one sample per pixel, and the
    /// texture bind group layout where the scene is textured.
    pub open spec fn renders(
        self,
        vertex_entry: Seq<char>,
        fragment_entry: Seq<char>,
        vertex_layout: VertexBufferLayout,
        color_format: TextureFormat,
        textured: bool,
    ) -> bool {
        &&& self.bind_group_layouts@ == if textured {
            seq![BindGroupId::Diffuse]
        } else {
            Seq::<BindGroupId>::empty()
        }
        &&& self.vertex_stage.stage == ShaderStage::Vertex
        &&& self.vertex_stage.entry_point@ == vertex_entry
        &&& self.fragment_stage matches Some(fragment) && fragment.stage == ShaderStage::Fragment
            && fragment.entry_point@ == fragment_entry
        &&& self.rasterization_state == Some(default_rasterization())
        &&& self.primitive_topology == PrimitiveTopology::TriangleList
        &&& self.color_states@ == seq![opaque_target(color_format)]
        &&& !self.depth_stencil_test
        &&& self.index_format == IndexFormat::Uint16
        &&& self.vertex_buffers@ == seq![vertex_layout]
        &&& self.sample_count == 1
        &&& self.sample_mask == u32::MAX
        &&& !self.alpha_to_coverage_enabled
    }
}

/// Describes the render pipeline of a scene, after holding the attribute
/// table against the fields of the vertex record.
pub fn build_render_pipeline(
    vertex_shader: &ShaderBinary,
    fragment_shader: &ShaderBinary,
    vertex_layout: VertexBufferLayout,
    fields: &[VertexFormat],
    color_format: TextureFormat,
    textured: bool,
) -> (r: Result<RenderPipelineDescriptor, PipelineError>)
    ensures
        match r {
            Ok(pipeline) => {
                &&& vertex_shader.stage == ShaderStage::Vertex
                &&& fragment_shader.stage == ShaderStage::Fragment
                &&& vertex_layout.describes(fields@)
                &&& pipeline.renders(
                    vertex_shader.entry_point@,
                    fragment_shader.entry_point@,
                    vertex_layout,
                    color_format,
                    textured,
                )
            },
            Err(PipelineError::VertexStage) => vertex_shader.stage != ShaderStage::Vertex,
            Err(PipelineError::FragmentStage) => vertex_shader.stage == ShaderStage::Vertex
                && fragment_shader.stage != ShaderStage::Fragment,
            Err(PipelineError::Layout(fault)) => {
                &&& vertex_shader.stage == ShaderStage::Vertex
                &&& fragment_shader.stage == ShaderStage::Fragment
                &&& vertex_layout.has_fault(fields@, fault)
            },
            Err(PipelineError::ComputeStage) => false,
        },
{
    if vertex_shader.stage != ShaderStage::Vertex {
        return Err(PipelineError::VertexStage);
    }
    if fragment_shader.stage != ShaderStage::Fragment {
        return Err(PipelineError::FragmentStage);
    }
    if let Err(fault) = vertex_layout.check(fields) {
        return Err(PipelineError::Layout(fault));
    }
    let overwrite = BlendDescriptor {
        src_factor: BlendFactor::One,
        dst_factor: BlendFactor::Zero,
        operation: BlendOperation::Add,
    };
    let mut bind_group_layouts: Vec<BindGroupId> = Vec::new();
    if textured {
        bind_group_layouts.push(BindGroupId::Diffuse);
    }
    let mut color_states: Vec<ColorState> = Vec::new();
    color_states.push(
        ColorState {
            format: color_format,
            color_blend: overwrite,
            alpha_blend: overwrite,
            write_mask: ColorWrite { red: true, green: true, blue: true, alpha: true },
        },
    );
    let ghost layout = vertex_layout;
    let mut vertex_buffers: Vec<VertexBufferLayout> = Vec::new();
    vertex_buffers.push(vertex_layout);
    assert(bind_group_layouts@ =~= if textured {
        seq![BindGroupId::Diffuse]
    } else {
        Seq::<BindGroupId>::empty()
    });
    assert(color_states@ =~= seq![opaque_target(color_format)]);
    assert(vertex_buffers@ =~= seq![layout]);
    Ok(
        RenderPipelineDescriptor {
            bind_group_layouts,
            vertex_stage: ProgrammableStage {
                stage: ShaderStage::Vertex,
                entry_point: vertex_shader.entry_point.clone(),
            },
            fragment_stage: Some(
                ProgrammableStage {
                    stage: ShaderStage::Fragment,
                    entry_point: fragment_shader.entry_point.clone(),
                },
            ),
            rasterization_state: Some(
                RasterizationState {
                    front_face: FrontFace::Ccw,
                    cull_mode: CullMode::Back,
                    depth_bias: 0,
                    depth_bias_slope_scale: 0,
                    depth_bias_clamp: 0,
                },
            ),
            primitive_topology: PrimitiveTopology::TriangleList,
            color_states,
            depth_stencil_test: false,
            index_format: IndexFormat::Uint16,
            vertex_buffers,
            sample_count: 1,
            sample_mask: u32::MAX,
            alpha_to_coverage_enabled: false,
        },
    )
}

/// Describes the compute pipeline of the pre-pass: the given program over
/// the compute bind group layout.
pub fn build_compute_pipeline(compute_shader: &ShaderBinary) -> (r: Result<
    ComputePipelineDescriptor,
    PipelineError,
>)
    ensures
        match r {
            Ok(pipeline) => {
                &&& compute_shader.stage == ShaderStage::Compute
                &&& pipeline.bind_group_layouts@ == seq![BindGroupId::Compute]
                &&& pipeline.compute_stage.stage == ShaderStage::Compute
                &&& pipeline.compute_stage.entry_point@ == compute_shader.entry_point@
            },
            Err(e) => e == PipelineError::ComputeStage && compute_shader.stage
                != ShaderStage::Compute,
        },
{
    if compute_shader.stage != ShaderStage::Compute {
        return Err(PipelineError::ComputeStage);
    }
    let mut bind_group_layouts: Vec<BindGroupId> = Vec::new();
    bind_group_layouts.push(BindGroupId::Compute);
    assert(bind_group_layouts@ =~= seq![BindGroupId::Compute]);
    Ok(
        ComputePipelineDescriptor {
            bind_group_layouts,
            compute_stage: ProgrammableStage {
                stage: ShaderStage::Compute,
                entry_point: compute_shader.entry_point.clone(),
            },
        },
    )
}

} // verus!

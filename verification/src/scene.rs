//! A scene as a whole: from vertices, indices and a few options to the
//! buffers to create and the frame to record.

use crate::frame::{
    frame_commands, frame_is_valid, lemma_recorded_frame_is_valid, ClearColor, FrameConfig,
};
use crate::resources::{plan_buffers, ComputePrepass, SceneBuffers};
use crate::vertex::{vertices_bytes, Vertex};
use vstd::prelude::*;

verus! {

/// Whether vertices pass through a compute shader before they are drawn,
/// and how.
#[derive(Copy, Clone, Debug, PartialEq, Eq, Structural)]
pub enum PrepassMode {
    /// Vertices are drawn as uploaded.
    Disabled,
    /// The storage buffer is filled once and transformed in place.
    InPlace,
    /// Every frame refills the storage buffer from a staging buffer and
    /// copies the result back.
    ThroughStaging,
}

/// What varies between scenes.
#[derive(Copy, Clone, Debug, PartialEq, Eq, Structural)]
pub struct SceneOptions {
    pub prepass: PrepassMode,
    pub textured: bool,
    pub clear_color: ClearColor,
}

/// The buffers of a scene and the configuration of its frames.
#[derive(Clone, Debug, PartialEq, Eq)]
pub struct Scene {
    pub buffers: SceneBuffers,
    pub frame: FrameConfig,
}

/// Why a scene cannot be planned.
#[derive(Copy, Clone, Debug, PartialEq, Eq, Structural)]
pub enum SceneError {
    /// There are more vertices than a dispatch can count.
    TooManyVertices,
    /// There are more indices than a draw can count.
    TooManyIndices,
}

/// The pre-pass of a scene with `vertex_count` vertices: one invocation per
/// vertex.
pub open spec fn scene_prepass(mode: PrepassMode, vertex_count: nat) -> Option<ComputePrepass> {
    match mode {
        PrepassMode::Disabled => None,
        PrepassMode::InPlace => Some(
            ComputePrepass { invocations: vertex_count as u32, staging_round_trip: false },
        ),
        PrepassMode::ThroughStaging => Some(
            ComputePrepass { invocations: vertex_count as u32, staging_round_trip: true },
        ),
    }
}

/// The frame configuration of a scene: every vertex passes through the
/// pre-pass, and every index is drawn.
pub open spec fn scene_frame(vertices: Seq<Vertex>, indices: Seq<u16>, options: SceneOptions) -> FrameConfig {
    FrameConfig {
        compute: scene_prepass(options.prepass, vertices.len()),
        textured: options.textured,
        vertex_bytes: vertices_bytes(vertices).len() as u64,
        index_count: indices.len() as u32,
        clear_color: options.clear_color,
    }
}

/// What stands in the way of a scene; `None` where nothing does.
pub open spec fn scene_fault(vertex_count: nat, index_count: nat, options: SceneOptions) -> Option<
    SceneError,
> {
    if !(options.prepass is Disabled) && vertex_count > u32::MAX {
        Some(SceneError::TooManyVertices)
    } else if index_count > u32::MAX {
        Some(SceneError::TooManyIndices)
    } else {
        None
    }
}

/// Plans a scene: the buffers to create and the frame to record. The frame
/// recorded for the scene can be submitted against its buffers.
pub fn plan_scene(vertices: &[Vertex], indices: &[u16], options: SceneOptions) -> (r: Result<
    Scene,
    SceneError,
>)
    ensures
        match r {
            Ok(scene) => {
                &&& scene_fault(vertices@.len(), indices@.len(), options) is None
                &&& scene.frame == scene_frame(vertices@, indices@, options)
                &&& scene.buffers.serves(vertices@, indices@, scene.frame.compute)
                &&& frame_is_valid(frame_commands(scene.frame), scene.buffers)
            },
            Err(e) => scene_fault(vertices@.len(), indices@.len(), options) == Some(e),
        },
{
    let compute: Option<ComputePrepass> = match options.prepass {
        PrepassMode::Disabled => None,
        mode => {
            if vertices.len() > u32::MAX as usize {
                return Err(SceneError::TooManyVertices);
            }
            let staging_round_trip: bool = match mode {
                PrepassMode::ThroughStaging => true,
                _ => false,
            };
            Some(ComputePrepass { invocations: vertices.len() as u32, staging_round_trip })
        },
    };
    if indices.len() > u32::MAX as usize {
        return Err(SceneError::TooManyIndices);
    }
    let buffers: SceneBuffers = plan_buffers(vertices, indices, compute);
    let frame = FrameConfig {
        compute,
        textured: options.textured,
        vertex_bytes: buffers.vertex.size,
        index_count: indices.len() as u32,
        clear_color: options.clear_color,
    };
    proof {
        lemma_recorded_frame_is_valid(vertices@, indices@, frame, buffers);
    }
    Ok(Scene { buffers, frame })
}

} // verus!

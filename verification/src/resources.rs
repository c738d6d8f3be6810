//! The buffers of a scene: which exist, how large they are, what they are
//! created with, and what they may be used for.

use crate::encoding::{indices_le, indices_to_bytes};
use crate::usage::{BufferAccess, BufferUsage};
use crate::vertex::{vertices_bytes, vertices_to_bytes, Vertex};
use vstd::prelude::*;

verus! {

/// The buffers that a frame can name.
#[derive(Copy, Clone, Debug, PartialEq, Eq, Structural)]
pub enum BufferId {
    /// Vertex input of the render pass.
    Vertex,
    /// Index input of the render pass.
    Index,
    /// What the compute pre-pass transforms in place.
    Storage,
    /// Host-visible copy of the vertex data, from which the storage buffer is
    /// refilled and into which it is read back.
    Staging,
}

/// The compute pre-pass of a frame.
#[derive(Copy, Clone, Debug, PartialEq, Eq, Structural)]
pub struct ComputePrepass {
    /// Number of invocations: one per element transformed.
    pub invocations: u32,
    /// Whether every frame refills the storage buffer from the staging buffer
    /// before the dispatch and copies it back afterwards.
    pub staging_round_trip: bool,
}

/// One buffer to create: its size, its usage, and the bytes it starts with,
/// if it starts with any.
#[derive(Clone, Debug, PartialEq, Eq)]
pub struct BufferPlan {
    pub size: u64,
    pub usage: BufferUsage,
    pub contents: Option<Vec<u8>>,
}

/// The buffers of a scene. The storage buffer exists where there is a
/// compute pre-pass, the staging buffer where that pre-pass makes the staging
/// round trip.
#[derive(Clone, Debug, PartialEq, Eq)]
pub struct SceneBuffers {
    pub vertex: BufferPlan,
    pub index: BufferPlan,
    pub storage: Option<BufferPlan>,
    pub staging: Option<BufferPlan>,
}

/// What the buffer `id` is declared for in a scene with the given pre-pass;
/// nothing where the scene has no such buffer.
pub open spec fn declared_usage(compute: Option<ComputePrepass>, id: BufferId) -> BufferUsage {
    let none = BufferUsage::spec_none();
    match id {
        BufferId::Vertex => BufferUsage { vertex: true, copy_dst: compute is Some, ..none },
        BufferId::Index => BufferUsage { index: true, ..none },
        BufferId::Storage => match compute {
            Some(prepass) => BufferUsage {
                storage: true,
                copy_src: true,
                copy_dst: prepass.staging_round_trip,
                ..none
            },
            None => none,
        },
        BufferId::Staging => match compute {
            Some(prepass) if prepass.staging_round_trip => BufferUsage {
                map_read: true,
                copy_src: true,
                copy_dst: true,
                ..none
            },
            _ => none,
        },
    }
}

impl BufferPlan {
    /// A buffer created with `bytes` in it.
    pub open spec fn holds(self, bytes: Seq<u8>, usage: BufferUsage) -> bool {
        &&& self.size == bytes.len()
        &&& self.usage == usage
        &&& self.contents matches Some(c) && c@ == bytes
    }

    /// A buffer of `size` bytes created without contents.
    pub open spec fn reserves(self, size: nat, usage: BufferUsage) -> bool {
        &&& self.size == size
        &&& self.usage == usage
        &&& self.contents is None
    }
}

impl SceneBuffers {
    /// These are the buffers of a scene with the given vertices, indices and
    /// pre-pass.
    pub open spec fn serves(
        self,
        vertices: Seq<Vertex>,
        indices: Seq<u16>,
        compute: Option<ComputePrepass>,
    ) -> bool {
        let data = vertices_bytes(vertices);
        &&& self.vertex.holds(data, declared_usage(compute, BufferId::Vertex))
        &&& self.index.holds(indices_le(indices), declared_usage(compute, BufferId::Index))
        &&& match compute {
            None => self.storage is None && self.staging is None,
            Some(prepass) => if prepass.staging_round_trip {
                &&& self.storage matches Some(storage) && storage.reserves(
                    data.len(),
                    declared_usage(compute, BufferId::Storage),
                )
                &&& self.staging matches Some(staging) && staging.holds(
                    data,
                    declared_usage(compute, BufferId::Staging),
                )
            } else {
                &&& self.storage matches Some(storage) && storage.holds(
                    data,
                    declared_usage(compute, BufferId::Storage),
                )
                &&& self.staging is None
            },
        }
    }

    /// The plan of the buffer `id`, where the scene has it.
    pub open spec fn spec_get(self, id: BufferId) -> Option<BufferPlan> {
        match id {
            BufferId::Vertex => Some(self.vertex),
            BufferId::Index => Some(self.index),
            BufferId::Storage => self.storage,
            BufferId::Staging => self.staging,
        }
    }

    /// The plan of the buffer `id`, where the scene has it.
    pub fn get(&self, id: BufferId) -> (plan: Option<&BufferPlan>)
        ensures
            match plan {
                Some(p) => self.spec_get(id) == Some(*p),
                None => self.spec_get(id) is None,
            },
    {
        match id {
            BufferId::Vertex => Some(&self.vertex),
            BufferId::Index => Some(&self.index),
            BufferId::Storage => self.storage.as_ref(),
            BufferId::Staging => self.staging.as_ref(),
        }
    }
}

/// Plans the buffers of a scene: the vertex and index buffers, filled at
/// creation, and what the compute pre-pass needs beside them.
pub fn plan_buffers(vertices: &[Vertex], indices: &[u16], compute: Option<ComputePrepass>) -> (buffers:
    SceneBuffers)
    ensures
        buffers.serves(vertices@, indices@, compute),
{
    let none: BufferUsage = BufferUsage::none();
    let vertex_data: Vec<u8> = vertices_to_bytes(vertices);
    let index_data: Vec<u8> = indices_to_bytes(indices);
    let size: u64 = vertex_data.len() as u64;
    let index = BufferPlan {
        size: index_data.len() as u64,
        usage: BufferUsage { index: true, ..none },
        contents: Some(index_data),
    };
    match compute {
        None => SceneBuffers {
            vertex: BufferPlan {
                size,
                usage: BufferUsage { vertex: true, ..none },
                contents: Some(vertex_data),
            },
            index,
            storage: None,
            staging: None,
        },
        Some(prepass) => {
            let copy: Vec<u8> = vertices_to_bytes(vertices);
            let vertex = BufferPlan {
                size,
                usage: BufferUsage { vertex: true, copy_dst: true, ..none },
                contents: Some(vertex_data),
            };
            if prepass.staging_round_trip {
                SceneBuffers {
                    vertex,
                    index,
                    storage: Some(
                        BufferPlan {
                            size,
                            usage: BufferUsage {
                                storage: true,
                                copy_src: true,
                                copy_dst: true,
                                ..none
                            },
                            contents: None,
                        },
                    ),
                    staging: Some(
                        BufferPlan {
                            size,
                            usage: BufferUsage {
                                map_read: true,
                                copy_src: true,
                                copy_dst: true,
                                ..none
                            },
                            contents: Some(copy),
                        },
                    ),
                }
            } else {
                SceneBuffers {
                    vertex,
                    index,
                    storage: Some(
                        BufferPlan {
                            size,
                            usage: BufferUsage { storage: true, copy_src: true, ..none },
                            contents: Some(copy),
                        },
                    ),
                    staging: None,
                }
            }
        },
    }
}

} // verus!

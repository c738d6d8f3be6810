//! The commands of one frame: an optional compute pre-pass with the copies
//! that feed and drain it, then exactly one render pass.

use crate::encoding::indices_le;
use crate::resources::{BufferId, BufferPlan, ComputePrepass, SceneBuffers};
use crate::usage::BufferAccess;
use crate::vertex::{lemma_vertices_round_trip, vertices_bytes, Vertex};
use vstd::prelude::*;

verus! {

/// The bind groups that a frame can name.
#[derive(Copy, Clone, Debug, PartialEq, Eq, Structural)]
pub enum BindGroupId {
    /// The storage buffer, for the compute pre-pass.
    Compute,
    /// The diffuse texture and its sampler, for the render pass.
    Diffuse,
}

/// The pipelines that a frame can name.
#[derive(Copy, Clone, Debug, PartialEq, Eq, Structural)]
pub enum PipelineId {
    Compute,
    Render,
}

/// The colour that a render pass clears its target to. Each channel is an
/// IEEE-754 double, held as its bit pattern.
#[derive(Copy, Clone, Debug, PartialEq, Eq, Structural)]
pub struct ClearColor {
    pub r: u64,
    pub g: u64,
    pub b: u64,
    pub a: u64,
}

/// What a render pass does to its target before drawing.
#[derive(Copy, Clone, Debug, PartialEq, Eq, Structural)]
pub enum LoadOp {
    Clear,
    Load,
}

/// What a render pass does to its target after drawing.
#[derive(Copy, Clone, Debug, PartialEq, Eq, Structural)]
pub enum StoreOp {
    Clear,
    Store,
}

/// A copy of `size` bytes from the start of one buffer to the start of another.
#[derive(Copy, Clone, Debug, PartialEq, Eq, Structural)]
pub struct BufferCopy {
    pub source: BufferId,
    pub source_offset: u64,
    pub destination: BufferId,
    pub destination_offset: u64,
    pub size: u64,
}

/// A compute pass: one pipeline, one bind group at slot 0, one dispatch.
#[derive(Copy, Clone, Debug, PartialEq, Eq, Structural)]
pub struct ComputePass {
    pub pipeline: PipelineId,
    pub bind_group: BindGroupId,
    pub workgroups_x: u32,
    pub workgroups_y: u32,
    pub workgroups_z: u32,
}

/// An indexed draw: the indices `first_index..end_index`, offset by
/// `base_vertex`, for the instances `first_instance..end_instance`.
#[derive(Copy, Clone, Debug, PartialEq, Eq, Structural)]
pub struct DrawIndexed {
    pub first_index: u32,
    pub end_index: u32,
    pub base_vertex: i32,
    pub first_instance: u32,
    pub end_instance: u32,
}

/// A render pass into the frame image: what happens to the image before and
/// after, what is bound, and the one draw.
#[derive(Copy, Clone, Debug, PartialEq, Eq, Structural)]
pub struct RenderPass {
    pub load_op: LoadOp,
    pub store_op: StoreOp,
    pub clear_color: ClearColor,
    pub pipeline: PipelineId,
    /// Bound at slot 0 where the scene has a texture.
    pub bind_group: Option<BindGroupId>,
    /// Bound at vertex slot 0, from its first byte.
    pub vertex_buffer: BufferId,
    /// Bound from its first byte.
    pub index_buffer: BufferId,
    pub draw: DrawIndexed,
}

/// One recorded command.
#[derive(Copy, Clone, Debug, PartialEq, Eq, Structural)]
pub enum Command {
    Copy(BufferCopy),
    Compute(ComputePass),
    Render(RenderPass),
}

/// What varies between scenes in the recording of a frame.
#[derive(Copy, Clone, Debug, PartialEq, Eq, Structural)]
pub struct FrameConfig {
    pub compute: Option<ComputePrepass>,
    pub textured: bool,
    /// Size in bytes of the vertex data, and so of every buffer that holds it.
    pub vertex_bytes: u64,
    pub index_count: u32,
    pub clear_color: ClearColor,
}

/// A copy of the whole vertex data from one buffer to another.
pub open spec fn whole_copy(source: BufferId, destination: BufferId, size: u64) -> Command {
    Command::Copy(
        BufferCopy { source, source_offset: 0, destination, destination_offset: 0, size },
    )
}

/// The dispatch of the pre-pass: one workgroup per invocation, in a row.
pub open spec fn dispatch(prepass: ComputePrepass) -> Command {
    Command::Compute(
        ComputePass {
            pipeline: PipelineId::Compute,
            bind_group: BindGroupId::Compute,
            workgroups_x: prepass.invocations,
            workgroups_y: 1,
            workgroups_z: 1,
        },
    )
}

/// What is recorded before the render pass: nothing without a pre-pass; else
/// the dispatch, then the copy that hands the transformed data to the vertex
/// buffer. With the staging round trip the storage buffer is refilled before
/// the dispatch and copied back after it.
pub open spec fn prepass_commands(config: FrameConfig) -> Seq<Command> {
    match config.compute {
        None => seq![],
        Some(prepass) => if prepass.staging_round_trip {
            seq![
                whole_copy(BufferId::Staging, BufferId::Storage, config.vertex_bytes),
                dispatch(prepass),
                whole_copy(BufferId::Storage, BufferId::Staging, config.vertex_bytes),
                whole_copy(BufferId::Storage, BufferId::Vertex, config.vertex_bytes),
            ]
        } else {
            seq![
                dispatch(prepass),
                whole_copy(BufferId::Storage, BufferId::Vertex, config.vertex_bytes),
            ]
        },
    }
}

/// The render pass of a frame: clear, then one draw of all indices, one
/// instance.
pub open spec fn render_pass(config: FrameConfig) -> RenderPass {
    RenderPass {
        load_op: LoadOp::Clear,
        store_op: StoreOp::Store,
        clear_color: config.clear_color,
        pipeline: PipelineId::Render,
        bind_group: if config.textured {
            Some(BindGroupId::Diffuse)
        } else {
            None
        },
        vertex_buffer: BufferId::Vertex,
        index_buffer: BufferId::Index,
        draw: DrawIndexed {
            first_index: 0,
            end_index: config.index_count,
            base_vertex: 0,
            first_instance: 0,
            end_instance: 1,
        },
    }
}

/// The commands of one frame, in recording order.
pub open spec fn frame_commands(config: FrameConfig) -> Seq<Command> {
    prepass_commands(config).push(Command::Render(render_pass(config)))
}

/// Records one frame.
pub fn record_frame(config: &FrameConfig) -> (commands: Vec<Command>)
    ensures
        commands@ == frame_commands(*config),
{
    let mut commands: Vec<Command> = Vec::new();
    let size: u64 = config.vertex_bytes;
    if let Some(prepass) = config.compute {
        let run = Command::Compute(
            ComputePass {
                pipeline: PipelineId::Compute,
                bind_group: BindGroupId::Compute,
                workgroups_x: prepass.invocations,
                workgroups_y: 1,
                workgroups_z: 1,
            },
        );
        if prepass.staging_round_trip {
            commands.push(copy_whole(BufferId::Staging, BufferId::Storage, size));
            commands.push(run);
            commands.push(copy_whole(BufferId::Storage, BufferId::Staging, size));
        } else {
            commands.push(run);
        }
        commands.push(copy_whole(BufferId::Storage, BufferId::Vertex, size));
    }
    assert(commands@ =~= prepass_commands(*config));
    commands.push(
        Command::Render(
            RenderPass {
                load_op: LoadOp::Clear,
                store_op: StoreOp::Store,
                clear_color: config.clear_color,
                pipeline: PipelineId::Render,
                bind_group: if config.textured {
                    Some(BindGroupId::Diffuse)
                } else {
                    None
                },
                vertex_buffer: BufferId::Vertex,
                index_buffer: BufferId::Index,
                draw: DrawIndexed {
                    first_index: 0,
                    end_index: config.index_count,
                    base_vertex: 0,
                    first_instance: 0,
                    end_instance: 1,
                },
            },
        ),
    );
    commands
}

fn copy_whole(source: BufferId, destination: BufferId, size: u64) -> (command: Command)
    ensures
        command == whole_copy(source, destination, size),
{
    Command::Copy(
        BufferCopy { source, source_offset: 0, destination, destination_offset: 0, size },
    )
}

/// What is wrong with a command, held against the buffers of a scene.
#[derive(Copy, Clone, Debug, PartialEq, Eq, Structural)]
pub enum CommandFault {
    /// The scene has no such buffer.
    MissingBuffer(BufferId),
    /// The buffer was not declared for this access.
    Usage(BufferId, BufferAccess),
    /// The command reaches past the end of the buffer.
    OutOfBounds(BufferId),
    /// A copy names one buffer as source and destination.
    SameBuffer,
    /// The pass names a pipeline of the other kind.
    WrongPipeline,
    /// The pass names a bind group made for the other pipeline.
    WrongBindGroup,
    /// A range of the draw ends before it starts.
    EmptyRange,
}

/// What is wrong with the commands of a frame.
#[derive(Copy, Clone, Debug, PartialEq, Eq, Structural)]
pub enum FrameError {
    /// The last command is not a render pass.
    NoRenderPass,
    /// The command at `index` is a render pass, and not the last command.
    EarlyRenderPass { index: usize },
    /// The command at `index` is the first with a fault.
    Command { index: usize, fault: CommandFault },
}

/// What is wrong with touching `size` bytes at `offset` of the buffer `id`
/// for `access`; `None` where nothing is.
pub open spec fn access_fault(
    buffers: SceneBuffers,
    id: BufferId,
    access: BufferAccess,
    offset: u64,
    size: u64,
) -> Option<CommandFault> {
    match buffers.spec_get(id) {
        None => Some(CommandFault::MissingBuffer(id)),
        Some(plan) => if !plan.usage.allows(access) {
            Some(CommandFault::Usage(id, access))
        } else if offset + size > plan.size {
            Some(CommandFault::OutOfBounds(id))
        } else {
            None
        },
    }
}

/// The first fault of two.
pub open spec fn or_else(first: Option<CommandFault>, second: Option<CommandFault>) -> Option<
    CommandFault,
> {
    if first is Some {
        first
    } else {
        second
    }
}

/// What is wrong with a command, held against the buffers of a scene; `None`
/// where nothing is. A copy needs two different buffers, declared as copy
/// source and copy destination, and must stay within both. A compute pass
/// needs the compute pipeline, its bind group and a storage buffer. A render
/// pass needs the render pipeline, no bind group of the compute pipeline, a
/// vertex buffer, and an index buffer that holds every 16-bit index drawn.
pub open spec fn command_fault(command: Command, buffers: SceneBuffers) -> Option<CommandFault> {
    match command {
        Command::Copy(copy) => if copy.source == copy.destination {
            Some(CommandFault::SameBuffer)
        } else {
            or_else(
                access_fault(
                    buffers,
                    copy.source,
                    BufferAccess::CopySrc,
                    copy.source_offset,
                    copy.size,
                ),
                access_fault(
                    buffers,
                    copy.destination,
                    BufferAccess::CopyDst,
                    copy.destination_offset,
                    copy.size,
                ),
            )
        },
        Command::Compute(pass) => if pass.pipeline != PipelineId::Compute {
            Some(CommandFault::WrongPipeline)
        } else if pass.bind_group != BindGroupId::Compute {
            Some(CommandFault::WrongBindGroup)
        } else {
            access_fault(buffers, BufferId::Storage, BufferAccess::Storage, 0, 0)
        },
        Command::Render(pass) => if pass.pipeline != PipelineId::Render {
            Some(CommandFault::WrongPipeline)
        } else if pass.bind_group == Some(BindGroupId::Compute) {
            Some(CommandFault::WrongBindGroup)
        } else if pass.draw.first_index > pass.draw.end_index || pass.draw.first_instance
            > pass.draw.end_instance {
            Some(CommandFault::EmptyRange)
        } else {
            or_else(
                access_fault(buffers, pass.vertex_buffer, BufferAccess::Vertex, 0, 0),
                match buffers.spec_get(pass.index_buffer) {
                    None => Some(CommandFault::MissingBuffer(pass.index_buffer)),
                    Some(plan) => if !plan.usage.allows(BufferAccess::Index) {
                        Some(CommandFault::Usage(pass.index_buffer, BufferAccess::Index))
                    } else if 2 * pass.draw.end_index > plan.size {
                        Some(CommandFault::OutOfBounds(pass.index_buffer))
                    } else {
                        None
                    },
                },
            )
        },
    }
}

/// The commands can be submitted as one frame: every command is without
/// fault, the last one is a render pass, and no other is.
pub open spec fn frame_is_valid(commands: Seq<Command>, buffers: SceneBuffers) -> bool {
    &&& commands.len() > 0
    &&& commands.last() is Render
    &&& forall|i: int| 0 <= i < commands.len() - 1 ==> !(#[trigger] commands[i] is Render)
    &&& forall|i: int|
        0 <= i < commands.len() ==> command_fault(#[trigger] commands[i], buffers) is None
}

fn check_access(buffers: &SceneBuffers, id: BufferId, access: BufferAccess, offset: u64, size: u64) -> (fault:
    Option<CommandFault>)
    ensures
        fault == access_fault(*buffers, id, access, offset, size),
{
    match buffers.get(id) {
        None => Some(CommandFault::MissingBuffer(id)),
        Some(plan) => if !plan.usage.permits(access) {
            Some(CommandFault::Usage(id, access))
        } else if offset > plan.size || size > plan.size - offset {
            Some(CommandFault::OutOfBounds(id))
        } else {
            None
        },
    }
}

/// Holds one command against the buffers of a scene.
pub fn check_command(command: &Command, buffers: &SceneBuffers) -> (fault: Option<CommandFault>)
    ensures
        fault == command_fault(*command, *buffers),
{
    match command {
        Command::Copy(copy) => {
            if copy.source == copy.destination {
                return Some(CommandFault::SameBuffer);
            }
            let source = check_access(
                buffers,
                copy.source,
                BufferAccess::CopySrc,
                copy.source_offset,
                copy.size,
            );
            if source.is_some() {
                return source;
            }
            check_access(
                buffers,
                copy.destination,
                BufferAccess::CopyDst,
                copy.destination_offset,
                copy.size,
            )
        },
        Command::Compute(pass) => {
            if pass.pipeline != PipelineId::Compute {
                return Some(CommandFault::WrongPipeline);
            }
            if pass.bind_group != BindGroupId::Compute {
                return Some(CommandFault::WrongBindGroup);
            }
            check_access(buffers, BufferId::Storage, BufferAccess::Storage, 0, 0)
        },
        Command::Render(pass) => {
            if pass.pipeline != PipelineId::Render {
                return Some(CommandFault::WrongPipeline);
            }
            if let Some(group) = pass.bind_group {
                if group == BindGroupId::Compute {
                    return Some(CommandFault::WrongBindGroup);
                }
            }
            if pass.draw.first_index > pass.draw.end_index || pass.draw.first_instance
                > pass.draw.end_instance {
                return Some(CommandFault::EmptyRange);
            }
            let vertex = check_access(buffers, pass.vertex_buffer, BufferAccess::Vertex, 0, 0);
            if vertex.is_some() {
                return vertex;
            }
            match buffers.get(pass.index_buffer) {
                None => Some(CommandFault::MissingBuffer(pass.index_buffer)),
                Some(plan) => if !plan.usage.permits(BufferAccess::Index) {
                    Some(CommandFault::Usage(pass.index_buffer, BufferAccess::Index))
                } else if 2 * (pass.draw.end_index as u64) > plan.size {
                    Some(CommandFault::OutOfBounds(pass.index_buffer))
                } else {
                    None
                },
            }
        },
    }
}

/// Holds the commands of a frame against the buffers of a scene, command by
/// command in recording order, and reports the first thing that is wrong.
pub fn check_frame(commands: &[Command], buffers: &SceneBuffers) -> (r: Result<(), FrameError>)
    ensures
        match r {
            Ok(()) => frame_is_valid(commands@, *buffers),
            Err(FrameError::Command { index, fault }) => {
                &&& index < commands@.len()
                &&& command_fault(commands@[index as int], *buffers) == Some(fault)
                &&& forall|k: int|
                    0 <= k < index ==> command_fault(#[trigger] commands@[k], *buffers) is None
                        && !(commands@[k] is Render)
            },
            Err(FrameError::EarlyRenderPass { index }) => {
                &&& index < commands@.len() - 1
                &&& commands@[index as int] is Render
                &&& forall|k: int|
                    0 <= k <= index ==> command_fault(#[trigger] commands@[k], *buffers) is None
                &&& forall|k: int| 0 <= k < index ==> !(#[trigger] commands@[k] is Render)
            },
            Err(FrameError::NoRenderPass) => {
                &&& forall|k: int|
                    0 <= k < commands@.len() ==> command_fault(#[trigger] commands@[k], *buffers)
                        is None
                &&& forall|k: int| 0 <= k < commands@.len() ==> !(#[trigger] commands@[k] is Render)
            },
        },
{
    let n: usize = commands.len();
    let mut i: usize = 0;
    while i < n
        invariant
            n == commands@.len(),
            i <= n,
            forall|k: int| 0 <= k < i ==> command_fault(#[trigger] commands@[k], *buffers) is None,
            forall|k: int| 0 <= k < i && k < n - 1 ==> !(#[trigger] commands@[k] is Render),
        decreases n - i,
    {
        if let Some(fault) = check_command(&commands[i], buffers) {
            return Err(FrameError::Command { index: i, fault });
        }
        let is_render: bool = match commands[i] {
            Command::Render(_) => true,
            _ => false,
        };
        if is_render && i + 1 < n {
            return Err(FrameError::EarlyRenderPass { index: i });
        }
        i += 1;
    }
    if n == 0 {
        return Err(FrameError::NoRenderPass);
    }
    match commands[n - 1] {
        Command::Render(_) => Ok(()),
        _ => Err(FrameError::NoRenderPass),
    }
}

/// The frame recorded for a scene can be submitted against the buffers
/// planned for that scene: every buffer is declared for each use that the
/// commands make of it, no command reaches past the end of a buffer, and the
/// one render pass comes last.
pub proof fn lemma_recorded_frame_is_valid(
    vertices: Seq<Vertex>,
    indices: Seq<u16>,
    config: FrameConfig,
    buffers: SceneBuffers,
)
    requires
        buffers.serves(vertices, indices, config.compute),
        config.vertex_bytes == vertices_bytes(vertices).len(),
        config.index_count == indices.len(),
    ensures
        frame_is_valid(frame_commands(config), buffers),
{
    let commands = frame_commands(config);
    let before = prepass_commands(config);
    assert(indices_le(indices).len() == 2 * indices.len());
    assert(commands.last() == Command::Render(render_pass(config)));
    assert forall|i: int| 0 <= i < commands.len() - 1 implies !(#[trigger] commands[i]
        is Render) by {
        assert(commands[i] == before[i]);
    }
    assert forall|i: int| 0 <= i < commands.len() implies command_fault(
        #[trigger] commands[i],
        buffers,
    ) is None by {
        if i < before.len() {
            assert(commands[i] == before[i]);
        }
    }
}

/// What the buffers of a scene hold at some point of a frame.
pub struct Memory {
    pub vertex: Seq<u8>,
    pub index: Seq<u8>,
    pub storage: Seq<u8>,
    pub staging: Seq<u8>,
}

impl Memory {
    /// What the buffer `id` holds.
    pub open spec fn get(self, id: BufferId) -> Seq<u8> {
        match id {
            BufferId::Vertex => self.vertex,
            BufferId::Index => self.index,
            BufferId::Storage => self.storage,
            BufferId::Staging => self.staging,
        }
    }

    /// This memory with other contents in the buffer `id`.
    pub open spec fn set(self, id: BufferId, bytes: Seq<u8>) -> Memory {
        match id {
            BufferId::Vertex => Memory { vertex: bytes, ..self },
            BufferId::Index => Memory { index: bytes, ..self },
            BufferId::Storage => Memory { storage: bytes, ..self },
            BufferId::Staging => Memory { staging: bytes, ..self },
        }
    }
}

/// What the buffers hold after a command has run. A copy overwrites a range
/// of its destination with a range of its source. A compute pass leaves in
/// the storage buffer what `kernel` makes of its contents for the number of
/// workgroups dispatched. A render pass only reads.
pub open spec fn after(
    command: Command,
    memory: Memory,
    kernel: spec_fn(u32, Seq<u8>) -> Seq<u8>,
) -> Memory {
    match command {
        Command::Copy(copy) => {
            let source = memory.get(copy.source);
            let destination = memory.get(copy.destination);
            memory.set(
                copy.destination,
                destination.subrange(0, copy.destination_offset as int) + source.subrange(
                    copy.source_offset as int,
                    copy.source_offset + copy.size,
                ) + destination.subrange(
                    copy.destination_offset + copy.size,
                    destination.len() as int,
                ),
            )
        },
        Command::Compute(pass) => memory.set(
            BufferId::Storage,
            kernel(pass.workgroups_x, memory.storage),
        ),
        Command::Render(_) => memory,
    }
}

/// What the buffers hold after commands have run in recording order.
pub open spec fn after_all(
    commands: Seq<Command>,
    memory: Memory,
    kernel: spec_fn(u32, Seq<u8>) -> Seq<u8>,
) -> Memory
    decreases commands.len(),
{
    if commands.len() == 0 {
        memory
    } else {
        after(commands.last(), after_all(commands.drop_last(), memory, kernel), kernel)
    }
}

/// With a pre-pass, the render pass draws what the compute shader made of
/// the vertex data: the copy into the vertex buffer is recorded behind the
/// dispatch, and commands run in recording order. The data transformed is
/// what the staging buffer held where the frame makes the staging round
/// trip, else what the storage buffer held.
pub proof fn lemma_render_pass_draws_transformed_vertices(
    config: FrameConfig,
    memory: Memory,
    kernel: spec_fn(u32, Seq<u8>) -> Seq<u8>,
)
    requires
        config.compute is Some,
        memory.vertex.len() == config.vertex_bytes,
        memory.storage.len() == config.vertex_bytes,
        memory.staging.len() == config.vertex_bytes,
        forall|count: u32, bytes: Seq<u8>| (#[trigger] kernel(count, bytes)).len() == bytes.len(),
    ensures
        ({
            let prepass = config.compute->0;
            let input = if prepass.staging_round_trip {
                memory.staging
            } else {
                memory.storage
            };
            let drawn = after_all(prepass_commands(config), memory, kernel);
            &&& drawn.vertex == kernel(prepass.invocations, input)
            &&& drawn.index == memory.index
            &&& after_all(frame_commands(config), memory, kernel) == drawn
        }),
{
    let prepass = config.compute->0;
    let commands = prepass_commands(config);
    let size = config.vertex_bytes;
    assert(frame_commands(config).drop_last() =~= commands);
    if prepass.staging_round_trip {
        let c0 = commands.subrange(0, 0);
        let c1 = commands.subrange(0, 1);
        let c2 = commands.subrange(0, 2);
        let c3 = commands.subrange(0, 3);
        assert(c1.drop_last() =~= c0);
        assert(c2.drop_last() =~= c1);
        assert(c3.drop_last() =~= c2);
        assert(commands.drop_last() =~= c3);
        let m0 = after_all(c0, memory, kernel);
        let m1 = after_all(c1, memory, kernel);
        let m2 = after_all(c2, memory, kernel);
        let m3 = after_all(c3, memory, kernel);
        let m4 = after_all(commands, memory, kernel);
        assert(m0 == memory);
        assert(m1 == after(commands[0], m0, kernel));
        assert(m1.storage =~= memory.staging);
        assert(m2 == after(commands[1], m1, kernel));
        assert(m2.storage == kernel(prepass.invocations, memory.staging));
        assert(m3 == after(commands[2], m2, kernel));
        assert(m3.storage == m2.storage);
        assert(m4 == after(commands[3], m3, kernel));
        assert(m4.vertex =~= m3.storage);
    } else {
        let c0 = commands.subrange(0, 0);
        let c1 = commands.subrange(0, 1);
        assert(c1.drop_last() =~= c0);
        assert(commands.drop_last() =~= c1);
        let m0 = after_all(c0, memory, kernel);
        let m1 = after_all(c1, memory, kernel);
        let m2 = after_all(commands, memory, kernel);
        assert(m0 == memory);
        assert(m1 == after(commands[0], m0, kernel));
        assert(m2 == after(commands[1], m1, kernel));
        assert(m2.vertex =~= m1.storage);
    }
}

} // verus!

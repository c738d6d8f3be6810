//! Bind group layouts and bind groups: what each binding slot expects, what
//! is bound to it, and the test that the two agree.

use crate::resources::BufferId;
use vstd::prelude::*;

verus! {

/// The shader stages that may read a binding.
#[derive(Copy, Clone, Debug, PartialEq, Eq, Structural)]
pub struct ShaderStages {
    pub vertex: bool,
    pub fragment: bool,
    pub compute: bool,
}

/// How a texture view presents its texture.
#[derive(Copy, Clone, Debug, PartialEq, Eq, Structural)]
pub enum TextureViewDimension {
    D1,
    D2,
    D2Array,
    Cube,
    CubeArray,
    D3,
}

/// The type of the components that a shader reads from a texture.
#[derive(Copy, Clone, Debug, PartialEq, Eq, Structural)]
pub enum TextureComponentType {
    Float,
    Sint,
    Uint,
}

/// What a binding slot expects.
#[derive(Copy, Clone, Debug, PartialEq, Eq, Structural)]
pub enum BindingType {
    UniformBuffer { dynamic: bool },
    StorageBuffer { dynamic: bool, readonly: bool },
    Sampler { comparison: bool },
    SampledTexture {
        dimension: TextureViewDimension,
        component_type: TextureComponentType,
        multisampled: bool,
    },
}

/// One slot of a bind group layout.
#[derive(Copy, Clone, Debug, PartialEq, Eq, Structural)]
pub struct BindGroupLayoutEntry {
    pub binding: u32,
    pub visibility: ShaderStages,
    pub ty: BindingType,
}

/// What is bound to a slot: a range of a buffer, the sampler of the scene,
/// or the view of its texture.
#[derive(Copy, Clone, Debug, PartialEq, Eq, Structural)]
pub enum BindingResource {
    Buffer { buffer: BufferId, offset: u64, size: u64 },
    Sampler,
    TextureView,
}

/// One slot of a bind group.
#[derive(Copy, Clone, Debug, PartialEq, Eq, Structural)]
pub struct Binding {
    pub binding: u32,
    pub resource: BindingResource,
}

/// What is wrong with a bind group, held against its layout.
#[derive(Copy, Clone, Debug, PartialEq, Eq, Structural)]
pub enum BindError {
    /// The group does not have one binding per slot of the layout.
    Count,
    /// The binding at `index` is the first that does not fit its slot: it
    /// has another binding number, or a resource of another kind.
    Mismatch { index: usize },
}

/// A resource is of the kind that a slot expects: a buffer range for a
/// buffer slot, the sampler for a sampler slot, the texture view for a
/// texture slot.
pub open spec fn resource_fits(ty: BindingType, resource: BindingResource) -> bool {
    match ty {
        BindingType::UniformBuffer { .. } | BindingType::StorageBuffer { .. } => resource is Buffer,
        BindingType::Sampler { .. } => resource is Sampler,
        BindingType::SampledTexture { .. } => resource is TextureView,
    }
}

/// The binding fills the slot: same binding number, and a resource of the
/// kind that the slot expects.
pub open spec fn binding_fits(slot: BindGroupLayoutEntry, binding: Binding) -> bool {
    slot.binding == binding.binding && resource_fits(slot.ty, binding.resource)
}

/// The bind group matches the layout: one binding per slot, in order, each
/// filling its slot.
pub open spec fn bind_group_matches(layout: Seq<BindGroupLayoutEntry>, group: Seq<Binding>) -> bool {
    &&& layout.len() == group.len()
    &&& forall|i: int| 0 <= i < layout.len() ==> binding_fits(#[trigger] layout[i], group[i])
}

/// Holds a bind group against the layout it was made for.
pub fn check_bind_group(layout: &[BindGroupLayoutEntry], group: &[Binding]) -> (r: Result<
    (),
    BindError,
>)
    ensures
        match r {
            Ok(()) => bind_group_matches(layout@, group@),
            Err(BindError::Count) => layout@.len() != group@.len(),
            Err(BindError::Mismatch { index }) => {
                &&& layout@.len() == group@.len()
                &&& index < layout@.len()
                &&& !binding_fits(layout@[index as int], group@[index as int])
                &&& forall|k: int| 0 <= k < index ==> binding_fits(#[trigger] layout@[k], group@[k])
            },
        },
{
    let n: usize = layout.len();
    if group.len() != n {
        return Err(BindError::Count);
    }
    let mut i: usize = 0;
    while i < n
        invariant
            n == layout@.len(),
            n == group@.len(),
            i <= n,
            forall|k: int| 0 <= k < i ==> binding_fits(#[trigger] layout@[k], group@[k]),
        decreases n - i,
    {
        let slot: BindGroupLayoutEntry = layout[i];
        let binding: Binding = group[i];
        let fits: bool = match slot.ty {
            BindingType::UniformBuffer { .. } | BindingType::StorageBuffer { .. } => match binding.resource {
                BindingResource::Buffer { .. } => true,
                _ => false,
            },
            BindingType::Sampler { .. } => match binding.resource {
                BindingResource::Sampler => true,
                _ => false,
            },
            BindingType::SampledTexture { .. } => match binding.resource {
                BindingResource::TextureView => true,
                _ => false,
            },
        };
        if slot.binding != binding.binding || !fits {
            return Err(BindError::Mismatch { index: i });
        }
        i += 1;
    }
    Ok(())
}

/// A slot can be read by at least one of the stages of `user`.
pub open spec fn slot_visible_to(slot: BindGroupLayoutEntry, user: ShaderStages) -> bool {
    ||| slot.visibility.vertex && user.vertex
    ||| slot.visibility.fragment && user.fragment
    ||| slot.visibility.compute && user.compute
}

/// Every slot of the layout can be read by a stage of the pipeline that
/// declares it, where `user` holds the stages of that pipeline.
pub open spec fn layout_visible_to(layout: Seq<BindGroupLayoutEntry>, user: ShaderStages) -> bool {
    forall|i: int| 0 <= i < layout.len() ==> slot_visible_to(#[trigger] layout[i], user)
}

/// The first slot of a layout that no stage of `user` can read, if there is
/// one.
pub fn first_hidden_slot(layout: &[BindGroupLayoutEntry], user: ShaderStages) -> (hidden: Option<
    usize,
>)
    ensures
        match hidden {
            None => layout_visible_to(layout@, user),
            Some(index) => {
                &&& index < layout@.len()
                &&& !slot_visible_to(layout@[index as int], user)
                &&& forall|k: int| 0 <= k < index ==> slot_visible_to(#[trigger] layout@[k], user)
            },
        },
{
    let n: usize = layout.len();
    let mut i: usize = 0;
    while i < n
        invariant
            n == layout@.len(),
            i <= n,
            forall|k: int| 0 <= k < i ==> slot_visible_to(#[trigger] layout@[k], user),
        decreases n - i,
    {
        let seen: ShaderStages = layout[i].visibility;
        if !((seen.vertex && user.vertex) || (seen.fragment && user.fragment) || (seen.compute
            && user.compute)) {
            return Some(i);
        }
        i += 1;
    }
    None
}

/// The stages of a compute pipeline.
pub open spec fn compute_stages() -> ShaderStages {
    ShaderStages { vertex: false, fragment: false, compute: true }
}

/// The stages of a render pipeline.
pub open spec fn render_stages() -> ShaderStages {
    ShaderStages { vertex: true, fragment: true, compute: false }
}

/// The layout of the compute pre-pass: the storage buffer at binding 0,
/// read and written by the compute stage.
pub open spec fn spec_compute_layout() -> Seq<BindGroupLayoutEntry> {
    seq![
        BindGroupLayoutEntry {
            binding: 0,
            visibility: ShaderStages { vertex: false, fragment: false, compute: true },
            ty: BindingType::StorageBuffer { dynamic: false, readonly: false },
        },
    ]
}

/// The bind group of the compute pre-pass: all `size` bytes of the storage
/// buffer at binding 0.
pub open spec fn spec_compute_group(size: u64) -> Seq<Binding> {
    seq![
        Binding {
            binding: 0,
            resource: BindingResource::Buffer { buffer: BufferId::Storage, offset: 0, size },
        },
    ]
}

/// The layout of a textured render pass: the texture at binding 0 and its
/// sampler at binding 1, both read by the fragment stage.
pub open spec fn spec_texture_layout() -> Seq<BindGroupLayoutEntry> {
    seq![
        BindGroupLayoutEntry {
            binding: 0,
            visibility: ShaderStages { vertex: false, fragment: true, compute: false },
            ty: BindingType::SampledTexture {
                dimension: TextureViewDimension::D2,
                component_type: TextureComponentType::Uint,
                multisampled: false,
            },
        },
        BindGroupLayoutEntry {
            binding: 1,
            visibility: ShaderStages { vertex: false, fragment: true, compute: false },
            ty: BindingType::Sampler { comparison: false },
        },
    ]
}

/// The bind group of a textured render pass: the view of the diffuse
/// texture at binding 0, its sampler at binding 1.
pub open spec fn spec_texture_group() -> Seq<Binding> {
    seq![
        Binding { binding: 0, resource: BindingResource::TextureView },
        Binding { binding: 1, resource: BindingResource::Sampler },
    ]
}

/// The layout of the compute pre-pass. The compute stage can read its slot.
pub fn compute_layout() -> (layout: Vec<BindGroupLayoutEntry>)
    ensures
        layout@ == spec_compute_layout(),
        layout_visible_to(layout@, compute_stages()),
{
    let mut layout: Vec<BindGroupLayoutEntry> = Vec::new();
    layout.push(
        BindGroupLayoutEntry {
            binding: 0,
            visibility: ShaderStages { vertex: false, fragment: false, compute: true },
            ty: BindingType::StorageBuffer { dynamic: false, readonly: false },
        },
    );
    assert(layout@ =~= spec_compute_layout());
    layout
}

/// The bind group of the compute pre-pass over a storage buffer of `size`
/// bytes. It matches [`compute_layout`].
pub fn compute_group(size: u64) -> (group: Vec<Binding>)
    ensures
        group@ == spec_compute_group(size),
        bind_group_matches(spec_compute_layout(), group@),
{
    let mut group: Vec<Binding> = Vec::new();
    group.push(
        Binding {
            binding: 0,
            resource: BindingResource::Buffer { buffer: BufferId::Storage, offset: 0, size },
        },
    );
    assert(group@ =~= spec_compute_group(size));
    group
}

/// The layout of a textured render pass. The stages of a render pipeline
/// can read its slots, the compute stage cannot.
pub fn texture_layout() -> (layout: Vec<BindGroupLayoutEntry>)
    ensures
        layout@ == spec_texture_layout(),
        layout_visible_to(layout@, render_stages()),
        !layout_visible_to(layout@, compute_stages()),
{
    let stages = ShaderStages { vertex: false, fragment: true, compute: false };
    let mut layout: Vec<BindGroupLayoutEntry> = Vec::new();
    layout.push(
        BindGroupLayoutEntry {
            binding: 0,
            visibility: stages,
            ty: BindingType::SampledTexture {
                dimension: TextureViewDimension::D2,
                component_type: TextureComponentType::Uint,
                multisampled: false,
            },
        },
    );
    layout.push(
        BindGroupLayoutEntry {
            binding: 1,
            visibility: stages,
            ty: BindingType::Sampler { comparison: false },
        },
    );
    assert(layout@ =~= spec_texture_layout());
    assert(!slot_visible_to(layout@[0], compute_stages()));
    layout
}

/// The bind group of a textured render pass. It matches [`texture_layout`].
pub fn texture_group() -> (group: Vec<Binding>)
    ensures
        group@ == spec_texture_group(),
        bind_group_matches(spec_texture_layout(), group@),
{
    let mut group: Vec<Binding> = Vec::new();
    group.push(Binding { binding: 0, resource: BindingResource::TextureView });
    group.push(Binding { binding: 1, resource: BindingResource::Sampler });
    assert(group@ =~= spec_texture_group());
    group
}

} // verus!

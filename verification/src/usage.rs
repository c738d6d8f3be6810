//! What a buffer or a texture is declared to be used for, and the test that a
//! declared usage covers an access.

use vstd::prelude::*;

verus! {

/// What a flag adds to a flag word: its bit where it is set, nothing otherwise.
#[verifier::opaque]
pub open spec fn flag_value(set: bool, bit: nat) -> nat {
    if set {
        bit
    } else {
        0
    }
}

fn flag(set: bool, bit: u32) -> (value: u32)
    ensures
        value == flag_value(set, bit as nat),
        value <= bit,
{
    reveal(flag_value);
    if set {
        bit
    } else {
        0
    }
}

/// One way in which a command or the host touches a buffer.
#[derive(Copy, Clone, Debug, PartialEq, Eq, Structural)]
pub enum BufferAccess {
    MapRead,
    MapWrite,
    CopySrc,
    CopyDst,
    Index,
    Vertex,
    Uniform,
    Storage,
    Indirect,
    StorageRead,
}

/// The set of accesses that a buffer is created for.
#[derive(Copy, Clone, Debug, PartialEq, Eq, Structural)]
pub struct BufferUsage {
    pub map_read: bool,
    pub map_write: bool,
    pub copy_src: bool,
    pub copy_dst: bool,
    pub index: bool,
    pub vertex: bool,
    pub uniform: bool,
    pub storage: bool,
    pub indirect: bool,
    pub storage_read: bool,
}

impl BufferUsage {
    /// The usage that allows nothing.
    pub open spec fn spec_none() -> BufferUsage {
        BufferUsage {
            map_read: false,
            map_write: false,
            copy_src: false,
            copy_dst: false,
            index: false,
            vertex: false,
            uniform: false,
            storage: false,
            indirect: false,
            storage_read: false,
        }
    }

    /// Whether a buffer with this usage may be accessed in the given way.
    pub open spec fn allows(self, access: BufferAccess) -> bool {
        match access {
            BufferAccess::MapRead => self.map_read,
            BufferAccess::MapWrite => self.map_write,
            BufferAccess::CopySrc => self.copy_src,
            BufferAccess::CopyDst => self.copy_dst,
            BufferAccess::Index => self.index,
            BufferAccess::Vertex => self.vertex,
            BufferAccess::Uniform => self.uniform,
            BufferAccess::Storage => self.storage,
            BufferAccess::Indirect => self.indirect,
            BufferAccess::StorageRead => self.storage_read,
        }
    }

    /// The flag word of this usage: one bit per access, `MapRead` lowest.
    pub open spec fn spec_bits(self) -> nat {
        flag_value(self.map_read, 1) + flag_value(self.map_write, 2) + flag_value(
            self.copy_src,
            4,
        ) + flag_value(self.copy_dst, 8) + flag_value(self.index, 16) + flag_value(
            self.vertex,
            32,
        ) + flag_value(self.uniform, 64) + flag_value(self.storage, 128) + flag_value(
            self.indirect,
            256,
        ) + flag_value(self.storage_read, 512)
    }

    /// The usage that allows nothing.
    pub fn none() -> (usage: BufferUsage)
        ensures
            usage == Self::spec_none(),
    {
        BufferUsage {
            map_read: false,
            map_write: false,
            copy_src: false,
            copy_dst: false,
            index: false,
            vertex: false,
            uniform: false,
            storage: false,
            indirect: false,
            storage_read: false,
        }
    }

    /// This usage with one more access allowed.
    pub open spec fn spec_with(self, access: BufferAccess) -> BufferUsage {
        match access {
            BufferAccess::MapRead => BufferUsage { map_read: true, ..self },
            BufferAccess::MapWrite => BufferUsage { map_write: true, ..self },
            BufferAccess::CopySrc => BufferUsage { copy_src: true, ..self },
            BufferAccess::CopyDst => BufferUsage { copy_dst: true, ..self },
            BufferAccess::Index => BufferUsage { index: true, ..self },
            BufferAccess::Vertex => BufferUsage { vertex: true, ..self },
            BufferAccess::Uniform => BufferUsage { uniform: true, ..self },
            BufferAccess::Storage => BufferUsage { storage: true, ..self },
            BufferAccess::Indirect => BufferUsage { indirect: true, ..self },
            BufferAccess::StorageRead => BufferUsage { storage_read: true, ..self },
        }
    }

    /// This usage with one more access allowed: afterwards that access is
    /// allowed, and every other access is allowed as it was before.
    pub fn with(self, access: BufferAccess) -> (usage: BufferUsage)
        ensures
            usage == self.spec_with(access),
            forall|a: BufferAccess| usage.allows(a) <==> (a == access || self.allows(a)),
    {
        let mut usage: BufferUsage = self;
        match access {
            BufferAccess::MapRead => { usage.map_read = true; },
            BufferAccess::MapWrite => { usage.map_write = true; },
            BufferAccess::CopySrc => { usage.copy_src = true; },
            BufferAccess::CopyDst => { usage.copy_dst = true; },
            BufferAccess::Index => { usage.index = true; },
            BufferAccess::Vertex => { usage.vertex = true; },
            BufferAccess::Uniform => { usage.uniform = true; },
            BufferAccess::Storage => { usage.storage = true; },
            BufferAccess::Indirect => { usage.indirect = true; },
            BufferAccess::StorageRead => { usage.storage_read = true; },
        }
        usage
    }

    /// Whether a buffer with this usage may be accessed in the given way.
    pub fn permits(self, access: BufferAccess) -> (allowed: bool)
        ensures
            allowed == self.allows(access),
    {
        match access {
            BufferAccess::MapRead => self.map_read,
            BufferAccess::MapWrite => self.map_write,
            BufferAccess::CopySrc => self.copy_src,
            BufferAccess::CopyDst => self.copy_dst,
            BufferAccess::Index => self.index,
            BufferAccess::Vertex => self.vertex,
            BufferAccess::Uniform => self.uniform,
            BufferAccess::Storage => self.storage,
            BufferAccess::Indirect => self.indirect,
            BufferAccess::StorageRead => self.storage_read,
        }
    }

    /// The flag word of this usage: one bit per access, `MapRead` lowest.
    pub fn bits(self) -> (bits: u32)
        ensures
            bits == self.spec_bits(),
    {
        flag(self.map_read, 1) + flag(self.map_write, 2) + flag(self.copy_src, 4) + flag(
            self.copy_dst,
            8,
        ) + flag(self.index, 16) + flag(self.vertex, 32) + flag(self.uniform, 64) + flag(
            self.storage,
            128,
        ) + flag(self.indirect, 256) + flag(self.storage_read, 512)
    }
}

/// One way in which a command touches a texture.
#[derive(Copy, Clone, Debug, PartialEq, Eq, Structural)]
pub enum TextureAccess {
    CopySrc,
    CopyDst,
    Sampled,
    Storage,
    OutputAttachment,
}

/// The set of accesses that a texture is created for.
#[derive(Copy, Clone, Debug, PartialEq, Eq, Structural)]
pub struct TextureUsage {
    pub copy_src: bool,
    pub copy_dst: bool,
    pub sampled: bool,
    pub storage: bool,
    pub output_attachment: bool,
}

impl TextureUsage {
    /// The usage that allows nothing.
    pub open spec fn spec_none() -> TextureUsage {
        TextureUsage {
            copy_src: false,
            copy_dst: false,
            sampled: false,
            storage: false,
            output_attachment: false,
        }
    }

    /// Whether a texture with this usage may be accessed in the given way.
    pub open spec fn allows(self, access: TextureAccess) -> bool {
        match access {
            TextureAccess::CopySrc => self.copy_src,
            TextureAccess::CopyDst => self.copy_dst,
            TextureAccess::Sampled => self.sampled,
            TextureAccess::Storage => self.storage,
            TextureAccess::OutputAttachment => self.output_attachment,
        }
    }

    /// The flag word of this usage: one bit per access, `CopySrc` lowest.
    pub open spec fn spec_bits(self) -> nat {
        flag_value(self.copy_src, 1) + flag_value(self.copy_dst, 2) + flag_value(self.sampled, 4)
            + flag_value(self.storage, 8) + flag_value(self.output_attachment, 16)
    }

    /// The usage that allows nothing.
    pub fn none() -> (usage: TextureUsage)
        ensures
            usage == Self::spec_none(),
    {
        TextureUsage {
            copy_src: false,
            copy_dst: false,
            sampled: false,
            storage: false,
            output_attachment: false,
        }
    }

    /// This usage with one more access allowed.
    pub open spec fn spec_with(self, access: TextureAccess) -> TextureUsage {
        match access {
            TextureAccess::CopySrc => TextureUsage { copy_src: true, ..self },
            TextureAccess::CopyDst => TextureUsage { copy_dst: true, ..self },
            TextureAccess::Sampled => TextureUsage { sampled: true, ..self },
            TextureAccess::Storage => TextureUsage { storage: true, ..self },
            TextureAccess::OutputAttachment => TextureUsage { output_attachment: true, ..self },
        }
    }

    /// This usage with one more access allowed: afterwards that access is
    /// allowed, and every other access is allowed as it was before.
    pub fn with(self, access: TextureAccess) -> (usage: TextureUsage)
        ensures
            usage == self.spec_with(access),
            forall|a: TextureAccess| usage.allows(a) <==> (a == access || self.allows(a)),
    {
        let mut usage: TextureUsage = self;
        match access {
            TextureAccess::CopySrc => { usage.copy_src = true; },
            TextureAccess::CopyDst => { usage.copy_dst = true; },
            TextureAccess::Sampled => { usage.sampled = true; },
            TextureAccess::Storage => { usage.storage = true; },
            TextureAccess::OutputAttachment => { usage.output_attachment = true; },
        }
        usage
    }

    /// Whether a texture with this usage may be accessed in the given way.
    pub fn permits(self, access: TextureAccess) -> (allowed: bool)
        ensures
            allowed == self.allows(access),
    {
        match access {
            TextureAccess::CopySrc => self.copy_src,
            TextureAccess::CopyDst => self.copy_dst,
            TextureAccess::Sampled => self.sampled,
            TextureAccess::Storage => self.storage,
            TextureAccess::OutputAttachment => self.output_attachment,
        }
    }

    /// The flag word of this usage: one bit per access, `CopySrc` lowest.
    pub fn bits(self) -> (bits: u32)
        ensures
            bits == self.spec_bits(),
    {
        flag(self.copy_src, 1) + flag(self.copy_dst, 2) + flag(self.sampled, 4) + flag(
            self.storage,
            8,
        ) + flag(self.output_attachment, 16)
    }
}

} // verus!

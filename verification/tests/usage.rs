use frame_orchestrator::usage::{BufferAccess, BufferUsage, TextureAccess, TextureUsage};

const BUFFER_ACCESSES: [BufferAccess; 10] = [
    BufferAccess::MapRead,
    BufferAccess::MapWrite,
    BufferAccess::CopySrc,
    BufferAccess::CopyDst,
    BufferAccess::Index,
    BufferAccess::Vertex,
    BufferAccess::Uniform,
    BufferAccess::Storage,
    BufferAccess::Indirect,
    BufferAccess::StorageRead,
];

const TEXTURE_ACCESSES: [TextureAccess; 5] = [
    TextureAccess::CopySrc,
    TextureAccess::CopyDst,
    TextureAccess::Sampled,
    TextureAccess::Storage,
    TextureAccess::OutputAttachment,
];

#[test]
fn no_usage_permits_nothing() {
    for access in BUFFER_ACCESSES {
        assert!(!BufferUsage::none().permits(access));
    }
    for access in TEXTURE_ACCESSES {
        assert!(!TextureUsage::none().permits(access));
    }
    assert_eq!(BufferUsage::none().bits(), 0);
    assert_eq!(TextureUsage::none().bits(), 0);
}

#[test]
fn an_added_access_is_permitted_and_no_other() {
    for added in BUFFER_ACCESSES {
        let usage = BufferUsage::none().with(added);
        for access in BUFFER_ACCESSES {
            assert_eq!(usage.permits(access), access == added);
        }
    }
    for added in TEXTURE_ACCESSES {
        let usage = TextureUsage::none().with(added);
        for access in TEXTURE_ACCESSES {
            assert_eq!(usage.permits(access), access == added);
        }
    }
}

#[test]
fn adding_an_access_keeps_the_others() {
    let usage = BufferUsage::none()
        .with(BufferAccess::Vertex)
        .with(BufferAccess::CopyDst)
        .with(BufferAccess::Vertex);
    assert!(usage.permits(BufferAccess::Vertex));
    assert!(usage.permits(BufferAccess::CopyDst));
    assert!(!usage.permits(BufferAccess::CopySrc));
    assert_eq!(usage, BufferUsage { vertex: true, copy_dst: true, ..BufferUsage::none() });
}

#[test]
fn buffer_flag_words_are_those_of_the_device_library() {
    let flags = [
        wgpu::BufferUsage::MAP_READ,
        wgpu::BufferUsage::MAP_WRITE,
        wgpu::BufferUsage::COPY_SRC,
        wgpu::BufferUsage::COPY_DST,
        wgpu::BufferUsage::INDEX,
        wgpu::BufferUsage::VERTEX,
        wgpu::BufferUsage::UNIFORM,
        wgpu::BufferUsage::STORAGE,
        wgpu::BufferUsage::INDIRECT,
        wgpu::BufferUsage::STORAGE_READ,
    ];
    for (access, flag) in BUFFER_ACCESSES.iter().zip(flags.iter()) {
        assert_eq!(BufferUsage::none().with(*access).bits(), flag.bits());
    }
    let staging = BufferUsage::none()
        .with(BufferAccess::MapRead)
        .with(BufferAccess::CopyDst)
        .with(BufferAccess::CopySrc);
    let expected =
        wgpu::BufferUsage::MAP_READ | wgpu::BufferUsage::COPY_DST | wgpu::BufferUsage::COPY_SRC;
    assert_eq!(staging.bits(), expected.bits());
    assert_eq!(staging.bits(), 13);
    let mut all = BufferUsage::none();
    for access in BUFFER_ACCESSES {
        all = all.with(access);
    }
    assert_eq!(all.bits(), 1023);
}

#[test]
fn texture_flag_words_are_those_of_the_device_library() {
    let flags = [
        wgpu::TextureUsage::COPY_SRC,
        wgpu::TextureUsage::COPY_DST,
        wgpu::TextureUsage::SAMPLED,
        wgpu::TextureUsage::STORAGE,
        wgpu::TextureUsage::OUTPUT_ATTACHMENT,
    ];
    for (access, flag) in TEXTURE_ACCESSES.iter().zip(flags.iter()) {
        assert_eq!(TextureUsage::none().with(*access).bits(), flag.bits());
    }
    let sampled = TextureUsage::none().with(TextureAccess::Sampled).with(TextureAccess::CopyDst);
    assert_eq!(sampled.bits(), (wgpu::TextureUsage::SAMPLED | wgpu::TextureUsage::COPY_DST).bits());
    assert_eq!(sampled.bits(), 6);
}

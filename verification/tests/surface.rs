use frame_orchestrator::surface::{PresentMode, SurfaceConfig};
use frame_orchestrator::texture::{Extent3d, TextureFormat};
use frame_orchestrator::usage::{TextureAccess, TextureUsage};

#[test]
fn a_new_surface_presents_srgb_render_targets_in_order() {
    let config = SurfaceConfig::new(800, 600);
    assert_eq!(config.width, 800);
    assert_eq!(config.height, 600);
    assert_eq!(config.format, TextureFormat::Bgra8UnormSrgb);
    assert_eq!(config.present_mode, PresentMode::Fifo);
    assert_eq!(config.usage, TextureUsage::none().with(TextureAccess::OutputAttachment));
    assert_eq!(config.usage.bits(), wgpu::TextureUsage::OUTPUT_ATTACHMENT.bits());
}

#[test]
fn resizing_changes_the_size_and_nothing_else() {
    let config = SurfaceConfig::new(800, 600).resized(400, 300);
    assert_eq!(config, SurfaceConfig::new(400, 300));
    assert_eq!(config.extent(), Extent3d { width: 400, height: 300, depth: 1 });
    let mailbox = SurfaceConfig { present_mode: PresentMode::Mailbox, ..SurfaceConfig::new(1, 1) };
    assert_eq!(mailbox.resized(5, 6).present_mode, PresentMode::Mailbox);
    assert_eq!(mailbox.resized(5, 6).extent(), Extent3d { width: 5, height: 6, depth: 1 });
}

#[test]
fn configuring_twice_for_one_size_is_configuring_once() {
    let once = SurfaceConfig::new(800, 600).resized(1024, 768);
    let twice = once.resized(1024, 768);
    assert_eq!(once, twice);
    assert_eq!(once.extent(), twice.extent());
}

#[test]
fn only_the_last_size_counts() {
    let config = SurfaceConfig::new(800, 600);
    assert_eq!(config.resized(1, 2).resized(400, 300), config.resized(400, 300));
    assert_eq!(config.resized(0, 0).extent(), Extent3d { width: 0, height: 0, depth: 1 });
}

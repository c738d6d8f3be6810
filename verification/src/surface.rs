//! The presentation surface: the configuration of the chain of images that a
//! window shows, which follows the window's physical size.

use crate::texture::{Extent3d, TextureFormat};
use crate::usage::TextureUsage;
use vstd::prelude::*;

verus! {

/// How finished images are handed to the display.
#[derive(Copy, Clone, Debug, PartialEq, Eq, Structural)]
pub enum PresentMode {
    Immediate,
    Mailbox,
    Fifo,
}

/// Configuration of the swap chain of a surface.
#[derive(Copy, Clone, Debug, PartialEq, Eq, Structural)]
pub struct SurfaceConfig {
    pub usage: TextureUsage,
    pub format: TextureFormat,
    pub width: u32,
    pub height: u32,
    pub present_mode: PresentMode,
}

impl SurfaceConfig {
    /// The configuration of a window of the given physical size: images are
    /// render targets in sRGB, presented in order at the display's pace.
    pub open spec fn spec_new(width: u32, height: u32) -> SurfaceConfig {
        SurfaceConfig {
            usage: TextureUsage {
                copy_src: false,
                copy_dst: false,
                sampled: false,
                storage: false,
                output_attachment: true,
            },
            format: TextureFormat::Bgra8UnormSrgb,
            width,
            height,
            present_mode: PresentMode::Fifo,
        }
    }

    /// This configuration for another size.
    pub open spec fn spec_resized(self, width: u32, height: u32) -> SurfaceConfig {
        SurfaceConfig { width, height, ..self }
    }

    /// The size of every image of the chain.
    pub open spec fn spec_extent(self) -> Extent3d {
        Extent3d { width: self.width, height: self.height, depth: 1 }
    }

    /// The configuration of a window of the given physical size: images are
    /// render targets in sRGB, presented in order at the display's pace.
    pub fn new(width: u32, height: u32) -> (config: SurfaceConfig)
        ensures
            config == Self::spec_new(width, height),
    {
        SurfaceConfig {
            usage: TextureUsage {
                copy_src: false,
                copy_dst: false,
                sampled: false,
                storage: false,
                output_attachment: true,
            },
            format: TextureFormat::Bgra8UnormSrgb,
            width,
            height,
            present_mode: PresentMode::Fifo,
        }
    }

    /// This configuration for another size; format, usage and presentation
    /// mode stay.
    pub fn resized(self, width: u32, height: u32) -> (config: SurfaceConfig)
        ensures
            config == self.spec_resized(width, height),
    {
        SurfaceConfig { width, height, ..self }
    }

    /// The size of every image of the chain.
    pub fn extent(self) -> (extent: Extent3d)
        ensures
            extent == self.spec_extent(),
    {
        Extent3d { width: self.width, height: self.height, depth: 1 }
    }
}

/// Configuring a surface twice for one size gives what configuring it once
/// gives, and only the last of several sizes counts.
pub proof fn lemma_resize_is_idempotent(
    config: SurfaceConfig,
    width: u32,
    height: u32,
    earlier_width: u32,
    earlier_height: u32,
)
    ensures
        config.spec_resized(width, height).spec_resized(width, height) == config.spec_resized(
            width,
            height,
        ),
        config.spec_resized(earlier_width, earlier_height).spec_resized(width, height)
            == config.spec_resized(width, height),
        config.spec_resized(width, height).spec_extent() == (Extent3d {
            width,
            height,
            depth: 1,
        }),
{
}

} // verus!

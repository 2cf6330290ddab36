//! The presentation surface and its one active configuration.

use vstd::prelude::*;

verus! {

/// Pixel format of the presentable images.
#[derive(Clone, Copy, Debug, PartialEq, Eq, Structural)]
pub enum ColorFormat {
    Rgba8Unorm,
    Rgba8UnormSrgb,
    Bgra8Unorm,
    Bgra8UnormSrgb,
}

/// What the presentable images are used for.
#[derive(Clone, Copy, Debug, PartialEq, Eq, Structural)]
pub enum SurfaceUsage {
    CopySource,
    CopyDestination,
    Sampled,
    Storage,
    RenderAttachment,
}

/// How finished images reach the screen.
#[derive(Clone, Copy, Debug, PartialEq, Eq, Structural)]
pub enum PresentMode {
    Immediate,
    Mailbox,
    Fifo,
}

/// A configuration of the image chain bound to the window.
#[derive(Clone, Copy, Debug, PartialEq, Eq, Structural)]
pub struct SurfaceConfig {
    pub width: u32,
    pub height: u32,
    pub format: ColorFormat,
    pub usage: SurfaceUsage,
    pub present_mode: PresentMode,
}

/// Owner of the surface's configuration. It holds exactly one at a time;
/// configuring replaces it, and whatever was built from the earlier one is
/// stale from then on.
#[derive(Clone, Copy, Debug, PartialEq, Eq, Structural)]
pub struct SurfaceManager {
    pub active: SurfaceConfig,
}

impl SurfaceConfig {
    /// The configuration used for a drawable area of the given size: 8-bit
    /// sRGB colour, render-attachment use, presentation locked to vertical
    /// sync.
    pub open spec fn for_size(width: u32, height: u32) -> SurfaceConfig {
        SurfaceConfig {
            width,
            height,
            format: ColorFormat::Bgra8UnormSrgb,
            usage: SurfaceUsage::RenderAttachment,
            present_mode: PresentMode::Fifo,
        }
    }

    /// A configuration that can be acted on: neither dimension is zero, and
    /// format, use and present mode are the fixed ones.
    pub open spec fn wf(self) -> bool {
        &&& self.width > 0
        &&& self.height > 0
        &&& self == SurfaceConfig::for_size(self.width, self.height)
    }

    /// Builds the configuration for a non-empty drawable area.
    pub fn new(width: u32, height: u32) -> (config: SurfaceConfig)
        requires
            width > 0,
            height > 0,
        ensures
            config == SurfaceConfig::for_size(width, height),
            config.wf(),
    {
        SurfaceConfig {
            width,
            height,
            format: ColorFormat::Bgra8UnormSrgb,
            usage: SurfaceUsage::RenderAttachment,
            present_mode: PresentMode::Fifo,
        }
    }
}

impl SurfaceManager {
    pub open spec fn wf(self) -> bool {
        self.active.wf()
    }

    /// Configures the surface for the first time.
    pub fn new(width: u32, height: u32) -> (manager: SurfaceManager)
        requires
            width > 0,
            height > 0,
        ensures
            manager.active == SurfaceConfig::for_size(width, height),
            manager.wf(),
    {
        SurfaceManager { active: SurfaceConfig::new(width, height) }
    }

    /// Replaces the active configuration by one for the given size and returns
    /// it. Guarding against an empty area is the caller's part.
    pub fn configure(&mut self, width: u32, height: u32) -> (config: SurfaceConfig)
        requires
            width > 0,
            height > 0,
        ensures
            config == SurfaceConfig::for_size(width, height),
            final(self).active == config,
            final(self).wf(),
    {
        let config = SurfaceConfig::new(width, height);
        self.active = config;
        config
    }

    pub fn active(&self) -> (config: SurfaceConfig)
        ensures
            config == self.active,
    {
        self.active
    }
}

} // verus!

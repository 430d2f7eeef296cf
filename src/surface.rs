use vstd::prelude::*;

verus! {

/// Pixel format of the presentation surface.
#[derive(Clone, Copy, Debug, PartialEq, Eq, Structural)]
pub enum PixelFormat {
    /// 8-bit BGRA channels, sRGB encoded.
    Bgra8UnormSrgb,
}

/// How acquired frames are paced against the display.
#[derive(Clone, Copy, Debug, PartialEq, Eq, Structural)]
pub enum PresentMode {
    /// First in, first out: frames wait for vertical sync.
    Fifo,
}

/// What the surface's images are used for.
#[derive(Clone, Copy, Debug, PartialEq, Eq, Structural)]
pub enum SurfaceUsage {
    /// The image is written as a colour attachment and then presented.
    OutputAttachment,
}

/// The presentation surface's configuration: the one mutable part of the
/// renderer. Its size follows the window; everything else is fixed.
#[derive(Clone, Copy, Debug, PartialEq, Eq, Structural)]
pub struct SurfaceConfig {
    pub usage: SurfaceUsage,
    pub format: PixelFormat,
    pub width: u32,
    pub height: u32,
    pub present_mode: PresentMode,
}

impl SurfaceConfig {
    /// The fixed parts of every configuration this renderer uses.
    pub open spec fn is_standard(self) -> bool {
        &&& self.usage == SurfaceUsage::OutputAttachment
        &&& self.format == PixelFormat::Bgra8UnormSrgb
        &&& self.present_mode == PresentMode::Fifo
    }

    /// The configuration for a window of `width` x `height` physical pixels.
    pub fn new(width: u32, height: u32) -> (r: SurfaceConfig)
        ensures
            r.is_standard(),
            r.width == width,
            r.height == height,
    {
        SurfaceConfig {
            usage: SurfaceUsage::OutputAttachment,
            format: PixelFormat::Bgra8UnormSrgb,
            width,
            height,
            present_mode: PresentMode::Fifo,
        }
    }

    /// Replaces the stored size by the window's new size; the format, the
    /// present mode and the usage are kept.
    pub fn resize(&mut self, width: u32, height: u32)
        ensures
            final(self).width == width,
            final(self).height == height,
            final(self).usage == old(self).usage,
            final(self).format == old(self).format,
            final(self).present_mode == old(self).present_mode,
    {
        self.width = width;
        self.height = height;
    }
}

} // verus!

//! Plain-value snapshot of what a presentation surface supports: pixel
//! formats, color spaces, present modes, image counts and extents. The
//! backend probe fills one of these in; negotiation reads it.

use vstd::prelude::*;

verus! {

/// Width/height pair in pixels.
#[derive(Clone, Copy, Debug, PartialEq, Eq, Structural)]
pub struct Extent2D {
    pub width: u32,
    pub height: u32,
}

/// Pixel format of a surface or depth attachment. Formats the selection
/// policies never single out are carried through as `Other` with the
/// backend's raw format code, so no information is lost on the way back.
#[derive(Clone, Copy, Debug, PartialEq, Eq, Structural)]
pub enum PixelFormat {
    /// 8-bit-per-channel BGRA.
    Bgra8,
    /// 8-bit-per-channel RGBA.
    Rgba8,
    /// 32-bit float depth.
    D32Sfloat,
    /// 32-bit float depth with 8-bit stencil.
    D32SfloatS8Uint,
    /// 24-bit normalized depth with 8-bit stencil.
    D24UnormS8Uint,
    /// Any other format, identified by the backend's raw code.
    Other(u32),
}

/// Color space a surface format is paired with.
#[derive(Clone, Copy, Debug, PartialEq, Eq, Structural)]
pub enum ColorSpace {
    /// The non-linear sRGB-style color space.
    SrgbNonlinear,
    /// Any other color space, identified by the backend's raw code.
    Other(u32),
}

/// A (format, color space) pair as enumerated by the surface.
#[derive(Clone, Copy, Debug, PartialEq, Eq, Structural)]
pub struct SurfaceFormat {
    pub format: PixelFormat,
    pub color_space: ColorSpace,
}

/// Presentation mode of the swap-chain.
#[derive(Clone, Copy, Debug, PartialEq, Eq, Structural)]
pub enum PresentMode {
    /// Tearing, no queueing.
    Immediate,
    /// Low-latency triple buffering.
    Mailbox,
    /// The vsync baseline mode every backend must offer.
    Fifo,
    /// Vsync that tears when a frame is late.
    FifoRelaxed,
    /// Any other mode, identified by the backend's raw code.
    Other(u32),
}

/// The sentinel width/height meaning "the surface extent follows the window".
pub const EXTENT_FOLLOWS_WINDOW: u32 = 0xffff_ffff;

/// Snapshot of a surface's capabilities at negotiation time. Becomes stale
/// when the surface is resized or the backend reports it out of date.
#[derive(Debug)]
pub struct SurfaceCapabilities {
    /// Fewest images a swap-chain on this surface may hold.
    pub min_image_count: u32,
    /// Most images a swap-chain on this surface may hold; 0 means unbounded.
    pub max_image_count: u32,
    /// Every supported (format, color space) pair, in enumeration order.
    pub formats: Vec<SurfaceFormat>,
    /// Every supported present mode, in enumeration order.
    pub present_modes: Vec<PresentMode>,
    /// The surface's current extent, or the follow-the-window sentinel.
    pub current_extent: Extent2D,
    /// Smallest extent the surface accepts.
    pub min_extent: Extent2D,
    /// Largest extent the surface accepts.
    pub max_extent: Extent2D,
    /// The surface's current transform, as the backend's raw code.
    pub current_transform: u32,
}

impl SurfaceCapabilities {
    /// What the backend guarantees of every capability snapshot it reports:
    /// a positive minimum image count, a maximum of zero (unbounded) or at
    /// least the minimum, and a non-empty extent range in both dimensions.
    pub open spec fn wf(self) -> bool {
        &&& 1 <= self.min_image_count < 0xffff_ffffu32
        &&& self.max_image_count == 0 || self.min_image_count <= self.max_image_count
        &&& self.min_extent.width <= self.max_extent.width
        &&& self.min_extent.height <= self.max_extent.height
    }

    /// A surface is suitable for presentation exactly when it reports at
    /// least one format and at least one present mode.
    pub fn is_suitable(&self) -> (r: bool)
        ensures
            r <==> self.formats@.len() > 0 && self.present_modes@.len() > 0,
    {
        self.formats.len() > 0 && self.present_modes.len() > 0
    }
}

} // verus!

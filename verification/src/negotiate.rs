//! Swap-chain negotiation: selection policy over a probed capability
//! snapshot, picking surface format, present mode, extent and image count.

use vstd::prelude::*;

use crate::capabilities::{
    ColorSpace, Extent2D, PixelFormat, PresentMode, SurfaceCapabilities, SurfaceFormat,
    EXTENT_FOLLOWS_WINDOW,
};
use crate::errors::PresentError;

verus! {

/// The resolved negotiation result a swap-chain is created from.
#[derive(Clone, Copy, Debug, PartialEq, Eq, Structural)]
pub struct SwapchainConfig {
    pub format: PixelFormat,
    pub color_space: ColorSpace,
    pub present_mode: PresentMode,
    pub extent: Extent2D,
    pub image_count: u32,
    /// The surface's current transform, handed through unchanged.
    pub pre_transform: u32,
}

/// The one format pair the selection policy prefers: 8-bit BGRA paired with
/// the non-linear sRGB color space.
pub open spec fn is_preferred_format(f: SurfaceFormat) -> bool {
    f.format == PixelFormat::Bgra8 && f.color_space == ColorSpace::SrgbNonlinear
}

/// Whether any entry of `s` is the preferred format pair.
pub open spec fn has_preferred_format(s: Seq<SurfaceFormat>) -> bool {
    exists|i: int| 0 <= i < s.len() && is_preferred_format(s[i])
}

/// `f` is the first preferred entry of `s`.
pub open spec fn is_first_preferred(s: Seq<SurfaceFormat>, f: SurfaceFormat) -> bool {
    exists|i: int|
        0 <= i < s.len() && #[trigger] s[i] == f && is_preferred_format(f) && (forall|j: int|
            0 <= j < i ==> !is_preferred_format(s[j]))
}

/// What negotiation resolves the extent to: the surface's own extent where
/// the surface is authoritative, else the window extent clamped into the
/// surface's range.
pub open spec fn spec_choose_extent(caps: SurfaceCapabilities, window_extent: Extent2D) -> Extent2D {
    if caps.current_extent.width != EXTENT_FOLLOWS_WINDOW {
        caps.current_extent
    } else {
        Extent2D {
            width: clamp(window_extent.width as int, caps.min_extent.width as int,
                caps.max_extent.width as int) as u32,
            height: clamp(window_extent.height as int, caps.min_extent.height as int,
                caps.max_extent.height as int) as u32,
        }
    }
}

/// `x` forced into `[lo, hi]`.
pub open spec fn clamp(x: int, lo: int, hi: int) -> int
    recommends
        lo <= hi,
{
    if x < lo {
        lo
    } else if x > hi {
        hi
    } else {
        x
    }
}

/// What negotiation resolves the image count to: one more than the minimum,
/// capped at the maximum where the maximum is bounded.
pub open spec fn spec_image_count(min_image_count: u32, max_image_count: u32) -> int {
    if max_image_count > 0 && min_image_count + 1 > max_image_count {
        max_image_count as int
    } else {
        min_image_count + 1
    }
}

impl SwapchainConfig {
    /// The invariants a resolved configuration owes its capability snapshot:
    /// an image count within the snapshot's bounds, and an extent that is
    /// either the surface's own or inside the surface's range.
    pub open spec fn valid_for(self, caps: SurfaceCapabilities) -> bool {
        &&& caps.min_image_count <= self.image_count
        &&& caps.max_image_count > 0 ==> self.image_count <= caps.max_image_count
        &&& self.extent == caps.current_extent || (caps.min_extent.width <= self.extent.width
            <= caps.max_extent.width && caps.min_extent.height <= self.extent.height
            <= caps.max_extent.height)
    }
}

/// Picks the preferred 8-bit BGRA/sRGB pair if the surface reports one, no
/// matter where it stands in the enumeration; otherwise falls back to the
/// first enumerated pair. Fails exactly when no format is reported at all.
pub fn choose_swapchain_format(formats: &Vec<SurfaceFormat>) -> (r: Result<
    SurfaceFormat,
    PresentError,
>)
    ensures
        r is Ok <==> formats@.len() > 0,
        r is Err ==> r == Err::<SurfaceFormat, PresentError>(PresentError::NoSupportedSurfaceFormat),
        r matches Ok(f) ==> {
            &&& has_preferred_format(formats@) ==> is_first_preferred(formats@, f)
            &&& !has_preferred_format(formats@) ==> f == formats@[0]
        },
{
    let n = formats.len();
    let mut i: usize = 0;
    while i < n
        invariant
            n == formats@.len(),
            0 <= i <= n,
            forall|j: int| 0 <= j < i ==> !is_preferred_format(formats@[j]),
        decreases n - i,
    {
        let f = formats[i];
        if matches!(f.format, PixelFormat::Bgra8) && matches!(
            f.color_space,
            ColorSpace::SrgbNonlinear,
        ) {
            return Ok(f);
        }
        i = i + 1;
    }
    if n > 0 {
        Ok(formats[0])
    } else {
        Err(PresentError::NoSupportedSurfaceFormat)
    }
}

/// Picks the low-latency mailbox mode whenever the surface offers it, else
/// the always-available vsync baseline. Never fails; an empty list simply
/// yields the baseline.
pub fn choose_swapchain_present_mode(present_modes: &Vec<PresentMode>) -> (r: PresentMode)
    ensures
        present_modes@.contains(PresentMode::Mailbox) ==> r == PresentMode::Mailbox,
        !present_modes@.contains(PresentMode::Mailbox) ==> r == PresentMode::Fifo,
{
    let n = present_modes.len();
    let mut i: usize = 0;
    while i < n
        invariant
            n == present_modes@.len(),
            0 <= i <= n,
            forall|j: int| 0 <= j < i ==> present_modes@[j] != PresentMode::Mailbox,
        decreases n - i,
    {
        if matches!(present_modes[i], PresentMode::Mailbox) {
            assert(present_modes@.contains(PresentMode::Mailbox));
            return PresentMode::Mailbox;
        }
        i = i + 1;
    }
    assert(!present_modes@.contains(PresentMode::Mailbox));
    PresentMode::Fifo
}

/// `x` forced into `[lo, hi]`.
pub fn clamp_u32(x: u32, lo: u32, hi: u32) -> (r: u32)
    requires
        lo <= hi,
    ensures
        r == clamp(x as int, lo as int, hi as int),
{
    if x < lo {
        lo
    } else if x > hi {
        hi
    } else {
        x
    }
}

/// Resolves the swap extent: the surface-reported extent verbatim where the
/// surface is authoritative, else the window extent clamped component-wise
/// into the surface's range.
pub fn choose_swapchain_extent(caps: &SurfaceCapabilities, window_extent: Extent2D) -> (r: Extent2D)
    requires
        caps.wf(),
    ensures
        r == spec_choose_extent(*caps, window_extent),
{
    if caps.current_extent.width != EXTENT_FOLLOWS_WINDOW {
        caps.current_extent
    } else {
        Extent2D {
            width: clamp_u32(window_extent.width, caps.min_extent.width, caps.max_extent.width),
            height: clamp_u32(window_extent.height, caps.min_extent.height, caps.max_extent.height),
        }
    }
}

/// Applies the whole selection policy to a capability snapshot. Succeeds
/// exactly when the snapshot reports at least one format, and then returns a
/// configuration satisfying the count and extent invariants.
pub fn negotiate(caps: &SurfaceCapabilities, window_extent: Extent2D) -> (r: Result<
    SwapchainConfig,
    PresentError,
>)
    requires
        caps.wf(),
    ensures
        r is Ok <==> caps.formats@.len() > 0,
        r is Err ==> r == Err::<SwapchainConfig, PresentError>(
            PresentError::NoSupportedSurfaceFormat,
        ),
        r matches Ok(c) ==> {
            &&& has_preferred_format(caps.formats@) ==> is_first_preferred(
                caps.formats@,
                SurfaceFormat { format: c.format, color_space: c.color_space },
            )
            &&& !has_preferred_format(caps.formats@) ==> c.format == caps.formats@[0].format
                && c.color_space == caps.formats@[0].color_space
            &&& caps.present_modes@.contains(PresentMode::Mailbox) ==> c.present_mode
                == PresentMode::Mailbox
            &&& !caps.present_modes@.contains(PresentMode::Mailbox) ==> c.present_mode
                == PresentMode::Fifo
            &&& c.extent == spec_choose_extent(*caps, window_extent)
            &&& c.image_count == spec_image_count(caps.min_image_count, caps.max_image_count)
            &&& c.pre_transform == caps.current_transform
            &&& c.valid_for(*caps)
        },
{
    let surface_format = match choose_swapchain_format(&caps.formats) {
        Ok(f) => f,
        Err(e) => {
            return Err(e);
        },
    };
    let present_mode = choose_swapchain_present_mode(&caps.present_modes);
    let extent = choose_swapchain_extent(caps, window_extent);
    let image_count = if caps.max_image_count > 0 && caps.min_image_count >= caps.max_image_count {
        caps.max_image_count
    } else {
        caps.min_image_count + 1
    };
    Ok(
        SwapchainConfig {
            format: surface_format.format,
            color_space: surface_format.color_space,
            present_mode,
            extent,
            image_count,
            pre_transform: caps.current_transform,
        },
    )
}

} // verus!

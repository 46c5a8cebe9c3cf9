use presentation::capabilities::{
    ColorSpace, Extent2D, PixelFormat, PresentMode, SurfaceCapabilities, SurfaceFormat,
};
use presentation::errors::PresentError;
use presentation::negotiate::{
    choose_swapchain_extent, choose_swapchain_format, choose_swapchain_present_mode, clamp_u32,
    negotiate,
};

fn caps_with(
    formats: Vec<SurfaceFormat>,
    present_modes: Vec<PresentMode>,
    min_image_count: u32,
    max_image_count: u32,
    current_extent: Extent2D,
) -> SurfaceCapabilities {
    SurfaceCapabilities {
        min_image_count,
        max_image_count,
        formats,
        present_modes,
        current_extent,
        min_extent: Extent2D { width: 16, height: 16 },
        max_extent: Extent2D { width: 4096, height: 4096 },
        current_transform: 1,
    }
}

fn bgra_srgb() -> SurfaceFormat {
    SurfaceFormat {
        format: PixelFormat::Bgra8,
        color_space: ColorSpace::SrgbNonlinear,
    }
}

fn rgba_linear() -> SurfaceFormat {
    SurfaceFormat {
        format: PixelFormat::Rgba8,
        color_space: ColorSpace::Other(2),
    }
}

#[test]
fn scenario_bgra_fifo_image_count_capped() {
    // min 2, max 3, {(BGRA8, sRGB), (RGBA8, linear)}, {FIFO}, extent 800x600.
    let caps = caps_with(
        vec![bgra_srgb(), rgba_linear()],
        vec![PresentMode::Fifo],
        2,
        3,
        Extent2D { width: 800, height: 600 },
    );
    let config = negotiate(&caps, Extent2D { width: 640, height: 480 }).unwrap();
    assert_eq!(config.format, PixelFormat::Bgra8);
    assert_eq!(config.color_space, ColorSpace::SrgbNonlinear);
    assert_eq!(config.present_mode, PresentMode::Fifo);
    assert_eq!(config.extent, Extent2D { width: 800, height: 600 });
    assert_eq!(config.image_count, 3);
    assert_eq!(config.pre_transform, 1);
}

#[test]
fn preferred_format_wins_regardless_of_order() {
    let first = choose_swapchain_format(&vec![bgra_srgb(), rgba_linear()]).unwrap();
    let last = choose_swapchain_format(&vec![rgba_linear(), bgra_srgb()]).unwrap();
    let middle =
        choose_swapchain_format(&vec![rgba_linear(), bgra_srgb(), rgba_linear()]).unwrap();
    assert_eq!(first, bgra_srgb());
    assert_eq!(last, bgra_srgb());
    assert_eq!(middle, bgra_srgb());
}

#[test]
fn bgra_with_wrong_color_space_is_not_preferred() {
    let formats = vec![
        SurfaceFormat { format: PixelFormat::Bgra8, color_space: ColorSpace::Other(9) },
        rgba_linear(),
    ];
    let chosen = choose_swapchain_format(&formats).unwrap();
    assert_eq!(chosen, formats[0]);
}

#[test]
fn format_fallback_is_first_entry() {
    let formats = vec![rgba_linear(), SurfaceFormat {
        format: PixelFormat::Other(77),
        color_space: ColorSpace::Other(3),
    }];
    let chosen = choose_swapchain_format(&formats).unwrap();
    assert_eq!(chosen, rgba_linear());
}

#[test]
fn no_formats_is_an_error() {
    let r = choose_swapchain_format(&Vec::new());
    assert_eq!(r, Err(PresentError::NoSupportedSurfaceFormat));
    let caps = caps_with(
        Vec::new(),
        vec![PresentMode::Fifo],
        1,
        0,
        Extent2D { width: 100, height: 100 },
    );
    let r = negotiate(&caps, Extent2D { width: 100, height: 100 });
    assert_eq!(r, Err(PresentError::NoSupportedSurfaceFormat));
}

#[test]
fn mailbox_preferred_over_every_permutation() {
    let perms: Vec<Vec<PresentMode>> = vec![
        vec![PresentMode::Mailbox, PresentMode::Fifo, PresentMode::Immediate],
        vec![PresentMode::Fifo, PresentMode::Mailbox, PresentMode::Immediate],
        vec![PresentMode::Fifo, PresentMode::Immediate, PresentMode::Mailbox],
        vec![PresentMode::Immediate, PresentMode::Mailbox, PresentMode::Fifo],
    ];
    for modes in perms {
        assert_eq!(choose_swapchain_present_mode(&modes), PresentMode::Mailbox);
    }
}

#[test]
fn fifo_baseline_without_mailbox() {
    assert_eq!(
        choose_swapchain_present_mode(&vec![PresentMode::Immediate, PresentMode::FifoRelaxed]),
        PresentMode::Fifo
    );
    assert_eq!(choose_swapchain_present_mode(&vec![PresentMode::Fifo]), PresentMode::Fifo);
    assert_eq!(choose_swapchain_present_mode(&Vec::new()), PresentMode::Fifo);
}

#[test]
fn clamp_hits_boundaries_exactly() {
    assert_eq!(clamp_u32(5, 16, 4096), 16);
    assert_eq!(clamp_u32(10_000, 16, 4096), 4096);
    assert_eq!(clamp_u32(800, 16, 4096), 800);
    assert_eq!(clamp_u32(16, 16, 4096), 16);
    assert_eq!(clamp_u32(4096, 16, 4096), 4096);
}

#[test]
fn window_extent_clamped_only_under_sentinel() {
    // Sentinel: window inside the range comes back exactly.
    let caps = caps_with(
        vec![bgra_srgb()],
        vec![PresentMode::Fifo],
        2,
        0,
        Extent2D { width: 0xffff_ffff, height: 0xffff_ffff },
    );
    let inside = choose_swapchain_extent(&caps, Extent2D { width: 800, height: 600 });
    assert_eq!(inside, Extent2D { width: 800, height: 600 });
    // Sentinel: outside the range lands on the nearest boundary per component.
    let clamped = choose_swapchain_extent(&caps, Extent2D { width: 4, height: 9999 });
    assert_eq!(clamped, Extent2D { width: 16, height: 4096 });
    // No sentinel: the surface extent is authoritative, the window is ignored.
    let caps = caps_with(
        vec![bgra_srgb()],
        vec![PresentMode::Fifo],
        2,
        0,
        Extent2D { width: 1024, height: 768 },
    );
    let fixed = choose_swapchain_extent(&caps, Extent2D { width: 5, height: 5 });
    assert_eq!(fixed, Extent2D { width: 1024, height: 768 });
}

#[test]
fn image_count_is_one_over_minimum() {
    let caps = caps_with(
        vec![bgra_srgb()],
        vec![PresentMode::Fifo],
        2,
        0,
        Extent2D { width: 100, height: 100 },
    );
    let config = negotiate(&caps, Extent2D { width: 100, height: 100 }).unwrap();
    assert_eq!(config.image_count, 3);
}

#[test]
fn image_count_capped_at_bounded_maximum() {
    let caps = caps_with(
        vec![bgra_srgb()],
        vec![PresentMode::Fifo],
        4,
        4,
        Extent2D { width: 100, height: 100 },
    );
    let config = negotiate(&caps, Extent2D { width: 100, height: 100 }).unwrap();
    assert_eq!(config.image_count, 4);
}

#[test]
fn negotiate_succeeds_with_one_format_and_one_mode() {
    let caps = caps_with(
        vec![rgba_linear()],
        vec![PresentMode::Immediate],
        1,
        2,
        Extent2D { width: 320, height: 200 },
    );
    let config = negotiate(&caps, Extent2D { width: 320, height: 200 }).unwrap();
    // Count/extent invariants hold.
    assert!(caps.min_image_count <= config.image_count);
    assert!(config.image_count <= caps.max_image_count);
    assert_eq!(config.extent, caps.current_extent);
    // Fallback format, baseline mode.
    assert_eq!(config.format, PixelFormat::Rgba8);
    assert_eq!(config.present_mode, PresentMode::Fifo);
}

#[test]
fn surface_suitability_needs_formats_and_modes() {
    let suitable = caps_with(
        vec![bgra_srgb()],
        vec![PresentMode::Fifo],
        1,
        0,
        Extent2D { width: 1, height: 1 },
    );
    assert!(suitable.is_suitable());
    let no_modes = caps_with(
        vec![bgra_srgb()],
        Vec::new(),
        1,
        0,
        Extent2D { width: 1, height: 1 },
    );
    assert!(!no_modes.is_suitable());
    let no_formats = caps_with(
        Vec::new(),
        vec![PresentMode::Fifo],
        1,
        0,
        Extent2D { width: 1, height: 1 },
    );
    assert!(!no_formats.is_suitable());
}

use presentation::capabilities::{Extent2D, PixelFormat};
use presentation::device_query::{depth_format_candidates, find_supported_format};
use presentation::errors::PresentError;
use presentation::resources::{ResourceBuilder, ResourceOp};

fn build_two_image_set() -> ResourceBuilder {
    let mut b = ResourceBuilder::new(
        2,
        Extent2D { width: 800, height: 600 },
        PixelFormat::D32Sfloat,
        900,
    );
    b.add_color_view(11);
    b.add_color_view(12);
    b.add_depth_bundle(21, 31, 41);
    b.add_depth_bundle(22, 32, 42);
    b.add_framebuffer(51);
    b.add_framebuffer(52);
    b
}

#[test]
fn build_then_destroy_releases_in_exact_reverse_order() {
    let b = build_two_image_set();
    assert!(b.is_complete());
    let set = b.finish();
    let plan = set.destroy();
    assert_eq!(
        plan,
        vec![
            ResourceOp::Framebuffer(52),
            ResourceOp::Framebuffer(51),
            ResourceOp::DepthView(42),
            ResourceOp::DepthMemory(32),
            ResourceOp::DepthImage(22),
            ResourceOp::DepthView(41),
            ResourceOp::DepthMemory(31),
            ResourceOp::DepthImage(21),
            ResourceOp::ColorView(12),
            ResourceOp::ColorView(11),
        ]
    );
}

#[test]
fn aborted_build_releases_only_what_exists() {
    let mut b = ResourceBuilder::new(
        2,
        Extent2D { width: 640, height: 480 },
        PixelFormat::D24UnormS8Uint,
        901,
    );
    b.add_color_view(11);
    b.add_color_view(12);
    b.add_depth_bundle(21, 31, 41);
    assert!(!b.is_complete());
    let plan = b.abort();
    assert_eq!(
        plan,
        vec![
            ResourceOp::DepthView(41),
            ResourceOp::DepthMemory(31),
            ResourceOp::DepthImage(21),
            ResourceOp::ColorView(12),
            ResourceOp::ColorView(11),
        ]
    );
}

#[test]
fn empty_abort_releases_nothing() {
    let b = ResourceBuilder::new(
        3,
        Extent2D { width: 1, height: 1 },
        PixelFormat::D32Sfloat,
        902,
    );
    assert!(!b.is_complete());
    assert_eq!(b.abort(), Vec::new());
}

#[test]
fn finished_set_reports_its_configuration() {
    let set = build_two_image_set().finish();
    assert_eq!(set.image_count(), 2);
    assert_eq!(set.extent(), Extent2D { width: 800, height: 600 });
    assert_eq!(set.depth_format(), PixelFormat::D32Sfloat);
    assert_eq!(set.render_pass_handle(), 900);
    assert_eq!(set.framebuffer_for(0), 51);
    assert_eq!(set.framebuffer_for(1), 52);
}

#[test]
fn depth_candidates_in_descending_precision_order() {
    let c = depth_format_candidates();
    assert_eq!(
        c,
        vec![
            PixelFormat::D32Sfloat,
            PixelFormat::D32SfloatS8Uint,
            PixelFormat::D24UnormS8Uint,
        ]
    );
}

#[test]
fn first_supported_depth_format_is_chosen() {
    let candidates = depth_format_candidates();
    let all = find_supported_format(&candidates, &vec![true, true, true]).unwrap();
    assert_eq!(all, PixelFormat::D32Sfloat);
    let second = find_supported_format(&candidates, &vec![false, true, true]).unwrap();
    assert_eq!(second, PixelFormat::D32SfloatS8Uint);
    let third = find_supported_format(&candidates, &vec![false, false, true]).unwrap();
    assert_eq!(third, PixelFormat::D24UnormS8Uint);
}

#[test]
fn no_supported_depth_format_is_fatal() {
    let candidates = depth_format_candidates();
    let r = find_supported_format(&candidates, &vec![false, false, false]);
    assert_eq!(r, Err(PresentError::NoSupportedDepthFormat));
}

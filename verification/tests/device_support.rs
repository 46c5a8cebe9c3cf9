use std::collections::HashSet;

use presentation::device_query::{
    check_validation_layer_support, contains_name, find_memory_type, names_eq,
};
use presentation::errors::PresentError;
use presentation::queue_families::{find_queue_families, QueueFamilyDesc, QueueFamilyIndices};

fn name(s: &str) -> Vec<u8> {
    s.as_bytes().to_vec()
}

#[test]
fn validation_layer_present_in_available_list() {
    let required = vec![name("VK_LAYER_KHRONOS_validation")];
    let available = vec![name("VK_LAYER_MESA_overlay"), name("VK_LAYER_KHRONOS_validation")];
    assert!(check_validation_layer_support(&required, &available));
}

#[test]
fn missing_validation_layer_is_reported() {
    let required = vec![name("VK_LAYER_KHRONOS_validation")];
    let available = vec![name("VK_LAYER_MESA_overlay")];
    assert!(!check_validation_layer_support(&required, &available));
    assert!(!check_validation_layer_support(&required, &Vec::new()));
    // With nothing required, any list suffices.
    assert!(check_validation_layer_support(&Vec::new(), &available));
}

#[test]
fn name_comparison_is_exact() {
    assert!(names_eq(&name("VK_KHR_swapchain"), &name("VK_KHR_swapchain")));
    assert!(!names_eq(&name("VK_KHR_swapchain"), &name("VK_KHR_surface")));
    assert!(!names_eq(&name("abc"), &name("ab")));
    assert!(contains_name(&vec![name("a"), name("b")], &name("b")));
    assert!(!contains_name(&vec![name("a"), name("b")], &name("c")));
}

#[test]
fn memory_type_picks_first_match() {
    // Type 0 filtered out; type 1 lacks the property; type 2 fits.
    let flags = vec![0b0110, 0b0001, 0b0110];
    let r = find_memory_type(0b110, &flags, 0b0110);
    assert_eq!(r, Some(2));
    // The filter admits type 0, which fits at once.
    let r = find_memory_type(0b111, &flags, 0b0110);
    assert_eq!(r, Some(0));
}

#[test]
fn memory_type_none_when_nothing_fits() {
    let flags = vec![0b0001, 0b0010];
    assert_eq!(find_memory_type(0b11, &flags, 0b0100), None);
    assert_eq!(find_memory_type(0, &flags, 0b0001), None);
}

#[test]
fn queue_scan_takes_latest_family_until_complete() {
    // Family 0 has graphics only; family 1 has graphics and present. The
    // scan updates both roles at family 1 and stops there.
    let families = vec![
        QueueFamilyDesc { queue_count: 1, supports_graphics: true, supports_present: false },
        QueueFamilyDesc { queue_count: 1, supports_graphics: true, supports_present: true },
        QueueFamilyDesc { queue_count: 1, supports_graphics: false, supports_present: true },
    ];
    let r = find_queue_families(&families);
    assert_eq!(r.graphics_family, Some(1));
    assert_eq!(r.present_family, Some(1));
    assert!(r.is_complete());
}

#[test]
fn queue_scan_with_split_roles() {
    let families = vec![
        QueueFamilyDesc { queue_count: 2, supports_graphics: true, supports_present: false },
        QueueFamilyDesc { queue_count: 1, supports_graphics: false, supports_present: true },
    ];
    let r = find_queue_families(&families);
    assert_eq!(r.graphics_family, Some(0));
    assert_eq!(r.present_family, Some(1));
}

#[test]
fn queue_scan_ignores_empty_families() {
    let families = vec![
        QueueFamilyDesc { queue_count: 0, supports_graphics: true, supports_present: false },
        QueueFamilyDesc { queue_count: 1, supports_graphics: true, supports_present: true },
    ];
    let r = find_queue_families(&families);
    assert_eq!(r.graphics_family, Some(1));
    assert_eq!(r.present_family, Some(1));
}

#[test]
fn queue_scan_incomplete_without_present_support() {
    let families = vec![QueueFamilyDesc {
        queue_count: 1,
        supports_graphics: true,
        supports_present: false,
    }];
    let r = find_queue_families(&families);
    assert_eq!(r.graphics_family, Some(0));
    assert_eq!(r.present_family, None);
    assert!(!r.is_complete());
    assert!(!find_queue_families(&Vec::new()).is_complete());
}

#[test]
fn indices_iterate_graphics_first() {
    let indices = QueueFamilyIndices { graphics_family: Some(3), present_family: Some(7) };
    assert_eq!(indices.iter(), vec![3, 7]);
}

#[test]
fn unique_indices_collapse_shared_family() {
    let shared = QueueFamilyIndices { graphics_family: Some(2), present_family: Some(2) };
    let set: HashSet<u32> = shared.to_unique();
    assert_eq!(set.len(), 1);
    assert!(set.contains(&2));
    let split = QueueFamilyIndices { graphics_family: Some(0), present_family: Some(1) };
    let set: HashSet<u32> = split.into_unique();
    assert_eq!(set.len(), 2);
    assert!(set.contains(&0));
    assert!(set.contains(&1));
}

#[test]
fn fresh_indices_are_incomplete() {
    let r = QueueFamilyIndices::new();
    assert!(!r.is_complete());
    let d = QueueFamilyIndices::default();
    assert!(!d.is_complete());
}

#[test]
fn error_taxonomy_split() {
    let recoverable = [PresentError::SwapchainOutOfDate, PresentError::SwapchainSuboptimal];
    let fatal = [
        PresentError::SurfaceLost,
        PresentError::CapabilityQueryError,
        PresentError::NoSupportedSurfaceFormat,
        PresentError::NoSupportedDepthFormat,
        PresentError::QueueSubmitFailed,
        PresentError::PresentFailed,
    ];
    for e in recoverable {
        assert!(e.is_recoverable());
        assert!(!e.is_fatal());
    }
    for e in fatal {
        assert!(e.is_fatal());
        assert!(!e.is_recoverable());
    }
}

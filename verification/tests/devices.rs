//! Queue-family resolution, extension support and device selection.

use frame_core::app_error::AppErrorType;
use frame_core::device::{is_device_suitable, pick_physical_device, DeviceProfile};
use frame_core::extensions::{
    check_device_extensions_support, contains_name, filter_supported_names,
    required_device_extensions,
};
use frame_core::queue_families::{find_queue_families, QueueFamilyIndice, QueueFamilySupport};
use frame_core::swapchain::SurfaceFormat;

fn names(list: &[&str]) -> Vec<String> {
    list.iter().map(|s| s.to_string()).collect()
}

fn suitable_profile() -> DeviceProfile {
    DeviceProfile {
        queue_families: vec![QueueFamilySupport { graphics: true, present: true }],
        available_extensions: names(&["VK_KHR_swapchain", "VK_KHR_maintenance1"]),
        formats: vec![SurfaceFormat { format: 50, color_space: 0 }],
        present_modes: vec![2],
        sampler_anisotropy: true,
    }
}

#[test]
fn is_complete_needs_both_families() {
    let none = QueueFamilyIndice { graphics_family: None, present_family: None };
    let only_graphics = QueueFamilyIndice { graphics_family: Some(0), present_family: None };
    let both = QueueFamilyIndice { graphics_family: Some(0), present_family: Some(1) };
    assert!(!none.is_complete());
    assert!(!only_graphics.is_complete());
    assert!(both.is_complete());
}

#[test]
fn unique_families_merges_shared_family() {
    let shared = QueueFamilyIndice { graphics_family: Some(2), present_family: Some(2) };
    let uniques = shared.get_unique_families();
    assert_eq!(uniques.len(), 1);
    assert!(uniques.contains(&2));

    let split = QueueFamilyIndice { graphics_family: Some(0), present_family: Some(3) };
    let uniques = split.get_unique_families();
    assert_eq!(uniques.len(), 2);
    assert!(uniques.contains(&0));
    assert!(uniques.contains(&3));
}

#[test]
fn resolution_finds_split_families() {
    let families = vec![
        QueueFamilySupport { graphics: false, present: false },
        QueueFamilySupport { graphics: true, present: false },
        QueueFamilySupport { graphics: false, present: true },
    ];
    let indices = find_queue_families(&families);
    assert_eq!(indices.graphics_family, Some(1));
    assert_eq!(indices.present_family, Some(2));
}

#[test]
fn resolution_short_circuits_once_complete() {
    let families = vec![
        QueueFamilySupport { graphics: true, present: true },
        QueueFamilySupport { graphics: true, present: true },
    ];
    let indices = find_queue_families(&families);
    assert_eq!(indices.graphics_family, Some(0));
    assert_eq!(indices.present_family, Some(0));
}

#[test]
fn resolution_reports_missing_presentation() {
    let families = vec![QueueFamilySupport { graphics: true, present: false }];
    let indices = find_queue_families(&families);
    assert_eq!(indices.graphics_family, Some(0));
    assert_eq!(indices.present_family, None);
    assert!(!indices.is_complete());
}

#[test]
fn extension_support_checks_every_required_name() {
    let available = names(&["VK_KHR_swapchain", "VK_KHR_maintenance1"]);
    assert!(check_device_extensions_support(&required_device_extensions(), &available));
    let missing = names(&["VK_KHR_maintenance1"]);
    assert!(!check_device_extensions_support(&required_device_extensions(), &missing));
}

#[test]
fn name_filtering_drops_unsupported_names_in_order() {
    let requested = names(&["VK_EXT_debug_utils", "VK_KHR_surface", "VK_MADE_UP_ext"]);
    let available = names(&["VK_KHR_surface", "VK_EXT_debug_utils"]);
    let kept = filter_supported_names(&requested, &available);
    assert_eq!(kept, names(&["VK_EXT_debug_utils", "VK_KHR_surface"]));
    assert!(contains_name(&available, &"VK_KHR_surface".to_string()));
    assert!(!contains_name(&available, &"VK_MADE_UP_ext".to_string()));
}

#[test]
fn suitability_requires_every_condition() {
    let required = required_device_extensions();
    assert!(is_device_suitable(&suitable_profile(), &required).is_some());

    let mut no_anisotropy = suitable_profile();
    no_anisotropy.sampler_anisotropy = false;
    assert!(is_device_suitable(&no_anisotropy, &required).is_none());

    let mut no_formats = suitable_profile();
    no_formats.formats = vec![];
    assert!(is_device_suitable(&no_formats, &required).is_none());

    let mut no_modes = suitable_profile();
    no_modes.present_modes = vec![];
    assert!(is_device_suitable(&no_modes, &required).is_none());

    let mut no_swapchain_ext = suitable_profile();
    no_swapchain_ext.available_extensions = names(&["VK_KHR_maintenance1"]);
    assert!(is_device_suitable(&no_swapchain_ext, &required).is_none());

    let mut no_present = suitable_profile();
    no_present.queue_families = vec![QueueFamilySupport { graphics: true, present: false }];
    assert!(is_device_suitable(&no_present, &required).is_none());
}

#[test]
fn selection_picks_first_suitable_device() {
    let mut unsuitable = suitable_profile();
    unsuitable.sampler_anisotropy = false;
    let profiles = vec![unsuitable, suitable_profile(), suitable_profile()];
    let (index, indices) =
        pick_physical_device(&profiles, &required_device_extensions()).unwrap();
    assert_eq!(index, 1);
    assert_eq!(indices.graphics_family, Some(0));
    assert_eq!(indices.present_family, Some(0));
}

#[test]
fn selection_fails_when_no_device_qualifies() {
    let mut unsuitable = suitable_profile();
    unsuitable.formats = vec![];
    let profiles = vec![unsuitable];
    let err = pick_physical_device(&profiles, &required_device_extensions()).unwrap_err();
    assert!(matches!(err.error_type, AppErrorType::NoSuitableDevice));
    assert_eq!(err.message, "No suitable physical device is avaible.");
}

//! Memory-type resolution.

use frame_core::app_error::AppErrorType;
use frame_core::memory::{
    find_memory_type, MEMORY_PROPERTY_DEVICE_LOCAL, MEMORY_PROPERTY_HOST_COHERENT,
    MEMORY_PROPERTY_HOST_VISIBLE,
};

const HOST_VISIBLE_COHERENT: u32 = MEMORY_PROPERTY_HOST_VISIBLE | MEMORY_PROPERTY_HOST_COHERENT;

#[test]
fn resolution_returns_the_single_matching_index() {
    let memory_types = vec![
        MEMORY_PROPERTY_DEVICE_LOCAL,
        0,
        MEMORY_PROPERTY_HOST_VISIBLE,
        HOST_VISIBLE_COHERENT,
    ];
    let index = find_memory_type(0xffff_ffff, HOST_VISIBLE_COHERENT, &memory_types).unwrap();
    assert_eq!(index, 3);
}

#[test]
fn resolution_fails_when_no_index_matches() {
    let memory_types = vec![MEMORY_PROPERTY_DEVICE_LOCAL, MEMORY_PROPERTY_HOST_VISIBLE];
    let err = find_memory_type(0xffff_ffff, HOST_VISIBLE_COHERENT, &memory_types).unwrap_err();
    assert!(matches!(err.error_type, AppErrorType::NoSuitableMemType));
    assert_eq!(err.message, "Failed to find suitable memory type.");
}

#[test]
fn resolution_picks_the_lowest_matching_index() {
    let memory_types = vec![
        MEMORY_PROPERTY_DEVICE_LOCAL,
        HOST_VISIBLE_COHERENT,
        HOST_VISIBLE_COHERENT,
    ];
    let index = find_memory_type(0xffff_ffff, HOST_VISIBLE_COHERENT, &memory_types).unwrap();
    assert_eq!(index, 1);
}

#[test]
fn type_filter_excludes_types_with_matching_properties() {
    let memory_types = vec![HOST_VISIBLE_COHERENT, HOST_VISIBLE_COHERENT];
    let index = find_memory_type(0b10, HOST_VISIBLE_COHERENT, &memory_types).unwrap();
    assert_eq!(index, 1);

    let err = find_memory_type(0, HOST_VISIBLE_COHERENT, &memory_types).unwrap_err();
    assert!(matches!(err.error_type, AppErrorType::NoSuitableMemType));
}

#[test]
fn extra_property_bits_are_allowed() {
    let memory_types = vec![HOST_VISIBLE_COHERENT | MEMORY_PROPERTY_DEVICE_LOCAL];
    let index = find_memory_type(0b1, HOST_VISIBLE_COHERENT, &memory_types).unwrap();
    assert_eq!(index, 0);
}

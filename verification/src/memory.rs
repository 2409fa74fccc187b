//! Memory-type resolution: pick the device memory type that an
//! allocation may live in.

use vstd::prelude::*;

use crate::app_error::{AppError, AppErrorType, AppResult};

verus! {

/// Memory-property bit: the memory lives on the device.
pub const MEMORY_PROPERTY_DEVICE_LOCAL: u32 = 0x1;

/// Memory-property bit: the host can map the memory.
pub const MEMORY_PROPERTY_HOST_VISIBLE: u32 = 0x2;

/// Memory-property bit: host writes need no explicit flush.
pub const MEMORY_PROPERTY_HOST_COHERENT: u32 = 0x4;

/// Memory type `i` satisfies the request: the allocation's type
/// filter has bit `i` set, and the type's property flags contain
/// every required property bit.
pub open spec fn spec_memory_type_suitable(
    mem_type_filter: u32,
    required_properties: u32,
    property_flags: u32,
    i: u32,
) -> bool {
    &&& mem_type_filter & (1u32 << i) != 0
    &&& property_flags & required_properties == required_properties
}

/// Picks the lowest-indexed memory type whose bit is set in the type
/// filter and whose property flags contain all required properties;
/// fails with `NoSuitableMemType` when no type qualifies.
/// `memory_types` holds the property flags of the device's memory
/// types, in index order; the device reports at most 32 of them.
pub fn find_memory_type(
    mem_type_filter: u32,
    required_properties: u32,
    memory_types: &Vec<u32>,
) -> (r: AppResult<u32>)
    requires
        memory_types@.len() <= 32,
    ensures
        match r {
            Ok(i) => {
                &&& 0 <= i < memory_types@.len()
                &&& spec_memory_type_suitable(
                    mem_type_filter,
                    required_properties,
                    memory_types@[i as int],
                    i,
                )
                &&& forall|j: int|
                    0 <= j < i ==> !spec_memory_type_suitable(
                        mem_type_filter,
                        required_properties,
                        memory_types@[j],
                        j as u32,
                    )
            },
            Err(e) => {
                &&& forall|j: int|
                    0 <= j < memory_types@.len() ==> !spec_memory_type_suitable(
                        mem_type_filter,
                        required_properties,
                        memory_types@[j],
                        j as u32,
                    )
                &&& e.error_type == AppErrorType::NoSuitableMemType
            },
        },
{
    let mut i: usize = 0;
    while i < memory_types.len()
        invariant
            memory_types@.len() <= 32,
            0 <= i <= memory_types@.len(),
            forall|j: int|
                0 <= j < i ==> !spec_memory_type_suitable(
                    mem_type_filter,
                    required_properties,
                    memory_types@[j],
                    j as u32,
                ),
        decreases memory_types@.len() - i,
    {
        let flags = memory_types[i];
        if mem_type_filter & (1u32 << (i as u32)) != 0 && flags & required_properties
            == required_properties {
            return Ok(i as u32);
        }

        i = i + 1;
    }

    Err(AppError::new(AppErrorType::NoSuitableMemType))
}

} // verus!

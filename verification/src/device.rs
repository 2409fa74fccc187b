//! Physical-device selection: whether one device meets the
//! renderer's requirements, and which of the enumerated devices is
//! picked.

use vstd::prelude::*;

use crate::app_error::{spec_error_message, AppError, AppErrorType, AppResult};
use crate::extensions::{check_device_extensions_support, spec_all_names_supported};
use crate::queue_families::{
    find_queue_families, spec_find_queue_families, QueueFamilyIndice, QueueFamilySupport,
};
use crate::swapchain::SurfaceFormat;

verus! {

/// Everything suitability reads about one physical device, as plain
/// values: its queue families, the device extensions it offers, what
/// the surface reports for it, and whether it supports anisotropic
/// filtering.
pub struct DeviceProfile {
    pub queue_families: Vec<QueueFamilySupport>,
    pub available_extensions: Vec<String>,
    pub formats: Vec<SurfaceFormat>,
    pub present_modes: Vec<i32>,
    pub sampler_anisotropy: bool,
}

impl DeviceProfile {
    /// A profile resolution can index: at most `u32::MAX` queue
    /// families.
    pub open spec fn spec_well_formed(self) -> bool {
        self.queue_families@.len() <= u32::MAX
    }

    /// The device meets every requirement: a complete queue-family
    /// record, all required extensions, a non-empty format list, a
    /// non-empty present-mode list and anisotropic filtering.
    pub open spec fn spec_suitable(self, required_extensions: Seq<String>) -> bool {
        &&& spec_find_queue_families(self.queue_families@).spec_is_complete()
        &&& spec_all_names_supported(required_extensions, self.available_extensions@)
        &&& self.formats@.len() > 0
        &&& self.present_modes@.len() > 0
        &&& self.sampler_anisotropy
    }
}

/// Checks one device against the renderer's requirements, in the
/// order device selection applies them; yields the resolved
/// queue-family record when the device qualifies.
pub fn is_device_suitable(profile: &DeviceProfile, required_extensions: &Vec<String>) -> (r:
    Option<QueueFamilyIndice>)
    requires
        profile.spec_well_formed(),
    ensures
        r is Some <==> profile.spec_suitable(required_extensions@),
        r matches Some(indices) ==> indices == spec_find_queue_families(
            profile.queue_families@,
        ),
{
    let indices = find_queue_families(&profile.queue_families);
    if !indices.is_complete() {
        return None;
    }

    let extensions_supported = check_device_extensions_support(
        required_extensions,
        &profile.available_extensions,
    );
    if !extensions_supported {
        return None;
    }

    let swapchain_adequate = profile.formats.len() > 0 && profile.present_modes.len() > 0;
    if !swapchain_adequate {
        return None;
    }

    if !profile.sampler_anisotropy {
        return None;
    }

    Some(indices)
}

/// Picks the first enumerated device that meets every requirement —
/// no scoring, first match wins — and hands back its index and its
/// resolved queue families; fails with `NoSuitableDevice` when no
/// device qualifies.
pub fn pick_physical_device(profiles: &Vec<DeviceProfile>, required_extensions: &Vec<String>) -> (r:
    AppResult<(usize, QueueFamilyIndice)>)
    requires
        forall|i: int| 0 <= i < profiles@.len() ==> profiles@[i].spec_well_formed(),
    ensures
        match r {
            Ok((i, indices)) => {
                &&& 0 <= i < profiles@.len()
                &&& profiles@[i as int].spec_suitable(required_extensions@)
                &&& forall|j: int|
                    0 <= j < i ==> !profiles@[j].spec_suitable(required_extensions@)
                &&& indices == spec_find_queue_families(profiles@[i as int].queue_families@)
            },
            Err(e) => {
                &&& forall|j: int|
                    0 <= j < profiles@.len() ==> !profiles@[j].spec_suitable(
                        required_extensions@,
                    )
                &&& e.error_type == AppErrorType::NoSuitableDevice
                &&& e.message@ == spec_error_message(AppErrorType::NoSuitableDevice)
            },
        },
{
    let mut i: usize = 0;
    while i < profiles.len()
        invariant
            forall|k: int| 0 <= k < profiles@.len() ==> profiles@[k].spec_well_formed(),
            0 <= i <= profiles@.len(),
            forall|j: int| 0 <= j < i ==> !profiles@[j].spec_suitable(required_extensions@),
        decreases profiles@.len() - i,
    {
        if let Some(indices) = is_device_suitable(&profiles[i], required_extensions) {
            return Ok((i, indices));
        }

        i = i + 1;
    }

    Err(AppError::new(AppErrorType::NoSuitableDevice))
}

} // verus!

//! Swapchain planning: given what the surface reports, decide the
//! pixel format, the presentation mode, the extent, the image count
//! and the image-sharing mode of the next swapchain.

use vstd::prelude::*;

use crate::queue_families::QueueFamilyIndice;

verus! {

/// Raw pixel-format code of an 8-bit-per-channel BGRA sRGB format.
pub const FORMAT_B8G8R8A8_SRGB: i32 = 50;

/// Raw color-space code of the sRGB-nonlinear color space.
pub const COLOR_SPACE_SRGB_NONLINEAR: i32 = 0;

/// Raw code of the low-latency triple-buffering presentation mode.
pub const PRESENT_MODE_MAILBOX: i32 = 1;

/// Raw code of the universally supported vsync'd presentation mode.
pub const PRESENT_MODE_FIFO: i32 = 2;

/// Raw code for exclusive image access by one queue family.
pub const SHARING_MODE_EXCLUSIVE: i32 = 0;

/// Raw code for concurrent image access across queue families.
pub const SHARING_MODE_CONCURRENT: i32 = 1;

/// Sentinel extent width: the surface leaves the extent to the
/// application.
pub const EXTENT_DETERMINED_BY_APPLICATION: u32 = 0xffff_ffff;

/// A surface format: a pixel format together with a color space,
/// both as raw codes.
#[derive(Clone, Copy, Debug, PartialEq, Eq, Structural)]
pub struct SurfaceFormat {
    pub format: i32,
    pub color_space: i32,
}

/// A two-dimensional extent in pixels.
#[derive(Clone, Copy, Debug, PartialEq, Eq, Structural)]
pub struct Extent2D {
    pub width: u32,
    pub height: u32,
}

/// What the surface reports about itself: image-count bounds and
/// extent bounds. A `max_image_count` of zero means unbounded; a
/// `current_extent` width of [`EXTENT_DETERMINED_BY_APPLICATION`]
/// means the application picks the extent within the given bounds.
#[derive(Clone, Copy, Debug, PartialEq, Eq, Structural)]
pub struct SurfaceCapabilities {
    pub min_image_count: u32,
    pub max_image_count: u32,
    pub current_extent: Extent2D,
    pub min_image_extent: Extent2D,
    pub max_image_extent: Extent2D,
}

impl SurfaceCapabilities {
    /// The image-count bounds are coherent: the maximum, when given,
    /// is no smaller than the minimum, and one more image than the
    /// minimum is still representable.
    pub open spec fn spec_coherent_counts(self) -> bool {
        &&& self.min_image_count < u32::MAX
        &&& (self.max_image_count == 0 || self.min_image_count <= self.max_image_count)
    }
}

/// Everything the surface reports that swapchain planning reads.
pub struct SwapchainSupport {
    pub capabilities: SurfaceCapabilities,
    pub formats: Vec<SurfaceFormat>,
    pub present_modes: Vec<i32>,
}

/// The preferred surface format: 8-bit BGRA in the sRGB-nonlinear
/// color space.
pub open spec fn spec_is_preferred_format(f: SurfaceFormat) -> bool {
    f.format == FORMAT_B8G8R8A8_SRGB && f.color_space == COLOR_SPACE_SRGB_NONLINEAR
}

/// The format that selection yields: the preferred pair when the
/// surface offers it, otherwise the first format reported.
pub open spec fn spec_choose_surface_format(formats: Seq<SurfaceFormat>) -> SurfaceFormat {
    if exists|i: int| 0 <= i < formats.len() && spec_is_preferred_format(formats[i]) {
        SurfaceFormat { format: FORMAT_B8G8R8A8_SRGB, color_space: COLOR_SPACE_SRGB_NONLINEAR }
    } else {
        formats[0]
    }
}

/// Chooses the surface format: prefers 8-bit BGRA in sRGB-nonlinear,
/// otherwise takes the first format the surface reports. The caller
/// has already checked during device selection that the list is not
/// empty.
pub fn choose_swap_surface_format(avaible_formats: &Vec<SurfaceFormat>) -> (chosen: SurfaceFormat)
    requires
        avaible_formats@.len() > 0,
    ensures
        chosen == spec_choose_surface_format(avaible_formats@),
{
    let mut i: usize = 0;
    while i < avaible_formats.len()
        invariant
            0 <= i <= avaible_formats@.len(),
            forall|j: int| 0 <= j < i ==> !spec_is_preferred_format(avaible_formats@[j]),
        decreases avaible_formats@.len() - i,
    {
        let format = avaible_formats[i];
        if format.format == FORMAT_B8G8R8A8_SRGB && format.color_space
            == COLOR_SPACE_SRGB_NONLINEAR {
            return format;
        }

        i = i + 1;
    }

    avaible_formats[0]
}

/// The present mode that selection yields: the low-latency mailbox
/// mode when offered, otherwise the always-available FIFO mode.
pub open spec fn spec_choose_present_mode(modes: Seq<i32>) -> i32 {
    if modes.contains(PRESENT_MODE_MAILBOX) {
        PRESENT_MODE_MAILBOX
    } else {
        PRESENT_MODE_FIFO
    }
}

/// Chooses the presentation mode: prefers the triple-buffering
/// mailbox mode, falls back to the vsync'd FIFO mode that every
/// surface supports.
pub fn choose_swap_present_mode(avaible_present_modes: &Vec<i32>) -> (mode: i32)
    ensures
        mode == spec_choose_present_mode(avaible_present_modes@),
{
    let mut i: usize = 0;
    while i < avaible_present_modes.len()
        invariant
            0 <= i <= avaible_present_modes@.len(),
            forall|j: int| 0 <= j < i ==> avaible_present_modes@[j] != PRESENT_MODE_MAILBOX,
        decreases avaible_present_modes@.len() - i,
    {
        if avaible_present_modes[i] == PRESENT_MODE_MAILBOX {
            assert(avaible_present_modes@.contains(PRESENT_MODE_MAILBOX));
            return PRESENT_MODE_MAILBOX;
        }

        i = i + 1;
    }

    PRESENT_MODE_FIFO
}

/// One dimension clamped into an inclusive range.
pub open spec fn spec_clamp_u32(value: u32, low: u32, high: u32) -> u32 {
    if value < low {
        low
    } else if value > high {
        high
    } else {
        value
    }
}

/// The extent that selection yields: the surface's definite current
/// extent when it reports one, otherwise the desired size clamped
/// into the surface's extent bounds.
pub open spec fn spec_choose_extent(capabilities: SurfaceCapabilities, desired: Extent2D) -> Extent2D {
    if capabilities.current_extent.width != EXTENT_DETERMINED_BY_APPLICATION {
        capabilities.current_extent
    } else {
        Extent2D {
            width: spec_clamp_u32(
                desired.width,
                capabilities.min_image_extent.width,
                capabilities.max_image_extent.width,
            ),
            height: spec_clamp_u32(
                desired.height,
                capabilities.min_image_extent.height,
                capabilities.max_image_extent.height,
            ),
        }
    }
}

fn clamp_u32(value: u32, low: u32, high: u32) -> (r: u32)
    ensures
        r == spec_clamp_u32(value, low, high),
{
    if value < low {
        low
    } else if value > high {
        high
    } else {
        value
    }
}

/// Chooses the swapchain extent: uses the surface's current extent
/// verbatim when it is definite; when the surface leaves the extent
/// to the application, clamps the desired size into the surface's
/// min/max extent bounds.
pub fn choose_swap_extent(capabilities: SurfaceCapabilities, desired: Extent2D) -> (extent:
    Extent2D)
    ensures
        extent == spec_choose_extent(capabilities, desired),
{
    if capabilities.current_extent.width != EXTENT_DETERMINED_BY_APPLICATION {
        return capabilities.current_extent;
    }

    Extent2D {
        width: clamp_u32(
            desired.width,
            capabilities.min_image_extent.width,
            capabilities.max_image_extent.width,
        ),
        height: clamp_u32(
            desired.height,
            capabilities.min_image_extent.height,
            capabilities.max_image_extent.height,
        ),
    }
}

/// The image count that planning yields: one more than the surface's
/// minimum, clamped to the surface's maximum when that maximum is
/// nonzero (zero meaning unbounded).
pub open spec fn spec_image_count(capabilities: SurfaceCapabilities) -> u32 {
    let wanted = (capabilities.min_image_count + 1) as u32;
    if capabilities.max_image_count != 0 && wanted > capabilities.max_image_count {
        capabilities.max_image_count
    } else {
        wanted
    }
}

/// Computes how many presentable images to request: the minimum plus
/// one for headroom, kept within the surface's stated maximum.
pub fn compute_image_count(capabilities: SurfaceCapabilities) -> (count: u32)
    requires
        capabilities.spec_coherent_counts(),
    ensures
        count == spec_image_count(capabilities),
        capabilities.min_image_count < count || count == capabilities.max_image_count,
{
    let wanted = capabilities.min_image_count + 1;
    if capabilities.max_image_count != 0 && wanted > capabilities.max_image_count {
        capabilities.max_image_count
    } else {
        wanted
    }
}

/// The sharing mode that planning yields: exclusive access when one
/// family both draws and presents, concurrent access when the two
/// families differ.
pub open spec fn spec_sharing_mode(graphics_family: u32, present_family: u32) -> i32 {
    if graphics_family == present_family {
        SHARING_MODE_EXCLUSIVE
    } else {
        SHARING_MODE_CONCURRENT
    }
}

/// Picks the image-sharing mode from the two resolved queue families.
pub fn select_sharing_mode(graphics_family: u32, present_family: u32) -> (mode: i32)
    ensures
        mode == spec_sharing_mode(graphics_family, present_family),
{
    if graphics_family == present_family {
        SHARING_MODE_EXCLUSIVE
    } else {
        SHARING_MODE_CONCURRENT
    }
}

/// Everything a swapchain is created from, decided ahead of the
/// device calls: format, present mode, extent, image count, sharing
/// mode and the two queue families.
#[derive(Clone, Copy, Debug, PartialEq, Eq, Structural)]
pub struct SwapchainPlan {
    pub surface_format: SurfaceFormat,
    pub present_mode: i32,
    pub extent: Extent2D,
    pub image_count: u32,
    pub sharing_mode: i32,
    pub graphics_family: u32,
    pub present_family: u32,
}

/// The plan that follows from what the surface reports, the desired
/// size and the resolved queue families.
pub open spec fn spec_plan_swapchain(
    capabilities: SurfaceCapabilities,
    formats: Seq<SurfaceFormat>,
    present_modes: Seq<i32>,
    desired: Extent2D,
    graphics_family: u32,
    present_family: u32,
) -> SwapchainPlan {
    SwapchainPlan {
        surface_format: spec_choose_surface_format(formats),
        present_mode: spec_choose_present_mode(present_modes),
        extent: spec_choose_extent(capabilities, desired),
        image_count: spec_image_count(capabilities),
        sharing_mode: spec_sharing_mode(graphics_family, present_family),
        graphics_family,
        present_family,
    }
}

/// Plans the next swapchain from the current surface state. The
/// queue-family record must be complete, and the format list must
/// not be empty: both were established during device selection.
pub fn plan_swapchain(
    support: &SwapchainSupport,
    desired: Extent2D,
    indices: QueueFamilyIndice,
) -> (plan: SwapchainPlan)
    requires
        support.formats@.len() > 0,
        support.capabilities.spec_coherent_counts(),
        indices.spec_is_complete(),
    ensures
        plan == spec_plan_swapchain(
            support.capabilities,
            support.formats@,
            support.present_modes@,
            desired,
            indices.graphics_family->0,
            indices.present_family->0,
        ),
{
    let graphics_family = indices.graphics_family.unwrap();
    let present_family = indices.present_family.unwrap();

    SwapchainPlan {
        surface_format: choose_swap_surface_format(&support.formats),
        present_mode: choose_swap_present_mode(&support.present_modes),
        extent: choose_swap_extent(support.capabilities, desired),
        image_count: compute_image_count(support.capabilities),
        sharing_mode: select_sharing_mode(graphics_family, present_family),
        graphics_family,
        present_family,
    }
}

/// Recreation is idempotent with respect to visible state: two plans
/// drawn from the same surface state — no resize, no capability
/// change between them — agree on extent and format, so recreating
/// twice in a row changes nothing visible.
pub proof fn lemma_recreation_idempotent(
    capabilities: SurfaceCapabilities,
    formats: Seq<SurfaceFormat>,
    present_modes: Seq<i32>,
    desired: Extent2D,
    graphics_family: u32,
    present_family: u32,
)
    ensures
        ({
            let first = spec_plan_swapchain(
                capabilities,
                formats,
                present_modes,
                desired,
                graphics_family,
                present_family,
            );
            let second = spec_plan_swapchain(
                capabilities,
                formats,
                present_modes,
                desired,
                graphics_family,
                present_family,
            );
            second.extent == first.extent && second.surface_format == first.surface_format
                && second == first
        }),
{
}

} // verus!

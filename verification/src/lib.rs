//! Frame-rendering core for a GPU-accelerated presentation engine.
//!
//! The crate owns the decision logic of a renderer: queue-family
//! resolution, device selection, swapchain planning, memory-type
//! resolution, the per-frame scheduling protocol and the teardown
//! order. The graphics API calls themselves live outside the library
//! and hand plain values in and out.

pub mod app_error;
pub mod descriptors;
pub mod device;
pub mod extensions;
pub mod images;
pub mod lifecycle;
pub mod memory;
pub mod queue_families;
pub mod scheduler;
pub mod spirv;
pub mod swapchain;
pub mod uniform;

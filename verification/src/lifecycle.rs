//! Lifecycle orchestration: the one creation order of the renderer's
//! owned objects, and the teardown order — its exact reverse — that
//! never destroys an object another still references.

use vstd::prelude::*;

use vstd::seq_lib::*;

verus! {

/// Every class of object the renderer owns, one destroy-unit each.
#[derive(Clone, Copy, Debug, PartialEq, Eq, Structural)]
pub enum ResourceClass {
    Instance,
    DebugMessenger,
    Surface,
    Device,
    VertexBuffer,
    IndexBuffer,
    UniformBuffers,
    TextureImage,
    TextureImageView,
    TextureSampler,
    Swapchain,
    SwapchainImageViews,
    RenderPass,
    PipelineLayout,
    Pipeline,
    DescriptorSetLayout,
    DescriptorPool,
    CommandPool,
    FrameSyncObjects,
}

/// The order in which the bootstrap sequence creates the owned
/// objects: the device connection first, the per-frame
/// synchronization primitives last.
pub open spec fn spec_creation_order() -> Seq<ResourceClass> {
    seq![
        ResourceClass::Instance,
        ResourceClass::DebugMessenger,
        ResourceClass::Surface,
        ResourceClass::Device,
        ResourceClass::VertexBuffer,
        ResourceClass::IndexBuffer,
        ResourceClass::UniformBuffers,
        ResourceClass::TextureImage,
        ResourceClass::TextureImageView,
        ResourceClass::TextureSampler,
        ResourceClass::Swapchain,
        ResourceClass::SwapchainImageViews,
        ResourceClass::RenderPass,
        ResourceClass::PipelineLayout,
        ResourceClass::Pipeline,
        ResourceClass::DescriptorSetLayout,
        ResourceClass::DescriptorPool,
        ResourceClass::CommandPool,
        ResourceClass::FrameSyncObjects,
    ]
}

/// The teardown order: exactly the creation order reversed.
pub open spec fn spec_teardown_order() -> Seq<ResourceClass> {
    spec_creation_order().reverse()
}

/// The order in which `shutdown` must destroy the owned objects,
/// after waiting for the device to go idle: per-frame sync
/// primitives first, the device connection last. Destroying in any
/// other order risks destroying an object another still references.
pub fn teardown_sequence() -> (order: Vec<ResourceClass>)
    ensures
        order@ == spec_teardown_order(),
{
    let mut order: Vec<ResourceClass> = Vec::new();
    order.push(ResourceClass::FrameSyncObjects);
    order.push(ResourceClass::CommandPool);
    order.push(ResourceClass::DescriptorPool);
    order.push(ResourceClass::DescriptorSetLayout);
    order.push(ResourceClass::Pipeline);
    order.push(ResourceClass::PipelineLayout);
    order.push(ResourceClass::RenderPass);
    order.push(ResourceClass::SwapchainImageViews);
    order.push(ResourceClass::Swapchain);
    order.push(ResourceClass::TextureSampler);
    order.push(ResourceClass::TextureImageView);
    order.push(ResourceClass::TextureImage);
    order.push(ResourceClass::UniformBuffers);
    order.push(ResourceClass::IndexBuffer);
    order.push(ResourceClass::VertexBuffer);
    order.push(ResourceClass::Device);
    order.push(ResourceClass::Surface);
    order.push(ResourceClass::DebugMessenger);
    order.push(ResourceClass::Instance);
    proof {
        assert(order@ =~= spec_teardown_order());
    }
    order
}

/// Strict reverse-creation order: whatever is created later is
/// destroyed earlier. For any two positions in the creation order,
/// the later-created class stands earlier in the teardown order.
pub proof fn lemma_teardown_reverses_creation(i: int, j: int)
    requires
        0 <= i < j < spec_creation_order().len(),
    ensures
        spec_teardown_order().len() == spec_creation_order().len(),
        spec_teardown_order()[spec_creation_order().len() - 1 - j] == spec_creation_order()[j],
        spec_teardown_order()[spec_creation_order().len() - 1 - i] == spec_creation_order()[i],
        spec_creation_order().len() - 1 - j < spec_creation_order().len() - 1 - i,
{
}

} // verus!

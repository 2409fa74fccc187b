//! Descriptor binding layout: one set per slot, two writes each.

use frame_core::descriptors::{
    descriptor_bindings, BindingTarget, DescriptorBinding, BINDING_TEXTURE_SAMPLER,
    BINDING_UNIFORM_BUFFER,
};

#[test]
fn two_writes_per_slot_in_slot_order() {
    let bindings = descriptor_bindings(2);
    assert_eq!(
        bindings,
        vec![
            DescriptorBinding {
                slot: 0,
                binding: BINDING_UNIFORM_BUFFER,
                target: BindingTarget::SlotUniformBuffer(0),
            },
            DescriptorBinding {
                slot: 0,
                binding: BINDING_TEXTURE_SAMPLER,
                target: BindingTarget::SharedTextureSampler,
            },
            DescriptorBinding {
                slot: 1,
                binding: BINDING_UNIFORM_BUFFER,
                target: BindingTarget::SlotUniformBuffer(1),
            },
            DescriptorBinding {
                slot: 1,
                binding: BINDING_TEXTURE_SAMPLER,
                target: BindingTarget::SharedTextureSampler,
            },
        ]
    );
}

#[test]
fn every_uniform_write_points_at_its_own_slots_buffer() {
    let bindings = descriptor_bindings(3);
    assert_eq!(bindings.len(), 6);
    for binding in bindings {
        if let BindingTarget::SlotUniformBuffer(slot) = binding.target {
            assert_eq!(slot, binding.slot);
            assert_eq!(binding.binding, BINDING_UNIFORM_BUFFER);
        } else {
            assert_eq!(binding.binding, BINDING_TEXTURE_SAMPLER);
        }
    }
}

#[test]
fn no_slots_yield_no_writes() {
    assert!(descriptor_bindings(0).is_empty());
}

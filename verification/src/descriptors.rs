//! Descriptor binding layout: one binding set per concurrency slot,
//! each pointing binding 0 at that slot's own uniform buffer and
//! binding 1 at the texture-and-sampler pair all slots share.

use vstd::prelude::*;

verus! {

/// Binding slot of a set's per-frame uniform buffer.
pub const BINDING_UNIFORM_BUFFER: u32 = 0;

/// Binding slot of the shared combined texture and sampler.
pub const BINDING_TEXTURE_SAMPLER: u32 = 1;

/// What one descriptor write points at.
#[derive(Clone, Copy, Debug, PartialEq, Eq, Structural)]
pub enum BindingTarget {
    /// The uniform buffer owned by the slot of the write's set.
    SlotUniformBuffer(usize),
    /// The texture and sampler every slot reads.
    SharedTextureSampler,
}

/// One descriptor write: which slot's set it updates, at which
/// binding, pointing at what.
#[derive(Clone, Copy, Debug, PartialEq, Eq, Structural)]
pub struct DescriptorBinding {
    pub slot: usize,
    pub binding: u32,
    pub target: BindingTarget,
}

/// The write that binds slot `s`'s uniform buffer.
pub open spec fn spec_uniform_binding(s: usize) -> DescriptorBinding {
    DescriptorBinding {
        slot: s,
        binding: BINDING_UNIFORM_BUFFER,
        target: BindingTarget::SlotUniformBuffer(s),
    }
}

/// The write that binds the shared texture and sampler into slot
/// `s`'s set.
pub open spec fn spec_sampler_binding(s: usize) -> DescriptorBinding {
    DescriptorBinding {
        slot: s,
        binding: BINDING_TEXTURE_SAMPLER,
        target: BindingTarget::SharedTextureSampler,
    }
}

/// Lays out every descriptor write of one batched update call: two
/// writes per slot, in slot order — binding 0 to the slot's own
/// uniform buffer, binding 1 to the shared texture and sampler. No
/// slot's set ever points at another slot's buffer.
pub fn descriptor_bindings(slot_count: usize) -> (bindings: Vec<DescriptorBinding>)
    requires
        slot_count <= usize::MAX / 2,
    ensures
        bindings@.len() == 2 * slot_count,
        forall|i: int|
            0 <= i < bindings@.len() ==> #[trigger] bindings@[i] == (if i % 2 == 0 {
                spec_uniform_binding((i / 2) as usize)
            } else {
                spec_sampler_binding((i / 2) as usize)
            }),
{
    let mut bindings: Vec<DescriptorBinding> = Vec::new();
    let mut s: usize = 0;
    while s < slot_count
        invariant
            slot_count <= usize::MAX / 2,
            0 <= s <= slot_count,
            bindings@.len() == 2 * s,
            forall|i: int|
                0 <= i < bindings@.len() ==> #[trigger] bindings@[i] == (if i % 2 == 0 {
                    spec_uniform_binding((i / 2) as usize)
                } else {
                    spec_sampler_binding((i / 2) as usize)
                }),
        decreases slot_count - s,
    {
        bindings.push(
            DescriptorBinding {
                slot: s,
                binding: BINDING_UNIFORM_BUFFER,
                target: BindingTarget::SlotUniformBuffer(s),
            },
        );
        bindings.push(
            DescriptorBinding {
                slot: s,
                binding: BINDING_TEXTURE_SAMPLER,
                target: BindingTarget::SharedTextureSampler,
            },
        );
        s = s + 1;
    }

    bindings
}

} // verus!

//! Image layout transitions: the explicit state machine a texture
//! upload walks — undefined → transfer destination → shader read-only
//! — and the pipeline-barrier masks each step needs.

use vstd::prelude::*;

verus! {

/// Access bit: a transfer stage writes the image.
pub const ACCESS_TRANSFER_WRITE: u32 = 0x1000;

/// Access bit: a shader stage reads the image.
pub const ACCESS_SHADER_READ: u32 = 0x20;

/// Pipeline stage bit: the very start of the pipeline.
pub const STAGE_TOP_OF_PIPE: u32 = 0x1;

/// Pipeline stage bit: the transfer stage.
pub const STAGE_TRANSFER: u32 = 0x1000;

/// Pipeline stage bit: the fragment shader stage.
pub const STAGE_FRAGMENT_SHADER: u32 = 0x80;

/// The image layouts the texture-upload state machine passes
/// through.
#[derive(Clone, Copy, Debug, PartialEq, Eq, Structural)]
pub enum ImageLayoutState {
    Undefined,
    TransferDstOptimal,
    ShaderReadOnlyOptimal,
}

/// The four masks of one pipeline barrier: which accesses it orders
/// and between which pipeline stages.
#[derive(Clone, Copy, Debug, PartialEq, Eq, Structural)]
pub struct TransitionMasks {
    pub src_access: u32,
    pub dst_access: u32,
    pub src_stage: u32,
    pub dst_stage: u32,
}

/// The masks each supported transition needs: top-of-pipe → transfer
/// for the first upload step, transfer → fragment shader for the
/// second; any other pair gets empty masks.
pub open spec fn spec_transition_masks(
    old_layout: ImageLayoutState,
    new_layout: ImageLayoutState,
) -> TransitionMasks {
    if old_layout == ImageLayoutState::Undefined && new_layout
        == ImageLayoutState::TransferDstOptimal {
        TransitionMasks {
            src_access: 0,
            dst_access: ACCESS_TRANSFER_WRITE,
            src_stage: STAGE_TOP_OF_PIPE,
            dst_stage: STAGE_TRANSFER,
        }
    } else if old_layout == ImageLayoutState::TransferDstOptimal && new_layout
        == ImageLayoutState::ShaderReadOnlyOptimal {
        TransitionMasks {
            src_access: ACCESS_TRANSFER_WRITE,
            dst_access: ACCESS_SHADER_READ,
            src_stage: STAGE_TRANSFER,
            dst_stage: STAGE_FRAGMENT_SHADER,
        }
    } else {
        TransitionMasks { src_access: 0, dst_access: 0, src_stage: 0, dst_stage: 0 }
    }
}

/// Picks the pipeline-barrier masks for one layout transition of the
/// texture-upload state machine.
pub fn plan_layout_transition(
    old_layout: ImageLayoutState,
    new_layout: ImageLayoutState,
) -> (masks: TransitionMasks)
    ensures
        masks == spec_transition_masks(old_layout, new_layout),
{
    match (old_layout, new_layout) {
        (ImageLayoutState::Undefined, ImageLayoutState::TransferDstOptimal) => TransitionMasks {
            src_access: 0,
            dst_access: ACCESS_TRANSFER_WRITE,
            src_stage: STAGE_TOP_OF_PIPE,
            dst_stage: STAGE_TRANSFER,
        },
        (
            ImageLayoutState::TransferDstOptimal,
            ImageLayoutState::ShaderReadOnlyOptimal,
        ) => TransitionMasks {
            src_access: ACCESS_TRANSFER_WRITE,
            dst_access: ACCESS_SHADER_READ,
            src_stage: STAGE_TRANSFER,
            dst_stage: STAGE_FRAGMENT_SHADER,
        },
        _ => TransitionMasks { src_access: 0, dst_access: 0, src_stage: 0, dst_stage: 0 },
    }
}

} // verus!

//! Image layout transitions and their barrier masks.

use frame_core::images::{
    plan_layout_transition, ImageLayoutState, ACCESS_SHADER_READ, ACCESS_TRANSFER_WRITE,
    STAGE_FRAGMENT_SHADER, STAGE_TOP_OF_PIPE, STAGE_TRANSFER,
};

#[test]
fn upload_first_step_runs_top_of_pipe_to_transfer() {
    let masks = plan_layout_transition(
        ImageLayoutState::Undefined,
        ImageLayoutState::TransferDstOptimal,
    );
    assert_eq!(masks.src_access, 0);
    assert_eq!(masks.dst_access, ACCESS_TRANSFER_WRITE);
    assert_eq!(masks.src_stage, STAGE_TOP_OF_PIPE);
    assert_eq!(masks.dst_stage, STAGE_TRANSFER);
}

#[test]
fn upload_second_step_runs_transfer_to_fragment_shader() {
    let masks = plan_layout_transition(
        ImageLayoutState::TransferDstOptimal,
        ImageLayoutState::ShaderReadOnlyOptimal,
    );
    assert_eq!(masks.src_access, ACCESS_TRANSFER_WRITE);
    assert_eq!(masks.dst_access, ACCESS_SHADER_READ);
    assert_eq!(masks.src_stage, STAGE_TRANSFER);
    assert_eq!(masks.dst_stage, STAGE_FRAGMENT_SHADER);
}

#[test]
fn unsupported_transitions_get_empty_masks() {
    let masks = plan_layout_transition(
        ImageLayoutState::ShaderReadOnlyOptimal,
        ImageLayoutState::Undefined,
    );
    assert_eq!(masks.src_access, 0);
    assert_eq!(masks.dst_access, 0);
    assert_eq!(masks.src_stage, 0);
    assert_eq!(masks.dst_stage, 0);
}

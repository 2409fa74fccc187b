//! The frame scheduler's cycle protocol: backpressure, resize
//! handling and recreation points.

use frame_core::scheduler::FrameScheduler;

/// Drives one full cycle with the given acquire and present
/// outcomes; returns (presented, recreated).
fn run_cycle(
    scheduler: &mut FrameScheduler,
    acquire_out_of_date: bool,
    present_out_of_date: bool,
) -> (bool, bool) {
    scheduler.note_fence_waited();
    if scheduler.acquire_recreates(acquire_out_of_date) {
        scheduler.note_device_idle();
        return (false, true);
    }
    scheduler.note_submitted();
    if scheduler.handle_present(present_out_of_date) {
        scheduler.note_device_idle();
        (!present_out_of_date, true)
    } else {
        (true, false)
    }
}

#[test]
fn scheduler_starts_on_slot_zero_with_no_work_in_flight() {
    let scheduler = FrameScheduler::new(2);
    assert_eq!(scheduler.current_slot(), 0);
    assert!(!scheduler.resize_pending());
    assert_eq!(scheduler.in_flight, vec![false, false]);
}

#[test]
fn three_redraws_without_resize_present_without_recreation() {
    let mut scheduler = FrameScheduler::new(2);
    let mut presents = 0;
    let mut recreations = 0;
    let mut slots = Vec::new();
    for _ in 0..3 {
        slots.push(scheduler.current_slot());
        let (presented, recreated) = run_cycle(&mut scheduler, false, false);
        presents += presented as u32;
        recreations += recreated as u32;
    }
    assert_eq!(presents, 3);
    assert_eq!(recreations, 0);
    assert_eq!(slots, vec![0, 1, 0]);
    assert_eq!(scheduler.current_slot(), 1);
}

#[test]
fn resize_between_redraws_recreates_once_at_the_present_step() {
    let mut scheduler = FrameScheduler::new(2);

    let (presented, recreated) = run_cycle(&mut scheduler, false, false);
    assert!(presented && !recreated);

    scheduler.request_resize();
    assert!(scheduler.resize_pending());

    // Redraw 2: the pending resize must not abort acquisition — the
    // cycle records and submits normally and recreates only at the
    // present step.
    let slot_before = scheduler.current_slot();
    scheduler.note_fence_waited();
    assert!(!scheduler.acquire_recreates(false));
    scheduler.note_submitted();
    assert!(scheduler.handle_present(false));
    scheduler.note_device_idle();
    assert!(!scheduler.resize_pending());
    assert_eq!(scheduler.current_slot(), slot_before);

    // Redraw 3: the flag was consumed, no further recreation.
    let (presented, recreated) = run_cycle(&mut scheduler, false, false);
    assert!(presented && !recreated);
}

#[test]
fn stale_surface_at_acquire_aborts_the_cycle() {
    let mut scheduler = FrameScheduler::new(2);
    let slot_before = scheduler.current_slot();
    let (presented, recreated) = run_cycle(&mut scheduler, true, false);
    assert!(!presented && recreated);
    assert_eq!(scheduler.current_slot(), slot_before);
    assert_eq!(scheduler.in_flight, vec![false, false]);
}

#[test]
fn stale_surface_at_present_recreates_without_advancing() {
    let mut scheduler = FrameScheduler::new(2);
    let (presented, recreated) = run_cycle(&mut scheduler, false, true);
    assert!(!presented && recreated);
    assert_eq!(scheduler.current_slot(), 0);
}

#[test]
fn submission_marks_exactly_the_active_slot_in_flight() {
    let mut scheduler = FrameScheduler::new(3);
    scheduler.note_fence_waited();
    assert!(!scheduler.acquire_recreates(false));
    scheduler.note_submitted();
    assert_eq!(scheduler.in_flight, vec![true, false, false]);
    assert!(scheduler.in_flight.iter().filter(|b| **b).count() <= 3);
    assert!(!scheduler.handle_present(false));
    assert_eq!(scheduler.current_slot(), 1);
}

#[test]
fn depth_one_scheduler_cycles_on_one_slot() {
    let mut scheduler = FrameScheduler::new(1);
    for _ in 0..2 {
        let (presented, recreated) = run_cycle(&mut scheduler, false, false);
        assert!(presented && !recreated);
        assert_eq!(scheduler.current_slot(), 0);
    }
}

//! Per-slot uniform storage: the round trip of per-frame data.

use frame_core::uniform::UniformSlots;

#[test]
fn slots_start_zero_filled() {
    let slots = UniformSlots::new(2, 4);
    assert_eq!(slots.slot_count(), 2);
    assert_eq!(slots.read_slot(0), &vec![0, 0, 0, 0]);
    assert_eq!(slots.read_slot(1), &vec![0, 0, 0, 0]);
}

#[test]
fn data_written_in_one_cycle_is_read_back_in_that_cycle() {
    let mut slots = UniformSlots::new(2, 4);
    let frame0 = vec![1u8, 2, 3, 4];
    slots.write_slot(0, &frame0);
    assert_eq!(slots.read_slot(0), &frame0);
}

#[test]
fn next_cycles_write_leaves_the_previous_slot_untouched() {
    let mut slots = UniformSlots::new(2, 4);
    let frame0 = vec![1u8, 2, 3, 4];
    let frame1 = vec![5u8, 6, 7, 8];
    slots.write_slot(0, &frame0);
    slots.write_slot(1, &frame1);
    assert_eq!(slots.read_slot(0), &frame0);
    assert_eq!(slots.read_slot(1), &frame1);
}

#[test]
fn a_slot_is_rewritten_only_on_its_own_turn() {
    let mut slots = UniformSlots::new(2, 4);
    slots.write_slot(0, &vec![1u8, 2, 3, 4]);
    slots.write_slot(1, &vec![5u8, 6, 7, 8]);
    // The scheduler hands slot 0 out again only after its fence has
    // signaled; the new write then replaces the old bytes.
    slots.write_slot(0, &vec![9u8, 10, 11, 12]);
    assert_eq!(slots.read_slot(0), &vec![9u8, 10, 11, 12]);
    assert_eq!(slots.read_slot(1), &vec![5u8, 6, 7, 8]);
}

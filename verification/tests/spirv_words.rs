//! Shader bytecode reassembly into 32-bit words.

use frame_core::spirv::make_spirv_raw;

#[test]
fn bytes_become_little_endian_words() {
    let bytes = [0x03u8, 0x02, 0x23, 0x07, 0x00, 0x01, 0x02, 0x03];
    let words = make_spirv_raw(&bytes);
    assert_eq!(words, vec![0x0723_0203, 0x0302_0100]);
}

#[test]
fn an_empty_blob_yields_no_words() {
    let words = make_spirv_raw(&[]);
    assert!(words.is_empty());
}

#[test]
fn one_word_round_trips_through_its_bytes() {
    let word: u32 = 0x0723_0203;
    let bytes = word.to_le_bytes();
    let words = make_spirv_raw(&bytes);
    assert_eq!(words, vec![word]);
}

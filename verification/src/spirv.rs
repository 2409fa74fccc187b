//! Shader bytecode handling: reassembling an opaque byte blob into
//! the 32-bit little-endian words the device's shader-module call
//! expects.

use vstd::prelude::*;

verus! {

/// One 32-bit word assembled from four bytes, least significant
/// first.
pub open spec fn spec_word_from_le_bytes(b0: u8, b1: u8, b2: u8, b3: u8) -> u32 {
    (b0 as u32) | ((b1 as u32) << 8u32) | ((b2 as u32) << 16u32) | ((b3 as u32) << 24u32)
}

/// Reassembles compiled shader bytecode into 32-bit words, four
/// little-endian bytes each. Bytecode is defined in whole words, so
/// the blob's length is a multiple of four.
pub fn make_spirv_raw(bytes: &[u8]) -> (words: Vec<u32>)
    requires
        bytes@.len() % 4 == 0,
    ensures
        words@.len() == bytes@.len() / 4,
        forall|i: int|
            0 <= i < words@.len() ==> words@[i] == spec_word_from_le_bytes(
                bytes@[4 * i],
                bytes@[4 * i + 1],
                bytes@[4 * i + 2],
                bytes@[4 * i + 3],
            ),
{
    let mut words: Vec<u32> = Vec::new();
    let mut i: usize = 0;
    while i + 3 < bytes.len()
        invariant
            bytes@.len() % 4 == 0,
            i % 4 == 0,
            0 <= i <= bytes@.len(),
            words@.len() == i / 4,
            forall|k: int|
                0 <= k < words@.len() ==> words@[k] == spec_word_from_le_bytes(
                    bytes@[4 * k],
                    bytes@[4 * k + 1],
                    bytes@[4 * k + 2],
                    bytes@[4 * k + 3],
                ),
        decreases bytes@.len() - i,
    {
        let b0 = bytes[i];
        let b1 = bytes[i + 1];
        let b2 = bytes[i + 2];
        let b3 = bytes[i + 3];
        let word = (b0 as u32) | ((b1 as u32) << 8u32) | ((b2 as u32) << 16u32) | ((b3 as u32)
            << 24u32);
        words.push(word);
        i = i + 4;
    }

    words
}

} // verus!

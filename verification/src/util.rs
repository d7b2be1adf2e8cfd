//! Helpers for preparing shader bytecode.

use vstd::prelude::*;

verus! {

/// The byte of `code` at index `i`, or zero past the end: shader bytecode is
/// zero-padded up to a whole number of words.
pub open spec fn spirv_byte(code: Seq<u8>, i: int) -> int {
    if 0 <= i < code.len() {
        code[i] as int
    } else {
        0
    }
}

/// The little-endian 32-bit word assembled from the four bytes of `code`
/// starting at byte `4 * w`.
pub open spec fn spirv_word(code: Seq<u8>, w: int) -> u32 {
    (spirv_byte(code, 4 * w) + 0x100 * spirv_byte(code, 4 * w + 1) + 0x1_0000 * spirv_byte(
        code,
        4 * w + 2,
    ) + 0x100_0000 * spirv_byte(code, 4 * w + 3)) as u32
}

/// The number of 32-bit words needed to hold `n` bytes, and at least one.
pub open spec fn spirv_word_count(n: int) -> int {
    let words = n / 4 + if n % 4 > 0 {
        1int
    } else {
        0int
    };
    if words == 0 {
        1int
    } else {
        words
    }
}

/// Packs raw shader bytecode bytes into the little-endian 32-bit words the
/// native shader-module entry point expects, zero-padding the final word.
/// The result always holds at least one word, even for empty input.
pub fn spirv(code: &[u8]) -> (words: Vec<u32>)
    requires
        code@.len() < usize::MAX - 3,
    ensures
        words@.len() == spirv_word_count(code@.len() as int),
        forall|w: int| 0 <= w < words@.len() ==> words@[w] == spirv_word(code@, w),
{
    let byte_count = code.len();
    let word_extra: usize = if byte_count % 4 > 0 {
        1
    } else {
        0
    };
    let mut word_count = byte_count / 4 + word_extra;
    if word_count == 0 {
        word_count = 1;
    }
    let mut words: Vec<u32> = Vec::new();
    let mut w: usize = 0;
    while w < word_count
        invariant
            w <= word_count,
            words@.len() == w,
            word_count == spirv_word_count(code@.len() as int),
            4 * word_count < usize::MAX,
            forall|k: int| 0 <= k < w ==> words@[k] == spirv_word(code@, k),
        decreases word_count - w,
    {
        let b0 = byte_or_zero(code, 4 * w);
        let b1 = byte_or_zero(code, 4 * w + 1);
        let b2 = byte_or_zero(code, 4 * w + 2);
        let b3 = byte_or_zero(code, 4 * w + 3);
        let word: u32 = b0 as u32 + 0x100 * b1 as u32 + 0x1_0000 * b2 as u32 + 0x100_0000
            * b3 as u32;
        words.push(word);
        w = w + 1;
    }
    words
}

fn byte_or_zero(code: &[u8], i: usize) -> (b: u8)
    ensures
        b as int == spirv_byte(code@, i as int),
{
    if i < code.len() {
        code[i]
    } else {
        0
    }
}

} // verus!

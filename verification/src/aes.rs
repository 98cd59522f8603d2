use vstd::prelude::*;
use crate::words::{spec_native_words, block_words, block_bytes, lemma_native_words_round_trip};

verus! {

/// The number of bytes in an AES block and in a 128-bit key.
pub const AES_BLOCK_SIZE: usize = 16;

/// The four words that the AES engine's 32-bit KEY or DATA registers take for 16 bytes of a key
/// or a block: word `k` is bytes `4k..4k+4`, all four in the machine's one byte order.
pub fn block_to_words(block: &[u8; 16]) -> (words: [u32; 4])
    ensures
        spec_native_words(block@, words@),
{
    block_words(*block)
}

/// The 16 bytes of an AES block read back from the four 32-bit DATA registers: bytes
/// `4k..4k+4` are word `k`, all four in the machine's one byte order.
pub fn words_to_block(words: &[u32; 4]) -> (block: [u8; 16])
    ensures
        spec_native_words(block@, words@),
{
    block_bytes(words)
}

/// The words loaded for a key or block, read back as bytes, give the key or block again: the
/// words that `block_to_words` gives, turned back by `words_to_block`, are the original 16 bytes.
pub proof fn lemma_block_round_trip(block: [u8; 16], words: [u32; 4], back: [u8; 16])
    requires
        spec_native_words(block@, words@),
        spec_native_words(back@, words@),
    ensures
        back == block,
{
    lemma_native_words_round_trip(block@, back@, words@);
    assert(back =~= block);
}

} // verus!

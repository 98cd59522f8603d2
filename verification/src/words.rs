use vstd::prelude::*;
use vstd::endian::{endianness, Endian};

verus! {

/// The 4 bytes of `b` that start at `4k`, read as a little-endian word.
pub open spec fn spec_le_word(b: Seq<u8>, k: int) -> int {
    b[4 * k] + 0x100 * b[4 * k + 1] + 0x1_0000 * b[4 * k + 2] + 0x100_0000 * b[4 * k + 3]
}

/// The 4 bytes of `b` that start at `4k`, read as a big-endian word.
pub open spec fn spec_be_word(b: Seq<u8>, k: int) -> int {
    b[4 * k + 3] + 0x100 * b[4 * k + 2] + 0x1_0000 * b[4 * k + 1] + 0x100_0000 * b[4 * k]
}

/// Word `k` of the bytes `b`, read little-endian when `little` holds and big-endian otherwise.
pub open spec fn spec_word_in(little: bool, b: Seq<u8>, k: int) -> int {
    if little {
        spec_le_word(b, k)
    } else {
        spec_be_word(b, k)
    }
}

/// The words `w` are the bytes `b`, 4 by 4, all read in the one byte order `little` names.
pub open spec fn spec_words_in(little: bool, b: Seq<u8>, w: Seq<u32>) -> bool {
    &&& b.len() == 4 * w.len()
    &&& forall|k: int| 0 <= k < w.len() ==> #[trigger] w[k] == spec_word_in(little, b, k)
}

/// Whether the executing machine stores words little-endian (vstd's `endianness()`): one fixed
/// byte order for every conversion.
pub open spec fn spec_native_little() -> bool {
    endianness() == Endian::Little
}

/// The words `w` are the bytes `b` read in the machine's byte order, the same for every word and
/// every call.
pub open spec fn spec_native_words(b: Seq<u8>, w: Seq<u32>) -> bool {
    spec_words_in(spec_native_little(), b, w)
}

proof fn lemma_word_determines_bytes(b1: Seq<u8>, b2: Seq<u8>, little: bool, k: int)
    requires
        0 <= k,
        4 * k + 4 <= b1.len(),
        4 * k + 4 <= b2.len(),
        spec_word_in(little, b1, k) == spec_word_in(little, b2, k),
    ensures
        b1[4 * k] == b2[4 * k],
        b1[4 * k + 1] == b2[4 * k + 1],
        b1[4 * k + 2] == b2[4 * k + 2],
        b1[4 * k + 3] == b2[4 * k + 3],
{
    let (x0, x1, x2, x3) = (b1[4 * k], b1[4 * k + 1], b1[4 * k + 2], b1[4 * k + 3]);
    let (y0, y1, y2, y3) = (b2[4 * k], b2[4 * k + 1], b2[4 * k + 2], b2[4 * k + 3]);
    if little {
        assert(x0 + 0x100 * x1 + 0x1_0000 * x2 + 0x100_0000 * x3 == y0 + 0x100 * y1 + 0x1_0000 * y2
            + 0x100_0000 * y3 ==> x0 == y0 && x1 == y1 && x2 == y2 && x3 == y3) by (nonlinear_arith);
    } else {
        assert(x3 + 0x100 * x2 + 0x1_0000 * x1 + 0x100_0000 * x0 == y3 + 0x100 * y2 + 0x1_0000 * y1
            + 0x100_0000 * y0 ==> x0 == y0 && x1 == y1 && x2 == y2 && x3 == y3) by (nonlinear_arith);
    }
}

/// Words read in the machine's byte order determine their bytes: two byte sequences that give the
/// same words are the same. So converting bytes to words and back gives the bytes, and every
/// conversion of the same bytes gives the same words.
pub proof fn lemma_native_words_round_trip(b1: Seq<u8>, b2: Seq<u8>, w: Seq<u32>)
    requires
        spec_native_words(b1, w),
        spec_native_words(b2, w),
    ensures
        b1 == b2,
{
    let little = spec_native_little();
    assert forall|i: int| 0 <= i < b1.len() implies b1[i] == b2[i] by {
        let k = i / 4;
        assert(w[k] == spec_word_in(little, b1, k));
        assert(w[k] == spec_word_in(little, b2, k));
        lemma_word_determines_bytes(b1, b2, little, k);
    }
    assert(b1 =~= b2);
}

/// Bytes determine their words: two word sequences read from the same bytes are the same.
pub proof fn lemma_native_words_unique(b: Seq<u8>, w1: Seq<u32>, w2: Seq<u32>)
    requires
        spec_native_words(b, w1),
        spec_native_words(b, w2),
    ensures
        w1 == w2,
{
    assert forall|k: int| 0 <= k < w1.len() implies w1[k] == w2[k] by {
        assert(w1[k] == spec_word_in(spec_native_little(), b, k));
        assert(w2[k] == spec_word_in(spec_native_little(), b, k));
    }
    assert(w1 =~= w2);
}

/// On a little-endian machine (the Cortex-M target), word `k` is byte `4k` plus 256 times byte
/// `4k+1`, and so on: the least significant byte comes first.
pub proof fn lemma_native_words_little_endian(b: Seq<u8>, w: Seq<u32>, k: int)
    requires
        spec_native_words(b, w),
        spec_native_little(),
        0 <= k < w.len(),
    ensures
        w[k] == b[4 * k] + 0x100 * b[4 * k + 1] + 0x1_0000 * b[4 * k + 2] + 0x100_0000 * b[4 * k
            + 3],
{
}

/// The words of a sequence of double words, in order.
pub open spec fn spec_flat_words(c: Seq<[u32; 2]>) -> Seq<u32> {
    Seq::new(2 * c.len(), |k: int| c[k / 2]@[k % 2])
}

/// Reinterprets 16 bytes as four `u32` words, through `bytemuck::cast`.
///
/// `bytemuck::cast` copies the bytes of its argument into a value of the target type of the same
/// size, so word `k` is made of bytes `4k..4k+4`, read in the machine's byte order, the same for
/// all four words. The contract states that the words are the bytes read in the machine's byte
/// order, as vstd's `endianness()` names it; which order that is, is not stated.
#[verifier::external_body]
pub(crate) fn block_words(b: [u8; 16]) -> (w: [u32; 4])
    ensures
        spec_native_words(b@, w@),
{
    bytemuck::cast::<[u8; 16], [u32; 4]>(b)
}

/// The 16 bytes of four `u32` words in memory, through `bytemuck::bytes_of`.
///
/// `bytemuck::bytes_of` views a value as the slice of its bytes (16 for `[u32; 4]`), each word in
/// the machine's byte order, the same for all four. The contract states that the words are the
/// bytes read in the machine's byte order, as vstd's `endianness()` names it; which order that
/// is, is not stated.
#[verifier::external_body]
pub(crate) fn block_bytes(w: &[u32; 4]) -> (b: [u8; 16])
    ensures
        spec_native_words(b@, w@),
{
    let s = bytemuck::bytes_of(w);
    [s[0], s[1], s[2], s[3], s[4], s[5], s[6], s[7], s[8], s[9], s[10], s[11], s[12], s[13], s[14], s[15]]
}

/// Reads a 1KiB page as 128 double words, through `bytemuck::pod_read_unaligned`.
///
/// `bytemuck::pod_read_unaligned` copies a byte slice of exactly the target's size (here 1024
/// bytes, so it does not panic) into a value of the target type, with no alignment requirement;
/// word `k` (double word `k / 2`, half `k % 2`) is made of bytes `4k..4k+4`, read in the machine's
/// byte order, the same for all 256 words. The contract states that the words are the bytes read
/// in the machine's byte order, as vstd's `endianness()` names it; which order that is, is not
/// stated.
#[verifier::external_body]
pub(crate) fn page_double_words(page: &[u8; 1024]) -> (c: [[u32; 2]; 128])
    ensures
        spec_native_words(page@, spec_flat_words(c@)),
{
    bytemuck::pod_read_unaligned::<[[u32; 2]; 128]>(page)
}

} // verus!

//! Byte images of scalars and indices, as the device reads them from memory.

use vstd::prelude::*;

verus! {

/// The four bytes of a 32-bit word, least significant first.
pub open spec fn le_word(w: u32) -> Seq<u8> {
    seq![
        (w % 0x100) as u8,
        (w / 0x100 % 0x100) as u8,
        (w / 0x1_0000 % 0x100) as u8,
        (w / 0x100_0000) as u8,
    ]
}

/// The four bytes of a 32-bit word, most significant first.
pub open spec fn be_word(w: u32) -> Seq<u8> {
    seq![
        (w / 0x100_0000) as u8,
        (w / 0x1_0000 % 0x100) as u8,
        (w / 0x100 % 0x100) as u8,
        (w % 0x100) as u8,
    ]
}

/// The two bytes of a 16-bit index, least significant first.
pub open spec fn le_index(i: u16) -> Seq<u8> {
    seq![(i % 0x100) as u8, (i / 0x100) as u8]
}

/// The two bytes of a 16-bit index, most significant first.
pub open spec fn be_index(i: u16) -> Seq<u8> {
    seq![(i / 0x100) as u8, (i % 0x100) as u8]
}

/// The words laid end to end, each in little-endian order.
pub open spec fn le_words(words: Seq<u32>) -> Seq<u8> {
    Seq::new(4 * words.len(), |i: int| le_word(words[i / 4])[i % 4])
}

/// The words laid end to end, each in big-endian order.
pub open spec fn be_words(words: Seq<u32>) -> Seq<u8> {
    Seq::new(4 * words.len(), |i: int| be_word(words[i / 4])[i % 4])
}

/// The indices laid end to end, each in little-endian order.
pub open spec fn le_indices(indices: Seq<u16>) -> Seq<u8> {
    Seq::new(2 * indices.len(), |i: int| le_index(indices[i / 2])[i % 2])
}

/// The indices laid end to end, each in big-endian order.
pub open spec fn be_indices(indices: Seq<u16>) -> Seq<u8> {
    Seq::new(2 * indices.len(), |i: int| be_index(indices[i / 2])[i % 2])
}

/// `bytes` is the in-memory image of `words` on some machine: the words in
/// order, without gaps, every one in the same byte order.
pub open spec fn is_word_image(bytes: Seq<u8>, words: Seq<u32>) -> bool {
    bytes == le_words(words) || bytes == be_words(words)
}

/// `bytes` is the in-memory image of `indices` on some machine: the indices
/// in order, without gaps, every one in the same byte order.
pub open spec fn is_index_image(bytes: Seq<u8>, indices: Seq<u16>) -> bool {
    bytes == le_indices(indices) || bytes == be_indices(indices)
}

/// Trusted wrapper around `bytemuck::cast_slice::<u32, u8>`.
///
/// `cast_slice` reinterprets the memory of the slice as bytes without moving
/// or changing it, and fails only when the target type is larger or more
/// strictly aligned than the source, which `u8` never is. The contract
/// claims that the copy returned here is that memory: four bytes per word, in
/// the order of the words, each word in the byte order of the machine the
/// program runs on. Which of the two orders that is, is not claimed.
#[verifier::external_body]
pub(crate) fn cast_words(words: &[u32]) -> (bytes: Vec<u8>)
    ensures
        is_word_image(bytes@, words@),
{
    bytemuck::cast_slice::<u32, u8>(words).to_vec()
}

/// Trusted wrapper around `bytemuck::cast_slice::<u16, u8>`.
///
/// As for `cast_words`, with two bytes per index.
#[verifier::external_body]
pub(crate) fn cast_indices(indices: &[u16]) -> (bytes: Vec<u8>)
    ensures
        is_index_image(bytes@, indices@),
{
    bytemuck::cast_slice::<u16, u8>(indices).to_vec()
}

/// `bytes` with the four bytes of every word in reverse order.
pub open spec fn swap_words(bytes: Seq<u8>) -> Seq<u8> {
    Seq::new(bytes.len(), |i: int| bytes[4 * (i / 4) + 3 - i % 4])
}

/// The two byte orders of a word list are each other with every word
/// reversed.
pub proof fn lemma_orders_are_swapped(words: Seq<u32>)
    ensures
        be_words(words) == swap_words(le_words(words)),
        le_words(words) == swap_words(be_words(words)),
{
    let le = le_words(words);
    let be = be_words(words);
    assert forall|i: int| 0 <= i < be.len() implies be[i] == swap_words(le)[i] by {
        let j = 4 * (i / 4) + 3 - i % 4;
        assert(j / 4 == i / 4 && j % 4 == 3 - i % 4);
    }
    assert forall|i: int| 0 <= i < le.len() implies le[i] == swap_words(be)[i] by {
        let j = 4 * (i / 4) + 3 - i % 4;
        assert(j / 4 == i / 4 && j % 4 == 3 - i % 4);
    }
    assert(be =~= swap_words(le));
    assert(le =~= swap_words(be));
}

/// Two images of the same words are equal byte for byte, unless they were
/// laid out in different byte orders: then one is the other with every word
/// reversed.
pub proof fn lemma_images_agree(first: Seq<u8>, second: Seq<u8>, words: Seq<u32>)
    requires
        is_word_image(first, words),
        is_word_image(second, words),
    ensures
        first.len() == second.len(),
        second == first || second == swap_words(first),
{
    lemma_orders_are_swapped(words);
}

/// A run of whole words inside an image is the image of those words, in the
/// byte order of the whole.
pub proof fn lemma_image_of_part(bytes: Seq<u8>, words: Seq<u32>, from: int, to: int)
    requires
        is_word_image(bytes, words),
        0 <= from <= to <= words.len(),
    ensures
        is_word_image(bytes.subrange(4 * from, 4 * to), words.subrange(from, to)),
{
    let part = bytes.subrange(4 * from, 4 * to);
    let part_words = words.subrange(from, to);
    if bytes == le_words(words) {
        assert forall|i: int| 0 <= i < part.len() implies part[i] == le_words(part_words)[i] by {
            assert((4 * from + i) / 4 == from + i / 4 && (4 * from + i) % 4 == i % 4);
        }
        assert(part =~= le_words(part_words));
    } else {
        assert forall|i: int| 0 <= i < part.len() implies part[i] == be_words(part_words)[i] by {
            assert((4 * from + i) / 4 == from + i / 4 && (4 * from + i) % 4 == i % 4);
        }
        assert(part =~= be_words(part_words));
    }
}

} // verus!

//! Little-endian layout of 32-bit words in byte buffers.
//!
//! Everything the renderer uploads (matrix elements, vertex coordinates,
//! indices) is a sequence of 32-bit words. Devices read them little-endian,
//! whatever the byte order of the host.

use vstd::prelude::*;

verus! {

/// Byte `k` of `word`: digit `k` of the word written to the base 256, where
/// digit 0 is the least significant.
pub open spec fn word_byte(word: u32, k: int) -> u8 {
    if k == 0 {
        (word % 0x100) as u8
    } else if k == 1 {
        (word / 0x100 % 0x100) as u8
    } else if k == 2 {
        (word / 0x1_0000 % 0x100) as u8
    } else {
        (word / 0x100_0000 % 0x100) as u8
    }
}

/// The word whose digits to the base 256, least significant first, are `b0`,
/// `b1`, `b2`, `b3`.
pub open spec fn word_of_bytes(b0: u8, b1: u8, b2: u8, b3: u8) -> u32 {
    (b0 + 0x100 * b1 + 0x1_0000 * b2 + 0x100_0000 * b3) as u32
}

/// Encoding of a sequence of words: byte `i` of the result is byte `i % 4`
/// of word `i / 4`.
pub open spec fn words_to_bytes(words: Seq<u32>) -> Seq<u8> {
    Seq::new(4 * words.len(), |i: int| word_byte(words[i / 4], i % 4))
}

/// The `count` words stored in `bytes` from offset `start` on.
pub open spec fn words_at(bytes: Seq<u8>, start: int, count: nat) -> Seq<u32> {
    Seq::new(
        count,
        |w: int|
            word_of_bytes(
                bytes[start + 4 * w],
                bytes[start + 4 * w + 1],
                bytes[start + 4 * w + 2],
                bytes[start + 4 * w + 3],
            ),
    )
}

/// `bytes` with the range that starts at `start` replaced by `patch`; every
/// byte outside that range is kept.
pub open spec fn overwritten(bytes: Seq<u8>, start: int, patch: Seq<u8>) -> Seq<u8> {
    Seq::new(
        bytes.len(),
        |i: int|
            if start <= i < start + patch.len() {
                patch[i - start]
            } else {
                bytes[i]
            },
    )
}

/// Decoding the four bytes of a word gives the word back.
pub proof fn lemma_word_round_trip(word: u32)
    ensures
        word_of_bytes(word_byte(word, 0), word_byte(word, 1), word_byte(word, 2), word_byte(word, 3))
            == word,
{
}

/// The shifts and masks that pick the bytes of a word pick its digits to the
/// base 256.
proof fn lemma_bytes_by_shift(word: u32)
    ensures
        word & 0xff == word % 0x100,
        (word >> 8) & 0xff == word / 0x100 % 0x100,
        (word >> 16) & 0xff == word / 0x1_0000 % 0x100,
        (word >> 24) & 0xff == word / 0x100_0000 % 0x100,
{
    assert(word & 0xff == word % 0x100) by (bit_vector);
    assert((word >> 8) & 0xff == word / 0x100 % 0x100) by (bit_vector);
    assert((word >> 16) & 0xff == word / 0x1_0000 % 0x100) by (bit_vector);
    assert((word >> 24) & 0xff == word / 0x100_0000 % 0x100) by (bit_vector);
}

/// Shifting bytes into place and joining them adds up their place values.
proof fn lemma_word_by_shift(b0: u8, b1: u8, b2: u8, b3: u8)
    ensures
        (b0 as u32) | ((b1 as u32) << 8) | ((b2 as u32) << 16) | ((b3 as u32) << 24)
            == word_of_bytes(b0, b1, b2, b3),
{
    let w0 = b0 as u32;
    let w1 = b1 as u32;
    let w2 = b2 as u32;
    let w3 = b3 as u32;
    assert(w0 | (w1 << 8) | (w2 << 16) | (w3 << 24) == w0 + 0x100 * w1 + 0x1_0000 * w2 + 0x100_0000
        * w3) by (bit_vector)
        requires
            w0 < 0x100,
            w1 < 0x100,
            w2 < 0x100,
            w3 < 0x100,
    ;
}

/// Words written into a buffer are read back unchanged from the same place.
pub proof fn lemma_words_round_trip(bytes: Seq<u8>, start: int, words: Seq<u32>)
    requires
        0 <= start,
        start + 4 * words.len() <= bytes.len(),
    ensures
        words_at(overwritten(bytes, start, words_to_bytes(words)), start, words.len()) == words,
{
    let written = overwritten(bytes, start, words_to_bytes(words));
    let read = words_at(written, start, words.len());
    assert forall|w: int| 0 <= w < words.len() implies read[w] == words[w] by {
        lemma_word_round_trip(words[w]);
        assert(written[start + 4 * w] == word_byte(words[w], 0));
        assert(written[start + 4 * w + 1] == word_byte(words[w], 1));
        assert(written[start + 4 * w + 2] == word_byte(words[w], 2));
        assert(written[start + 4 * w + 3] == word_byte(words[w], 3));
    }
    assert(read =~= words);
}

/// Stores `word` in the four bytes of `out` that start at `offset`.
pub fn write_word(out: &mut Vec<u8>, offset: usize, word: u32)
    requires
        offset + 4 <= old(out).len(),
    ensures
        final(out)@ == overwritten(old(out)@, offset as int, words_to_bytes(seq![word])),
{
    let ghost before = out@;
    proof {
        lemma_bytes_by_shift(word);
    }
    out[offset] = (word & 0xff) as u8;
    out[offset + 1] = ((word >> 8) & 0xff) as u8;
    out[offset + 2] = ((word >> 16) & 0xff) as u8;
    out[offset + 3] = ((word >> 24) & 0xff) as u8;
    assert(out@ =~= overwritten(before, offset as int, words_to_bytes(seq![word])));
}

/// Stores `words`, in order, in the bytes of `out` that start at `offset`.
pub fn write_words(out: &mut Vec<u8>, offset: usize, words: &[u32])
    requires
        offset + 4 * words.len() <= old(out).len(),
    ensures
        final(out)@ == overwritten(old(out)@, offset as int, words_to_bytes(words@)),
{
    let ghost before = out@;
    let count = words.len();
    let mut i: usize = 0;
    assert(out@ =~= overwritten(before, offset as int, words_to_bytes(words@.take(0))));
    while i < count
        invariant
            i <= count,
            count == words@.len(),
            offset + 4 * count <= out.len(),
            out.len() == before.len(),
            out@ == overwritten(before, offset as int, words_to_bytes(words@.take(i as int))),
        decreases count - i,
    {
        write_word(out, offset + 4 * i, words[i]);
        i += 1;
        assert(out@ =~= overwritten(before, offset as int, words_to_bytes(words@.take(i as int))));
    }
    assert(words@.take(count as int) =~= words@);
}

/// Reads the word stored in the four bytes of `bytes` that start at `offset`.
pub fn read_word(bytes: &[u8], offset: usize) -> (word: u32)
    requires
        offset + 4 <= bytes.len(),
    ensures
        word == words_at(bytes@, offset as int, 1)[0],
{
    proof {
        lemma_word_by_shift(
            bytes@[offset as int],
            bytes@[offset + 1],
            bytes@[offset + 2],
            bytes@[offset + 3],
        );
    }
    (bytes[offset] as u32) | ((bytes[offset + 1] as u32) << 8) | ((bytes[offset + 2] as u32) << 16)
        | ((bytes[offset + 3] as u32) << 24)
}

/// Appends the four bytes of `word` to `out`.
pub fn push_word(out: &mut Vec<u8>, word: u32)
    ensures
        final(out)@ == old(out)@ + words_to_bytes(seq![word]),
{
    let ghost before = out@;
    proof {
        lemma_bytes_by_shift(word);
    }
    out.push((word & 0xff) as u8);
    out.push(((word >> 8) & 0xff) as u8);
    out.push(((word >> 16) & 0xff) as u8);
    out.push(((word >> 24) & 0xff) as u8);
    assert(out@ =~= before + words_to_bytes(seq![word]));
}

/// The bytes of `words`, in order.
pub fn encode_words(words: &[u32]) -> (out: Vec<u8>)
    ensures
        out@ == words_to_bytes(words@),
{
    let mut out: Vec<u8> = Vec::new();
    let mut i: usize = 0;
    while i < words.len()
        invariant
            i <= words.len(),
            out@ == words_to_bytes(words@.take(i as int)),
        decreases words.len() - i,
    {
        push_word(&mut out, words[i]);
        i += 1;
        assert(out@ =~= words_to_bytes(words@.take(i as int)));
    }
    assert(words@.take(words.len() as int) =~= words@);
    out
}

} // verus!

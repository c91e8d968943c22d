//! Little-endian 32-bit word codec.
//!
//! Kernel inputs and results travel through the dispatch pipeline as raw
//! bytes; callers that think in 32-bit words encode and decode here. wgpu
//! buffers hold bytes in little-endian word order on every supported
//! platform.

use vstd::prelude::*;

verus! {

/// The word encoded by four bytes in little-endian order.
pub open spec fn spec_word_from_le(b0: u8, b1: u8, b2: u8, b3: u8) -> u32 {
    (b0 as u32) | ((b1 as u32) << 8) | ((b2 as u32) << 16) | ((b3 as u32) << 24)
}

/// Byte `k` (0 = least significant) of a word's little-endian encoding.
pub open spec fn spec_le_byte(w: u32, k: int) -> u8 {
    if k == 0 {
        (w & 0xff) as u8
    } else if k == 1 {
        ((w >> 8) & 0xff) as u8
    } else if k == 2 {
        ((w >> 16) & 0xff) as u8
    } else {
        ((w >> 24) & 0xff) as u8
    }
}

/// The words encoded by a byte sequence, four bytes per word; a trailing
/// fragment shorter than a word encodes nothing.
pub open spec fn spec_words_from_le_bytes(s: Seq<u8>) -> Seq<u32> {
    Seq::new(s.len() / 4, |i: int| spec_word_from_le(s[4 * i], s[4 * i + 1], s[4 * i + 2], s[4 * i + 3]))
}

/// The little-endian encoding of a word sequence, four bytes per word.
pub open spec fn spec_le_bytes_from_words(ws: Seq<u32>) -> Seq<u8> {
    Seq::new(ws.len() * 4, |i: int| spec_le_byte(ws[i / 4], i % 4))
}

/// Rebuilding a word from the four bytes of its own encoding gives the word
/// back.
proof fn lemma_word_round_trip(w: u32)
    ensures
        spec_word_from_le(
            spec_le_byte(w, 0),
            spec_le_byte(w, 1),
            spec_le_byte(w, 2),
            spec_le_byte(w, 3),
        ) == w,
{
    assert(((w & 0xff) as u8 as u32) | ((((w >> 8) & 0xff) as u8 as u32) << 8) | ((((w >> 16)
        & 0xff) as u8 as u32) << 16) | ((((w >> 24) & 0xff) as u8 as u32) << 24) == w)
        by (bit_vector);
}

/// Encoding words to little-endian bytes and decoding again returns the
/// original words, for every word sequence.
pub proof fn lemma_le_words_round_trip(ws: Seq<u32>)
    ensures
        spec_words_from_le_bytes(spec_le_bytes_from_words(ws)) == ws,
{
    let bs = spec_le_bytes_from_words(ws);
    let decoded = spec_words_from_le_bytes(bs);
    assert forall|i: int| 0 <= i < ws.len() implies decoded[i] == ws[i] by {
        assert(4 * i / 4 == i && (4 * i) % 4 == 0) by (nonlinear_arith)
            requires 0 <= i;
        assert((4 * i + 1) / 4 == i && (4 * i + 1) % 4 == 1) by (nonlinear_arith)
            requires 0 <= i;
        assert((4 * i + 2) / 4 == i && (4 * i + 2) % 4 == 2) by (nonlinear_arith)
            requires 0 <= i;
        assert((4 * i + 3) / 4 == i && (4 * i + 3) % 4 == 3) by (nonlinear_arith)
            requires 0 <= i;
        lemma_word_round_trip(ws[i]);
    }
    assert(decoded =~= ws);
}

/// The word encoded by four bytes in little-endian order.
pub fn word_from_le(b0: u8, b1: u8, b2: u8, b3: u8) -> (r: u32)
    ensures
        r == spec_word_from_le(b0, b1, b2, b3),
{
    (b0 as u32) | ((b1 as u32) << 8) | ((b2 as u32) << 16) | ((b3 as u32) << 24)
}

/// Decodes a byte sequence into its little-endian words, four bytes per
/// word.
pub fn words_from_le_bytes(bytes: &[u8]) -> (r: Vec<u32>)
    requires
        bytes@.len() % 4 == 0,
    ensures
        r@ == spec_words_from_le_bytes(bytes@),
{
    let n = bytes.len();
    let mut r: Vec<u32> = Vec::new();
    let mut i: usize = 0;
    while n - i >= 4
        invariant
            n == bytes@.len(),
            i % 4 == 0,
            0 <= i <= n,
            r@.len() == i / 4,
            forall|j: int|
                0 <= j < r@.len() ==> r@[j] == spec_word_from_le(
                    bytes@[4 * j],
                    bytes@[4 * j + 1],
                    bytes@[4 * j + 2],
                    bytes@[4 * j + 3],
                ),
        decreases n - i,
    {
        let w = word_from_le(bytes[i], bytes[i + 1], bytes[i + 2], bytes[i + 3]);
        r.push(w);
        proof {
            assert(4 * ((i / 4) as int) == i);
        }
        i = i + 4;
    }
    proof {
        assert(r@ =~= spec_words_from_le_bytes(bytes@));
    }
    r
}

/// Encodes words into their little-endian bytes, four bytes per word.
pub fn le_bytes_from_words(words: &[u32]) -> (r: Vec<u8>)
    requires
        words@.len() * 4 <= usize::MAX,
    ensures
        r@ == spec_le_bytes_from_words(words@),
{
    let n = words.len();
    let mut r: Vec<u8> = Vec::new();
    let mut i: usize = 0;
    while i < n
        invariant
            n == words@.len(),
            n * 4 <= usize::MAX,
            0 <= i <= n,
            r@.len() == 4 * i,
            forall|j: int| 0 <= j < r@.len() ==> r@[j] == spec_le_byte(words@[j / 4], j % 4),
        decreases n - i,
    {
        let w = words[i];
        r.push((w & 0xff) as u8);
        r.push(((w >> 8) & 0xff) as u8);
        r.push(((w >> 16) & 0xff) as u8);
        r.push(((w >> 24) & 0xff) as u8);
        proof {
            let ii = i as int;
            assert((4 * ii) / 4 == ii && (4 * ii) % 4 == 0) by (nonlinear_arith)
                requires 0 <= ii;
            assert((4 * ii + 1) / 4 == ii && (4 * ii + 1) % 4 == 1) by (nonlinear_arith)
                requires 0 <= ii;
            assert((4 * ii + 2) / 4 == ii && (4 * ii + 2) % 4 == 2) by (nonlinear_arith)
                requires 0 <= ii;
            assert((4 * ii + 3) / 4 == ii && (4 * ii + 3) % 4 == 3) by (nonlinear_arith)
                requires 0 <= ii;
        }
        i = i + 1;
    }
    proof {
        assert(r@ =~= spec_le_bytes_from_words(words@));
    }
    r
}

} // verus!

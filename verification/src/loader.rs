//! Decoding a program image: a byte stream interpreted as a sequence of
//! little-endian 16-bit words. There is no header and no length prefix; a
//! trailing byte that completes no pair is dropped, exactly as a chunking
//! pass over the bytes drops an incomplete final chunk.

use vstd::prelude::*;

use vstd::arithmetic::div_mod::lemma_fundamental_div_mod_converse;

verus! {

/// The 16-bit word encoded by a little-endian byte pair.
pub open spec fn spec_word_le(lo: u8, hi: u8) -> u16 {
    (lo + 256 * hi) as u16
}

/// Assemble a 16-bit word from its little-endian byte pair.
pub fn word_from_le(lo: u8, hi: u8) -> (r: u16)
    ensures
        r == spec_word_le(lo, hi),
{
    lo as u16 + 256 * (hi as u16)
}

/// Split a byte sequence into consecutive chunks of `size` bytes each; a
/// final incomplete chunk is dropped.
pub fn into_chunks(data: &Vec<u8>, size: usize) -> (r: Vec<Vec<u8>>)
    requires
        size >= 1,
    ensures
        r@.len() == data@.len() as int / size as int,
        forall|j: int|
            0 <= j < r@.len() ==> r@[j]@ == data@.subrange(j * size, j * size + size),
{
    broadcast use vstd::arithmetic::mul::group_mul_basics;
    broadcast use vstd::arithmetic::mul::group_mul_is_distributive;

    let mut chunks: Vec<Vec<u8>> = Vec::new();
    let mut pos: usize = 0;
    while data.len() - pos >= size
        invariant
            size >= 1,
            pos <= data@.len(),
            pos == chunks@.len() * size,
            forall|j: int|
                0 <= j < chunks@.len() ==> chunks@[j]@ == data@.subrange(
                    j * size,
                    j * size + size,
                ),
        decreases data@.len() - pos,
    {
        let ghost k = chunks@.len() as int;
        let mut chunk: Vec<u8> = Vec::new();
        let mut i: usize = 0;
        while i < size
            invariant
                size >= 1,
                pos + size <= data@.len(),
                data@.len() <= usize::MAX,
                i <= size,
                chunk@ == data@.subrange(pos as int, pos + i),
            decreases size - i,
        {
            chunk.push(data[pos + i]);
            proof {
                assert(chunk@ =~= data@.subrange(pos as int, pos + i + 1));
            }
            i = i + 1;
        }
        chunks.push(chunk);
        pos = pos + size;
        proof {
            assert((k + 1) * size == k * size + size) by (nonlinear_arith);
        }
    }
    proof {
        lemma_fundamental_div_mod_converse(
            data@.len() as int,
            size as int,
            chunks@.len() as int,
            data@.len() - pos,
        );
    }
    chunks
}

/// Decode a program image: each little-endian byte pair becomes one 16-bit
/// word, in order; a trailing unpaired byte is dropped.
pub fn words_from_bytes(bytes: &Vec<u8>) -> (r: Vec<u16>)
    ensures
        r@.len() == bytes@.len() / 2,
        forall|i: int|
            0 <= i < r@.len() ==> r@[i] == spec_word_le(bytes@[2 * i], bytes@[2 * i + 1]),
{
    let mut words: Vec<u16> = Vec::new();
    let mut pos: usize = 0;
    while bytes.len() - pos >= 2
        invariant
            pos <= bytes@.len(),
            pos == words@.len() * 2,
            forall|i: int|
                0 <= i < words@.len() ==> words@[i] == spec_word_le(
                    bytes@[2 * i],
                    bytes@[2 * i + 1],
                ),
        decreases bytes@.len() - pos,
    {
        let word = word_from_le(bytes[pos], bytes[pos + 1]);
        words.push(word);
        pos = pos + 2;
    }
    proof {
        lemma_fundamental_div_mod_converse(
            bytes@.len() as int,
            2,
            words@.len() as int,
            bytes@.len() - pos,
        );
    }
    words
}

} // verus!

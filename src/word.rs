//! Four-byte regions that carry one 32-bit unsigned word between host and
//! device, in little-endian byte order.

use vstd::prelude::*;

verus! {

/// Byte length of one 32-bit word.
pub const WORD_BYTES: usize = 4;

/// The little-endian bytes of `v`.
pub open spec fn word_le_bytes(v: u32) -> Seq<u8> {
    seq![
        (v & 0xff) as u8,
        ((v >> 8u32) & 0xff) as u8,
        ((v >> 16u32) & 0xff) as u8,
        ((v >> 24u32) & 0xff) as u8,
    ]
}

/// The word that four little-endian bytes spell.
pub open spec fn word_of_le_bytes(b: Seq<u8>) -> u32
    recommends
        b.len() == 4,
{
    (b[0] as u32) | ((b[1] as u32) << 8u32) | ((b[2] as u32) << 16u32) | ((b[3] as u32) << 24u32)
}

/// Reading back a freshly made region gives the word it was made from.
pub proof fn lemma_fresh_region_holds_initializer(v: u32)
    ensures
        word_le_bytes(v).len() == WORD_BYTES,
        word_of_le_bytes(word_le_bytes(v)) == v,
{
    assert(((v & 0xff) as u8) as u32 == v & 0xff) by (bit_vector);
    assert((((v >> 8u32) & 0xff) as u8) as u32 == (v >> 8u32) & 0xff) by (bit_vector);
    assert((((v >> 16u32) & 0xff) as u8) as u32 == (v >> 16u32) & 0xff) by (bit_vector);
    assert((((v >> 24u32) & 0xff) as u8) as u32 == (v >> 24u32) & 0xff) by (bit_vector);
    assert((v & 0xff) | (((v >> 8u32) & 0xff) << 8u32) | (((v >> 16u32) & 0xff) << 16u32) | (
    ((v >> 24u32) & 0xff) << 24u32) == v) by (bit_vector);
}

/// Makes the region that holds `v`: exactly one word, and no more.
pub fn encode_word(v: u32) -> (r: Vec<u8>)
    ensures
        r@ == word_le_bytes(v),
        r@.len() == WORD_BYTES,
        word_of_le_bytes(r@) == v,
{
    proof {
        lemma_fresh_region_holds_initializer(v);
    }
    let mut r: Vec<u8> = Vec::with_capacity(WORD_BYTES);
    r.push((v & 0xff) as u8);
    r.push(((v >> 8u32) & 0xff) as u8);
    r.push(((v >> 16u32) & 0xff) as u8);
    r.push(((v >> 24u32) & 0xff) as u8);
    assert(r@ =~= word_le_bytes(v));
    r
}

/// Reads the word in a region, which must be exactly one word long.
pub fn decode_word(b: &[u8]) -> (r: Option<u32>)
    ensures
        r.is_some() <==> b@.len() == WORD_BYTES,
        r.is_some() ==> r.unwrap() == word_of_le_bytes(b@),
{
    if b.len() != WORD_BYTES {
        return None;
    }
    Some((b[0] as u32) | ((b[1] as u32) << 8u32) | ((b[2] as u32) << 16u32) | ((b[3] as u32)
        << 24u32))
}

} // verus!

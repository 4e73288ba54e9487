//! ASR-33 seven-bit parity operations.

use vstd::prelude::*;

verus! {

/// Bit `i` of `b`, as 0 or 1.
pub open spec fn bit_of(b: u8, i: u8) -> u8 {
    (b >> i) & 1
}

/// Number of one bits in a byte.
pub open spec fn ones8(b: u8) -> int {
    bit_of(b, 0) + bit_of(b, 1) + bit_of(b, 2) + bit_of(b, 3) + bit_of(b, 4) + bit_of(b, 5)
        + bit_of(b, 6) + bit_of(b, 7)
}

/// Even parity in the most significant bit; the input MSB takes part in the count.
pub open spec fn even_parity_byte(b: u8) -> u8 {
    if ones8(b) % 2 == 1 {
        b | 0x80
    } else {
        b & 0x7f
    }
}

fn has_odd_ones(b: u8) -> (odd: bool)
    ensures
        odd == (ones8(b) % 2 == 1),
{
    let x = b ^ (b >> 4u8);
    let x = x ^ (x >> 2u8);
    let x = x ^ (x >> 1u8);
    assert(((x & 1) == 1) == (ones8(b) % 2 == 1)) by (bit_vector)
        requires
            x == ({
                let y = b ^ (b >> 4u8);
                let z = y ^ (y >> 2u8);
                z ^ (z >> 1u8)
            }),
    ;
    (x & 1) == 1
}

/// Encode even parity in the most significant bit of every byte.
///
/// An input MSB is considered while parity is calculated, then the resulting
/// MSB is set or cleared.
pub fn encode_even_parity(data: &[u8]) -> (encoded: Vec<u8>)
    ensures
        encoded@ == data@.map_values(|b: u8| even_parity_byte(b)),
{
    let mut encoded: Vec<u8> = Vec::with_capacity(data.len());
    let mut i: usize = 0;
    while i < data.len()
        invariant
            i <= data@.len(),
            encoded@ == data@.take(i as int).map_values(|b: u8| even_parity_byte(b)),
        decreases data@.len() - i,
    {
        let byte = data[i];
        let out = if has_odd_ones(byte) {
            byte | 0x80
        } else {
            byte & 0x7f
        };
        encoded.push(out);
        assert(data@.take(i + 1) =~= data@.take(i as int).push(byte));
        i += 1;
    }
    assert(data@.take(data@.len() as int) =~= data@);
    encoded
}

/// Clear the parity bit from every byte.
pub fn mask_parity_bit(data: &[u8]) -> (masked: Vec<u8>)
    ensures
        masked@ == data@.map_values(|b: u8| b & 0x7f),
{
    let mut masked: Vec<u8> = Vec::with_capacity(data.len());
    let mut i: usize = 0;
    while i < data.len()
        invariant
            i <= data@.len(),
            masked@ == data@.take(i as int).map_values(|b: u8| b & 0x7f),
        decreases data@.len() - i,
    {
        let byte = data[i];
        masked.push(byte & 0x7f);
        assert(data@.take(i + 1) =~= data@.take(i as int).push(byte));
        i += 1;
    }
    assert(data@.take(data@.len() as int) =~= data@);
    masked
}

/// Every encoded seven-bit value keeps its data bits and carries an even number of one bits.
pub proof fn lemma_even_parity_byte(b: u8)
    requires
        b < 0x80,
    ensures
        even_parity_byte(b) & 0x7f == b & 0x7f,
        ones8(even_parity_byte(b)) % 2 == 0,
{
    assert(ones8(b) % 2 == 1 ==> ((b | 0x80) & 0x7f == b & 0x7f && ones8(b | 0x80) % 2 == 0))
        by (bit_vector)
        requires
            b < 0x80,
    ;
    assert(ones8(b) % 2 == 0 ==> ((b & 0x7f) & 0x7f == b & 0x7f && ones8(b & 0x7f) % 2 == 0))
        by (bit_vector)
        requires
            b < 0x80,
    ;
}

/// Masking clears exactly the most significant bit: the result is the byte modulo 128.
pub proof fn lemma_mask_is_mod_128(b: u8)
    ensures
        b & 0x7f == b % 128,
{
    assert(b & 0x7f == b % 128) by (bit_vector);
}

} // verus!

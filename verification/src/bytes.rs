//! Little-endian byte layout of fixed-width integers, with the facts that make encoding and
//! decoding exact inverses.

use vstd::prelude::*;

verus! {

/// Byte `shift / 8` of a 32-bit value, counting from the least significant byte.
pub open spec fn byte_of_u32(x: u32, shift: u32) -> u8 {
    ((x >> shift) & 0xffu32) as u8
}

/// The four little-endian bytes of a 32-bit value.
pub open spec fn le_bytes_u32(x: u32) -> Seq<u8> {
    seq![byte_of_u32(x, 0), byte_of_u32(x, 8), byte_of_u32(x, 16), byte_of_u32(x, 24)]
}

/// The two little-endian bytes of a 16-bit value.
pub open spec fn le_bytes_u16(x: u16) -> Seq<u8> {
    seq![(x & 0xffu16) as u8, (x >> 8u16) as u8]
}

/// The 32-bit value whose little-endian bytes are the four given bytes.
pub open spec fn u32_from_le(b0: u8, b1: u8, b2: u8, b3: u8) -> u32 {
    (b0 as u32) | ((b1 as u32) << 8u32) | ((b2 as u32) << 16u32) | ((b3 as u32) << 24u32)
}

/// The 16-bit value whose little-endian bytes are the two given bytes.
pub open spec fn u16_from_le(b0: u8, b1: u8) -> u16 {
    (b0 as u16) | ((b1 as u16) << 8u16)
}

/// Decoding the bytes of a 32-bit value gives the value back.
pub proof fn lemma_u32_bytes_round_trip(x: u32)
    ensures
        u32_from_le(byte_of_u32(x, 0), byte_of_u32(x, 8), byte_of_u32(x, 16), byte_of_u32(x, 24))
            == x,
{
    assert(u32_from_le(
        byte_of_u32(x, 0),
        byte_of_u32(x, 8),
        byte_of_u32(x, 16),
        byte_of_u32(x, 24),
    ) == x) by (bit_vector);
}

/// Encoding a decoded 32-bit value gives the same four bytes back.
pub proof fn lemma_u32_value_round_trip(b0: u8, b1: u8, b2: u8, b3: u8)
    ensures
        le_bytes_u32(u32_from_le(b0, b1, b2, b3)) == seq![b0, b1, b2, b3],
{
    let x = u32_from_le(b0, b1, b2, b3);
    assert(byte_of_u32(x, 0) == b0 && byte_of_u32(x, 8) == b1 && byte_of_u32(x, 16) == b2
        && byte_of_u32(x, 24) == b3) by (bit_vector)
        requires
            x == (b0 as u32) | ((b1 as u32) << 8u32) | ((b2 as u32) << 16u32) | ((b3 as u32)
                << 24u32),
    ;
    assert(le_bytes_u32(x) =~= seq![b0, b1, b2, b3]);
}

/// Decoding the bytes of a 16-bit value gives the value back.
pub proof fn lemma_u16_bytes_round_trip(x: u16)
    ensures
        u16_from_le((x & 0xffu16) as u8, (x >> 8u16) as u8) == x,
{
    assert(u16_from_le((x & 0xffu16) as u8, (x >> 8u16) as u8) == x) by (bit_vector);
}

/// Encoding a decoded 16-bit value gives the same two bytes back.
pub proof fn lemma_u16_value_round_trip(b0: u8, b1: u8)
    ensures
        le_bytes_u16(u16_from_le(b0, b1)) == seq![b0, b1],
{
    let x = u16_from_le(b0, b1);
    assert((x & 0xffu16) as u8 == b0 && (x >> 8u16) as u8 == b1) by (bit_vector)
        requires
            x == (b0 as u16) | ((b1 as u16) << 8u16),
    ;
    assert(le_bytes_u16(x) =~= seq![b0, b1]);
}

/// Reinterpreting a signed value as unsigned and back gives the same value, and conversely.
pub proof fn lemma_i32_bits_round_trip(x: i32, y: u32)
    ensures
        (x as u32) as i32 == x,
        (y as i32) as u32 == y,
{
    assert((x as u32) as i32 == x) by (bit_vector);
    assert((y as i32) as u32 == y) by (bit_vector);
}

/// Appends the little-endian bytes of a 32-bit value.
pub fn push_u32_le(out: &mut Vec<u8>, x: u32)
    ensures
        final(out)@ == old(out)@ + le_bytes_u32(x),
{
    assert(x >> 0u32 == x) by (bit_vector);
    out.push(#[verifier::truncate] ((x & 0xff) as u8));
    out.push(#[verifier::truncate] (((x >> 8) & 0xff) as u8));
    out.push(#[verifier::truncate] (((x >> 16) & 0xff) as u8));
    out.push(#[verifier::truncate] (((x >> 24) & 0xff) as u8));
    assert(out@ =~= old(out)@ + le_bytes_u32(x));
}

/// Appends the little-endian bytes of a 16-bit value.
pub fn push_u16_le(out: &mut Vec<u8>, x: u16)
    ensures
        final(out)@ == old(out)@ + le_bytes_u16(x),
{
    out.push(#[verifier::truncate] ((x & 0xff) as u8));
    out.push(#[verifier::truncate] ((x >> 8) as u8));
    assert(out@ =~= old(out)@ + le_bytes_u16(x));
}

/// The 32-bit value of four little-endian bytes.
pub fn read_u32_le(b0: u8, b1: u8, b2: u8, b3: u8) -> (x: u32)
    ensures
        x == u32_from_le(b0, b1, b2, b3),
{
    (b0 as u32) | ((b1 as u32) << 8) | ((b2 as u32) << 16) | ((b3 as u32) << 24)
}

/// The 16-bit value of two little-endian bytes.
pub fn read_u16_le(b0: u8, b1: u8) -> (x: u16)
    ensures
        x == u16_from_le(b0, b1),
{
    (b0 as u16) | ((b1 as u16) << 8)
}

} // verus!

//! Little-endian bytes of the integers that the CPU reads from memory.

use vstd::prelude::*;

verus! {

/// The two bytes of `x`, the low one first.
pub open spec fn le_bytes_u16(x: u16) -> Seq<u8> {
    seq![(x & 0xff) as u8, (x >> 8) as u8]
}

/// The four bytes of `x`, the lowest first.
pub open spec fn le_bytes_u32(x: u32) -> Seq<u8> {
    seq![
        (x & 0xff) as u8,
        ((x >> 8) & 0xff) as u8,
        ((x >> 16) & 0xff) as u8,
        (x >> 24) as u8,
    ]
}

/// The eight bytes of `x`, the lowest first.
pub open spec fn le_bytes_u64(x: u64) -> Seq<u8> {
    seq![
        (x & 0xff) as u8,
        ((x >> 8) & 0xff) as u8,
        ((x >> 16) & 0xff) as u8,
        ((x >> 24) & 0xff) as u8,
        ((x >> 32) & 0xff) as u8,
        ((x >> 40) & 0xff) as u8,
        ((x >> 48) & 0xff) as u8,
        (x >> 56) as u8,
    ]
}

/// The two bytes of `x`, the low one first.
pub fn le_u16(x: u16) -> (bytes: [u8; 2])
    ensures
        bytes@ == le_bytes_u16(x),
{
    assert(x & 0xff <= 0xff && x >> 8 <= 0xff) by (bit_vector);
    let bytes = [(x & 0xff) as u8, (x >> 8) as u8];
    assert(bytes@ =~= le_bytes_u16(x));
    bytes
}

/// The four bytes of `x`, the lowest first.
pub fn le_u32(x: u32) -> (bytes: [u8; 4])
    ensures
        bytes@ == le_bytes_u32(x),
{
    assert(x & 0xff <= 0xff && (x >> 8) & 0xff <= 0xff && (x >> 16) & 0xff <= 0xff && x >> 24
        <= 0xff) by (bit_vector);
    let bytes = [
        (x & 0xff) as u8,
        ((x >> 8) & 0xff) as u8,
        ((x >> 16) & 0xff) as u8,
        (x >> 24) as u8,
    ];
    assert(bytes@ =~= le_bytes_u32(x));
    bytes
}

/// The eight bytes of `x`, the lowest first.
pub fn le_u64(x: u64) -> (bytes: [u8; 8])
    ensures
        bytes@ == le_bytes_u64(x),
{
    assert(x & 0xff <= 0xff && (x >> 8) & 0xff <= 0xff && (x >> 16) & 0xff <= 0xff && (x >> 24)
        & 0xff <= 0xff && (x >> 32) & 0xff <= 0xff && (x >> 40) & 0xff <= 0xff && (x >> 48) & 0xff
        <= 0xff && x >> 56 <= 0xff) by (bit_vector);
    let bytes = [
        (x & 0xff) as u8,
        ((x >> 8) & 0xff) as u8,
        ((x >> 16) & 0xff) as u8,
        ((x >> 24) & 0xff) as u8,
        ((x >> 32) & 0xff) as u8,
        ((x >> 40) & 0xff) as u8,
        ((x >> 48) & 0xff) as u8,
        (x >> 56) as u8,
    ];
    assert(bytes@ =~= le_bytes_u64(x));
    bytes
}

/// The bytes give the integer back: the low byte counts once, the next 256
/// times, and so on.
pub proof fn lemma_le_bytes_value(a: u16, b: u32, c: u64)
    ensures
        le_bytes_u16(a)[0] + 0x100 * le_bytes_u16(a)[1] == a,
        le_bytes_u32(b)[0] + 0x100 * le_bytes_u32(b)[1] + 0x1_0000 * le_bytes_u32(b)[2] + 0x100_0000
            * le_bytes_u32(b)[3] == b,
        le_bytes_u64(c)[0] + 0x100 * le_bytes_u64(c)[1] + 0x1_0000 * le_bytes_u64(c)[2] + 0x100_0000
            * le_bytes_u64(c)[3] + 0x1_0000_0000 * le_bytes_u64(c)[4] + 0x100_0000_0000
            * le_bytes_u64(c)[5] + 0x1_0000_0000_0000 * le_bytes_u64(c)[6] + 0x100_0000_0000_0000
            * le_bytes_u64(c)[7] == c,
{
    assert(((a & 0xff) as u8) + 0x100 * ((a >> 8) as u8) == a) by (bit_vector);
    assert(((b & 0xff) as u8) + 0x100 * (((b >> 8) & 0xff) as u8) + 0x1_0000 * (((b >> 16)
        & 0xff) as u8) + 0x100_0000 * ((b >> 24) as u8) == b) by (bit_vector);
    assert(((c & 0xff) as u8) + 0x100 * (((c >> 8) & 0xff) as u8) + 0x1_0000 * (((c >> 16)
        & 0xff) as u8) + 0x100_0000 * (((c >> 24) & 0xff) as u8) + 0x1_0000_0000 * (((c >> 32)
        & 0xff) as u8) + 0x100_0000_0000 * (((c >> 40) & 0xff) as u8) + 0x1_0000_0000_0000 * (((c
        >> 48) & 0xff) as u8) + 0x100_0000_0000_0000 * ((c >> 56) as u8) == c) by (bit_vector);
}

} // verus!

//! Bit-level updates of a 16-bit word, done by the `bit_field` crate.

use bit_field::BitField;
use vstd::prelude::*;

verus! {

/// `word` with bit number `bit` forced to `value`; every other bit is kept.
pub open spec fn with_bit(word: u16, bit: usize, value: bool) -> u16 {
    if value {
        word | (1u16 << bit)
    } else {
        word & !(1u16 << bit)
    }
}

/// A word with ones on the bits `start..end` and zeros elsewhere.
pub open spec fn field_mask(start: usize, end: usize) -> u16 {
    (0xffffu16 << ((16 - end) as usize)) >> ((16 - end) as usize) >> start << start
}

/// Whether `value` has no one above its lowest `end - start` bits.
pub open spec fn fits_field(start: usize, end: usize, value: u16) -> bool {
    (value << ((16 - (end - start)) as usize)) >> ((16 - (end - start)) as usize) == value
}

/// `word` with the bits `start..end` replaced by `value`; every other bit is
/// kept.
pub open spec fn with_bits(word: u16, start: usize, end: usize, value: u16) -> u16 {
    (word & !field_mask(start, end)) | (value << start)
}

/// Calls `bit_field::BitField::set_bit` on a `u16`.
///
/// Trusted: the crate sets bit `bit` to one with `|= 1 << bit` and to zero
/// with `&= !(1 << bit)`. It panics for `bit >= 16`, which `requires` leaves
/// out.
#[verifier::external_body]
pub(crate) fn set_bit(word: &mut u16, bit: usize, value: bool)
    requires
        bit < 16,
    ensures
        *final(word) == with_bit(*old(word), bit, value),
{
    word.set_bit(bit, value);
}

/// Calls `bit_field::BitField::set_bits` on a `u16` with the range
/// `start..end`.
///
/// Trusted: the crate clears the bits of the range and ors in
/// `value << start`. It panics when the range does not lie within the word or
/// when `value` has a one outside its lowest `end - start` bits; `requires`
/// leaves both out, and the empty range with them.
#[verifier::external_body]
pub(crate) fn set_bits(word: &mut u16, start: usize, end: usize, value: u16)
    requires
        start < end <= 16,
        fits_field(start, end, value),
    ensures
        *final(word) == with_bits(*old(word), start, end, value),
{
    word.set_bits(start..end, value);
}

/// Forcing bit 15 touches neither bit 8 nor the low three bits nor the bits
/// in `0x7ef8`.
pub(crate) proof fn lemma_with_bit_15(word: u16, value: bool)
    ensures
        with_bit(word, 15, value) & 0x8000 != 0 <==> value,
        with_bit(word, 15, value) & 0x0100 == word & 0x0100,
        with_bit(word, 15, value) & 7 == word & 7,
        with_bit(word, 15, value) & 0x7ef8 == word & 0x7ef8,
{
    assert((word | (1u16 << 15usize)) & 0x8000 != 0 && (word | (1u16 << 15usize)) & 0x0100 == word
        & 0x0100 && (word | (1u16 << 15usize)) & 7 == word & 7 && (word | (1u16 << 15usize))
        & 0x7ef8 == word & 0x7ef8) by (bit_vector);
    assert((word & !(1u16 << 15usize)) & 0x8000 == 0 && (word & !(1u16 << 15usize)) & 0x0100
        == word & 0x0100 && (word & !(1u16 << 15usize)) & 7 == word & 7 && (word & !(1u16
        << 15usize)) & 0x7ef8 == word & 0x7ef8) by (bit_vector);
}

/// Forcing bit 8 touches neither bit 15 nor the low three bits nor the bits
/// in `0x7ef8`.
pub(crate) proof fn lemma_with_bit_8(word: u16, value: bool)
    ensures
        with_bit(word, 8, value) & 0x0100 != 0 <==> value,
        with_bit(word, 8, value) & 0x8000 == word & 0x8000,
        with_bit(word, 8, value) & 7 == word & 7,
        with_bit(word, 8, value) & 0x7ef8 == word & 0x7ef8,
{
    assert((word | (1u16 << 8usize)) & 0x0100 != 0 && (word | (1u16 << 8usize)) & 0x8000 == word
        & 0x8000 && (word | (1u16 << 8usize)) & 7 == word & 7 && (word | (1u16 << 8usize))
        & 0x7ef8 == word & 0x7ef8) by (bit_vector);
    assert((word & !(1u16 << 8usize)) & 0x0100 == 0 && (word & !(1u16 << 8usize)) & 0x8000 == word
        & 0x8000 && (word & !(1u16 << 8usize)) & 7 == word & 7 && (word & !(1u16 << 8usize))
        & 0x7ef8 == word & 0x7ef8) by (bit_vector);
}

/// A value up to 7 fits the low three bits, and replacing them touches
/// nothing above.
pub(crate) proof fn lemma_with_low_three_bits(word: u16, value: u16)
    requires
        value <= 7,
    ensures
        fits_field(0, 3, value),
        with_bits(word, 0, 3, value) == (word & 0xfff8) | value,
        with_bits(word, 0, 3, value) & 7 == value,
        with_bits(word, 0, 3, value) & 0x8000 == word & 0x8000,
        with_bits(word, 0, 3, value) & 0x0100 == word & 0x0100,
        with_bits(word, 0, 3, value) & 0x7ef8 == word & 0x7ef8,
{
    assert((value << 13usize) >> 13usize == value) by (bit_vector)
        requires
            value <= 7,
    ;
    assert((0xffffu16 << 13usize) >> 13usize >> 0usize << 0usize == 7) by (bit_vector);
    assert(value << 0usize == value) by (bit_vector);
    assert(!7u16 == 0xfff8) by (bit_vector);
    let next = (word & 0xfff8) | value;
    assert(next & 7 == value && next & 0x8000 == word & 0x8000 && next & 0x0100 == word & 0x0100
        && next & 0x7ef8 == word & 0x7ef8) by (bit_vector)
        requires
            value <= 7,
            next == (word & 0xfff8) | value,
    ;
}

} // verus!

//! Single bits and bit ranges of a packed word.
//!
//! Bit positions count from the least significant bit. Every packed type of
//! the format numbers its fields that way, in the order of their declaration.

use vstd::prelude::*;

verus! {

/// Whether the bit at `index` of `word` is set.
#[verifier::opaque]
pub open spec fn bit_of(word: u32, index: u32) -> bool {
    (word >> index) & 1 == 1
}

/// `word` with the bit at `index` set to `value` and every other bit kept.
#[verifier::opaque]
pub open spec fn with_bit(word: u32, index: u32, value: bool) -> u32 {
    if value {
        word | (1u32 << index)
    } else {
        word & !(1u32 << index)
    }
}

/// `word` with the bit at `index` inverted and every other bit kept.
#[verifier::opaque]
pub open spec fn flipped(word: u32, index: u32) -> u32 {
    word ^ (1u32 << index)
}

/// The lowest `width` bits set, and no other.
#[verifier::opaque]
pub open spec fn low_mask(width: u32) -> u32 {
    !(0xffff_ffffu32 << width)
}

/// The `width` bits of `word` that start at `index`, as a number.
#[verifier::opaque]
pub open spec fn bits_of(word: u32, index: u32, width: u32) -> u32 {
    (word >> index) & low_mask(width)
}

/// `word` with the `width` bits that start at `index` replaced by the low
/// `width` bits of `value`, and every other bit kept.
#[verifier::opaque]
pub open spec fn with_bits(word: u32, index: u32, width: u32, value: u32) -> u32 {
    (word & !(low_mask(width) << index)) | ((value & low_mask(width)) << index)
}

/// The word with the bit at `index` set if `value` holds, and no other bit.
#[verifier::opaque]
pub open spec fn flag(value: bool, index: u32) -> u32 {
    if value {
        1u32 << index
    } else {
        0u32
    }
}

/// One for a flag that holds, zero for one that does not.
pub open spec fn count(value: bool) -> int {
    if value {
        1
    } else {
        0
    }
}

/// The byte that stores a signed value in two's complement.
#[verifier::opaque]
pub open spec fn i8_to_byte(value: i8) -> u8 {
    if value >= 0 {
        value as u8
    } else {
        (value + 256) as u8
    }
}

/// The signed value that a byte stores in two's complement.
#[verifier::opaque]
pub open spec fn byte_to_i8(byte: u8) -> i8 {
    if byte < 128 {
        byte as i8
    } else {
        (byte - 256) as i8
    }
}

/// Reads one bit.
pub fn get_bit(word: u32, index: u32) -> (b: bool)
    requires
        index < 32,
    ensures
        b == bit_of(word, index),
{
    reveal(bit_of);
    (word >> index) & 1 == 1
}

/// Writes one bit.
pub fn set_bit(word: u32, index: u32, value: bool) -> (r: u32)
    requires
        index < 32,
    ensures
        r == with_bit(word, index, value),
{
    reveal(with_bit);
    if value {
        word | (1u32 << index)
    } else {
        word & !(1u32 << index)
    }
}

/// Inverts one bit.
pub fn flip_bit(word: u32, index: u32) -> (r: u32)
    requires
        index < 32,
    ensures
        r == flipped(word, index),
{
    reveal(flipped);
    word ^ (1u32 << index)
}

/// Reads a range of bits.
pub fn get_bits(word: u32, index: u32, width: u32) -> (r: u32)
    requires
        index < 32,
        width < 32,
    ensures
        r == bits_of(word, index, width),
{
    reveal(bits_of);
    reveal(low_mask);
    (word >> index) & !(0xffff_ffffu32 << width)
}

/// Writes a range of bits.
pub fn set_bits(word: u32, index: u32, width: u32, value: u32) -> (r: u32)
    requires
        index < 32,
        width < 32,
    ensures
        r == with_bits(word, index, width, value),
{
    reveal(with_bits);
    reveal(low_mask);
    let mask: u32 = !(0xffff_ffffu32 << width);
    (word & !(mask << index)) | ((value & mask) << index)
}

/// The word with one bit set or none.
pub fn flag_bit(value: bool, index: u32) -> (r: u32)
    requires
        index < 32,
    ensures
        r == flag(value, index),
{
    reveal(flag);
    if value {
        1u32 << index
    } else {
        0u32
    }
}

/// The byte that stores a signed value.
pub fn axis_byte(value: i8) -> (r: u8)
    ensures
        r == i8_to_byte(value),
{
    reveal(i8_to_byte);
    if value >= 0 {
        value as u8
    } else {
        (value as i16 + 256) as u8
    }
}

/// The signed value that a byte stores.
pub fn axis_value(byte: u8) -> (r: i8)
    ensures
        r == byte_to_i8(byte),
{
    reveal(byte_to_i8);
    if byte < 128 {
        byte as i8
    } else {
        (byte as i16 - 256) as i8
    }
}

/// A byte and the signed value it stores determine each other.
pub proof fn lemma_signed_byte(byte: u8, value: i8)
    ensures
        i8_to_byte(byte_to_i8(byte)) == byte,
        byte_to_i8(i8_to_byte(value)) == value,
{
    reveal(i8_to_byte);
    reveal(byte_to_i8);
}

/// A range of eight bits is a byte.
pub proof fn lemma_byte_bound(word: u32, index: u32)
    ensures
        bits_of(word, index, 8) < 256,
        low_mask(8) == 0xff,
{
    assert(bits_of(word, index, 8) < 256) by (bit_vector);
    assert(low_mask(8) == 0xff) by (bit_vector);
}

/// Writing a bit below or above a range of bits keeps the range.
pub proof fn lemma_with_bit_keeps(word: u32, index: u32, value: bool, at: u32, width: u32)
    requires
        index < 32,
        at < 32,
        width < 32,
        at + width <= 32,
        index < at || index >= at + width,
    ensures
        bits_of(with_bit(word, index, value), at, width) == bits_of(word, at, width),
{
    assert(bits_of(with_bit(word, index, true), at, width) == bits_of(word, at, width))
        by (bit_vector)
        requires
            index < 32,
            at < 32,
            width < 32,
            at + width <= 32,
            index < at || index >= at + width,
    ;
    assert(bits_of(with_bit(word, index, false), at, width) == bits_of(word, at, width))
        by (bit_vector)
        requires
            index < 32,
            at < 32,
            width < 32,
            at + width <= 32,
            index < at || index >= at + width,
    ;
}

/// Writing a range of bits keeps every range that does not meet it.
pub proof fn lemma_with_bits_keeps(
    word: u32,
    index: u32,
    width: u32,
    value: u32,
    at: u32,
    other: u32,
)
    requires
        index < 32,
        width < 32,
        index + width <= 32,
        at < 32,
        other < 32,
        at + other <= 32,
        index + width <= at || at + other <= index,
    ensures
        bits_of(with_bits(word, index, width, value), at, other) == bits_of(word, at, other),
{
    assert(bits_of(with_bits(word, index, width, value), at, other) == bits_of(word, at, other))
        by (bit_vector)
        requires
            index < 32,
            width < 32,
            index + width <= 32,
            at < 32,
            other < 32,
            at + other <= 32,
            index + width <= at || at + other <= index,
    ;
}

/// The word zero has no bit set.
pub proof fn lemma_zero_word()
    ensures
        forall|j: u32| !#[trigger] bit_of(0, j),
        forall|index: u32, width: u32| #[trigger] bits_of(0, index, width) == 0,
        byte_to_i8(0) == 0,
{
    reveal(byte_to_i8);
    assert forall|j: u32| !#[trigger] bit_of(0, j) by {
        assert(!bit_of(0, j)) by (bit_vector);
    }
    assert forall|index: u32, width: u32| #[trigger] bits_of(0, index, width) == 0 by {
        assert(bits_of(0, index, width) == 0) by (bit_vector);
    }
}

/// Writing a bit sets that bit and no other.
pub proof fn lemma_with_bit(word: u32, index: u32, value: bool)
    requires
        index < 32,
    ensures
        bit_of(with_bit(word, index, value), index) == value,
        forall|j: u32|
            j != index ==> #[trigger] bit_of(with_bit(word, index, value), j) == bit_of(word, j),
{
    assert(bit_of(with_bit(word, index, true), index)) by (bit_vector)
        requires
            index < 32,
    ;
    assert(!bit_of(with_bit(word, index, false), index)) by (bit_vector)
        requires
            index < 32,
    ;
    assert forall|j: u32| j != index implies #[trigger] bit_of(with_bit(word, index, value), j)
        == bit_of(word, j) by {
        assert(bit_of(with_bit(word, index, true), j) == bit_of(word, j)) by (bit_vector)
            requires
                j != index,
        ;
        assert(bit_of(with_bit(word, index, false), j) == bit_of(word, j)) by (bit_vector)
            requires
                j != index,
        ;
    }
}

/// Inverting a bit inverts that bit and no other, and inverting it again
/// gives the word back.
pub proof fn lemma_flipped(word: u32, index: u32)
    requires
        index < 32,
    ensures
        bit_of(flipped(word, index), index) == !bit_of(word, index),
        forall|j: u32| j != index ==> #[trigger] bit_of(flipped(word, index), j) == bit_of(word, j),
        flipped(flipped(word, index), index) == word,
        flipped(word, index) == with_bit(word, index, !bit_of(word, index)),
{
    assert(bit_of(flipped(word, index), index) == !bit_of(word, index)) by (bit_vector)
        requires
            index < 32,
    ;
    assert forall|j: u32| j != index implies #[trigger] bit_of(flipped(word, index), j) == bit_of(
        word,
        j,
    ) by {
        assert(bit_of(flipped(word, index), j) == bit_of(word, j)) by (bit_vector)
            requires
                j != index,
        ;
    }
    assert(flipped(flipped(word, index), index) == word) by (bit_vector);
    assert(flipped(word, index) == with_bit(word, index, !bit_of(word, index))) by (bit_vector)
        requires
            index < 32,
    ;
}

/// Writing a range of bits sets the range to the value and keeps every bit
/// outside it.
pub proof fn lemma_with_bits(word: u32, index: u32, width: u32, value: u32)
    requires
        index < 32,
        width < 32,
        index + width <= 32,
    ensures
        bits_of(with_bits(word, index, width, value), index, width) == value & low_mask(width),
        forall|j: u32|
            (j < index || j >= index + width) ==> #[trigger] bit_of(
                with_bits(word, index, width, value),
                j,
            ) == bit_of(word, j),
{
    assert(bits_of(with_bits(word, index, width, value), index, width) == value & low_mask(width))
        by (bit_vector)
        requires
            index < 32,
            width < 32,
            index + width <= 32,
    ;
    assert forall|j: u32| (j < index || j >= index + width) implies #[trigger] bit_of(
        with_bits(word, index, width, value),
        j,
    ) == bit_of(word, j) by {
        assert(bit_of(with_bits(word, index, width, value), j) == bit_of(word, j)) by (bit_vector)
            requires
                index < 32,
                width < 32,
                index + width <= 32,
                j < index || j >= index + width,
        ;
    }
}

} // verus!

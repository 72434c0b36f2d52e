//! Bit-pattern matching on opcode bytes, and the two readings, signed and
//! unsigned, of bytes and words.

use vstd::prelude::*;

verus! {

/// One position of a bit template.
#[derive(Clone, Copy, PartialEq, Eq, Structural, Debug)]
pub enum Bit {
    /// The bit must be clear.
    Zero,
    /// The bit must be set.
    One,
    /// The bit is not examined.
    Any,
}

/// The value, 0 or 1, of bit `index` of `byte`; bit 0 is the least
/// significant.
pub open spec fn bit_of(byte: u8, index: int) -> int
    recommends
        0 <= index < 8,
{
    (byte as int / bit_weight(index)) % 2
}

/// Two to the power `index`, for the eight positions of a byte.
pub open spec fn bit_weight(index: int) -> int {
    if index <= 0 {
        1
    } else if index == 1 {
        2
    } else if index == 2 {
        4
    } else if index == 3 {
        8
    } else if index == 4 {
        16
    } else if index == 5 {
        32
    } else if index == 6 {
        64
    } else {
        128
    }
}

/// Whether one template position accepts a bit value.
pub open spec fn bit_accepts(bit: Bit, value: int) -> bool {
    match bit {
        Bit::Zero => value == 0,
        Bit::One => value == 1,
        Bit::Any => true,
    }
}

/// A byte matches a template when every position that is not `Any` agrees
/// with the byte. Position 0 of the template is the most significant bit.
pub open spec fn matches_pattern(byte: u8, pattern: [Bit; 8]) -> bool {
    &&& bit_accepts(pattern[0], bit_of(byte, 7))
    &&& bit_accepts(pattern[1], bit_of(byte, 6))
    &&& bit_accepts(pattern[2], bit_of(byte, 5))
    &&& bit_accepts(pattern[3], bit_of(byte, 4))
    &&& bit_accepts(pattern[4], bit_of(byte, 3))
    &&& bit_accepts(pattern[5], bit_of(byte, 2))
    &&& bit_accepts(pattern[6], bit_of(byte, 1))
    &&& bit_accepts(pattern[7], bit_of(byte, 0))
}

/// Whether a template position accepts bit `shift` of `byte`.
fn bit_ok(byte: u8, bit: Bit, shift: u8) -> (ok: bool)
    requires
        shift < 8,
    ensures
        ok == bit_accepts(bit, bit_of(byte, shift as int)),
{
    let value: u8 = (byte >> shift) & 1;
    assert(((byte >> shift) & 1u8) as int == (byte as int / bit_weight(shift as int)) % 2) by {
        assert(shift < 8 ==> ((byte >> shift) & 1u8) == (byte / (1u8 << shift)) % 2)
            by (bit_vector);
        assert(1u8 << 0u8 == 1 && 1u8 << 1u8 == 2 && 1u8 << 2u8 == 4 && 1u8 << 3u8 == 8 && 1u8
            << 4u8 == 16 && 1u8 << 5u8 == 32 && 1u8 << 6u8 == 64 && 1u8 << 7u8 == 128)
            by (bit_vector);
    }
    match bit {
        Bit::Zero => value == 0,
        Bit::One => value == 1,
        Bit::Any => true,
    }
}

/// Tests `byte` against `pattern`, whose first entry stands for the most
/// significant bit.
pub fn bit_match(byte: u8, pattern: [Bit; 8]) -> (matched: bool)
    ensures
        matched == matches_pattern(byte, pattern),
{
    bit_ok(byte, pattern[0], 7) && bit_ok(byte, pattern[1], 6) && bit_ok(byte, pattern[2], 5)
        && bit_ok(byte, pattern[3], 4) && bit_ok(byte, pattern[4], 3) && bit_ok(byte, pattern[5], 2)
        && bit_ok(byte, pattern[6], 1) && bit_ok(byte, pattern[7], 0)
}

/// The signed reading of an 8-bit pattern.
pub open spec fn signed8(byte: int) -> int {
    if byte >= 128 {
        byte - 256
    } else {
        byte
    }
}

/// The 8-bit pattern of a signed byte.
pub open spec fn unsigned8(value: int) -> int {
    if value < 0 {
        value + 256
    } else {
        value
    }
}

/// The signed reading of a 16-bit pattern.
pub open spec fn signed16(word: int) -> int {
    if word >= 32768 {
        word - 65536
    } else {
        word
    }
}

/// The 16-bit pattern of a signed word.
pub open spec fn unsigned16(value: int) -> int {
    if value < 0 {
        value + 65536
    } else {
        value
    }
}

/// Reinterprets a byte as a two's-complement signed byte.
pub fn byte_to_signed(byte: u8) -> (value: i8)
    ensures
        value as int == signed8(byte as int),
{
    if byte >= 128 {
        (byte as i16 - 256) as i8
    } else {
        byte as i8
    }
}

/// Reinterprets a signed byte as its bit pattern.
pub fn signed_to_byte(value: i8) -> (byte: u8)
    ensures
        byte as int == unsigned8(value as int),
{
    if value < 0 {
        (value as i16 + 256) as u8
    } else {
        value as u8
    }
}

/// Reinterprets a word as a two's-complement signed word.
pub fn word_to_signed(word: u16) -> (value: i16)
    ensures
        value as int == signed16(word as int),
{
    if word >= 32768 {
        (word as i32 - 65536) as i16
    } else {
        word as i16
    }
}

/// Reinterprets a signed word as its bit pattern.
pub fn signed_to_word(value: i16) -> (word: u16)
    ensures
        word as int == unsigned16(value as int),
{
    if value < 0 {
        (value as i32 + 65536) as u16
    } else {
        value as u16
    }
}

} // verus!

//! Sixteen-bit quantities that the device keeps in two registers, high byte
//! first.
//!
//! The specifications are arithmetic on the two bytes; the executable helpers
//! shift, mask and cast, and are proved to agree with the arithmetic.

use vstd::prelude::*;

verus! {

/// The two's-complement bit pattern of `value`, read as a number in
/// `0..65536`.
pub open spec fn pattern(value: i16) -> int {
    if value < 0 {
        value + 65536
    } else {
        value as int
    }
}

/// The number that a high and a low register byte form together.
pub open spec fn word(high: u8, low: u8) -> int {
    high as int * 256 + low as int
}

/// The signed value of a sixteen-bit pattern: bit 15 carries the sign.
pub open spec fn signed(bits: int) -> int {
    if bits >= 32768 {
        bits - 65536
    } else {
        bits
    }
}

/// The high register byte of a signed sixteen-bit value.
pub open spec fn high_byte(value: i16) -> u8 {
    (pattern(value) / 256) as u8
}

/// The low register byte of a signed sixteen-bit value.
pub open spec fn low_byte(value: i16) -> u8 {
    (pattern(value) % 256) as u8
}

/// The signed value that a high and a low register byte hold: sixteen bits in
/// two's complement, high byte first.
pub open spec fn joined(high: u8, low: u8) -> i16 {
    signed(word(high, low)) as i16
}

/// The signed value of a fifteen-bit pattern: bit 14 carries the sign.
pub open spec fn signed15(bits: int) -> int {
    if bits >= 16384 {
        bits - 32768
    } else {
        bits
    }
}

/// Whether `value` fits the fifteen significant bits of an accelerometer
/// offset.
pub open spec fn fits15(value: i16) -> bool {
    -16384 <= value < 16384
}

/// The high register byte of an accelerometer offset: bits 14 to 7 of the
/// value. Bit 15 of the value has no place in the registers.
pub open spec fn offset_high_byte(value: i16) -> u8 {
    ((pattern(value) % 32768) / 128) as u8
}

/// The low register byte of an accelerometer offset: bits 6 to 0 of the
/// value in bits 7 to 1 of the byte, with the reserved bit 0 clear.
pub open spec fn offset_low_byte(value: i16) -> u8 {
    ((pattern(value) % 128) * 2) as u8
}

/// The accelerometer offset that two register bytes hold: fifteen bits in
/// two's complement, left-justified in the sixteen, so that bit 0 of the low
/// byte is no part of the value.
pub open spec fn offset_joined(high: u8, low: u8) -> i16 {
    signed15(high as int * 128 + low as int / 2) as i16
}

/// Sign boundary and all between: a signed value is what its two register
/// bytes join to.
pub proof fn law_split_then_join(value: i16)
    ensures
        joined(high_byte(value), low_byte(value)) == value,
{
}

/// Two register bytes are what the value they hold splits into.
pub proof fn law_join_then_split(high: u8, low: u8)
    ensures
        high_byte(joined(high, low)) == high,
        low_byte(joined(high, low)) == low,
{
}

/// An accelerometer offset of fifteen bits, from -16384 to 16383, is what its
/// two register bytes join to, and the reserved bit of its low byte is clear.
pub proof fn law_offset_split_then_join(value: i16)
    requires
        fits15(value),
    ensures
        offset_joined(offset_high_byte(value), offset_low_byte(value)) == value,
        offset_low_byte(value) % 2 == 0,
{
}

/// The register bytes of an accelerometer offset are what the value they hold
/// splits into, but for the reserved bit, which comes back clear. The value
/// they hold always fits fifteen bits.
pub proof fn law_offset_join_then_split(high: u8, low: u8)
    ensures
        fits15(offset_joined(high, low)),
        offset_high_byte(offset_joined(high, low)) == high,
        offset_low_byte(offset_joined(high, low)) == low - low % 2,
{
}

/// Splits a signed value into its high and low register bytes.
pub fn split_word(value: i16) -> (bytes: (u8, u8))
    ensures
        bytes.0 == high_byte(value),
        bytes.1 == low_byte(value),
{
    let high = #[verifier::truncate] ((value >> 8) as u8);
    let low = #[verifier::truncate] ((value & 0xFF) as u8);
    proof {
        let p = pattern(value) as u16;
        assert(((value >> 8) as u8) as u16 == p / 256 && ((value & 0xFF) as u8) as u16 == p % 256)
            by (bit_vector)
            requires
                p == (if value < 0 {
                    (value + 65536) as u16
                } else {
                    value as u16
                }),
        ;
    }
    (high, low)
}

/// Joins a high and a low register byte into the signed value they hold.
pub fn join_word(high: u8, low: u8) -> (value: i16)
    ensures
        value == joined(high, low),
{
    proof {
        let w = word(high, low) as u16;
        assert((((high as i16) << 8) | (low as i16)) == (if w >= 32768 {
            (w - 65536) as i16
        } else {
            w as i16
        })) by (bit_vector)
            requires
                w == high as u16 * 256 + low as u16,
        ;
    }
    ((high as i16) << 8) | (low as i16)
}

/// Joins a high and a low register byte into the unsigned count they hold.
pub fn join_count(high: u8, low: u8) -> (count: u16)
    ensures
        count == word(high, low),
{
    proof {
        assert((((high as u16) << 8) | (low as u16)) == high as u16 * 256 + low as u16)
            by (bit_vector);
    }
    ((high as u16) << 8) | (low as u16)
}

/// Splits an accelerometer offset into its register bytes: the value moves up
/// by one bit, which leaves the reserved bit 0 of the low byte clear.
pub fn split_offset(value: i16) -> (bytes: (u8, u8))
    ensures
        bytes.0 == offset_high_byte(value),
        bytes.1 == offset_low_byte(value),
{
    let high = #[verifier::truncate] ((value >> 7) as u8);
    let low = #[verifier::truncate] ((value << 1) as u8);
    proof {
        let p = pattern(value) as u16;
        assert(((value >> 7) as u8) as u16 == (p % 32768) / 128 && ((value << 1) as u8) as u16 == (p
            % 128) * 2) by (bit_vector)
            requires
                p == (if value < 0 {
                    (value + 65536) as u16
                } else {
                    value as u16
                }),
        ;
    }
    (high, low)
}

/// Joins the register bytes of an accelerometer offset. The bytes are read as
/// one sixteen-bit value and moved down by one bit: that drops the reserved
/// bit and keeps the sign.
pub fn join_offset(high: u8, low: u8) -> (value: i16)
    ensures
        value == offset_joined(high, low),
{
    proof {
        let w = (high as int * 128 + low as int / 2) as u16;
        assert(((((high as i16) << 8) | (low as i16)) >> 1) == (if w >= 16384 {
            (w - 32768) as i16
        } else {
            w as i16
        })) by (bit_vector)
            requires
                w == high as u16 * 128 + low as u16 / 2,
        ;
    }
    (((high as i16) << 8) | (low as i16)) >> 1
}

} // verus!

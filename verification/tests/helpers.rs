//! The shared helpers for bit-fields and for sixteen-bit words.

use icm20608g::bits::{field_at, flag_at};
use icm20608g::word::{join_count, join_offset, join_word, split_offset, split_word};

#[test]
fn flag_at_tests_one_bit() {
    for position in 0..8u8 {
        assert!(flag_at(1 << position, position));
        assert!(!flag_at(!(1 << position), position));
    }
}

#[test]
fn field_at_shifts_and_masks() {
    assert_eq!(field_at(0b1011_0110, 0, 3), 0b110);
    assert_eq!(field_at(0b1011_0110, 3, 2), 0b10);
    assert_eq!(field_at(0b1011_0110, 4, 4), 0b1011);
    assert_eq!(field_at(0b1011_0110, 0, 8), 0b1011_0110);
    assert_eq!(field_at(0b1011_0110, 7, 1), 1);
}

#[test]
fn field_at_agrees_with_division_and_remainder() {
    for byte in 0..=255u8 {
        for shift in 0..8u8 {
            for width in 1..=(8 - shift) {
                let expected = ((byte as u16) >> shift) % (1u16 << width);
                assert_eq!(field_at(byte, shift, width) as u16, expected);
            }
        }
    }
}

#[test]
fn split_word_is_big_endian_two_s_complement() {
    assert_eq!(split_word(0), (0x00, 0x00));
    assert_eq!(split_word(-1), (0xFF, 0xFF));
    assert_eq!(split_word(0x1234), (0x12, 0x34));
    assert_eq!(split_word(i16::MIN), (0x80, 0x00));
    assert_eq!(split_word(i16::MAX), (0x7F, 0xFF));
    assert_eq!(split_word(-256), (0xFF, 0x00));
}

#[test]
fn join_word_is_big_endian_two_s_complement() {
    assert_eq!(join_word(0x00, 0x00), 0);
    assert_eq!(join_word(0xFF, 0xFF), -1);
    assert_eq!(join_word(0x12, 0x34), 0x1234);
    assert_eq!(join_word(0x80, 0x00), i16::MIN);
    assert_eq!(join_word(0x7F, 0xFF), i16::MAX);
    assert_eq!(join_word(0x00, 0x80), 128);
}

#[test]
fn join_word_agrees_with_the_standard_conversion() {
    for high in 0..=255u8 {
        for low in 0..=255u8 {
            assert_eq!(join_word(high, low), i16::from_be_bytes([high, low]));
            assert_eq!(split_word(join_word(high, low)), (high, low));
        }
    }
}

#[test]
fn join_count_is_unsigned() {
    assert_eq!(join_count(0x00, 0x00), 0);
    assert_eq!(join_count(0x01, 0x00), 256);
    assert_eq!(join_count(0xFF, 0xFF), 65535);
    assert_eq!(join_count(0x80, 0x00), 32768);
}

#[test]
fn split_offset_moves_the_value_up_by_one_bit() {
    assert_eq!(split_offset(0), (0x00, 0x00));
    assert_eq!(split_offset(1), (0x00, 0x02));
    assert_eq!(split_offset(-1), (0xFF, 0xFE));
    assert_eq!(split_offset(16383), (0x7F, 0xFE));
    assert_eq!(split_offset(-16384), (0x80, 0x00));
    assert_eq!(split_offset(128), (0x01, 0x00));
}

#[test]
fn join_offset_reads_fifteen_bits_in_two_s_complement() {
    assert_eq!(join_offset(0x00, 0x00), 0);
    assert_eq!(join_offset(0x00, 0x02), 1);
    assert_eq!(join_offset(0x00, 0x03), 1);
    assert_eq!(join_offset(0xFF, 0xFE), -1);
    assert_eq!(join_offset(0x7F, 0xFE), 16383);
    assert_eq!(join_offset(0x80, 0x00), -16384);
    assert_eq!(join_offset(0x80, 0x01), -16384);
}

#[test]
fn join_offset_then_split_clears_the_reserved_bit() {
    for high in 0..=255u8 {
        for low in 0..=255u8 {
            let value = join_offset(high, low);
            assert!((-16384..=16383).contains(&value));
            assert_eq!(split_offset(value), (high, low & 0xFE));
        }
    }
}

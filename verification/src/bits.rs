//! Bit-fields inside one register byte.
//!
//! A field is a run of `width` bits that starts at bit `shift`, counted from
//! the least significant bit. The specifications speak of fields in plain
//! arithmetic: moving a value up by `n` bits multiplies it by `2^n`, moving
//! it down divides. The executable helpers shift and mask, and are proved to
//! agree with the arithmetic.

use vstd::prelude::*;

verus! {

/// `value` moved up by `by` bits: `value * 2^by`, for `by` in `0..=8`. A
/// larger `by` counts as 8.
pub open spec fn shifted_up(value: int, by: nat) -> int {
    if by == 0 {
        value
    } else if by == 1 {
        value * 2
    } else if by == 2 {
        value * 4
    } else if by == 3 {
        value * 8
    } else if by == 4 {
        value * 16
    } else if by == 5 {
        value * 32
    } else if by == 6 {
        value * 64
    } else if by == 7 {
        value * 128
    } else {
        value * 256
    }
}

/// `value` moved down by `by` bits: `value / 2^by`, for `by` in `0..=8`. A
/// larger `by` counts as 8.
pub open spec fn shifted_down(value: int, by: nat) -> int {
    if by == 0 {
        value
    } else if by == 1 {
        value / 2
    } else if by == 2 {
        value / 4
    } else if by == 3 {
        value / 8
    } else if by == 4 {
        value / 16
    } else if by == 5 {
        value / 32
    } else if by == 6 {
        value / 64
    } else if by == 7 {
        value / 128
    } else {
        value / 256
    }
}

/// The lowest `count` bits of `value`: `value % 2^count`, for `count` in
/// `0..=8`. A larger `count` counts as 8.
pub open spec fn low_bits(value: int, count: nat) -> int {
    if count == 0 {
        0
    } else if count == 1 {
        value % 2
    } else if count == 2 {
        value % 4
    } else if count == 3 {
        value % 8
    } else if count == 4 {
        value % 16
    } else if count == 5 {
        value % 32
    } else if count == 6 {
        value % 64
    } else if count == 7 {
        value % 128
    } else {
        value % 256
    }
}

/// The unsigned value of the `width` bits of `byte` that start at bit `shift`.
pub open spec fn field(byte: u8, shift: nat, width: nat) -> int {
    low_bits(shifted_down(byte as int, shift), width)
}

/// Whether bit `position` of `byte` is set.
pub open spec fn flag(byte: u8, position: nat) -> bool {
    field(byte, position, 1) == 1
}

/// What a field contributes to its byte: the low `width` bits of `value`,
/// moved up to bit `shift`. Higher bits of `value` are dropped, so a value
/// too wide for its field cannot reach the neighbouring bits.
pub open spec fn placed(value: int, shift: nat, width: nat) -> int {
    shifted_up(low_bits(value, width), shift)
}

/// What a one-bit flag contributes to its byte.
pub open spec fn placed_flag(set: bool, position: nat) -> int {
    shifted_up(
        if set {
            1
        } else {
            0
        },
        position,
    )
}

/// Two bytes agree in every bit that lies outside the field of `width` bits
/// at `shift`: the bits above the field are equal, and so are those below it.
pub open spec fn same_outside(x: u8, y: u8, shift: nat, width: nat) -> bool {
    &&& shifted_down(x as int, shift + width) == shifted_down(y as int, shift + width)
    &&& low_bits(x as int, shift) == low_bits(y as int, shift)
}

/// The byte that has the bits of the field of `width` bits at `shift` set,
/// and no other.
pub open spec fn mask(shift: nat, width: nat) -> u8 {
    placed(255, shift, width) as u8
}

/// With `weight` equal to `2^by`, the three operations are a product, a
/// quotient and a remainder.
proof fn lemma_by_weight(value: int, by: nat, weight: int)
    requires
        by <= 8,
        weight == shifted_up(1, by),
    ensures
        shifted_up(value, by) == value * weight,
        shifted_down(value, by) == value / weight,
        low_bits(value, by) == value % weight,
{
}

/// `1 << by` is `2^by`.
proof fn lemma_shift_of_one(by: u16)
    requires
        by <= 8,
    ensures
        (1u16 << by) == shifted_up(1, by as nat),
{
    assert((1u16 << by) == (if by == 0 {
        1u16
    } else if by == 1 {
        2u16
    } else if by == 2 {
        4u16
    } else if by == 3 {
        8u16
    } else if by == 4 {
        16u16
    } else if by == 5 {
        32u16
    } else if by == 6 {
        64u16
    } else if by == 7 {
        128u16
    } else {
        256u16
    })) by (bit_vector)
        requires
            by <= 8,
    ;
}

/// Two bytes that differ by what one field contributes, and by nothing else,
/// agree in every bit outside that field.
pub proof fn lemma_same_outside(x: u8, y: u8, shift: nat, width: nat)
    requires
        shift + width <= 8,
        x - placed(field(x, shift, width), shift, width) == y - placed(
            field(y, shift, width),
            shift,
            width,
        ),
    ensures
        same_outside(x, y, shift, width),
{
    let s = shift as u16;
    let w = width as u16;
    let ws = 1u16 << s;
    let ww = 1u16 << w;
    let above = 1u16 << ((s + w) as u16);
    lemma_shift_of_one(s);
    lemma_shift_of_one(w);
    lemma_shift_of_one((s + w) as u16);
    let fx = (x as u16 / ws) % ww;
    let fy = (y as u16 / ws) % ww;
    lemma_by_weight(x as int, shift, ws as int);
    lemma_by_weight(y as int, shift, ws as int);
    lemma_by_weight(x as int / ws as int, width, ww as int);
    lemma_by_weight(y as int / ws as int, width, ww as int);
    lemma_by_weight(fx as int, width, ww as int);
    lemma_by_weight(fy as int, width, ww as int);
    lemma_by_weight(fx as int % ww as int, shift, ws as int);
    lemma_by_weight(fy as int % ww as int, shift, ws as int);
    lemma_by_weight(x as int, shift + width, above as int);
    lemma_by_weight(y as int, shift + width, above as int);
    assert(x as u16 / above == y as u16 / above && x as u16 % ws == y as u16 % ws) by (bit_vector)
        requires
            s + w <= 8,
            ws == 1u16 << s,
            ww == 1u16 << w,
            above == 1u16 << ((s + w) as u16),
            fx == (x as u16 / ws) % ww,
            fy == (y as u16 / ws) % ww,
            x as u16 - (fx % ww) * ws == y as u16 - (fy % ww) * ws,
    ;
}

/// Two bytes agree outside a field just when the bits in which they differ
/// all lie under the mask of the field.
pub proof fn lemma_same_outside_by_mask(x: u8, y: u8, shift: nat, width: nat)
    requires
        shift + width <= 8,
    ensures
        same_outside(x, y, shift, width) <==> (x ^ y) & !mask(shift, width) == 0,
{
    let s = shift as u16;
    let w = width as u16;
    let ws = 1u16 << s;
    let ww = 1u16 << w;
    let above = 1u16 << ((s + w) as u16);
    lemma_shift_of_one(s);
    lemma_shift_of_one(w);
    lemma_shift_of_one((s + w) as u16);
    lemma_by_weight(255, width, ww as int);
    lemma_by_weight(255int % ww as int, shift, ws as int);
    lemma_by_weight(x as int, shift, ws as int);
    lemma_by_weight(y as int, shift, ws as int);
    lemma_by_weight(x as int, shift + width, above as int);
    lemma_by_weight(y as int, shift + width, above as int);
    let m = mask(shift, width);
    let p = ((255u16 % ww) * ws) as u16;
    assert(p == (255u16 % ww) * ws && p < 256) by (bit_vector)
        requires
            s + w <= 8,
            ws == 1u16 << s,
            ww == 1u16 << w,
            p == ((255u16 % ww) * ws) as u16,
    ;
    assert((x as u16 / above == y as u16 / above && x as u16 % ws == y as u16 % ws) <==> (x ^ y)
        & !m == 0) by (bit_vector)
        requires
            s + w <= 8,
            ws == 1u16 << s,
            ww == 1u16 << w,
            above == 1u16 << ((s + w) as u16),
            p == (255u16 % ww) * ws,
            m as u16 == p,
    ;
}

/// Tests one bit of a register byte.
pub fn flag_at(byte: u8, position: u8) -> (set: bool)
    requires
        position < 8,
    ensures
        set == flag(byte, position as nat),
{
    proof {
        let w = (1u16 << (position as u16));
        lemma_shift_of_one(position as u16);
        lemma_by_weight(byte as int, position as nat, w as int);
        assert(((byte >> position) & 1 != 0) == ((byte as u16 / w) % 2 == 1)) by (bit_vector)
            requires
                position < 8,
                w == 1u16 << (position as u16),
        ;
    }
    (byte >> position) & 1 != 0
}

/// Reads the field of `width` bits at `shift`: moves it down to bit 0 and
/// masks off what lies above it.
pub fn field_at(byte: u8, shift: u8, width: u8) -> (value: u8)
    requires
        1 <= width,
        shift + width <= 8,
    ensures
        value == field(byte, shift as nat, width as nat),
{
    proof {
        let ws = (1u16 << (shift as u16));
        let ww = (1u16 << (width as u16));
        lemma_shift_of_one(shift as u16);
        lemma_shift_of_one(width as u16);
        lemma_by_weight(byte as int, shift as nat, ws as int);
        lemma_by_weight(byte as int / ws as int, width as nat, ww as int);
        assert(((byte >> shift) & (0xFFu8 >> (8 - width) as u8)) as u16 == (byte as u16 / ws) % ww)
            by (bit_vector)
            requires
                1 <= width,
                shift + width <= 8,
                ws == 1u16 << (shift as u16),
                ww == 1u16 << (width as u16),
        ;
    }
    (byte >> shift) & (0xFFu8 >> (8 - width))
}

/// Adds a flag at `position` to a byte whose bits from `position` down are
/// still clear.
pub(crate) fn with_flag(byte: u8, set: bool, position: u8) -> (packed: u8)
    requires
        position < 8,
        low_bits(byte as int, position as nat + 1) == 0,
    ensures
        packed == byte + placed_flag(set, position as nat),
{
    proof {
        let w = (1u16 << (position as u16));
        let above = (1u16 << ((position + 1) as u16));
        lemma_shift_of_one(position as u16);
        lemma_shift_of_one((position + 1) as u16);
        lemma_by_weight(byte as int, position as nat + 1, above as int);
        assert((byte | (1u8 << position)) as u16 == byte as u16 + w) by (bit_vector)
            requires
                position < 8,
                w == 1u16 << (position as u16),
                above == 1u16 << ((position + 1) as u16),
                byte as u16 % above == 0,
        ;
    }
    if set {
        byte | (1u8 << position)
    } else {
        byte
    }
}

/// Adds a field of `width` bits at `shift` to a byte whose bits from the top
/// of the field down are still clear. The value is masked to the field's
/// width before it is moved into place.
pub(crate) fn with_field(byte: u8, value: u8, shift: u8, width: u8) -> (packed: u8)
    requires
        1 <= width,
        shift + width <= 8,
        low_bits(byte as int, (shift + width) as nat) == 0,
    ensures
        packed == byte + placed(value as int, shift as nat, width as nat),
{
    proof {
        let ws = (1u16 << (shift as u16));
        let ww = (1u16 << (width as u16));
        let above = (1u16 << ((shift + width) as u16));
        lemma_shift_of_one(shift as u16);
        lemma_shift_of_one(width as u16);
        lemma_shift_of_one((shift + width) as u16);
        lemma_by_weight(byte as int, (shift + width) as nat, above as int);
        lemma_by_weight(value as int, width as nat, ww as int);
        lemma_by_weight(value as int % ww as int, shift as nat, ws as int);
        assert((byte | ((value & (0xFFu8 >> (8 - width) as u8)) << shift)) as u16 == byte as u16 + (
        value as u16 % ww) * ws) by (bit_vector)
            requires
                1 <= width,
                shift + width <= 8,
                ws == 1u16 << (shift as u16),
                ww == 1u16 << (width as u16),
                above == 1u16 << ((shift + width) as u16),
                byte as u16 % above == 0,
        ;
    }
    byte | ((value & (0xFFu8 >> (8 - width))) << shift)
}

} // verus!

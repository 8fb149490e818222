//! Offsets of the gyroscope and of the accelerometer.

use crate::memory::{addresses, lemma_fetched_after_stored, values};
use crate::structs::{ReadRegister, ReadWriteRegister, WriteRegister};
use crate::transport::{Bus, Transport};
use crate::word::{
    fits15, high_byte, join_offset, join_word, joined, law_offset_split_then_join,
    law_split_then_join, low_byte, offset_high_byte, offset_joined, offset_low_byte, split_offset,
    split_word,
};
use vstd::prelude::*;

verus! {

/// The gyroscope offsets: what the device takes off each axis to remove its
/// bias, before the measurement reaches the sensor registers.
#[derive(Clone, Copy, Debug, PartialEq, Eq)]
pub struct GyroOffset {
    /// The offset of the X gyroscope.
    pub xg_offs: i16,
    /// The offset of the Y gyroscope.
    pub yg_offs: i16,
    /// The offset of the Z gyroscope.
    pub zg_offs: i16,
}

impl GyroOffset {
    /// The address of the high byte of the X axis.
    pub const ADDRESS_XH: u8 = 0x13;

    /// The address of the low byte of the X axis.
    pub const ADDRESS_XL: u8 = 0x14;

    /// The address of the high byte of the Y axis.
    pub const ADDRESS_YH: u8 = 0x15;

    /// The address of the low byte of the Y axis.
    pub const ADDRESS_YL: u8 = 0x16;

    /// The address of the high byte of the Z axis.
    pub const ADDRESS_ZH: u8 = 0x17;

    /// The address of the low byte of the Z axis.
    pub const ADDRESS_ZL: u8 = 0x18;

    /// The six register bytes that stand for the record: for each axis the
    /// high byte, then the low byte, of the value in two's complement.
    pub open spec fn encoding(self) -> Seq<u8> {
        seq![
            high_byte(self.xg_offs),
            low_byte(self.xg_offs),
            high_byte(self.yg_offs),
            low_byte(self.yg_offs),
            high_byte(self.zg_offs),
            low_byte(self.zg_offs),
        ]
    }

    /// The record that six register bytes stand for: each axis is sixteen
    /// bits in two's complement, high byte first.
    pub open spec fn decoding(bytes: Seq<u8>) -> Self {
        GyroOffset {
            xg_offs: joined(bytes[0], bytes[1]),
            yg_offs: joined(bytes[2], bytes[3]),
            zg_offs: joined(bytes[4], bytes[5]),
        }
    }

    /// Computes the six register bytes of the record.
    pub fn encode(&self) -> (bytes: [u8; 6])
        ensures
            bytes@ == self.encoding(),
    {
        let x = split_word(self.xg_offs);
        let y = split_word(self.yg_offs);
        let z = split_word(self.zg_offs);
        let bytes = [x.0, x.1, y.0, y.1, z.0, z.1];
        assert(bytes@ == self.encoding());
        bytes
    }

    /// Joins six register bytes into the record.
    pub fn decode(bytes: [u8; 6]) -> (record: Self)
        ensures
            record == Self::decoding(bytes@),
    {
        GyroOffset {
            xg_offs: join_word(bytes[0], bytes[1]),
            yg_offs: join_word(bytes[2], bytes[3]),
            zg_offs: join_word(bytes[4], bytes[5]),
        }
    }

    /// Round trip: every record is what its own encoding decodes to, from
    /// the least signed value to the greatest.
    pub proof fn law_round_trip(self)
        ensures
            Self::decoding(self.encoding()) == self,
    {
        law_split_then_join(self.xg_offs);
        law_split_then_join(self.yg_offs);
        law_split_then_join(self.zg_offs);
    }

    /// The record is written to the registers that it is read from, in the
    /// same order.
    pub proof fn law_same_registers(self)
        ensures
            addresses(self.frames()) == Self::registers(),
    {
    }

    /// Isolation: two records that differ in one axis only have encodings
    /// that agree in the bytes of the other two axes.
    pub proof fn law_axis_isolation(self, other: Self)
        ensures
            other == (GyroOffset { xg_offs: other.xg_offs, ..self })
                ==> self.encoding().subrange(2, 6) == other.encoding().subrange(2, 6),
            other == (GyroOffset { yg_offs: other.yg_offs, ..self }) ==> {
                &&& self.encoding().subrange(0, 2) == other.encoding().subrange(0, 2)
                &&& self.encoding().subrange(4, 6) == other.encoding().subrange(4, 6)
            },
            other == (GyroOffset { zg_offs: other.zg_offs, ..self })
                ==> self.encoding().subrange(0, 4) == other.encoding().subrange(0, 4),
    {
    }

    /// The registers are read in ascending order of their addresses.
    pub proof fn law_registers_ascend()
        ensures
            forall|i: int, j: int|
                0 <= i < j < Self::registers().len() ==> Self::registers()[i]
                    < Self::registers()[j],
    {
    }
}

impl WriteRegister for GyroOffset {
    open spec fn frames(&self) -> Seq<(u8, u8)> {
        seq![
            (Self::ADDRESS_XH, self.encoding()[0]),
            (Self::ADDRESS_XL, self.encoding()[1]),
            (Self::ADDRESS_YH, self.encoding()[2]),
            (Self::ADDRESS_YL, self.encoding()[3]),
            (Self::ADDRESS_ZH, self.encoding()[4]),
            (Self::ADDRESS_ZL, self.encoding()[5]),
        ]
    }

    fn write<T: Transport>(&self, bus: &mut Bus<T>) -> (outcome: Result<(), T::Error>) {
        let bytes = self.encode();
        let frames = [
            (Self::ADDRESS_XH, bytes[0]),
            (Self::ADDRESS_XL, bytes[1]),
            (Self::ADDRESS_YH, bytes[2]),
            (Self::ADDRESS_YL, bytes[3]),
            (Self::ADDRESS_ZH, bytes[4]),
            (Self::ADDRESS_ZL, bytes[5]),
        ];
        assert(frames@ == self.frames());
        bus.write_registers(&frames)
    }
}

impl ReadRegister for GyroOffset {
    open spec fn registers() -> Seq<u8> {
        seq![
            Self::ADDRESS_XH,
            Self::ADDRESS_XL,
            Self::ADDRESS_YH,
            Self::ADDRESS_YL,
            Self::ADDRESS_ZH,
            Self::ADDRESS_ZL,
        ]
    }

    open spec fn assemble(bytes: Seq<u8>) -> Self {
        Self::decoding(bytes)
    }

    fn new<T: Transport>(bus: &mut Bus<T>) -> (outcome: Result<Self, T::Error>) {
        let registers = [
            Self::ADDRESS_XH,
            Self::ADDRESS_XL,
            Self::ADDRESS_YH,
            Self::ADDRESS_YL,
            Self::ADDRESS_ZH,
            Self::ADDRESS_ZL,
        ];
        assert(registers@ == Self::registers());
        let bytes = bus.read_registers(&registers)?;
        Ok(Self::decode([bytes[0], bytes[1], bytes[2], bytes[3], bytes[4], bytes[5]]))
    }
}

impl ReadWriteRegister for GyroOffset {
    /// Every record is representable.
    open spec fn representable(&self) -> bool {
        true
    }

    proof fn law_round_trip_over_registers(&self, memory: Seq<u8>) {
        self.law_round_trip();
        self.law_same_registers();
        assert(values(self.frames()) == self.encoding());
        lemma_fetched_after_stored(memory, self.frames());
    }
}

/// The accelerometer offsets. Each is a value of fifteen bits, kept left-
/// justified in two registers; the registers of the three axes do not follow
/// each other directly.
#[derive(Clone, Copy, Debug, PartialEq, Eq)]
pub struct AccelOffset {
    /// The offset of the X accelerometer.
    pub x_offs: i16,
    /// The offset of the Y accelerometer.
    pub y_offs: i16,
    /// The offset of the Z accelerometer.
    pub z_offs: i16,
}

impl AccelOffset {
    /// The address of the high byte of the X axis.
    pub const ADDRESS_XH: u8 = 0x77;

    /// The address of the low byte of the X axis.
    pub const ADDRESS_XL: u8 = 0x78;

    /// The address of the high byte of the Y axis.
    pub const ADDRESS_YH: u8 = 0x7A;

    /// The address of the low byte of the Y axis.
    pub const ADDRESS_YL: u8 = 0x7B;

    /// The address of the high byte of the Z axis.
    pub const ADDRESS_ZH: u8 = 0x7D;

    /// The address of the low byte of the Z axis.
    pub const ADDRESS_ZL: u8 = 0x7E;

    /// The six register bytes that stand for the record: for each axis the
    /// high byte, then the low byte, of the value moved up by one bit. Bit 0
    /// of each low byte is reserved and clear.
    pub open spec fn encoding(self) -> Seq<u8> {
        seq![
            offset_high_byte(self.x_offs),
            offset_low_byte(self.x_offs),
            offset_high_byte(self.y_offs),
            offset_low_byte(self.y_offs),
            offset_high_byte(self.z_offs),
            offset_low_byte(self.z_offs),
        ]
    }

    /// The record that six register bytes stand for: each axis is fifteen
    /// bits in two's complement, the reserved bit 0 of its low byte ignored.
    pub open spec fn decoding(bytes: Seq<u8>) -> Self {
        AccelOffset {
            x_offs: offset_joined(bytes[0], bytes[1]),
            y_offs: offset_joined(bytes[2], bytes[3]),
            z_offs: offset_joined(bytes[4], bytes[5]),
        }
    }

    /// Computes the six register bytes of the record.
    pub fn encode(&self) -> (bytes: [u8; 6])
        ensures
            bytes@ == self.encoding(),
    {
        let x = split_offset(self.x_offs);
        let y = split_offset(self.y_offs);
        let z = split_offset(self.z_offs);
        let bytes = [x.0, x.1, y.0, y.1, z.0, z.1];
        assert(bytes@ == self.encoding());
        bytes
    }

    /// Joins six register bytes into the record.
    pub fn decode(bytes: [u8; 6]) -> (record: Self)
        ensures
            record == Self::decoding(bytes@),
    {
        AccelOffset {
            x_offs: join_offset(bytes[0], bytes[1]),
            y_offs: join_offset(bytes[2], bytes[3]),
            z_offs: join_offset(bytes[4], bytes[5]),
        }
    }

    /// Round trip: a representable record is what its own encoding decodes
    /// to, from the least value of fifteen bits to the greatest.
    pub proof fn law_round_trip(self)
        requires
            self.representable(),
        ensures
            Self::decoding(self.encoding()) == self,
    {
        law_offset_split_then_join(self.x_offs);
        law_offset_split_then_join(self.y_offs);
        law_offset_split_then_join(self.z_offs);
    }

    /// The reserved bit 0 of every low byte of the encoding is clear,
    /// whatever the record.
    pub proof fn law_reserved_bits_clear(self)
        ensures
            self.encoding()[1] % 2 == 0,
            self.encoding()[3] % 2 == 0,
            self.encoding()[5] % 2 == 0,
    {
    }

    /// The record is written to the registers that it is read from, in the
    /// same order.
    pub proof fn law_same_registers(self)
        ensures
            addresses(self.frames()) == Self::registers(),
    {
    }

    /// Isolation: two records that differ in one axis only have encodings
    /// that agree in the bytes of the other two axes.
    pub proof fn law_axis_isolation(self, other: Self)
        ensures
            other == (AccelOffset { x_offs: other.x_offs, ..self })
                ==> self.encoding().subrange(2, 6) == other.encoding().subrange(2, 6),
            other == (AccelOffset { y_offs: other.y_offs, ..self }) ==> {
                &&& self.encoding().subrange(0, 2) == other.encoding().subrange(0, 2)
                &&& self.encoding().subrange(4, 6) == other.encoding().subrange(4, 6)
            },
            other == (AccelOffset { z_offs: other.z_offs, ..self })
                ==> self.encoding().subrange(0, 4) == other.encoding().subrange(0, 4),
    {
    }

    /// The registers are read in ascending order of their addresses.
    pub proof fn law_registers_ascend()
        ensures
            forall|i: int, j: int|
                0 <= i < j < Self::registers().len() ==> Self::registers()[i]
                    < Self::registers()[j],
    {
    }
}

impl WriteRegister for AccelOffset {
    open spec fn frames(&self) -> Seq<(u8, u8)> {
        seq![
            (Self::ADDRESS_XH, self.encoding()[0]),
            (Self::ADDRESS_XL, self.encoding()[1]),
            (Self::ADDRESS_YH, self.encoding()[2]),
            (Self::ADDRESS_YL, self.encoding()[3]),
            (Self::ADDRESS_ZH, self.encoding()[4]),
            (Self::ADDRESS_ZL, self.encoding()[5]),
        ]
    }

    fn write<T: Transport>(&self, bus: &mut Bus<T>) -> (outcome: Result<(), T::Error>) {
        let bytes = self.encode();
        let frames = [
            (Self::ADDRESS_XH, bytes[0]),
            (Self::ADDRESS_XL, bytes[1]),
            (Self::ADDRESS_YH, bytes[2]),
            (Self::ADDRESS_YL, bytes[3]),
            (Self::ADDRESS_ZH, bytes[4]),
            (Self::ADDRESS_ZL, bytes[5]),
        ];
        assert(frames@ == self.frames());
        bus.write_registers(&frames)
    }
}

impl ReadRegister for AccelOffset {
    open spec fn registers() -> Seq<u8> {
        seq![
            Self::ADDRESS_XH,
            Self::ADDRESS_XL,
            Self::ADDRESS_YH,
            Self::ADDRESS_YL,
            Self::ADDRESS_ZH,
            Self::ADDRESS_ZL,
        ]
    }

    open spec fn assemble(bytes: Seq<u8>) -> Self {
        Self::decoding(bytes)
    }

    fn new<T: Transport>(bus: &mut Bus<T>) -> (outcome: Result<Self, T::Error>) {
        let registers = [
            Self::ADDRESS_XH,
            Self::ADDRESS_XL,
            Self::ADDRESS_YH,
            Self::ADDRESS_YL,
            Self::ADDRESS_ZH,
            Self::ADDRESS_ZL,
        ];
        assert(registers@ == Self::registers());
        let bytes = bus.read_registers(&registers)?;
        Ok(Self::decode([bytes[0], bytes[1], bytes[2], bytes[3], bytes[4], bytes[5]]))
    }
}

impl ReadWriteRegister for AccelOffset {
    /// Every axis fits the fifteen bits that its registers hold, from
    /// -16384 to 16383.
    open spec fn representable(&self) -> bool {
        &&& fits15(self.x_offs)
        &&& fits15(self.y_offs)
        &&& fits15(self.z_offs)
    }

    proof fn law_round_trip_over_registers(&self, memory: Seq<u8>) {
        self.law_round_trip();
        self.law_same_registers();
        assert(values(self.frames()) == self.encoding());
        lemma_fetched_after_stored(memory, self.frames());
    }
}

} // verus!

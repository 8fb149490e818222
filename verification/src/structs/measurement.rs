//! Raw measurements: acceleration, temperature and angular rate.

use crate::structs::ReadRegister;
use crate::transport::{Bus, Transport};
use crate::word::{join_word, joined};
use vstd::prelude::*;

verus! {

/// The latest raw measurement of the accelerometer, in counts.
#[derive(Clone, Copy, Debug, PartialEq, Eq)]
pub struct AccelMeasurements {
    /// Acceleration along X.
    pub x: i16,
    /// Acceleration along Y.
    pub y: i16,
    /// Acceleration along Z.
    pub z: i16,
}

impl AccelMeasurements {
    /// The address of the high byte of the X axis.
    pub const ADDRESS_XH: u8 = 0x3B;

    /// The address of the low byte of the X axis.
    pub const ADDRESS_XL: u8 = 0x3C;

    /// The address of the high byte of the Y axis.
    pub const ADDRESS_YH: u8 = 0x3D;

    /// The address of the low byte of the Y axis.
    pub const ADDRESS_YL: u8 = 0x3E;

    /// The address of the high byte of the Z axis.
    pub const ADDRESS_ZH: u8 = 0x3F;

    /// The address of the low byte of the Z axis.
    pub const ADDRESS_ZL: u8 = 0x40;

    /// The record that six register bytes stand for: each axis is sixteen
    /// bits in two's complement, high byte first.
    pub open spec fn decoding(bytes: Seq<u8>) -> Self {
        AccelMeasurements {
            x: joined(bytes[0], bytes[1]),
            y: joined(bytes[2], bytes[3]),
            z: joined(bytes[4], bytes[5]),
        }
    }

    /// Joins six register bytes into the record.
    pub fn decode(bytes: [u8; 6]) -> (record: Self)
        ensures
            record == Self::decoding(bytes@),
    {
        AccelMeasurements {
            x: join_word(bytes[0], bytes[1]),
            y: join_word(bytes[2], bytes[3]),
            z: join_word(bytes[4], bytes[5]),
        }
    }

    /// The registers are read in ascending order of their addresses.
    pub proof fn law_registers_ascend()
        ensures
            forall|i: int, j: int|
                0 <= i < j < Self::registers().len() ==> Self::registers()[i]
                    < Self::registers()[j],
    {
    }
}

impl ReadRegister for AccelMeasurements {
    open spec fn registers() -> Seq<u8> {
        seq![
            Self::ADDRESS_XH,
            Self::ADDRESS_XL,
            Self::ADDRESS_YH,
            Self::ADDRESS_YL,
            Self::ADDRESS_ZH,
            Self::ADDRESS_ZL,
        ]
    }

    open spec fn assemble(bytes: Seq<u8>) -> Self {
        Self::decoding(bytes)
    }

    fn new<T: Transport>(bus: &mut Bus<T>) -> (outcome: Result<Self, T::Error>) {
        let registers = [
            Self::ADDRESS_XH,
            Self::ADDRESS_XL,
            Self::ADDRESS_YH,
            Self::ADDRESS_YL,
            Self::ADDRESS_ZH,
            Self::ADDRESS_ZL,
        ];
        assert(registers@ == Self::registers());
        let bytes = bus.read_registers(&registers)?;
        Ok(Self::decode([bytes[0], bytes[1], bytes[2], bytes[3], bytes[4], bytes[5]]))
    }
}

/// The latest raw measurement of the temperature sensor, in counts.
#[derive(Clone, Copy, Debug, PartialEq, Eq)]
pub struct TemperatureMeasurements {
    /// The temperature as the sensor gives it; turning it into degrees is left
    /// to the caller.
    pub temp_out: i16,
}

impl TemperatureMeasurements {
    /// The address of the high byte.
    pub const ADDRESS_H: u8 = 0x41;

    /// The address of the low byte.
    pub const ADDRESS_L: u8 = 0x42;

    /// The record that two register bytes stand for: sixteen bits in two's
    /// complement, high byte first.
    pub open spec fn decoding(bytes: Seq<u8>) -> Self {
        TemperatureMeasurements { temp_out: joined(bytes[0], bytes[1]) }
    }

    /// Joins two register bytes into the record.
    pub fn decode(bytes: [u8; 2]) -> (record: Self)
        ensures
            record == Self::decoding(bytes@),
    {
        TemperatureMeasurements { temp_out: join_word(bytes[0], bytes[1]) }
    }

    /// The registers are read in ascending order of their addresses.
    pub proof fn law_registers_ascend()
        ensures
            forall|i: int, j: int|
                0 <= i < j < Self::registers().len() ==> Self::registers()[i]
                    < Self::registers()[j],
    {
    }
}

impl ReadRegister for TemperatureMeasurements {
    open spec fn registers() -> Seq<u8> {
        seq![Self::ADDRESS_H, Self::ADDRESS_L]
    }

    open spec fn assemble(bytes: Seq<u8>) -> Self {
        Self::decoding(bytes)
    }

    fn new<T: Transport>(bus: &mut Bus<T>) -> (outcome: Result<Self, T::Error>) {
        let registers = [Self::ADDRESS_H, Self::ADDRESS_L];
        assert(registers@ == Self::registers());
        let bytes = bus.read_registers(&registers)?;
        Ok(Self::decode([bytes[0], bytes[1]]))
    }
}

/// The latest raw measurement of the gyroscope, in counts.
#[derive(Clone, Copy, Debug, PartialEq, Eq)]
pub struct GyroscopeMeasurements {
    /// Angular rate about X.
    pub x: i16,
    /// Angular rate about Y.
    pub y: i16,
    /// Angular rate about Z.
    pub z: i16,
}

impl GyroscopeMeasurements {
    /// The address of the high byte of the X axis.
    pub const ADDRESS_XH: u8 = 0x43;

    /// The address of the low byte of the X axis.
    pub const ADDRESS_XL: u8 = 0x44;

    /// The address of the high byte of the Y axis.
    pub const ADDRESS_YH: u8 = 0x45;

    /// The address of the low byte of the Y axis.
    pub const ADDRESS_YL: u8 = 0x46;

    /// The address of the high byte of the Z axis.
    pub const ADDRESS_ZH: u8 = 0x47;

    /// The address of the low byte of the Z axis.
    pub const ADDRESS_ZL: u8 = 0x48;

    /// The record that six register bytes stand for: each axis is sixteen
    /// bits in two's complement, high byte first.
    pub open spec fn decoding(bytes: Seq<u8>) -> Self {
        GyroscopeMeasurements {
            x: joined(bytes[0], bytes[1]),
            y: joined(bytes[2], bytes[3]),
            z: joined(bytes[4], bytes[5]),
        }
    }

    /// Joins six register bytes into the record.
    pub fn decode(bytes: [u8; 6]) -> (record: Self)
        ensures
            record == Self::decoding(bytes@),
    {
        GyroscopeMeasurements {
            x: join_word(bytes[0], bytes[1]),
            y: join_word(bytes[2], bytes[3]),
            z: join_word(bytes[4], bytes[5]),
        }
    }

    /// The registers are read in ascending order of their addresses.
    pub proof fn law_registers_ascend()
        ensures
            forall|i: int, j: int|
                0 <= i < j < Self::registers().len() ==> Self::registers()[i]
                    < Self::registers()[j],
    {
    }
}

impl ReadRegister for GyroscopeMeasurements {
    open spec fn registers() -> Seq<u8> {
        seq![
            Self::ADDRESS_XH,
            Self::ADDRESS_XL,
            Self::ADDRESS_YH,
            Self::ADDRESS_YL,
            Self::ADDRESS_ZH,
            Self::ADDRESS_ZL,
        ]
    }

    open spec fn assemble(bytes: Seq<u8>) -> Self {
        Self::decoding(bytes)
    }

    fn new<T: Transport>(bus: &mut Bus<T>) -> (outcome: Result<Self, T::Error>) {
        let registers = [
            Self::ADDRESS_XH,
            Self::ADDRESS_XL,
            Self::ADDRESS_YH,
            Self::ADDRESS_YL,
            Self::ADDRESS_ZH,
            Self::ADDRESS_ZL,
        ];
        assert(registers@ == Self::registers());
        let bytes = bus.read_registers(&registers)?;
        Ok(Self::decode([bytes[0], bytes[1], bytes[2], bytes[3], bytes[4], bytes[5]]))
    }
}

} // verus!

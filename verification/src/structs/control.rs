//! Resets, user control and the identity of the device.

use crate::bits::{field, flag, flag_at, lemma_same_outside, placed_flag, same_outside, with_flag};
use crate::memory::{addresses, lemma_one_register};
use crate::structs::{read_one, write_one, ReadRegister, ReadWriteRegister, WriteRegister};
use crate::transport::{Bus, Transport};
use vstd::prelude::*;

verus! {

/// Reset of the digital signal paths. The sensor registers keep their values.
#[derive(Clone, Copy, Debug, PartialEq, Eq)]
pub struct SignalPathReset {
    /// Resets the signal path of the accelerometer.
    pub accel_rst: bool,
    /// Resets the signal path of the temperature sensor.
    pub temp_rst: bool,
}

impl SignalPathReset {
    /// The address of the register.
    pub const ADDRESS: u8 = 0x68;

    /// The register byte that stands for the record. Bit 1 is `accel_rst`; bit
    /// 0 is `temp_rst`. Bits 7 to 2 are reserved and clear.
    pub open spec fn encoding(self) -> u8 {
        (placed_flag(self.accel_rst, 1)
            + placed_flag(self.temp_rst, 0)) as u8
    }

    /// The record that a register byte stands for. Reserved bits are
    /// ignored.
    pub open spec fn decoding(byte: u8) -> Self {
        SignalPathReset {
            accel_rst: flag(byte, 1),
            temp_rst: flag(byte, 0),
        }
    }

    /// Computes the register byte of the record: every field is masked to
    /// its width and moved to its place, the highest field first.
    pub fn encode(&self) -> (byte: u8)
        ensures
            byte == self.encoding(),
    {
        let byte = with_flag(0, self.accel_rst, 1);
        with_flag(byte, self.temp_rst, 0)
    }

    /// Takes a register byte apart into the record.
    pub fn decode(byte: u8) -> (record: Self)
        ensures
            record == Self::decoding(byte),
    {
        SignalPathReset {
            accel_rst: flag_at(byte, 1),
            temp_rst: flag_at(byte, 0),
        }
    }

    /// Round trip: every record is what its own encoding decodes to.
    pub proof fn law_round_trip(self)
        ensures
            Self::decoding(self.encoding()) == self,
    {
    }

    /// The record is written to the register that it is read from.
    pub proof fn law_same_registers(self)
        ensures
            addresses(self.frames()) == Self::registers(),
    {
    }

    /// The reserved bits of the encoding are clear, whatever the record.
    pub proof fn law_reserved_bits_clear(self)
        ensures
            field(self.encoding(), 2, 6) == 0,
    {
        self.law_round_trip();
    }

    /// Bit isolation: two records that differ in one field only have
    /// encodings that agree in every bit outside that field.
    pub proof fn law_bit_isolation(self, other: Self)
        ensures
            other == (SignalPathReset { accel_rst: other.accel_rst, ..self })
                ==> same_outside(self.encoding(), other.encoding(), 1, 1),
            other == (SignalPathReset { temp_rst: other.temp_rst, ..self })
                ==> same_outside(self.encoding(), other.encoding(), 0, 1),
    {
        self.law_round_trip();
        other.law_round_trip();
        if other == (SignalPathReset { accel_rst: other.accel_rst, ..self }) {
            lemma_same_outside(self.encoding(), other.encoding(), 1, 1);
        }
        if other == (SignalPathReset { temp_rst: other.temp_rst, ..self }) {
            lemma_same_outside(self.encoding(), other.encoding(), 0, 1);
        }
    }
}

impl WriteRegister for SignalPathReset {
    open spec fn frames(&self) -> Seq<(u8, u8)> {
        seq![(Self::ADDRESS, self.encoding())]
    }

    fn write<T: Transport>(&self, bus: &mut Bus<T>) -> (outcome: Result<(), T::Error>) {
        write_one(bus, Self::ADDRESS, self.encode())
    }
}

impl ReadRegister for SignalPathReset {
    open spec fn registers() -> Seq<u8> {
        seq![Self::ADDRESS]
    }

    open spec fn assemble(bytes: Seq<u8>) -> Self {
        Self::decoding(bytes[0])
    }

    fn new<T: Transport>(bus: &mut Bus<T>) -> (outcome: Result<Self, T::Error>) {
        Ok(Self::decode(read_one(bus, Self::ADDRESS)?))
    }
}

impl ReadWriteRegister for SignalPathReset {
    /// Every record is representable.
    open spec fn representable(&self) -> bool {
        true
    }

    proof fn law_round_trip_over_registers(&self, memory: Seq<u8>) {
        self.law_round_trip();
        lemma_one_register(memory, Self::ADDRESS, self.encoding());
    }
}

/// Control of the wake-on-motion detection.
#[derive(Clone, Copy, Debug, PartialEq, Eq)]
pub struct IntelligenceControl {
    /// Turns the wake-on-motion detection on.
    pub accel_intel_en: bool,
    /// Compares each sample with the one before it.
    pub accel_intel_mode: bool,
}

impl IntelligenceControl {
    /// The address of the register.
    pub const ADDRESS: u8 = 0x69;

    /// The register byte that stands for the record. Bit 7 is `accel_intel_en`;
    /// bit 6 is `accel_intel_mode`. Bits 5 to 0 are reserved and clear.
    pub open spec fn encoding(self) -> u8 {
        (placed_flag(self.accel_intel_en, 7)
            + placed_flag(self.accel_intel_mode, 6)) as u8
    }

    /// The record that a register byte stands for. Reserved bits are
    /// ignored.
    pub open spec fn decoding(byte: u8) -> Self {
        IntelligenceControl {
            accel_intel_en: flag(byte, 7),
            accel_intel_mode: flag(byte, 6),
        }
    }

    /// Computes the register byte of the record: every field is masked to
    /// its width and moved to its place, the highest field first.
    pub fn encode(&self) -> (byte: u8)
        ensures
            byte == self.encoding(),
    {
        let byte = with_flag(0, self.accel_intel_en, 7);
        with_flag(byte, self.accel_intel_mode, 6)
    }

    /// Takes a register byte apart into the record.
    pub fn decode(byte: u8) -> (record: Self)
        ensures
            record == Self::decoding(byte),
    {
        IntelligenceControl {
            accel_intel_en: flag_at(byte, 7),
            accel_intel_mode: flag_at(byte, 6),
        }
    }

    /// Round trip: every record is what its own encoding decodes to.
    pub proof fn law_round_trip(self)
        ensures
            Self::decoding(self.encoding()) == self,
    {
    }

    /// The record is written to the register that it is read from.
    pub proof fn law_same_registers(self)
        ensures
            addresses(self.frames()) == Self::registers(),
    {
    }

    /// The reserved bits of the encoding are clear, whatever the record.
    pub proof fn law_reserved_bits_clear(self)
        ensures
            field(self.encoding(), 0, 6) == 0,
    {
        self.law_round_trip();
    }

    /// Bit isolation: two records that differ in one field only have
    /// encodings that agree in every bit outside that field.
    pub proof fn law_bit_isolation(self, other: Self)
        ensures
            other == (IntelligenceControl { accel_intel_en: other.accel_intel_en, ..self })
                ==> same_outside(self.encoding(), other.encoding(), 7, 1),
            other == (IntelligenceControl { accel_intel_mode: other.accel_intel_mode, ..self })
                ==> same_outside(self.encoding(), other.encoding(), 6, 1),
    {
        self.law_round_trip();
        other.law_round_trip();
        if other == (IntelligenceControl { accel_intel_en: other.accel_intel_en, ..self }) {
            lemma_same_outside(self.encoding(), other.encoding(), 7, 1);
        }
        if other == (IntelligenceControl { accel_intel_mode: other.accel_intel_mode, ..self }) {
            lemma_same_outside(self.encoding(), other.encoding(), 6, 1);
        }
    }
}

impl WriteRegister for IntelligenceControl {
    open spec fn frames(&self) -> Seq<(u8, u8)> {
        seq![(Self::ADDRESS, self.encoding())]
    }

    fn write<T: Transport>(&self, bus: &mut Bus<T>) -> (outcome: Result<(), T::Error>) {
        write_one(bus, Self::ADDRESS, self.encode())
    }
}

impl ReadRegister for IntelligenceControl {
    open spec fn registers() -> Seq<u8> {
        seq![Self::ADDRESS]
    }

    open spec fn assemble(bytes: Seq<u8>) -> Self {
        Self::decoding(bytes[0])
    }

    fn new<T: Transport>(bus: &mut Bus<T>) -> (outcome: Result<Self, T::Error>) {
        Ok(Self::decode(read_one(bus, Self::ADDRESS)?))
    }
}

impl ReadWriteRegister for IntelligenceControl {
    /// Every record is representable.
    open spec fn representable(&self) -> bool {
        true
    }

    proof fn law_round_trip_over_registers(&self, memory: Seq<u8>) {
        self.law_round_trip();
        lemma_one_register(memory, Self::ADDRESS, self.encoding());
    }
}

/// User control: the FIFO, the serial interface and a full reset of the signal
/// paths.
#[derive(Clone, Copy, Debug, PartialEq, Eq)]
pub struct UserControl {
    /// Turns FIFO operation on.
    pub fifo_en: bool,
    /// Turns the I2C interface off, which leaves SPI only.
    pub i2c_if_dis: bool,
    /// Resets the FIFO; the device clears the bit itself.
    pub fifo_rst: bool,
    /// Resets all signal paths and clears the sensor registers.
    pub sig_cond_rst: bool,
}

impl UserControl {
    /// The address of the register.
    pub const ADDRESS: u8 = 0x6A;

    /// The register byte that stands for the record. Bit 6 is `fifo_en`; bit 4
    /// is `i2c_if_dis`; bit 2 is `fifo_rst`; bit 0 is `sig_cond_rst`. Bits 7,
    /// 5, 3 and 1 are reserved and clear.
    pub open spec fn encoding(self) -> u8 {
        (placed_flag(self.fifo_en, 6)
            + placed_flag(self.i2c_if_dis, 4)
            + placed_flag(self.fifo_rst, 2)
            + placed_flag(self.sig_cond_rst, 0)) as u8
    }

    /// The record that a register byte stands for. Reserved bits are
    /// ignored.
    pub open spec fn decoding(byte: u8) -> Self {
        UserControl {
            fifo_en: flag(byte, 6),
            i2c_if_dis: flag(byte, 4),
            fifo_rst: flag(byte, 2),
            sig_cond_rst: flag(byte, 0),
        }
    }

    /// Computes the register byte of the record: every field is masked to
    /// its width and moved to its place, the highest field first.
    pub fn encode(&self) -> (byte: u8)
        ensures
            byte == self.encoding(),
    {
        let byte = with_flag(0, self.fifo_en, 6);
        let byte = with_flag(byte, self.i2c_if_dis, 4);
        let byte = with_flag(byte, self.fifo_rst, 2);
        with_flag(byte, self.sig_cond_rst, 0)
    }

    /// Takes a register byte apart into the record.
    pub fn decode(byte: u8) -> (record: Self)
        ensures
            record == Self::decoding(byte),
    {
        UserControl {
            fifo_en: flag_at(byte, 6),
            i2c_if_dis: flag_at(byte, 4),
            fifo_rst: flag_at(byte, 2),
            sig_cond_rst: flag_at(byte, 0),
        }
    }

    /// Round trip: every record is what its own encoding decodes to.
    pub proof fn law_round_trip(self)
        ensures
            Self::decoding(self.encoding()) == self,
    {
    }

    /// The record is written to the register that it is read from.
    pub proof fn law_same_registers(self)
        ensures
            addresses(self.frames()) == Self::registers(),
    {
    }

    /// The reserved bits of the encoding are clear, whatever the record.
    pub proof fn law_reserved_bits_clear(self)
        ensures
            field(self.encoding(), 7, 1) == 0,
            field(self.encoding(), 5, 1) == 0,
            field(self.encoding(), 3, 1) == 0,
            field(self.encoding(), 1, 1) == 0,
    {
        self.law_round_trip();
    }

    /// Bit isolation: two records that differ in one field only have
    /// encodings that agree in every bit outside that field.
    pub proof fn law_bit_isolation(self, other: Self)
        ensures
            other == (UserControl { fifo_en: other.fifo_en, ..self })
                ==> same_outside(self.encoding(), other.encoding(), 6, 1),
            other == (UserControl { i2c_if_dis: other.i2c_if_dis, ..self })
                ==> same_outside(self.encoding(), other.encoding(), 4, 1),
            other == (UserControl { fifo_rst: other.fifo_rst, ..self })
                ==> same_outside(self.encoding(), other.encoding(), 2, 1),
            other == (UserControl { sig_cond_rst: other.sig_cond_rst, ..self })
                ==> same_outside(self.encoding(), other.encoding(), 0, 1),
    {
        self.law_round_trip();
        other.law_round_trip();
        if other == (UserControl { fifo_en: other.fifo_en, ..self }) {
            lemma_same_outside(self.encoding(), other.encoding(), 6, 1);
        }
        if other == (UserControl { i2c_if_dis: other.i2c_if_dis, ..self }) {
            lemma_same_outside(self.encoding(), other.encoding(), 4, 1);
        }
        if other == (UserControl { fifo_rst: other.fifo_rst, ..self }) {
            lemma_same_outside(self.encoding(), other.encoding(), 2, 1);
        }
        if other == (UserControl { sig_cond_rst: other.sig_cond_rst, ..self }) {
            lemma_same_outside(self.encoding(), other.encoding(), 0, 1);
        }
    }
}

impl WriteRegister for UserControl {
    open spec fn frames(&self) -> Seq<(u8, u8)> {
        seq![(Self::ADDRESS, self.encoding())]
    }

    fn write<T: Transport>(&self, bus: &mut Bus<T>) -> (outcome: Result<(), T::Error>) {
        write_one(bus, Self::ADDRESS, self.encode())
    }
}

impl ReadRegister for UserControl {
    open spec fn registers() -> Seq<u8> {
        seq![Self::ADDRESS]
    }

    open spec fn assemble(bytes: Seq<u8>) -> Self {
        Self::decoding(bytes[0])
    }

    fn new<T: Transport>(bus: &mut Bus<T>) -> (outcome: Result<Self, T::Error>) {
        Ok(Self::decode(read_one(bus, Self::ADDRESS)?))
    }
}

impl ReadWriteRegister for UserControl {
    /// Every record is representable.
    open spec fn representable(&self) -> bool {
        true
    }

    proof fn law_round_trip_over_registers(&self, memory: Seq<u8>) {
        self.law_round_trip();
        lemma_one_register(memory, Self::ADDRESS, self.encoding());
    }
}

/// The identity register.
#[derive(Clone, Copy, Debug, PartialEq, Eq)]
pub struct WhoAmI {
    /// The identity of the device.
    pub device_id: u8,
}

impl WhoAmI {
    /// The address of the register.
    pub const ADDRESS: u8 = 0x75;

    /// The record that a register byte stands for.
    pub open spec fn decoding(byte: u8) -> Self {
        WhoAmI { device_id: byte }
    }

    /// Makes the record that a register byte stands for.
    pub fn decode(byte: u8) -> (record: Self)
        ensures
            record == Self::decoding(byte),
    {
        WhoAmI { device_id: byte }
    }
}

impl ReadRegister for WhoAmI {
    open spec fn registers() -> Seq<u8> {
        seq![Self::ADDRESS]
    }

    open spec fn assemble(bytes: Seq<u8>) -> Self {
        Self::decoding(bytes[0])
    }

    fn new<T: Transport>(bus: &mut Bus<T>) -> (outcome: Result<Self, T::Error>) {
        Ok(Self::decode(read_one(bus, Self::ADDRESS)?))
    }
}

} // verus!

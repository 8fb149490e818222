//! Configuration of the sensors and of the sample rate.

use crate::bits::{
    field, field_at, flag, flag_at, lemma_same_outside, placed, placed_flag, same_outside,
    with_field, with_flag,
};
use crate::memory::{addresses, lemma_one_register};
use crate::structs::{read_one, write_one, ReadRegister, ReadWriteRegister, WriteRegister};
use crate::transport::{Bus, Transport};
use vstd::prelude::*;

verus! {

/// General configuration: FIFO mode, frame synchronisation and the low-pass
/// filter.
#[derive(Clone, Copy, Debug, PartialEq, Eq)]
pub struct Config {
    /// When set, a full FIFO takes no further samples; when clear, new samples
    /// replace the oldest.
    pub fifo_mode: bool,
    /// Which measurement carries the sampled FSYNC pin in its lowest bit: 0
    /// turns the function off, 1 is the temperature, 2 to 4 the gyroscope X, Y
    /// and Z, 5 to 7 the accelerometer X, Y and Z.
    pub ext_sync_set: u8,
    /// The setting of the digital low-pass filter, a code of three bits.
    pub dlpf_cfg: u8,
}

impl Config {
    /// The address of the register.
    pub const ADDRESS: u8 = 0x1A;

    /// The register byte that stands for the record. Bit 6 is `fifo_mode`; bits
    /// 5 to 3 are `ext_sync_set`; bits 2 to 0 are `dlpf_cfg`. Bit 7 is reserved
    /// and clear.
    pub open spec fn encoding(self) -> u8 {
        (placed_flag(self.fifo_mode, 6)
            + placed(self.ext_sync_set as int, 3, 3)
            + placed(self.dlpf_cfg as int, 0, 3)) as u8
    }

    /// The record that a register byte stands for. Reserved bits are
    /// ignored.
    pub open spec fn decoding(byte: u8) -> Self {
        Config {
            fifo_mode: flag(byte, 6),
            ext_sync_set: field(byte, 3, 3) as u8,
            dlpf_cfg: field(byte, 0, 3) as u8,
        }
    }

    /// Computes the register byte of the record: every field is masked to
    /// its width and moved to its place, the highest field first.
    pub fn encode(&self) -> (byte: u8)
        ensures
            byte == self.encoding(),
    {
        let byte = with_flag(0, self.fifo_mode, 6);
        let byte = with_field(byte, self.ext_sync_set, 3, 3);
        with_field(byte, self.dlpf_cfg, 0, 3)
    }

    /// Takes a register byte apart into the record.
    pub fn decode(byte: u8) -> (record: Self)
        ensures
            record == Self::decoding(byte),
    {
        Config {
            fifo_mode: flag_at(byte, 6),
            ext_sync_set: field_at(byte, 3, 3),
            dlpf_cfg: field_at(byte, 0, 3),
        }
    }

    /// What the encoding of any record decodes to: the record itself, but
    /// for a value too wide for its field, of which the low bits remain.
    pub proof fn lemma_decoding_of_encoding(self)
        ensures
            Self::decoding(self.encoding()) == (Config {
                ext_sync_set: (self.ext_sync_set % 8) as u8,
                dlpf_cfg: (self.dlpf_cfg % 8) as u8,
                ..self
            }),
    {
    }

    /// Round trip: a representable record is what its own encoding decodes
    /// to.
    pub proof fn law_round_trip(self)
        requires
            self.representable(),
        ensures
            Self::decoding(self.encoding()) == self,
    {
        self.lemma_decoding_of_encoding();
    }

    /// The record is written to the register that it is read from.
    pub proof fn law_same_registers(self)
        ensures
            addresses(self.frames()) == Self::registers(),
    {
    }

    /// The reserved bits of the encoding are clear, whatever the record.
    pub proof fn law_reserved_bits_clear(self)
        ensures
            field(self.encoding(), 7, 1) == 0,
    {
        self.lemma_decoding_of_encoding();
    }

    /// Bit isolation: two records that differ in one field only have
    /// encodings that agree in every bit outside that field.
    pub proof fn law_bit_isolation(self, other: Self)
        ensures
            other == (Config { fifo_mode: other.fifo_mode, ..self })
                ==> same_outside(self.encoding(), other.encoding(), 6, 1),
            other == (Config { ext_sync_set: other.ext_sync_set, ..self })
                ==> same_outside(self.encoding(), other.encoding(), 3, 3),
            other == (Config { dlpf_cfg: other.dlpf_cfg, ..self })
                ==> same_outside(self.encoding(), other.encoding(), 0, 3),
    {
        self.lemma_decoding_of_encoding();
        other.lemma_decoding_of_encoding();
        if other == (Config { fifo_mode: other.fifo_mode, ..self }) {
            lemma_same_outside(self.encoding(), other.encoding(), 6, 1);
        }
        if other == (Config { ext_sync_set: other.ext_sync_set, ..self }) {
            lemma_same_outside(self.encoding(), other.encoding(), 3, 3);
        }
        if other == (Config { dlpf_cfg: other.dlpf_cfg, ..self }) {
            lemma_same_outside(self.encoding(), other.encoding(), 0, 3);
        }
    }
}

impl WriteRegister for Config {
    open spec fn frames(&self) -> Seq<(u8, u8)> {
        seq![(Self::ADDRESS, self.encoding())]
    }

    fn write<T: Transport>(&self, bus: &mut Bus<T>) -> (outcome: Result<(), T::Error>) {
        write_one(bus, Self::ADDRESS, self.encode())
    }
}

impl ReadRegister for Config {
    open spec fn registers() -> Seq<u8> {
        seq![Self::ADDRESS]
    }

    open spec fn assemble(bytes: Seq<u8>) -> Self {
        Self::decoding(bytes[0])
    }

    fn new<T: Transport>(bus: &mut Bus<T>) -> (outcome: Result<Self, T::Error>) {
        Ok(Self::decode(read_one(bus, Self::ADDRESS)?))
    }
}

impl ReadWriteRegister for Config {
    /// Every field holds a value that its bits can hold.
    open spec fn representable(&self) -> bool {
        &&& self.ext_sync_set < 8
        &&& self.dlpf_cfg < 8
    }

    proof fn law_round_trip_over_registers(&self, memory: Seq<u8>) {
        self.law_round_trip();
        lemma_one_register(memory, Self::ADDRESS, self.encoding());
    }
}

/// Gyroscope configuration: self-test, full-scale range and filter bypass.
#[derive(Clone, Copy, Debug, PartialEq, Eq)]
pub struct GyroConfig {
    /// Self-test of the X gyroscope.
    pub x_st: bool,
    /// Self-test of the Y gyroscope.
    pub y_st: bool,
    /// Self-test of the Z gyroscope.
    pub z_st: bool,
    /// The full-scale range: 0 is 250, 1 is 500, 2 is 1000 and 3 is 2000
    /// degrees per second, either way.
    pub full_scale_select: u8,
    /// Bypass of the low-pass filter, a code of two bits.
    pub fchoice_b: u8,
}

impl GyroConfig {
    /// The address of the register.
    pub const ADDRESS: u8 = 0x1B;

    /// The register byte that stands for the record. Bit 7 is `x_st`; bit 6 is
    /// `y_st`; bit 5 is `z_st`; bits 4 to 3 are `full_scale_select`; bits 1 to
    /// 0 are `fchoice_b`. Bit 2 is reserved and clear.
    pub open spec fn encoding(self) -> u8 {
        (placed_flag(self.x_st, 7)
            + placed_flag(self.y_st, 6)
            + placed_flag(self.z_st, 5)
            + placed(self.full_scale_select as int, 3, 2)
            + placed(self.fchoice_b as int, 0, 2)) as u8
    }

    /// The record that a register byte stands for. Reserved bits are
    /// ignored.
    pub open spec fn decoding(byte: u8) -> Self {
        GyroConfig {
            x_st: flag(byte, 7),
            y_st: flag(byte, 6),
            z_st: flag(byte, 5),
            full_scale_select: field(byte, 3, 2) as u8,
            fchoice_b: field(byte, 0, 2) as u8,
        }
    }

    /// Computes the register byte of the record: every field is masked to
    /// its width and moved to its place, the highest field first.
    pub fn encode(&self) -> (byte: u8)
        ensures
            byte == self.encoding(),
    {
        let byte = with_flag(0, self.x_st, 7);
        let byte = with_flag(byte, self.y_st, 6);
        let byte = with_flag(byte, self.z_st, 5);
        let byte = with_field(byte, self.full_scale_select, 3, 2);
        with_field(byte, self.fchoice_b, 0, 2)
    }

    /// Takes a register byte apart into the record.
    pub fn decode(byte: u8) -> (record: Self)
        ensures
            record == Self::decoding(byte),
    {
        GyroConfig {
            x_st: flag_at(byte, 7),
            y_st: flag_at(byte, 6),
            z_st: flag_at(byte, 5),
            full_scale_select: field_at(byte, 3, 2),
            fchoice_b: field_at(byte, 0, 2),
        }
    }

    /// What the encoding of any record decodes to: the record itself, but
    /// for a value too wide for its field, of which the low bits remain.
    pub proof fn lemma_decoding_of_encoding(self)
        ensures
            Self::decoding(self.encoding()) == (GyroConfig {
                full_scale_select: (self.full_scale_select % 4) as u8,
                fchoice_b: (self.fchoice_b % 4) as u8,
                ..self
            }),
    {
    }

    /// Round trip: a representable record is what its own encoding decodes
    /// to.
    pub proof fn law_round_trip(self)
        requires
            self.representable(),
        ensures
            Self::decoding(self.encoding()) == self,
    {
        self.lemma_decoding_of_encoding();
    }

    /// The record is written to the register that it is read from.
    pub proof fn law_same_registers(self)
        ensures
            addresses(self.frames()) == Self::registers(),
    {
    }

    /// The reserved bits of the encoding are clear, whatever the record.
    pub proof fn law_reserved_bits_clear(self)
        ensures
            field(self.encoding(), 2, 1) == 0,
    {
        self.lemma_decoding_of_encoding();
    }

    /// Bit isolation: two records that differ in one field only have
    /// encodings that agree in every bit outside that field.
    pub proof fn law_bit_isolation(self, other: Self)
        ensures
            other == (GyroConfig { x_st: other.x_st, ..self })
                ==> same_outside(self.encoding(), other.encoding(), 7, 1),
            other == (GyroConfig { y_st: other.y_st, ..self })
                ==> same_outside(self.encoding(), other.encoding(), 6, 1),
            other == (GyroConfig { z_st: other.z_st, ..self })
                ==> same_outside(self.encoding(), other.encoding(), 5, 1),
            other == (GyroConfig { full_scale_select: other.full_scale_select, ..self })
                ==> same_outside(self.encoding(), other.encoding(), 3, 2),
            other == (GyroConfig { fchoice_b: other.fchoice_b, ..self })
                ==> same_outside(self.encoding(), other.encoding(), 0, 2),
    {
        self.lemma_decoding_of_encoding();
        other.lemma_decoding_of_encoding();
        if other == (GyroConfig { x_st: other.x_st, ..self }) {
            lemma_same_outside(self.encoding(), other.encoding(), 7, 1);
        }
        if other == (GyroConfig { y_st: other.y_st, ..self }) {
            lemma_same_outside(self.encoding(), other.encoding(), 6, 1);
        }
        if other == (GyroConfig { z_st: other.z_st, ..self }) {
            lemma_same_outside(self.encoding(), other.encoding(), 5, 1);
        }
        if other == (GyroConfig { full_scale_select: other.full_scale_select, ..self }) {
            lemma_same_outside(self.encoding(), other.encoding(), 3, 2);
        }
        if other == (GyroConfig { fchoice_b: other.fchoice_b, ..self }) {
            lemma_same_outside(self.encoding(), other.encoding(), 0, 2);
        }
    }
}

impl WriteRegister for GyroConfig {
    open spec fn frames(&self) -> Seq<(u8, u8)> {
        seq![(Self::ADDRESS, self.encoding())]
    }

    fn write<T: Transport>(&self, bus: &mut Bus<T>) -> (outcome: Result<(), T::Error>) {
        write_one(bus, Self::ADDRESS, self.encode())
    }
}

impl ReadRegister for GyroConfig {
    open spec fn registers() -> Seq<u8> {
        seq![Self::ADDRESS]
    }

    open spec fn assemble(bytes: Seq<u8>) -> Self {
        Self::decoding(bytes[0])
    }

    fn new<T: Transport>(bus: &mut Bus<T>) -> (outcome: Result<Self, T::Error>) {
        Ok(Self::decode(read_one(bus, Self::ADDRESS)?))
    }
}

impl ReadWriteRegister for GyroConfig {
    /// Every field holds a value that its bits can hold.
    open spec fn representable(&self) -> bool {
        &&& self.full_scale_select < 4
        &&& self.fchoice_b < 4
    }

    proof fn law_round_trip_over_registers(&self, memory: Seq<u8>) {
        self.law_round_trip();
        lemma_one_register(memory, Self::ADDRESS, self.encoding());
    }
}

/// Accelerometer configuration 1: self-test and full-scale range.
#[derive(Clone, Copy, Debug, PartialEq, Eq)]
pub struct AccelConfig1 {
    /// Self-test of the X accelerometer.
    pub x_st: bool,
    /// Self-test of the Y accelerometer.
    pub y_st: bool,
    /// Self-test of the Z accelerometer.
    pub z_st: bool,
    /// The full-scale range: 0 is 2 g, 1 is 4 g, 2 is 8 g and 3 is 16 g, either
    /// way.
    pub full_scale_select: u8,
}

impl AccelConfig1 {
    /// The address of the register.
    pub const ADDRESS: u8 = 0x1C;

    /// The register byte that stands for the record. Bit 7 is `x_st`; bit 6 is
    /// `y_st`; bit 5 is `z_st`; bits 4 to 3 are `full_scale_select`. Bits 2 to
    /// 0 are reserved and clear.
    pub open spec fn encoding(self) -> u8 {
        (placed_flag(self.x_st, 7)
            + placed_flag(self.y_st, 6)
            + placed_flag(self.z_st, 5)
            + placed(self.full_scale_select as int, 3, 2)) as u8
    }

    /// The record that a register byte stands for. Reserved bits are
    /// ignored.
    pub open spec fn decoding(byte: u8) -> Self {
        AccelConfig1 {
            x_st: flag(byte, 7),
            y_st: flag(byte, 6),
            z_st: flag(byte, 5),
            full_scale_select: field(byte, 3, 2) as u8,
        }
    }

    /// Computes the register byte of the record: every field is masked to
    /// its width and moved to its place, the highest field first.
    pub fn encode(&self) -> (byte: u8)
        ensures
            byte == self.encoding(),
    {
        let byte = with_flag(0, self.x_st, 7);
        let byte = with_flag(byte, self.y_st, 6);
        let byte = with_flag(byte, self.z_st, 5);
        with_field(byte, self.full_scale_select, 3, 2)
    }

    /// Takes a register byte apart into the record.
    pub fn decode(byte: u8) -> (record: Self)
        ensures
            record == Self::decoding(byte),
    {
        AccelConfig1 {
            x_st: flag_at(byte, 7),
            y_st: flag_at(byte, 6),
            z_st: flag_at(byte, 5),
            full_scale_select: field_at(byte, 3, 2),
        }
    }

    /// What the encoding of any record decodes to: the record itself, but
    /// for a value too wide for its field, of which the low bits remain.
    pub proof fn lemma_decoding_of_encoding(self)
        ensures
            Self::decoding(self.encoding()) == (AccelConfig1 {
                full_scale_select: (self.full_scale_select % 4) as u8,
                ..self
            }),
    {
    }

    /// Round trip: a representable record is what its own encoding decodes
    /// to.
    pub proof fn law_round_trip(self)
        requires
            self.representable(),
        ensures
            Self::decoding(self.encoding()) == self,
    {
        self.lemma_decoding_of_encoding();
    }

    /// The record is written to the register that it is read from.
    pub proof fn law_same_registers(self)
        ensures
            addresses(self.frames()) == Self::registers(),
    {
    }

    /// The reserved bits of the encoding are clear, whatever the record.
    pub proof fn law_reserved_bits_clear(self)
        ensures
            field(self.encoding(), 0, 3) == 0,
    {
        self.lemma_decoding_of_encoding();
    }

    /// Bit isolation: two records that differ in one field only have
    /// encodings that agree in every bit outside that field.
    pub proof fn law_bit_isolation(self, other: Self)
        ensures
            other == (AccelConfig1 { x_st: other.x_st, ..self })
                ==> same_outside(self.encoding(), other.encoding(), 7, 1),
            other == (AccelConfig1 { y_st: other.y_st, ..self })
                ==> same_outside(self.encoding(), other.encoding(), 6, 1),
            other == (AccelConfig1 { z_st: other.z_st, ..self })
                ==> same_outside(self.encoding(), other.encoding(), 5, 1),
            other == (AccelConfig1 { full_scale_select: other.full_scale_select, ..self })
                ==> same_outside(self.encoding(), other.encoding(), 3, 2),
    {
        self.lemma_decoding_of_encoding();
        other.lemma_decoding_of_encoding();
        if other == (AccelConfig1 { x_st: other.x_st, ..self }) {
            lemma_same_outside(self.encoding(), other.encoding(), 7, 1);
        }
        if other == (AccelConfig1 { y_st: other.y_st, ..self }) {
            lemma_same_outside(self.encoding(), other.encoding(), 6, 1);
        }
        if other == (AccelConfig1 { z_st: other.z_st, ..self }) {
            lemma_same_outside(self.encoding(), other.encoding(), 5, 1);
        }
        if other == (AccelConfig1 { full_scale_select: other.full_scale_select, ..self }) {
            lemma_same_outside(self.encoding(), other.encoding(), 3, 2);
        }
    }
}

impl WriteRegister for AccelConfig1 {
    open spec fn frames(&self) -> Seq<(u8, u8)> {
        seq![(Self::ADDRESS, self.encoding())]
    }

    fn write<T: Transport>(&self, bus: &mut Bus<T>) -> (outcome: Result<(), T::Error>) {
        write_one(bus, Self::ADDRESS, self.encode())
    }
}

impl ReadRegister for AccelConfig1 {
    open spec fn registers() -> Seq<u8> {
        seq![Self::ADDRESS]
    }

    open spec fn assemble(bytes: Seq<u8>) -> Self {
        Self::decoding(bytes[0])
    }

    fn new<T: Transport>(bus: &mut Bus<T>) -> (outcome: Result<Self, T::Error>) {
        Ok(Self::decode(read_one(bus, Self::ADDRESS)?))
    }
}

impl ReadWriteRegister for AccelConfig1 {
    /// Every field holds a value that its bits can hold.
    open spec fn representable(&self) -> bool {
        self.full_scale_select < 4
    }

    proof fn law_round_trip_over_registers(&self, memory: Seq<u8>) {
        self.law_round_trip();
        lemma_one_register(memory, Self::ADDRESS, self.encoding());
    }
}

/// Accelerometer configuration 2: averaging and the low-pass filter.
#[derive(Clone, Copy, Debug, PartialEq, Eq)]
pub struct AccelConfig2 {
    /// Averaging in low-power accelerometer mode: 0 averages 4 samples, 1
    /// averages 8, 2 averages 16 and 3 averages 32.
    pub dec2_cfg: u8,
    /// Bypasses the low-pass filter of the accelerometer.
    pub accel_fchoice_b: bool,
    /// The setting of the accelerometer low-pass filter, a code of three bits.
    pub dlpf_cfg: u8,
}

impl AccelConfig2 {
    /// The address of the register.
    pub const ADDRESS: u8 = 0x1D;

    /// The register byte that stands for the record. Bits 5 to 4 are
    /// `dec2_cfg`; bit 3 is `accel_fchoice_b`; bits 2 to 0 are `dlpf_cfg`. Bits
    /// 7 and 6 are reserved and clear.
    pub open spec fn encoding(self) -> u8 {
        (placed(self.dec2_cfg as int, 4, 2)
            + placed_flag(self.accel_fchoice_b, 3)
            + placed(self.dlpf_cfg as int, 0, 3)) as u8
    }

    /// The record that a register byte stands for. Reserved bits are
    /// ignored.
    pub open spec fn decoding(byte: u8) -> Self {
        AccelConfig2 {
            dec2_cfg: field(byte, 4, 2) as u8,
            accel_fchoice_b: flag(byte, 3),
            dlpf_cfg: field(byte, 0, 3) as u8,
        }
    }

    /// Computes the register byte of the record: every field is masked to
    /// its width and moved to its place, the highest field first.
    pub fn encode(&self) -> (byte: u8)
        ensures
            byte == self.encoding(),
    {
        let byte = with_field(0, self.dec2_cfg, 4, 2);
        let byte = with_flag(byte, self.accel_fchoice_b, 3);
        with_field(byte, self.dlpf_cfg, 0, 3)
    }

    /// Takes a register byte apart into the record.
    pub fn decode(byte: u8) -> (record: Self)
        ensures
            record == Self::decoding(byte),
    {
        AccelConfig2 {
            dec2_cfg: field_at(byte, 4, 2),
            accel_fchoice_b: flag_at(byte, 3),
            dlpf_cfg: field_at(byte, 0, 3),
        }
    }

    /// What the encoding of any record decodes to: the record itself, but
    /// for a value too wide for its field, of which the low bits remain.
    pub proof fn lemma_decoding_of_encoding(self)
        ensures
            Self::decoding(self.encoding()) == (AccelConfig2 {
                dec2_cfg: (self.dec2_cfg % 4) as u8,
                dlpf_cfg: (self.dlpf_cfg % 8) as u8,
                ..self
            }),
    {
    }

    /// Round trip: a representable record is what its own encoding decodes
    /// to.
    pub proof fn law_round_trip(self)
        requires
            self.representable(),
        ensures
            Self::decoding(self.encoding()) == self,
    {
        self.lemma_decoding_of_encoding();
    }

    /// The record is written to the register that it is read from.
    pub proof fn law_same_registers(self)
        ensures
            addresses(self.frames()) == Self::registers(),
    {
    }

    /// The reserved bits of the encoding are clear, whatever the record.
    pub proof fn law_reserved_bits_clear(self)
        ensures
            field(self.encoding(), 6, 2) == 0,
    {
        self.lemma_decoding_of_encoding();
    }

    /// Bit isolation: two records that differ in one field only have
    /// encodings that agree in every bit outside that field.
    pub proof fn law_bit_isolation(self, other: Self)
        ensures
            other == (AccelConfig2 { dec2_cfg: other.dec2_cfg, ..self })
                ==> same_outside(self.encoding(), other.encoding(), 4, 2),
            other == (AccelConfig2 { accel_fchoice_b: other.accel_fchoice_b, ..self })
                ==> same_outside(self.encoding(), other.encoding(), 3, 1),
            other == (AccelConfig2 { dlpf_cfg: other.dlpf_cfg, ..self })
                ==> same_outside(self.encoding(), other.encoding(), 0, 3),
    {
        self.lemma_decoding_of_encoding();
        other.lemma_decoding_of_encoding();
        if other == (AccelConfig2 { dec2_cfg: other.dec2_cfg, ..self }) {
            lemma_same_outside(self.encoding(), other.encoding(), 4, 2);
        }
        if other == (AccelConfig2 { accel_fchoice_b: other.accel_fchoice_b, ..self }) {
            lemma_same_outside(self.encoding(), other.encoding(), 3, 1);
        }
        if other == (AccelConfig2 { dlpf_cfg: other.dlpf_cfg, ..self }) {
            lemma_same_outside(self.encoding(), other.encoding(), 0, 3);
        }
    }
}

impl WriteRegister for AccelConfig2 {
    open spec fn frames(&self) -> Seq<(u8, u8)> {
        seq![(Self::ADDRESS, self.encoding())]
    }

    fn write<T: Transport>(&self, bus: &mut Bus<T>) -> (outcome: Result<(), T::Error>) {
        write_one(bus, Self::ADDRESS, self.encode())
    }
}

impl ReadRegister for AccelConfig2 {
    open spec fn registers() -> Seq<u8> {
        seq![Self::ADDRESS]
    }

    open spec fn assemble(bytes: Seq<u8>) -> Self {
        Self::decoding(bytes[0])
    }

    fn new<T: Transport>(bus: &mut Bus<T>) -> (outcome: Result<Self, T::Error>) {
        Ok(Self::decode(read_one(bus, Self::ADDRESS)?))
    }
}

impl ReadWriteRegister for AccelConfig2 {
    /// Every field holds a value that its bits can hold.
    open spec fn representable(&self) -> bool {
        &&& self.dec2_cfg < 4
        &&& self.dlpf_cfg < 8
    }

    proof fn law_round_trip_over_registers(&self, memory: Seq<u8>) {
        self.law_round_trip();
        lemma_one_register(memory, Self::ADDRESS, self.encoding());
    }
}

/// The sample rate divider.
#[derive(Clone, Copy, Debug, PartialEq, Eq)]
pub struct SampleRateDivider {
    /// Divides the internal sample rate: the rate is the internal one over one
    /// more than this value.
    pub smplrt_div: u8,
}

impl SampleRateDivider {
    /// The address of the register.
    pub const ADDRESS: u8 = 0x19;

    /// The register byte that stands for the record: the field itself.
    pub open spec fn encoding(self) -> u8 {
        self.smplrt_div
    }

    /// The record that a register byte stands for.
    pub open spec fn decoding(byte: u8) -> Self {
        SampleRateDivider { smplrt_div: byte }
    }

    /// Computes the register byte of the record.
    pub fn encode(&self) -> (byte: u8)
        ensures
            byte == self.encoding(),
    {
        self.smplrt_div
    }

    /// Makes the record that a register byte stands for.
    pub fn decode(byte: u8) -> (record: Self)
        ensures
            record == Self::decoding(byte),
    {
        SampleRateDivider { smplrt_div: byte }
    }

    /// Round trip: every record is what its own encoding decodes to.
    pub proof fn law_round_trip(self)
        ensures
            Self::decoding(self.encoding()) == self,
    {
    }

    /// The record is written to the register that it is read from.
    pub proof fn law_same_registers(self)
        ensures
            addresses(self.frames()) == Self::registers(),
    {
    }
}

impl WriteRegister for SampleRateDivider {
    open spec fn frames(&self) -> Seq<(u8, u8)> {
        seq![(Self::ADDRESS, self.encoding())]
    }

    fn write<T: Transport>(&self, bus: &mut Bus<T>) -> (outcome: Result<(), T::Error>) {
        write_one(bus, Self::ADDRESS, self.encode())
    }
}

impl ReadRegister for SampleRateDivider {
    open spec fn registers() -> Seq<u8> {
        seq![Self::ADDRESS]
    }

    open spec fn assemble(bytes: Seq<u8>) -> Self {
        Self::decoding(bytes[0])
    }

    fn new<T: Transport>(bus: &mut Bus<T>) -> (outcome: Result<Self, T::Error>) {
        Ok(Self::decode(read_one(bus, Self::ADDRESS)?))
    }
}

impl ReadWriteRegister for SampleRateDivider {
    /// Every record is representable.
    open spec fn representable(&self) -> bool {
        true
    }

    proof fn law_round_trip_over_registers(&self, memory: Seq<u8>) {
        self.law_round_trip();
        lemma_one_register(memory, Self::ADDRESS, self.encoding());
    }
}

/// The wake-on-motion threshold.
#[derive(Clone, Copy, Debug, PartialEq, Eq)]
pub struct WakeOnMotion {
    /// The threshold of the wake-on-motion interrupt of the accelerometer.
    pub wom_thr: u8,
}

impl WakeOnMotion {
    /// The address of the register.
    pub const ADDRESS: u8 = 0x1F;

    /// The register byte that stands for the record: the field itself.
    pub open spec fn encoding(self) -> u8 {
        self.wom_thr
    }

    /// The record that a register byte stands for.
    pub open spec fn decoding(byte: u8) -> Self {
        WakeOnMotion { wom_thr: byte }
    }

    /// Computes the register byte of the record.
    pub fn encode(&self) -> (byte: u8)
        ensures
            byte == self.encoding(),
    {
        self.wom_thr
    }

    /// Makes the record that a register byte stands for.
    pub fn decode(byte: u8) -> (record: Self)
        ensures
            record == Self::decoding(byte),
    {
        WakeOnMotion { wom_thr: byte }
    }

    /// Round trip: every record is what its own encoding decodes to.
    pub proof fn law_round_trip(self)
        ensures
            Self::decoding(self.encoding()) == self,
    {
    }

    /// The record is written to the register that it is read from.
    pub proof fn law_same_registers(self)
        ensures
            addresses(self.frames()) == Self::registers(),
    {
    }
}

impl WriteRegister for WakeOnMotion {
    open spec fn frames(&self) -> Seq<(u8, u8)> {
        seq![(Self::ADDRESS, self.encoding())]
    }

    fn write<T: Transport>(&self, bus: &mut Bus<T>) -> (outcome: Result<(), T::Error>) {
        write_one(bus, Self::ADDRESS, self.encode())
    }
}

impl ReadRegister for WakeOnMotion {
    open spec fn registers() -> Seq<u8> {
        seq![Self::ADDRESS]
    }

    open spec fn assemble(bytes: Seq<u8>) -> Self {
        Self::decoding(bytes[0])
    }

    fn new<T: Transport>(bus: &mut Bus<T>) -> (outcome: Result<Self, T::Error>) {
        Ok(Self::decode(read_one(bus, Self::ADDRESS)?))
    }
}

impl ReadWriteRegister for WakeOnMotion {
    /// Every record is representable.
    open spec fn representable(&self) -> bool {
        true
    }

    proof fn law_round_trip_over_registers(&self, memory: Seq<u8>) {
        self.law_round_trip();
        lemma_one_register(memory, Self::ADDRESS, self.encoding());
    }
}

} // verus!

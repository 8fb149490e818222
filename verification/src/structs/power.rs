//! Power management and low-power mode.

use crate::bits::{
    field, field_at, flag, flag_at, lemma_same_outside, placed, placed_flag, same_outside,
    with_field, with_flag,
};
use crate::memory::{addresses, lemma_one_register};
use crate::structs::{read_one, write_one, ReadRegister, ReadWriteRegister, WriteRegister};
use crate::transport::{Bus, Transport};
use vstd::prelude::*;

verus! {

/// Power management 1: reset, sleep and cycle modes, and the clock source.
#[derive(Clone, Copy, Debug, PartialEq, Eq)]
pub struct PowerManagement1 {
    /// Resets the internal registers to their defaults; the device clears the
    /// bit when it is done.
    pub device_reset: bool,
    /// Puts the device to sleep.
    pub sleep: bool,
    /// Lets the device cycle between sleep and taking a single accelerometer
    /// sample.
    pub accel_cycle: bool,
    /// Keeps the gyroscope drive running with the rest of the gyroscope off,
    /// for a quick wake-up.
    pub gyro_standby: bool,
    /// Turns the temperature sensor off.
    pub temperature_disabled: bool,
    /// The clock source, a code of three bits.
    pub clock_select: u8,
}

impl PowerManagement1 {
    /// The address of the register.
    pub const ADDRESS: u8 = 0x6B;

    /// The register byte that stands for the record. Bit 7 is `device_reset`;
    /// bit 6 is `sleep`; bit 5 is `accel_cycle`; bit 4 is `gyro_standby`; bit 3
    /// is `temperature_disabled`; bits 2 to 0 are `clock_select`.
    pub open spec fn encoding(self) -> u8 {
        (placed_flag(self.device_reset, 7)
            + placed_flag(self.sleep, 6)
            + placed_flag(self.accel_cycle, 5)
            + placed_flag(self.gyro_standby, 4)
            + placed_flag(self.temperature_disabled, 3)
            + placed(self.clock_select as int, 0, 3)) as u8
    }

    /// The record that a register byte stands for. Reserved bits are
    /// ignored.
    pub open spec fn decoding(byte: u8) -> Self {
        PowerManagement1 {
            device_reset: flag(byte, 7),
            sleep: flag(byte, 6),
            accel_cycle: flag(byte, 5),
            gyro_standby: flag(byte, 4),
            temperature_disabled: flag(byte, 3),
            clock_select: field(byte, 0, 3) as u8,
        }
    }

    /// Computes the register byte of the record: every field is masked to
    /// its width and moved to its place, the highest field first.
    pub fn encode(&self) -> (byte: u8)
        ensures
            byte == self.encoding(),
    {
        let byte = with_flag(0, self.device_reset, 7);
        let byte = with_flag(byte, self.sleep, 6);
        let byte = with_flag(byte, self.accel_cycle, 5);
        let byte = with_flag(byte, self.gyro_standby, 4);
        let byte = with_flag(byte, self.temperature_disabled, 3);
        with_field(byte, self.clock_select, 0, 3)
    }

    /// Takes a register byte apart into the record.
    pub fn decode(byte: u8) -> (record: Self)
        ensures
            record == Self::decoding(byte),
    {
        PowerManagement1 {
            device_reset: flag_at(byte, 7),
            sleep: flag_at(byte, 6),
            accel_cycle: flag_at(byte, 5),
            gyro_standby: flag_at(byte, 4),
            temperature_disabled: flag_at(byte, 3),
            clock_select: field_at(byte, 0, 3),
        }
    }

    /// What the encoding of any record decodes to: the record itself, but
    /// for a value too wide for its field, of which the low bits remain.
    pub proof fn lemma_decoding_of_encoding(self)
        ensures
            Self::decoding(self.encoding()) == (PowerManagement1 {
                clock_select: (self.clock_select % 8) as u8,
                ..self
            }),
    {
    }

    /// Round trip: a representable record is what its own encoding decodes
    /// to.
    pub proof fn law_round_trip(self)
        requires
            self.representable(),
        ensures
            Self::decoding(self.encoding()) == self,
    {
        self.lemma_decoding_of_encoding();
    }

    /// The record is written to the register that it is read from.
    pub proof fn law_same_registers(self)
        ensures
            addresses(self.frames()) == Self::registers(),
    {
    }

    /// Bit isolation: two records that differ in one field only have
    /// encodings that agree in every bit outside that field.
    pub proof fn law_bit_isolation(self, other: Self)
        ensures
            other == (PowerManagement1 { device_reset: other.device_reset, ..self })
                ==> same_outside(self.encoding(), other.encoding(), 7, 1),
            other == (PowerManagement1 { sleep: other.sleep, ..self })
                ==> same_outside(self.encoding(), other.encoding(), 6, 1),
            other == (PowerManagement1 { accel_cycle: other.accel_cycle, ..self })
                ==> same_outside(self.encoding(), other.encoding(), 5, 1),
            other == (PowerManagement1 { gyro_standby: other.gyro_standby, ..self })
                ==> same_outside(self.encoding(), other.encoding(), 4, 1),
            other == (PowerManagement1 { temperature_disabled: other.temperature_disabled, ..self })
                ==> same_outside(self.encoding(), other.encoding(), 3, 1),
            other == (PowerManagement1 { clock_select: other.clock_select, ..self })
                ==> same_outside(self.encoding(), other.encoding(), 0, 3),
    {
        self.lemma_decoding_of_encoding();
        other.lemma_decoding_of_encoding();
        if other == (PowerManagement1 { device_reset: other.device_reset, ..self }) {
            lemma_same_outside(self.encoding(), other.encoding(), 7, 1);
        }
        if other == (PowerManagement1 { sleep: other.sleep, ..self }) {
            lemma_same_outside(self.encoding(), other.encoding(), 6, 1);
        }
        if other == (PowerManagement1 { accel_cycle: other.accel_cycle, ..self }) {
            lemma_same_outside(self.encoding(), other.encoding(), 5, 1);
        }
        if other == (PowerManagement1 { gyro_standby: other.gyro_standby, ..self }) {
            lemma_same_outside(self.encoding(), other.encoding(), 4, 1);
        }
        if other == (PowerManagement1 {
            temperature_disabled: other.temperature_disabled,
            ..self
        }) {
            lemma_same_outside(self.encoding(), other.encoding(), 3, 1);
        }
        if other == (PowerManagement1 { clock_select: other.clock_select, ..self }) {
            lemma_same_outside(self.encoding(), other.encoding(), 0, 3);
        }
    }
}

impl WriteRegister for PowerManagement1 {
    open spec fn frames(&self) -> Seq<(u8, u8)> {
        seq![(Self::ADDRESS, self.encoding())]
    }

    fn write<T: Transport>(&self, bus: &mut Bus<T>) -> (outcome: Result<(), T::Error>) {
        write_one(bus, Self::ADDRESS, self.encode())
    }
}

impl ReadRegister for PowerManagement1 {
    open spec fn registers() -> Seq<u8> {
        seq![Self::ADDRESS]
    }

    open spec fn assemble(bytes: Seq<u8>) -> Self {
        Self::decoding(bytes[0])
    }

    fn new<T: Transport>(bus: &mut Bus<T>) -> (outcome: Result<Self, T::Error>) {
        Ok(Self::decode(read_one(bus, Self::ADDRESS)?))
    }
}

impl ReadWriteRegister for PowerManagement1 {
    /// Every field holds a value that its bits can hold.
    open spec fn representable(&self) -> bool {
        self.clock_select < 8
    }

    proof fn law_round_trip_over_registers(&self, memory: Seq<u8>) {
        self.law_round_trip();
        lemma_one_register(memory, Self::ADDRESS, self.encoding());
    }
}

/// Power management 2: FIFO operation in low-power mode, and standby of single
/// axes.
#[derive(Clone, Copy, Debug, PartialEq, Eq)]
pub struct PowerManagement2 {
    /// Lets the FIFO run in low-power accelerometer mode.
    pub fifo_lp: bool,
    /// Puts the X accelerometer into standby.
    pub stby_xaccel: bool,
    /// Puts the Y accelerometer into standby.
    pub stby_yaccel: bool,
    /// Puts the Z accelerometer into standby.
    pub stby_zaccel: bool,
    /// Puts the X gyroscope into standby.
    pub stby_xgyro: bool,
    /// Puts the Y gyroscope into standby.
    pub stby_ygyro: bool,
    /// Puts the Z gyroscope into standby.
    pub stby_zgyro: bool,
}

impl PowerManagement2 {
    /// The address of the register.
    pub const ADDRESS: u8 = 0x6C;

    /// The register byte that stands for the record. Bit 7 is `fifo_lp`; bit 5
    /// is `stby_xaccel`; bit 4 is `stby_yaccel`; bit 3 is `stby_zaccel`; bit 2
    /// is `stby_xgyro`; bit 1 is `stby_ygyro`; bit 0 is `stby_zgyro`. Bit 6 is
    /// reserved and clear.
    pub open spec fn encoding(self) -> u8 {
        (placed_flag(self.fifo_lp, 7)
            + placed_flag(self.stby_xaccel, 5)
            + placed_flag(self.stby_yaccel, 4)
            + placed_flag(self.stby_zaccel, 3)
            + placed_flag(self.stby_xgyro, 2)
            + placed_flag(self.stby_ygyro, 1)
            + placed_flag(self.stby_zgyro, 0)) as u8
    }

    /// The record that a register byte stands for. Reserved bits are
    /// ignored.
    pub open spec fn decoding(byte: u8) -> Self {
        PowerManagement2 {
            fifo_lp: flag(byte, 7),
            stby_xaccel: flag(byte, 5),
            stby_yaccel: flag(byte, 4),
            stby_zaccel: flag(byte, 3),
            stby_xgyro: flag(byte, 2),
            stby_ygyro: flag(byte, 1),
            stby_zgyro: flag(byte, 0),
        }
    }

    /// Computes the register byte of the record: every field is masked to
    /// its width and moved to its place, the highest field first.
    pub fn encode(&self) -> (byte: u8)
        ensures
            byte == self.encoding(),
    {
        let byte = with_flag(0, self.fifo_lp, 7);
        let byte = with_flag(byte, self.stby_xaccel, 5);
        let byte = with_flag(byte, self.stby_yaccel, 4);
        let byte = with_flag(byte, self.stby_zaccel, 3);
        let byte = with_flag(byte, self.stby_xgyro, 2);
        let byte = with_flag(byte, self.stby_ygyro, 1);
        with_flag(byte, self.stby_zgyro, 0)
    }

    /// Takes a register byte apart into the record.
    pub fn decode(byte: u8) -> (record: Self)
        ensures
            record == Self::decoding(byte),
    {
        PowerManagement2 {
            fifo_lp: flag_at(byte, 7),
            stby_xaccel: flag_at(byte, 5),
            stby_yaccel: flag_at(byte, 4),
            stby_zaccel: flag_at(byte, 3),
            stby_xgyro: flag_at(byte, 2),
            stby_ygyro: flag_at(byte, 1),
            stby_zgyro: flag_at(byte, 0),
        }
    }

    /// Round trip: every record is what its own encoding decodes to.
    pub proof fn law_round_trip(self)
        ensures
            Self::decoding(self.encoding()) == self,
    {
    }

    /// The record is written to the register that it is read from.
    pub proof fn law_same_registers(self)
        ensures
            addresses(self.frames()) == Self::registers(),
    {
    }

    /// The reserved bits of the encoding are clear, whatever the record.
    pub proof fn law_reserved_bits_clear(self)
        ensures
            field(self.encoding(), 6, 1) == 0,
    {
        self.law_round_trip();
    }

    /// Bit isolation: two records that differ in one field only have
    /// encodings that agree in every bit outside that field.
    pub proof fn law_bit_isolation(self, other: Self)
        ensures
            other == (PowerManagement2 { fifo_lp: other.fifo_lp, ..self })
                ==> same_outside(self.encoding(), other.encoding(), 7, 1),
            other == (PowerManagement2 { stby_xaccel: other.stby_xaccel, ..self })
                ==> same_outside(self.encoding(), other.encoding(), 5, 1),
            other == (PowerManagement2 { stby_yaccel: other.stby_yaccel, ..self })
                ==> same_outside(self.encoding(), other.encoding(), 4, 1),
            other == (PowerManagement2 { stby_zaccel: other.stby_zaccel, ..self })
                ==> same_outside(self.encoding(), other.encoding(), 3, 1),
            other == (PowerManagement2 { stby_xgyro: other.stby_xgyro, ..self })
                ==> same_outside(self.encoding(), other.encoding(), 2, 1),
            other == (PowerManagement2 { stby_ygyro: other.stby_ygyro, ..self })
                ==> same_outside(self.encoding(), other.encoding(), 1, 1),
            other == (PowerManagement2 { stby_zgyro: other.stby_zgyro, ..self })
                ==> same_outside(self.encoding(), other.encoding(), 0, 1),
    {
        self.law_round_trip();
        other.law_round_trip();
        if other == (PowerManagement2 { fifo_lp: other.fifo_lp, ..self }) {
            lemma_same_outside(self.encoding(), other.encoding(), 7, 1);
        }
        if other == (PowerManagement2 { stby_xaccel: other.stby_xaccel, ..self }) {
            lemma_same_outside(self.encoding(), other.encoding(), 5, 1);
        }
        if other == (PowerManagement2 { stby_yaccel: other.stby_yaccel, ..self }) {
            lemma_same_outside(self.encoding(), other.encoding(), 4, 1);
        }
        if other == (PowerManagement2 { stby_zaccel: other.stby_zaccel, ..self }) {
            lemma_same_outside(self.encoding(), other.encoding(), 3, 1);
        }
        if other == (PowerManagement2 { stby_xgyro: other.stby_xgyro, ..self }) {
            lemma_same_outside(self.encoding(), other.encoding(), 2, 1);
        }
        if other == (PowerManagement2 { stby_ygyro: other.stby_ygyro, ..self }) {
            lemma_same_outside(self.encoding(), other.encoding(), 1, 1);
        }
        if other == (PowerManagement2 { stby_zgyro: other.stby_zgyro, ..self }) {
            lemma_same_outside(self.encoding(), other.encoding(), 0, 1);
        }
    }
}

impl WriteRegister for PowerManagement2 {
    open spec fn frames(&self) -> Seq<(u8, u8)> {
        seq![(Self::ADDRESS, self.encoding())]
    }

    fn write<T: Transport>(&self, bus: &mut Bus<T>) -> (outcome: Result<(), T::Error>) {
        write_one(bus, Self::ADDRESS, self.encode())
    }
}

impl ReadRegister for PowerManagement2 {
    open spec fn registers() -> Seq<u8> {
        seq![Self::ADDRESS]
    }

    open spec fn assemble(bytes: Seq<u8>) -> Self {
        Self::decoding(bytes[0])
    }

    fn new<T: Transport>(bus: &mut Bus<T>) -> (outcome: Result<Self, T::Error>) {
        Ok(Self::decode(read_one(bus, Self::ADDRESS)?))
    }
}

impl ReadWriteRegister for PowerManagement2 {
    /// Every record is representable.
    open spec fn representable(&self) -> bool {
        true
    }

    proof fn law_round_trip_over_registers(&self, memory: Seq<u8>) {
        self.law_round_trip();
        lemma_one_register(memory, Self::ADDRESS, self.encoding());
    }
}

/// Low-power mode configuration.
#[derive(Clone, Copy, Debug, PartialEq, Eq)]
pub struct LowPowerModeConf {
    /// Turns on low-power gyroscope mode.
    pub gyro_cycle: bool,
    /// The averaging filter of low-power gyroscope mode, a code of three bits.
    pub g_avgcfg: u8,
    /// The output data rate of the low-power accelerometer, a code of four
    /// bits; the codes 0 to 11 are in use, each about twice as fast as the one
    /// before.
    pub lposc_clksel: u8,
}

impl LowPowerModeConf {
    /// The address of the register.
    pub const ADDRESS: u8 = 0x1E;

    /// The register byte that stands for the record. Bit 7 is `gyro_cycle`;
    /// bits 6 to 4 are `g_avgcfg`; bits 3 to 0 are `lposc_clksel`.
    pub open spec fn encoding(self) -> u8 {
        (placed_flag(self.gyro_cycle, 7)
            + placed(self.g_avgcfg as int, 4, 3)
            + placed(self.lposc_clksel as int, 0, 4)) as u8
    }

    /// The record that a register byte stands for. Reserved bits are
    /// ignored.
    pub open spec fn decoding(byte: u8) -> Self {
        LowPowerModeConf {
            gyro_cycle: flag(byte, 7),
            g_avgcfg: field(byte, 4, 3) as u8,
            lposc_clksel: field(byte, 0, 4) as u8,
        }
    }

    /// Computes the register byte of the record: every field is masked to
    /// its width and moved to its place, the highest field first.
    pub fn encode(&self) -> (byte: u8)
        ensures
            byte == self.encoding(),
    {
        let byte = with_flag(0, self.gyro_cycle, 7);
        let byte = with_field(byte, self.g_avgcfg, 4, 3);
        with_field(byte, self.lposc_clksel, 0, 4)
    }

    /// Takes a register byte apart into the record.
    pub fn decode(byte: u8) -> (record: Self)
        ensures
            record == Self::decoding(byte),
    {
        LowPowerModeConf {
            gyro_cycle: flag_at(byte, 7),
            g_avgcfg: field_at(byte, 4, 3),
            lposc_clksel: field_at(byte, 0, 4),
        }
    }

    /// What the encoding of any record decodes to: the record itself, but
    /// for a value too wide for its field, of which the low bits remain.
    pub proof fn lemma_decoding_of_encoding(self)
        ensures
            Self::decoding(self.encoding()) == (LowPowerModeConf {
                g_avgcfg: (self.g_avgcfg % 8) as u8,
                lposc_clksel: (self.lposc_clksel % 16) as u8,
                ..self
            }),
    {
    }

    /// Round trip: a representable record is what its own encoding decodes
    /// to.
    pub proof fn law_round_trip(self)
        requires
            self.representable(),
        ensures
            Self::decoding(self.encoding()) == self,
    {
        self.lemma_decoding_of_encoding();
    }

    /// The record is written to the register that it is read from.
    pub proof fn law_same_registers(self)
        ensures
            addresses(self.frames()) == Self::registers(),
    {
    }

    /// Bit isolation: two records that differ in one field only have
    /// encodings that agree in every bit outside that field.
    pub proof fn law_bit_isolation(self, other: Self)
        ensures
            other == (LowPowerModeConf { gyro_cycle: other.gyro_cycle, ..self })
                ==> same_outside(self.encoding(), other.encoding(), 7, 1),
            other == (LowPowerModeConf { g_avgcfg: other.g_avgcfg, ..self })
                ==> same_outside(self.encoding(), other.encoding(), 4, 3),
            other == (LowPowerModeConf { lposc_clksel: other.lposc_clksel, ..self })
                ==> same_outside(self.encoding(), other.encoding(), 0, 4),
    {
        self.lemma_decoding_of_encoding();
        other.lemma_decoding_of_encoding();
        if other == (LowPowerModeConf { gyro_cycle: other.gyro_cycle, ..self }) {
            lemma_same_outside(self.encoding(), other.encoding(), 7, 1);
        }
        if other == (LowPowerModeConf { g_avgcfg: other.g_avgcfg, ..self }) {
            lemma_same_outside(self.encoding(), other.encoding(), 4, 3);
        }
        if other == (LowPowerModeConf { lposc_clksel: other.lposc_clksel, ..self }) {
            lemma_same_outside(self.encoding(), other.encoding(), 0, 4);
        }
    }
}

impl WriteRegister for LowPowerModeConf {
    open spec fn frames(&self) -> Seq<(u8, u8)> {
        seq![(Self::ADDRESS, self.encoding())]
    }

    fn write<T: Transport>(&self, bus: &mut Bus<T>) -> (outcome: Result<(), T::Error>) {
        write_one(bus, Self::ADDRESS, self.encode())
    }
}

impl ReadRegister for LowPowerModeConf {
    open spec fn registers() -> Seq<u8> {
        seq![Self::ADDRESS]
    }

    open spec fn assemble(bytes: Seq<u8>) -> Self {
        Self::decoding(bytes[0])
    }

    fn new<T: Transport>(bus: &mut Bus<T>) -> (outcome: Result<Self, T::Error>) {
        Ok(Self::decode(read_one(bus, Self::ADDRESS)?))
    }
}

impl ReadWriteRegister for LowPowerModeConf {
    /// Every field holds a value that its bits can hold.
    open spec fn representable(&self) -> bool {
        &&& self.g_avgcfg < 8
        &&& self.lposc_clksel < 16
    }

    proof fn law_round_trip_over_registers(&self, memory: Seq<u8>) {
        self.law_round_trip();
        lemma_one_register(memory, Self::ADDRESS, self.encoding());
    }
}

} // verus!

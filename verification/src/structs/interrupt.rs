//! Interrupt configuration and status.

use crate::bits::{
    field, flag, flag_at, lemma_same_outside, placed, placed_flag, same_outside, with_field,
    with_flag,
};
use crate::memory::{addresses, lemma_one_register};
use crate::structs::{read_one, write_one, ReadRegister, ReadWriteRegister, WriteRegister};
use crate::transport::{Bus, Transport};
use vstd::prelude::*;

verus! {

/// The FSYNC interrupt status. The device clears it when it is read.
#[derive(Clone, Copy, Debug, PartialEq, Eq)]
pub struct FsyncInterrupt {
    /// Set when an FSYNC interrupt has been raised.
    pub fsync_int: bool,
}

impl FsyncInterrupt {
    /// The address of the register.
    pub const ADDRESS: u8 = 0x36;

    /// The record that a register byte stands for. Bit 7 is `fsync_int`. Bits 6
    /// to 0 are reserved and ignored.
    pub open spec fn decoding(byte: u8) -> Self {
        FsyncInterrupt {
            fsync_int: flag(byte, 7),
        }
    }

    /// Takes a register byte apart into the record.
    pub fn decode(byte: u8) -> (record: Self)
        ensures
            record == Self::decoding(byte),
    {
        FsyncInterrupt {
            fsync_int: flag_at(byte, 7),
        }
    }
}

impl ReadRegister for FsyncInterrupt {
    open spec fn registers() -> Seq<u8> {
        seq![Self::ADDRESS]
    }

    open spec fn assemble(bytes: Seq<u8>) -> Self {
        Self::decoding(bytes[0])
    }

    fn new<T: Transport>(bus: &mut Bus<T>) -> (outcome: Result<Self, T::Error>) {
        Ok(Self::decode(read_one(bus, Self::ADDRESS)?))
    }
}

/// Configuration of the interrupt pin and of the FSYNC pin as an interrupt.
#[derive(Clone, Copy, Debug, PartialEq, Eq)]
pub struct InterruptPinConfig {
    /// The interrupt pin is active low when set, active high when clear.
    pub int_level: bool,
    /// The interrupt pin is open drain when set, push-pull when clear.
    pub int_open: bool,
    /// When set the pin is held until the status is cleared; when clear it
    /// gives a short pulse.
    pub latch_int_en: bool,
    /// When set any read clears the interrupt status; when clear only a read of
    /// the status register does.
    pub int_rd_clear: bool,
    /// The FSYNC pin as an interrupt is active low when set, active high when
    /// clear.
    pub fsync_int_level: bool,
    /// Lets the FSYNC pin raise an interrupt.
    pub fsync_int_mode_en: bool,
}

impl InterruptPinConfig {
    /// The address of the register.
    pub const ADDRESS: u8 = 0x37;

    /// The register byte that stands for the record. Bit 7 is `int_level`; bit
    /// 6 is `int_open`; bit 5 is `latch_int_en`; bit 4 is `int_rd_clear`; bit 3
    /// is `fsync_int_level`; bit 2 is `fsync_int_mode_en`. Bits 1 and 0 are
    /// reserved and clear.
    pub open spec fn encoding(self) -> u8 {
        (placed_flag(self.int_level, 7)
            + placed_flag(self.int_open, 6)
            + placed_flag(self.latch_int_en, 5)
            + placed_flag(self.int_rd_clear, 4)
            + placed_flag(self.fsync_int_level, 3)
            + placed_flag(self.fsync_int_mode_en, 2)) as u8
    }

    /// The record that a register byte stands for. Reserved bits are
    /// ignored.
    pub open spec fn decoding(byte: u8) -> Self {
        InterruptPinConfig {
            int_level: flag(byte, 7),
            int_open: flag(byte, 6),
            latch_int_en: flag(byte, 5),
            int_rd_clear: flag(byte, 4),
            fsync_int_level: flag(byte, 3),
            fsync_int_mode_en: flag(byte, 2),
        }
    }

    /// Computes the register byte of the record: every field is masked to
    /// its width and moved to its place, the highest field first.
    pub fn encode(&self) -> (byte: u8)
        ensures
            byte == self.encoding(),
    {
        let byte = with_flag(0, self.int_level, 7);
        let byte = with_flag(byte, self.int_open, 6);
        let byte = with_flag(byte, self.latch_int_en, 5);
        let byte = with_flag(byte, self.int_rd_clear, 4);
        let byte = with_flag(byte, self.fsync_int_level, 3);
        with_flag(byte, self.fsync_int_mode_en, 2)
    }

    /// Takes a register byte apart into the record.
    pub fn decode(byte: u8) -> (record: Self)
        ensures
            record == Self::decoding(byte),
    {
        InterruptPinConfig {
            int_level: flag_at(byte, 7),
            int_open: flag_at(byte, 6),
            latch_int_en: flag_at(byte, 5),
            int_rd_clear: flag_at(byte, 4),
            fsync_int_level: flag_at(byte, 3),
            fsync_int_mode_en: flag_at(byte, 2),
        }
    }

    /// Round trip: every record is what its own encoding decodes to.
    pub proof fn law_round_trip(self)
        ensures
            Self::decoding(self.encoding()) == self,
    {
    }

    /// The record is written to the register that it is read from.
    pub proof fn law_same_registers(self)
        ensures
            addresses(self.frames()) == Self::registers(),
    {
    }

    /// The reserved bits of the encoding are clear, whatever the record.
    pub proof fn law_reserved_bits_clear(self)
        ensures
            field(self.encoding(), 0, 2) == 0,
    {
        self.law_round_trip();
    }

    /// Bit isolation: two records that differ in one field only have
    /// encodings that agree in every bit outside that field.
    pub proof fn law_bit_isolation(self, other: Self)
        ensures
            other == (InterruptPinConfig { int_level: other.int_level, ..self })
                ==> same_outside(self.encoding(), other.encoding(), 7, 1),
            other == (InterruptPinConfig { int_open: other.int_open, ..self })
                ==> same_outside(self.encoding(), other.encoding(), 6, 1),
            other == (InterruptPinConfig { latch_int_en: other.latch_int_en, ..self })
                ==> same_outside(self.encoding(), other.encoding(), 5, 1),
            other == (InterruptPinConfig { int_rd_clear: other.int_rd_clear, ..self })
                ==> same_outside(self.encoding(), other.encoding(), 4, 1),
            other == (InterruptPinConfig { fsync_int_level: other.fsync_int_level, ..self })
                ==> same_outside(self.encoding(), other.encoding(), 3, 1),
            other == (InterruptPinConfig { fsync_int_mode_en: other.fsync_int_mode_en, ..self })
                ==> same_outside(self.encoding(), other.encoding(), 2, 1),
    {
        self.law_round_trip();
        other.law_round_trip();
        if other == (InterruptPinConfig { int_level: other.int_level, ..self }) {
            lemma_same_outside(self.encoding(), other.encoding(), 7, 1);
        }
        if other == (InterruptPinConfig { int_open: other.int_open, ..self }) {
            lemma_same_outside(self.encoding(), other.encoding(), 6, 1);
        }
        if other == (InterruptPinConfig { latch_int_en: other.latch_int_en, ..self }) {
            lemma_same_outside(self.encoding(), other.encoding(), 5, 1);
        }
        if other == (InterruptPinConfig { int_rd_clear: other.int_rd_clear, ..self }) {
            lemma_same_outside(self.encoding(), other.encoding(), 4, 1);
        }
        if other == (InterruptPinConfig { fsync_int_level: other.fsync_int_level, ..self }) {
            lemma_same_outside(self.encoding(), other.encoding(), 3, 1);
        }
        if other == (InterruptPinConfig { fsync_int_mode_en: other.fsync_int_mode_en, ..self }) {
            lemma_same_outside(self.encoding(), other.encoding(), 2, 1);
        }
    }
}

impl WriteRegister for InterruptPinConfig {
    open spec fn frames(&self) -> Seq<(u8, u8)> {
        seq![(Self::ADDRESS, self.encoding())]
    }

    fn write<T: Transport>(&self, bus: &mut Bus<T>) -> (outcome: Result<(), T::Error>) {
        write_one(bus, Self::ADDRESS, self.encode())
    }
}

impl ReadRegister for InterruptPinConfig {
    open spec fn registers() -> Seq<u8> {
        seq![Self::ADDRESS]
    }

    open spec fn assemble(bytes: Seq<u8>) -> Self {
        Self::decoding(bytes[0])
    }

    fn new<T: Transport>(bus: &mut Bus<T>) -> (outcome: Result<Self, T::Error>) {
        Ok(Self::decode(read_one(bus, Self::ADDRESS)?))
    }
}

impl ReadWriteRegister for InterruptPinConfig {
    /// Every record is representable.
    open spec fn representable(&self) -> bool {
        true
    }

    proof fn law_round_trip_over_registers(&self, memory: Seq<u8>) {
        self.law_round_trip();
        lemma_one_register(memory, Self::ADDRESS, self.encoding());
    }
}

/// Which events raise an interrupt.
#[derive(Clone, Copy, Debug, PartialEq, Eq)]
pub struct InterruptEnable {
    /// The wake-on-motion interrupt of the accelerometer. The device keeps it
    /// in three bits, which are written all set or all clear; the top one is
    /// read back.
    pub wom_int_en: bool,
    /// Lets a FIFO overflow raise an interrupt.
    pub fifo_oflow_en: bool,
    /// Lets the gyroscope drive, once ready, raise an interrupt.
    pub gdrive_int_en: bool,
    /// Lets new data raise an interrupt.
    pub data_rdy_int_en: bool,
}

impl InterruptEnable {
    /// The address of the register.
    pub const ADDRESS: u8 = 0x38;

    /// The register byte that stands for the record. Bits 7 to 5 are
    /// `wom_int_en`, all set or all clear; bit 4 is `fifo_oflow_en`; bit 2 is
    /// `gdrive_int_en`; bit 0 is `data_rdy_int_en`. Bits 3 and 1 are reserved
    /// and clear.
    pub open spec fn encoding(self) -> u8 {
        (placed(if self.wom_int_en { 7int } else { 0 }, 5, 3)
            + placed_flag(self.fifo_oflow_en, 4)
            + placed_flag(self.gdrive_int_en, 2)
            + placed_flag(self.data_rdy_int_en, 0)) as u8
    }

    /// The record that a register byte stands for. Reserved bits are
    /// ignored.
    pub open spec fn decoding(byte: u8) -> Self {
        InterruptEnable {
            wom_int_en: flag(byte, 7),
            fifo_oflow_en: flag(byte, 4),
            gdrive_int_en: flag(byte, 2),
            data_rdy_int_en: flag(byte, 0),
        }
    }

    /// Computes the register byte of the record: every field is masked to
    /// its width and moved to its place, the highest field first.
    pub fn encode(&self) -> (byte: u8)
        ensures
            byte == self.encoding(),
    {
        let byte = with_field(0, if self.wom_int_en { 0b111 } else { 0 }, 5, 3);
        let byte = with_flag(byte, self.fifo_oflow_en, 4);
        let byte = with_flag(byte, self.gdrive_int_en, 2);
        with_flag(byte, self.data_rdy_int_en, 0)
    }

    /// Takes a register byte apart into the record.
    pub fn decode(byte: u8) -> (record: Self)
        ensures
            record == Self::decoding(byte),
    {
        InterruptEnable {
            wom_int_en: flag_at(byte, 7),
            fifo_oflow_en: flag_at(byte, 4),
            gdrive_int_en: flag_at(byte, 2),
            data_rdy_int_en: flag_at(byte, 0),
        }
    }

    /// Round trip: every record is what its own encoding decodes to.
    pub proof fn law_round_trip(self)
        ensures
            Self::decoding(self.encoding()) == self,
    {
    }

    /// The record is written to the register that it is read from.
    pub proof fn law_same_registers(self)
        ensures
            addresses(self.frames()) == Self::registers(),
    {
    }

    /// The reserved bits of the encoding are clear, whatever the record.
    pub proof fn law_reserved_bits_clear(self)
        ensures
            field(self.encoding(), 3, 1) == 0,
            field(self.encoding(), 1, 1) == 0,
    {
        self.law_round_trip();
    }

    /// Bit isolation: two records that differ in one field only have
    /// encodings that agree in every bit outside that field.
    pub proof fn law_bit_isolation(self, other: Self)
        ensures
            other == (InterruptEnable { wom_int_en: other.wom_int_en, ..self })
                ==> same_outside(self.encoding(), other.encoding(), 5, 3),
            other == (InterruptEnable { fifo_oflow_en: other.fifo_oflow_en, ..self })
                ==> same_outside(self.encoding(), other.encoding(), 4, 1),
            other == (InterruptEnable { gdrive_int_en: other.gdrive_int_en, ..self })
                ==> same_outside(self.encoding(), other.encoding(), 2, 1),
            other == (InterruptEnable { data_rdy_int_en: other.data_rdy_int_en, ..self })
                ==> same_outside(self.encoding(), other.encoding(), 0, 1),
    {
        self.law_round_trip();
        other.law_round_trip();
        if other == (InterruptEnable { wom_int_en: other.wom_int_en, ..self }) {
            lemma_same_outside(self.encoding(), other.encoding(), 5, 3);
        }
        if other == (InterruptEnable { fifo_oflow_en: other.fifo_oflow_en, ..self }) {
            lemma_same_outside(self.encoding(), other.encoding(), 4, 1);
        }
        if other == (InterruptEnable { gdrive_int_en: other.gdrive_int_en, ..self }) {
            lemma_same_outside(self.encoding(), other.encoding(), 2, 1);
        }
        if other == (InterruptEnable { data_rdy_int_en: other.data_rdy_int_en, ..self }) {
            lemma_same_outside(self.encoding(), other.encoding(), 0, 1);
        }
    }
}

impl WriteRegister for InterruptEnable {
    open spec fn frames(&self) -> Seq<(u8, u8)> {
        seq![(Self::ADDRESS, self.encoding())]
    }

    fn write<T: Transport>(&self, bus: &mut Bus<T>) -> (outcome: Result<(), T::Error>) {
        write_one(bus, Self::ADDRESS, self.encode())
    }
}

impl ReadRegister for InterruptEnable {
    open spec fn registers() -> Seq<u8> {
        seq![Self::ADDRESS]
    }

    open spec fn assemble(bytes: Seq<u8>) -> Self {
        Self::decoding(bytes[0])
    }

    fn new<T: Transport>(bus: &mut Bus<T>) -> (outcome: Result<Self, T::Error>) {
        Ok(Self::decode(read_one(bus, Self::ADDRESS)?))
    }
}

impl ReadWriteRegister for InterruptEnable {
    /// Every record is representable.
    open spec fn representable(&self) -> bool {
        true
    }

    proof fn law_round_trip_over_registers(&self, memory: Seq<u8>) {
        self.law_round_trip();
        lemma_one_register(memory, Self::ADDRESS, self.encoding());
    }
}

/// Which events have raised an interrupt. The device clears the status when it
/// is read.
#[derive(Clone, Copy, Debug, PartialEq, Eq)]
pub struct InterruptStatus {
    /// A wake-on-motion interrupt has been raised.
    pub wom_int: bool,
    /// The FIFO has overflowed.
    pub fifo_oflow_int: bool,
    /// The gyroscope drive is ready.
    pub gdrive_int: bool,
    /// New data is ready.
    pub data_rdy_int: bool,
}

impl InterruptStatus {
    /// The address of the register.
    pub const ADDRESS: u8 = 0x3A;

    /// The record that a register byte stands for. Bit 7 is `wom_int`; bit 4 is
    /// `fifo_oflow_int`; bit 2 is `gdrive_int`; bit 0 is `data_rdy_int`. Bits
    /// 6, 5, 3 and 1 are reserved and ignored.
    pub open spec fn decoding(byte: u8) -> Self {
        InterruptStatus {
            wom_int: flag(byte, 7),
            fifo_oflow_int: flag(byte, 4),
            gdrive_int: flag(byte, 2),
            data_rdy_int: flag(byte, 0),
        }
    }

    /// Takes a register byte apart into the record.
    pub fn decode(byte: u8) -> (record: Self)
        ensures
            record == Self::decoding(byte),
    {
        InterruptStatus {
            wom_int: flag_at(byte, 7),
            fifo_oflow_int: flag_at(byte, 4),
            gdrive_int: flag_at(byte, 2),
            data_rdy_int: flag_at(byte, 0),
        }
    }
}

impl ReadRegister for InterruptStatus {
    open spec fn registers() -> Seq<u8> {
        seq![Self::ADDRESS]
    }

    open spec fn assemble(bytes: Seq<u8>) -> Self {
        Self::decoding(bytes[0])
    }

    fn new<T: Transport>(bus: &mut Bus<T>) -> (outcome: Result<Self, T::Error>) {
        Ok(Self::decode(read_one(bus, Self::ADDRESS)?))
    }
}

} // verus!

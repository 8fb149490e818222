//! The FIFO: what goes into it, how full it is, and its data register.

use crate::bits::{field, flag, flag_at, lemma_same_outside, placed_flag, same_outside, with_flag};
use crate::memory::{addresses, lemma_one_register};
use crate::structs::{read_one, write_one, ReadRegister, ReadWriteRegister, WriteRegister};
use crate::transport::{Bus, Transport};
use crate::word::{join_count, word};
use vstd::prelude::*;

verus! {

/// Which measurements go to the FIFO at the sample rate.
#[derive(Clone, Copy, Debug, PartialEq, Eq)]
pub struct FifoEnable {
    /// The temperature goes to the FIFO.
    pub temp_fifo_en: bool,
    /// The X gyroscope goes to the FIFO.
    pub xg_fifo_en: bool,
    /// The Y gyroscope goes to the FIFO.
    pub yg_fifo_en: bool,
    /// The Z gyroscope goes to the FIFO.
    pub zg_fifo_en: bool,
    /// All three axes of the accelerometer go to the FIFO.
    pub accel_fifo_en: bool,
}

impl FifoEnable {
    /// The address of the register.
    pub const ADDRESS: u8 = 0x23;

    /// The register byte that stands for the record. Bit 7 is `temp_fifo_en`;
    /// bit 6 is `xg_fifo_en`; bit 5 is `yg_fifo_en`; bit 4 is `zg_fifo_en`; bit
    /// 3 is `accel_fifo_en`. Bits 2 to 0 are reserved and clear.
    pub open spec fn encoding(self) -> u8 {
        (placed_flag(self.temp_fifo_en, 7)
            + placed_flag(self.xg_fifo_en, 6)
            + placed_flag(self.yg_fifo_en, 5)
            + placed_flag(self.zg_fifo_en, 4)
            + placed_flag(self.accel_fifo_en, 3)) as u8
    }

    /// The record that a register byte stands for. Reserved bits are
    /// ignored.
    pub open spec fn decoding(byte: u8) -> Self {
        FifoEnable {
            temp_fifo_en: flag(byte, 7),
            xg_fifo_en: flag(byte, 6),
            yg_fifo_en: flag(byte, 5),
            zg_fifo_en: flag(byte, 4),
            accel_fifo_en: flag(byte, 3),
        }
    }

    /// Computes the register byte of the record: every field is masked to
    /// its width and moved to its place, the highest field first.
    pub fn encode(&self) -> (byte: u8)
        ensures
            byte == self.encoding(),
    {
        let byte = with_flag(0, self.temp_fifo_en, 7);
        let byte = with_flag(byte, self.xg_fifo_en, 6);
        let byte = with_flag(byte, self.yg_fifo_en, 5);
        let byte = with_flag(byte, self.zg_fifo_en, 4);
        with_flag(byte, self.accel_fifo_en, 3)
    }

    /// Takes a register byte apart into the record.
    pub fn decode(byte: u8) -> (record: Self)
        ensures
            record == Self::decoding(byte),
    {
        FifoEnable {
            temp_fifo_en: flag_at(byte, 7),
            xg_fifo_en: flag_at(byte, 6),
            yg_fifo_en: flag_at(byte, 5),
            zg_fifo_en: flag_at(byte, 4),
            accel_fifo_en: flag_at(byte, 3),
        }
    }

    /// Round trip: every record is what its own encoding decodes to.
    pub proof fn law_round_trip(self)
        ensures
            Self::decoding(self.encoding()) == self,
    {
    }

    /// The record is written to the register that it is read from.
    pub proof fn law_same_registers(self)
        ensures
            addresses(self.frames()) == Self::registers(),
    {
    }

    /// The reserved bits of the encoding are clear, whatever the record.
    pub proof fn law_reserved_bits_clear(self)
        ensures
            field(self.encoding(), 0, 3) == 0,
    {
        self.law_round_trip();
    }

    /// Bit isolation: two records that differ in one field only have
    /// encodings that agree in every bit outside that field.
    pub proof fn law_bit_isolation(self, other: Self)
        ensures
            other == (FifoEnable { temp_fifo_en: other.temp_fifo_en, ..self })
                ==> same_outside(self.encoding(), other.encoding(), 7, 1),
            other == (FifoEnable { xg_fifo_en: other.xg_fifo_en, ..self })
                ==> same_outside(self.encoding(), other.encoding(), 6, 1),
            other == (FifoEnable { yg_fifo_en: other.yg_fifo_en, ..self })
                ==> same_outside(self.encoding(), other.encoding(), 5, 1),
            other == (FifoEnable { zg_fifo_en: other.zg_fifo_en, ..self })
                ==> same_outside(self.encoding(), other.encoding(), 4, 1),
            other == (FifoEnable { accel_fifo_en: other.accel_fifo_en, ..self })
                ==> same_outside(self.encoding(), other.encoding(), 3, 1),
    {
        self.law_round_trip();
        other.law_round_trip();
        if other == (FifoEnable { temp_fifo_en: other.temp_fifo_en, ..self }) {
            lemma_same_outside(self.encoding(), other.encoding(), 7, 1);
        }
        if other == (FifoEnable { xg_fifo_en: other.xg_fifo_en, ..self }) {
            lemma_same_outside(self.encoding(), other.encoding(), 6, 1);
        }
        if other == (FifoEnable { yg_fifo_en: other.yg_fifo_en, ..self }) {
            lemma_same_outside(self.encoding(), other.encoding(), 5, 1);
        }
        if other == (FifoEnable { zg_fifo_en: other.zg_fifo_en, ..self }) {
            lemma_same_outside(self.encoding(), other.encoding(), 4, 1);
        }
        if other == (FifoEnable { accel_fifo_en: other.accel_fifo_en, ..self }) {
            lemma_same_outside(self.encoding(), other.encoding(), 3, 1);
        }
    }
}

impl WriteRegister for FifoEnable {
    open spec fn frames(&self) -> Seq<(u8, u8)> {
        seq![(Self::ADDRESS, self.encoding())]
    }

    fn write<T: Transport>(&self, bus: &mut Bus<T>) -> (outcome: Result<(), T::Error>) {
        write_one(bus, Self::ADDRESS, self.encode())
    }
}

impl ReadRegister for FifoEnable {
    open spec fn registers() -> Seq<u8> {
        seq![Self::ADDRESS]
    }

    open spec fn assemble(bytes: Seq<u8>) -> Self {
        Self::decoding(bytes[0])
    }

    fn new<T: Transport>(bus: &mut Bus<T>) -> (outcome: Result<Self, T::Error>) {
        Ok(Self::decode(read_one(bus, Self::ADDRESS)?))
    }
}

impl ReadWriteRegister for FifoEnable {
    /// Every record is representable.
    open spec fn representable(&self) -> bool {
        true
    }

    proof fn law_round_trip_over_registers(&self, memory: Seq<u8>) {
        self.law_round_trip();
        lemma_one_register(memory, Self::ADDRESS, self.encoding());
    }
}

/// The fill level of the FIFO.
#[derive(Clone, Copy, Debug, PartialEq, Eq)]
pub struct FifoCountRegisters {
    /// The number of bytes that the FIFO holds.
    pub fifo_count: u16,
}

impl FifoCountRegisters {
    /// The address of the high byte.
    pub const ADDRESS_H: u8 = 0x72;

    /// The address of the low byte.
    pub const ADDRESS_L: u8 = 0x73;

    /// The record that two register bytes stand for: an unsigned count of
    /// sixteen bits, high byte first.
    pub open spec fn decoding(bytes: Seq<u8>) -> Self {
        FifoCountRegisters { fifo_count: word(bytes[0], bytes[1]) as u16 }
    }

    /// Joins two register bytes into the record.
    pub fn decode(bytes: [u8; 2]) -> (record: Self)
        ensures
            record == Self::decoding(bytes@),
    {
        FifoCountRegisters { fifo_count: join_count(bytes[0], bytes[1]) }
    }

    /// The registers are read in ascending order of their addresses.
    pub proof fn law_registers_ascend()
        ensures
            forall|i: int, j: int|
                0 <= i < j < Self::registers().len() ==> Self::registers()[i]
                    < Self::registers()[j],
    {
    }
}

impl ReadRegister for FifoCountRegisters {
    open spec fn registers() -> Seq<u8> {
        seq![Self::ADDRESS_H, Self::ADDRESS_L]
    }

    open spec fn assemble(bytes: Seq<u8>) -> Self {
        Self::decoding(bytes)
    }

    fn new<T: Transport>(bus: &mut Bus<T>) -> (outcome: Result<Self, T::Error>) {
        let registers = [Self::ADDRESS_H, Self::ADDRESS_L];
        assert(registers@ == Self::registers());
        let bytes = bus.read_registers(&registers)?;
        Ok(Self::decode([bytes[0], bytes[1]]))
    }
}

/// The FIFO data register: reading takes a byte out of the FIFO, writing
/// puts one in.
#[derive(Clone, Copy, Debug, PartialEq, Eq)]
pub struct FifoReadWrite {
    /// A byte of the FIFO. `None` stands for a read that found no data: the
    /// device then answers with all bits set.
    pub fifo_data: Option<u8>,
}

impl FifoReadWrite {
    /// The address of the register.
    pub const ADDRESS: u8 = 0x74;

    /// The byte that the device gives when the FIFO holds no data.
    pub const NO_DATA: u8 = 0xFF;

    /// The register byte that stands for the record: the byte itself, and
    /// zero where there is none. A record without a byte and a record with
    /// the byte zero are written alike.
    pub open spec fn encoding(self) -> u8 {
        match self.fifo_data {
            Some(byte) => byte,
            None => 0,
        }
    }

    /// The record that a register byte stands for: no data for the byte with
    /// all bits set, and the byte itself for any other.
    pub open spec fn decoding(byte: u8) -> Self {
        FifoReadWrite {
            fifo_data: if byte == Self::NO_DATA {
                None
            } else {
                Some(byte)
            },
        }
    }

    /// Computes the register byte of the record.
    pub fn encode(&self) -> (byte: u8)
        ensures
            byte == self.encoding(),
    {
        match self.fifo_data {
            Some(byte) => byte,
            None => 0,
        }
    }

    /// Makes the record that a register byte stands for.
    pub fn decode(byte: u8) -> (record: Self)
        ensures
            record == Self::decoding(byte),
    {
        FifoReadWrite {
            fifo_data: if byte == Self::NO_DATA {
                None
            } else {
                Some(byte)
            },
        }
    }

    /// Round trip: a record that holds a byte other than the one for no data
    /// is what its own encoding decodes to.
    pub proof fn law_round_trip(self)
        requires
            self.representable(),
        ensures
            Self::decoding(self.encoding()) == self,
    {
    }

    /// The record is written to the register that it is read from.
    pub proof fn law_same_registers(self)
        ensures
            addresses(self.frames()) == Self::registers(),
    {
    }
}

impl WriteRegister for FifoReadWrite {
    open spec fn frames(&self) -> Seq<(u8, u8)> {
        seq![(Self::ADDRESS, self.encoding())]
    }

    fn write<T: Transport>(&self, bus: &mut Bus<T>) -> (outcome: Result<(), T::Error>) {
        write_one(bus, Self::ADDRESS, self.encode())
    }
}

impl ReadRegister for FifoReadWrite {
    open spec fn registers() -> Seq<u8> {
        seq![Self::ADDRESS]
    }

    open spec fn assemble(bytes: Seq<u8>) -> Self {
        Self::decoding(bytes[0])
    }

    fn new<T: Transport>(bus: &mut Bus<T>) -> (outcome: Result<Self, T::Error>) {
        Ok(Self::decode(read_one(bus, Self::ADDRESS)?))
    }
}

impl ReadWriteRegister for FifoReadWrite {
    /// The record reads back as it was written: it holds a byte, and the byte
    /// is not the one that stands for no data.
    open spec fn representable(&self) -> bool {
        self.fifo_data matches Some(byte) && byte != Self::NO_DATA
    }

    proof fn law_round_trip_over_registers(&self, memory: Seq<u8>) {
        self.law_round_trip();
        lemma_one_register(memory, Self::ADDRESS, self.encoding());
    }
}

} // verus!

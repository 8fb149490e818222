//! The register records of the sensor, and how each is read and written.
//!
//! A record is a plain value with one field for each bit-field of its
//! registers. Every record kind says, as specification functions, which bytes
//! stand for a record and which record a sequence of bytes stands for; its
//! executable `encode` and `decode` compute exactly these. [`ReadRegister`]
//! and [`WriteRegister`] carry a record over a [`Bus`]. A kind that does both
//! is a [`ReadWriteRegister`], and [`law_written_then_read`] says of all of
//! them that what was written is what is read back.

use crate::memory::{
    faithful, fetched, law_read_after_write, lemma_replayed_len, replayed, stored, REGISTERS,
};
use crate::transport::{issued, read_run, received, write_run, Bus, Exchange, Transport};
use vstd::prelude::*;

pub mod config;
pub mod control;
pub mod fifo;
pub mod interrupt;
pub mod measurement;
pub mod offset;
pub mod power;

pub use config::{AccelConfig1, AccelConfig2, Config, GyroConfig, SampleRateDivider, WakeOnMotion};
pub use control::{IntelligenceControl, SignalPathReset, UserControl, WhoAmI};
pub use fifo::{FifoCountRegisters, FifoEnable, FifoReadWrite};
pub use interrupt::{FsyncInterrupt, InterruptEnable, InterruptPinConfig, InterruptStatus};
pub use measurement::{AccelMeasurements, GyroscopeMeasurements, TemperatureMeasurements};
pub use offset::{AccelOffset, GyroOffset};
pub use power::{LowPowerModeConf, PowerManagement1, PowerManagement2};

verus! {

/// A value with one component for each axis of the sensor.
#[derive(Debug, PartialEq, Eq)]
pub struct Vec3<T> {
    pub x: T,
    pub y: T,
    pub z: T,
}

/// A record that can be written to the device.
pub trait WriteRegister {
    /// The register writes that persist this record, each a register address
    /// and the byte for it, in the order in which they are issued.
    spec fn frames(&self) -> Seq<(u8, u8)>;

    /// Writes the record to the device: one transaction for each frame, in
    /// order, every bit of every byte taken from the record itself. Nothing
    /// is read first. The first failure ends the operation and is returned
    /// as the transport gave it.
    fn write<T: Transport>(&self, bus: &mut Bus<T>) -> (outcome: Result<(), T::Error>)
        ensures
            write_run(self.frames(), outcome, old(bus).history(), final(bus).history()),
    ;
}

/// A record that can be read from the device.
pub trait ReadRegister: Sized {
    /// The registers that hold the record, in the order in which they are
    /// read.
    spec fn registers() -> Seq<u8>;

    /// The record that the bytes of its registers stand for, the bytes in the
    /// order of [`Self::registers`].
    spec fn assemble(bytes: Seq<u8>) -> Self;

    /// Reads the record from the device: one transaction for each register,
    /// in order. The first failure ends the operation and is returned as the
    /// transport gave it; no record is built from the bytes read so far.
    fn new<T: Transport>(bus: &mut Bus<T>) -> (outcome: Result<Self, T::Error>)
        ensures
            read_run(
                Self::registers(),
                match outcome {
                    Ok(_) => Ok(received(issued(old(bus).history(), final(bus).history()))),
                    Err(error) => Err(error),
                },
                old(bus).history(),
                final(bus).history(),
            ),
            outcome matches Ok(record) ==> record == Self::assemble(
                received(issued(old(bus).history(), final(bus).history())),
            ),
    ;
}

/// A record that can be written and read back.
pub trait ReadWriteRegister: ReadRegister + WriteRegister {
    /// Whether the record is one that reads back as it was written: every
    /// field holds a value that its bits can hold.
    spec fn representable(&self) -> bool;

    /// Round trip over a register file: once a representable record has been
    /// written, reading its registers gives the same record.
    proof fn law_round_trip_over_registers(&self, memory: Seq<u8>)
        requires
            self.representable(),
            memory.len() == REGISTERS,
        ensures
            Self::assemble(fetched(stored(memory, self.frames()), Self::registers())) == *self,
    ;
}

/// Written, then read back. Take a history that a register file can have
/// given, in which a representable record was written with success and read
/// next with success: what [`WriteRegister::write`] and [`ReadRegister::new`]
/// ensure when both return `Ok`. Then the record read is the record written.
pub proof fn law_written_then_read<R: ReadWriteRegister, E>(
    record: R,
    memory: Seq<u8>,
    before: Seq<Exchange<E>>,
    between: Seq<Exchange<E>>,
    after: Seq<Exchange<E>>,
)
    requires
        record.representable(),
        memory.len() == REGISTERS,
        write_run(record.frames(), Ok(()), before, between),
        read_run(R::registers(), Ok(received(issued(between, after))), between, after),
        faithful(memory, after),
    ensures
        R::assemble(received(issued(between, after))) == record,
{
    let bytes = received(issued(between, after));
    lemma_replayed_len(memory, before);
    law_read_after_write(memory, record.frames(), R::registers(), bytes, before, between, after);
    record.law_round_trip_over_registers(replayed(memory, before));
}

/// Writes the one register of a record that has one.
pub(crate) fn write_one<T: Transport>(bus: &mut Bus<T>, register: u8, value: u8) -> (outcome:
    Result<(), T::Error>)
    ensures
        write_run(seq![(register, value)], outcome, old(bus).history(), final(bus).history()),
{
    let frames = [(register, value)];
    assert(frames@ == seq![(register, value)]);
    bus.write_registers(&frames)
}

/// Reads the one register of a record that has one.
pub(crate) fn read_one<T: Transport>(bus: &mut Bus<T>, register: u8) -> (reply: Result<
    u8,
    T::Error,
>)
    ensures
        read_run(
            seq![register],
            match reply {
                Ok(_) => Ok(received(issued(old(bus).history(), final(bus).history()))),
                Err(error) => Err(error),
            },
            old(bus).history(),
            final(bus).history(),
        ),
        reply matches Ok(byte) ==> byte == received(
            issued(old(bus).history(), final(bus).history()),
        )[0],
{
    let registers = [register];
    assert(registers@ == seq![register]);
    let bytes = bus.read_registers(&registers)?;
    Ok(bytes[0])
}

} // verus!

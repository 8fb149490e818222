//! The two-wire bus as the codec sees it.
//!
//! A [`Transport`] performs single transactions. Nothing is assumed of what a
//! transaction does to the device nor of how it ends; what is asked of a
//! transport is that its log tells every transaction that was asked of it,
//! with what it was handed and what it gave back. A [`Bus`] owns a transport
//! and talks to the sensor through it. The contracts of the codec are
//! statements about the log: which registers were touched, with which bytes,
//! in which order, and that nothing follows a failure.

use vstd::prelude::*;

verus! {

/// The seven-bit bus address of the sensor.
pub const DEVICE_ADDRESS: u8 = 0x68;

/// A way to reach the device, one register at a time.
///
/// The two methods promise one thing: each call adds itself to the log, with
/// what it was handed and what it returned. They promise nothing of success,
/// nor of what the device does.
///
/// An implementation in verified code says what its log is and proves the
/// promise. An implementation in unverified code cannot name the log, and
/// need not: the promise is then taken on trust, and the log of such a
/// transport is by convention the list of the calls that were made of it.
pub trait Transport {
    /// What the transport reports when a transaction cannot be completed.
    type Error;

    /// Every transaction that was asked of the transport, oldest first, each
    /// with what it was handed and how it ended.
    ///
    /// The body given here stands for a log that nothing is known of. It only
    /// spares unverified implementations the need to write one; no verified
    /// implementation can keep it, since a log that never changes cannot grow.
    open spec fn log(&self) -> Seq<Exchange<Self::Error>> {
        arbitrary()
    }

    /// Sends `value` to `register` of the device at bus address `device`.
    fn write(&mut self, device: u8, register: u8, value: u8) -> (outcome: Result<
        (),
        Self::Error,
    >)
        ensures
            final(self).log() == old(self).log().push(
                Exchange::Write { device, register, value, outcome },
            ),
    ;

    /// Sends the address of `register` to the device at bus address `device`
    /// and reads one byte back.
    fn write_read(&mut self, device: u8, register: u8) -> (reply: Result<u8, Self::Error>)
        ensures
            final(self).log() == old(self).log().push(Exchange::Read { device, register, reply }),
    ;
}

/// One transaction that was asked of a transport, and how it ended.
pub enum Exchange<E> {
    /// A register write.
    Write { device: u8, register: u8, value: u8, outcome: Result<(), E> },
    /// A register read.
    Read { device: u8, register: u8, reply: Result<u8, E> },
}

/// A write to the sensor that succeeded; `frame` is the register and the
/// value.
pub open spec fn write_ok<E>(frame: (u8, u8)) -> Exchange<E> {
    Exchange::Write { device: DEVICE_ADDRESS, register: frame.0, value: frame.1, outcome: Ok(()) }
}

/// A write to the sensor that failed with `error`.
pub open spec fn write_failed<E>(frame: (u8, u8), error: E) -> Exchange<E> {
    Exchange::Write {
        device: DEVICE_ADDRESS,
        register: frame.0,
        value: frame.1,
        outcome: Err(error),
    }
}

/// A read from the sensor that gave `byte`.
pub open spec fn read_ok<E>(register: u8, byte: u8) -> Exchange<E> {
    Exchange::Read { device: DEVICE_ADDRESS, register, reply: Ok(byte) }
}

/// A read from the sensor that failed with `error`.
pub open spec fn read_failed<E>(register: u8, error: E) -> Exchange<E> {
    Exchange::Read { device: DEVICE_ADDRESS, register, reply: Err(error) }
}

/// Successful writes of all `frames`, in order.
pub open spec fn writes<E>(frames: Seq<(u8, u8)>) -> Seq<Exchange<E>> {
    Seq::new(frames.len(), |i: int| write_ok(frames[i]))
}

/// Successful reads of all `registers`, in order, that gave `bytes`.
pub open spec fn reads<E>(registers: Seq<u8>, bytes: Seq<u8>) -> Seq<Exchange<E>> {
    Seq::new(registers.len(), |i: int| read_ok(registers[i], bytes[i]))
}

/// The bytes that the exchanges of `run` gave, one for each exchange; zero
/// stands for an exchange that gave none.
pub open spec fn received<E>(run: Seq<Exchange<E>>) -> Seq<u8> {
    Seq::new(
        run.len(),
        |i: int|
            match run[i] {
                Exchange::Read { reply: Ok(byte), .. } => byte,
                _ => 0u8,
            },
    )
}

/// What remains of `after` once the exchanges of `before` are taken off its
/// front.
pub open spec fn issued<E>(before: Seq<Exchange<E>>, after: Seq<Exchange<E>>) -> Seq<Exchange<E>> {
    after.skip(before.len() as int)
}

/// `after` is the history `before` followed by what persisting `frames` asks
/// of the transport when it ends in `outcome`. On success every frame was
/// written, in order. On failure the frames were written in order up to the
/// one that failed, the error is the one that this write gave, and no later
/// frame was tried. Nothing was read.
pub open spec fn write_run<E>(
    frames: Seq<(u8, u8)>,
    outcome: Result<(), E>,
    before: Seq<Exchange<E>>,
    after: Seq<Exchange<E>>,
) -> bool {
    match outcome {
        Ok(_) => after == before + writes::<E>(frames),
        Err(error) => {
            let done = after.len() - before.len() - 1;
            &&& 0 <= done < frames.len()
            &&& after == before + writes::<E>(frames.take(done)).push(
                write_failed(frames[done], error),
            )
        },
    }
}

/// `after` is the history `before` followed by what fetching `registers`
/// asks of the transport when it ends in `outcome`. On success every register
/// was read, in order, and the outcome holds the bytes that came back. On
/// failure the registers were read in order up to the one that failed, the
/// error is the one that this read gave, and no later register was tried.
/// Nothing was written.
pub open spec fn read_run<E>(
    registers: Seq<u8>,
    outcome: Result<Seq<u8>, E>,
    before: Seq<Exchange<E>>,
    after: Seq<Exchange<E>>,
) -> bool {
    match outcome {
        Ok(bytes) => bytes.len() == registers.len() && after == before + reads::<E>(
            registers,
            bytes,
        ),
        Err(error) => {
            let done = after.len() - before.len() - 1;
            &&& 0 <= done < registers.len()
            &&& after == before + reads::<E>(
                registers.take(done),
                received(issued(before, after)).take(done),
            ).push(read_failed(registers[done], error))
        },
    }
}

/// A transport in use for the sensor.
pub struct Bus<T: Transport> {
    transport: T,
}

impl<T: Transport> Bus<T> {
    /// The transport as it stands.
    pub closed spec fn transport(&self) -> T {
        self.transport
    }

    /// Every transaction that was asked of the transport, oldest first: the
    /// log of the transport itself.
    pub open spec fn history(&self) -> Seq<Exchange<T::Error>> {
        self.transport().log()
    }

    /// Takes a transport into use. The history starts with what the
    /// transport has logged before.
    pub fn new(transport: T) -> (bus: Self)
        ensures
            bus.transport() == transport,
            bus.history() == transport.log(),
    {
        Bus { transport }
    }

    /// Gives the transport back, as the transactions have left it.
    pub fn release(self) -> (transport: T)
        ensures
            transport == self.transport(),
            transport.log() == self.history(),
    {
        self.transport
    }

    /// Writes one register of the sensor: a single transaction of the
    /// transport, with this register and this value, whatever its outcome.
    /// The outcome is the one that the transport gave.
    pub fn write_register(&mut self, register: u8, value: u8) -> (outcome: Result<(), T::Error>)
        ensures
            final(self).transport().log() == old(self).transport().log().push(
                Exchange::Write { device: DEVICE_ADDRESS, register, value, outcome },
            ),
    {
        self.transport.write(DEVICE_ADDRESS, register, value)
    }

    /// Reads one register of the sensor: a single transaction of the
    /// transport, for this register, whatever its outcome. The reply is the
    /// one that the transport gave.
    pub fn read_register(&mut self, register: u8) -> (reply: Result<u8, T::Error>)
        ensures
            final(self).transport().log() == old(self).transport().log().push(
                Exchange::Read { device: DEVICE_ADDRESS, register, reply },
            ),
    {
        self.transport.write_read(DEVICE_ADDRESS, register)
    }

    /// Writes `frames`, each a register and its value, in the order given,
    /// and stops at the first failure.
    pub fn write_registers(&mut self, frames: &[(u8, u8)]) -> (outcome: Result<(), T::Error>)
        ensures
            write_run(frames@, outcome, old(self).history(), final(self).history()),
    {
        let mut i: usize = 0;
        while i < frames.len()
            invariant
                i <= frames.len(),
                self.history() == old(self).history() + writes::<T::Error>(frames@.take(i as int)),
            decreases frames.len() - i,
        {
            let frame = frames[i];
            let ghost so_far = writes::<T::Error>(frames@.take(i as int));
            match self.write_register(frame.0, frame.1) {
                Ok(done) => {
                    assert(done == ());
                    assert(so_far.push(write_ok(frames@[i as int])) == writes::<T::Error>(
                        frames@.take(i + 1),
                    ));
                    assert(self.history() == old(self).history() + writes::<T::Error>(
                        frames@.take(i + 1),
                    ));
                },
                Err(error) => {
                    assert(self.history() == old(self).history() + so_far.push(
                        write_failed(frames@[i as int], error),
                    ));
                    return Err(error);
                },
            }
            i += 1;
        }
        assert(frames@.take(i as int) == frames@);
        Ok(())
    }

    /// Reads `registers` in the order given and stops at the first failure.
    /// On success the bytes come back in the order of the registers.
    pub fn read_registers(&mut self, registers: &[u8]) -> (outcome: Result<Vec<u8>, T::Error>)
        ensures
            read_run(
                registers@,
                match outcome {
                    Ok(bytes) => Ok(bytes@),
                    Err(error) => Err(error),
                },
                old(self).history(),
                final(self).history(),
            ),
            outcome matches Ok(bytes) ==> bytes@ == received(
                issued(old(self).history(), final(self).history()),
            ),
    {
        let mut bytes: Vec<u8> = Vec::new();
        let mut i: usize = 0;
        while i < registers.len()
            invariant
                i <= registers.len(),
                bytes@.len() == i,
                self.history() == old(self).history() + reads::<T::Error>(
                    registers@.take(i as int),
                    bytes@,
                ),
            decreases registers.len() - i,
        {
            let ghost so_far = reads::<T::Error>(registers@.take(i as int), bytes@);
            match self.read_register(registers[i]) {
                Ok(byte) => {
                    bytes.push(byte);
                    assert(so_far.push(read_ok(registers@[i as int], byte)) == reads::<T::Error>(
                        registers@.take(i + 1),
                        bytes@,
                    ));
                    assert(self.history() == old(self).history() + reads::<T::Error>(
                        registers@.take(i + 1),
                        bytes@,
                    ));
                },
                Err(error) => {
                    let ghost run = so_far.push(read_failed(registers@[i as int], error));
                    assert(self.history() == old(self).history() + run);
                    assert(issued(old(self).history(), self.history()) == run);
                    assert(received(run).take(i as int) == bytes@);
                    return Err(error);
                },
            }
            i += 1;
        }
        assert(registers@.take(i as int) == registers@);
        assert(issued(old(self).history(), self.history()) == reads::<T::Error>(
            registers@,
            bytes@,
        ));
        assert(received(reads::<T::Error>(registers@, bytes@)) == bytes@);
        Ok(bytes)
    }
}

} // verus!

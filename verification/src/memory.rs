//! A register file: a model of what the registers of a device hold, and a
//! simulated device built on it.
//!
//! The specification functions say what writing frames does to a register
//! file, what reading registers gives, and when a log of transactions is one
//! that a register file can have given. [`RegisterFile`] is an executable
//! transport that behaves so, for every value of it: its log is faithful to
//! the registers it started with. It can be told to fail from a chosen
//! transaction on, and it keeps the list of the registers that it was asked
//! for, so that a caller without hardware can see what a record operation
//! does on the bus.

use crate::transport::{read_run, reads, write_run, writes, Exchange, Transport, DEVICE_ADDRESS};
use vstd::prelude::*;

verus! {

/// The number of register addresses.
pub const REGISTERS: usize = 256;

/// The registers that `frames` write, in order.
pub open spec fn addresses(frames: Seq<(u8, u8)>) -> Seq<u8> {
    Seq::new(frames.len(), |i: int| frames[i].0)
}

/// The bytes that `frames` write, in order.
pub open spec fn values(frames: Seq<(u8, u8)>) -> Seq<u8> {
    Seq::new(frames.len(), |i: int| frames[i].1)
}

/// What the registers hold once `frames` have been written over `memory`,
/// in order: a later frame for a register replaces an earlier one.
pub open spec fn stored(memory: Seq<u8>, frames: Seq<(u8, u8)>) -> Seq<u8>
    decreases frames.len(),
{
    if frames.len() == 0 {
        memory
    } else {
        stored(memory, frames.drop_last()).update(frames.last().0 as int, frames.last().1)
    }
}

/// The bytes that reading `registers` from `memory` gives, in order.
pub open spec fn fetched(memory: Seq<u8>, registers: Seq<u8>) -> Seq<u8> {
    Seq::new(registers.len(), |i: int| memory[registers[i] as int])
}

/// Writing leaves the number of registers as it was.
pub proof fn lemma_stored_len(memory: Seq<u8>, frames: Seq<(u8, u8)>)
    requires
        memory.len() == REGISTERS,
    ensures
        stored(memory, frames).len() == memory.len(),
    decreases frames.len(),
{
    if frames.len() > 0 {
        lemma_stored_len(memory, frames.drop_last());
    }
}

/// A register that `frames` write once holds the byte of that frame.
proof fn lemma_stored_at(memory: Seq<u8>, frames: Seq<(u8, u8)>, i: int)
    requires
        memory.len() == REGISTERS,
        addresses(frames).no_duplicates(),
        0 <= i < frames.len(),
    ensures
        stored(memory, frames)[frames[i].0 as int] == frames[i].1,
    decreases frames.len(),
{
    let front = frames.drop_last();
    let last = frames.len() - 1;
    lemma_stored_len(memory, front);
    if i < last {
        assert(addresses(frames)[i] != addresses(frames)[last]);
        assert forall|a: int, b: int|
            0 <= a < front.len() && 0 <= b < front.len() && a != b implies addresses(front)[a]
            != addresses(front)[b] by {
            assert(addresses(frames)[a] != addresses(frames)[b]);
        }
        lemma_stored_at(memory, front, i);
    }
}

/// Over a register file, reading back the registers that were written, each
/// once, gives the bytes that were written.
pub proof fn lemma_fetched_after_stored(memory: Seq<u8>, frames: Seq<(u8, u8)>)
    requires
        memory.len() == REGISTERS,
        addresses(frames).no_duplicates(),
    ensures
        fetched(stored(memory, frames), addresses(frames)) == values(frames),
{
    assert forall|i: int| 0 <= i < frames.len() implies fetched(
        stored(memory, frames),
        addresses(frames),
    )[i] == values(frames)[i] by {
        lemma_stored_at(memory, frames, i);
    }
}

/// Over a register file, reading back one register that was written gives
/// the byte that was written.
pub proof fn lemma_one_register(memory: Seq<u8>, register: u8, value: u8)
    requires
        memory.len() == REGISTERS,
    ensures
        fetched(stored(memory, seq![(register, value)]), seq![register]) == seq![value],
{
    let frames = seq![(register, value)];
    assert(addresses(frames) == seq![register]);
    assert(values(frames) == seq![value]);
    lemma_fetched_after_stored(memory, frames);
}

/// What the registers hold once the exchanges of `run` have taken place on a
/// register file that held `memory`: every write that succeeded is stored, in
/// order, and nothing else changes a register.
pub open spec fn replayed<E>(memory: Seq<u8>, run: Seq<Exchange<E>>) -> Seq<u8>
    decreases run.len(),
{
    if run.len() == 0 {
        memory
    } else {
        let earlier = replayed(memory, run.drop_last());
        match run.last() {
            Exchange::Write { register, value, outcome: Ok(_), .. } => earlier.update(
                register as int,
                value,
            ),
            _ => earlier,
        }
    }
}

/// `run` is a history that a register file which held `memory` can have
/// given: every read that succeeded gave what its register held at that
/// moment.
pub open spec fn faithful<E>(memory: Seq<u8>, run: Seq<Exchange<E>>) -> bool {
    forall|i: int|
        0 <= i < run.len() ==> (#[trigger] run[i] matches Exchange::Read {
            register,
            reply: Ok(byte),
            ..
        } ==> byte == replayed(memory, run.take(i))[register as int])
}

/// Transactions leave the number of registers as it was.
pub proof fn lemma_replayed_len<E>(memory: Seq<u8>, run: Seq<Exchange<E>>)
    requires
        memory.len() == REGISTERS,
    ensures
        replayed(memory, run).len() == REGISTERS,
    decreases run.len(),
{
    if run.len() > 0 {
        lemma_replayed_len(memory, run.drop_last());
    }
}

/// A faithful log stays faithful when one more exchange follows it that is
/// no successful read, or is a read that gave what its register held.
pub proof fn lemma_faithful_push<E>(memory: Seq<u8>, run: Seq<Exchange<E>>, next: Exchange<E>)
    requires
        faithful(memory, run),
        next matches Exchange::Read { register, reply: Ok(byte), .. } ==> byte == replayed(
            memory,
            run,
        )[register as int],
    ensures
        faithful(memory, run.push(next)),
{
    let longer = run.push(next);
    assert forall|i: int|
        0 <= i < longer.len() implies (#[trigger] longer[i] matches Exchange::Read {
            register,
            reply: Ok(byte),
            ..
        } ==> byte == replayed(memory, longer.take(i))[register as int]) by {
        if i < run.len() {
            assert(longer.take(i) == run.take(i));
            assert(longer[i] == run[i]);
        } else {
            assert(longer.take(i) == run);
        }
    }
}

/// Successful writes of `frames` after `run` leave in the registers what
/// storing the frames leaves.
proof fn lemma_replayed_writes<E>(memory: Seq<u8>, run: Seq<Exchange<E>>, frames: Seq<(u8, u8)>)
    ensures
        replayed(memory, run + writes::<E>(frames)) == stored(replayed(memory, run), frames),
    decreases frames.len(),
{
    if frames.len() == 0 {
        assert(run + writes::<E>(frames) == run);
    } else {
        let all = run + writes::<E>(frames);
        assert(all.drop_last() == run + writes::<E>(frames.drop_last()));
        assert(all.last() == writes::<E>(frames).last());
        lemma_replayed_writes(memory, run, frames.drop_last());
    }
}

/// Successful reads after `run` leave the registers as they were.
proof fn lemma_replayed_reads<E>(
    memory: Seq<u8>,
    run: Seq<Exchange<E>>,
    registers: Seq<u8>,
    bytes: Seq<u8>,
)
    ensures
        replayed(memory, run + reads::<E>(registers, bytes)) == replayed(memory, run),
    decreases registers.len(),
{
    if registers.len() == 0 {
        assert(run + reads::<E>(registers, bytes) == run);
    } else {
        let all = run + reads::<E>(registers, bytes);
        assert(all.drop_last() == run + reads::<E>(registers.drop_last(), bytes));
        assert(all.last() == reads::<E>(registers, bytes).last());
        lemma_replayed_reads(memory, run, registers.drop_last(), bytes);
    }
}

/// Written, then read back. Take a history that a register file can have
/// given, in which frames were written, all with success, and registers were
/// read next, all with success. Then the bytes that came back are what the
/// registers held once the frames had been stored.
pub proof fn law_read_after_write<E>(
    memory: Seq<u8>,
    frames: Seq<(u8, u8)>,
    registers: Seq<u8>,
    bytes: Seq<u8>,
    before: Seq<Exchange<E>>,
    between: Seq<Exchange<E>>,
    after: Seq<Exchange<E>>,
)
    requires
        write_run(frames, Ok(()), before, between),
        read_run(registers, Ok(bytes), between, after),
        faithful(memory, after),
    ensures
        bytes == fetched(stored(replayed(memory, before), frames), registers),
{
    let held = stored(replayed(memory, before), frames);
    lemma_replayed_writes(memory, before, frames);
    assert forall|i: int| 0 <= i < registers.len() implies bytes[i] == held[registers[i] as int]
    by {
        let at = between.len() + i;
        assert(after[at] == reads::<E>(registers, bytes)[i]);
        assert(after.take(at) == between + reads::<E>(registers.take(i), bytes));
        lemma_replayed_reads(memory, between, registers.take(i), bytes);
    }
}

/// Why a simulated device did not complete a transaction.
#[derive(Clone, Copy, Debug, PartialEq, Eq)]
pub enum Fault {
    /// The transaction went to a bus address at which no device answers.
    Absent,
    /// The device had been told to fail from this transaction on.
    Refused,
}

/// The register that an exchange was for.
pub open spec fn register_of<E>(exchange: Exchange<E>) -> u8 {
    match exchange {
        Exchange::Write { register, .. } => register,
        Exchange::Read { register, .. } => register,
    }
}

/// A simulated device: 256 registers behind the bus address of the sensor.
///
/// Every value of this type is coherent: its log is one that a register file
/// can have given that started with [`Self::origin`], the registers hold what
/// the log leaves in them, and the list of registers asked for is that of the
/// log.
pub struct RegisterFile {
    cells: [u8; REGISTERS],
    remaining: Option<usize>,
    touched: Vec<u8>,
    origin: Ghost<Seq<u8>>,
    log: Ghost<Seq<Exchange<Fault>>>,
}

impl RegisterFile {
    #[verifier::type_invariant]
    spec fn well_formed(&self) -> bool {
        &&& self.origin@.len() == REGISTERS
        &&& faithful(self.origin@, self.log@)
        &&& self.cells@ == replayed(self.origin@, self.log@)
        &&& self.touched@ == Seq::new(self.log@.len(), |i: int| register_of(self.log@[i]))
    }

    /// What the registers hold, by address.
    pub closed spec fn memory(&self) -> Seq<u8> {
        self.cells@
    }

    /// What the registers held when the device was made.
    pub closed spec fn origin(&self) -> Seq<u8> {
        self.origin@
    }

    /// How many more transactions the device completes before it starts to
    /// fail; `None` for a device that never fails.
    pub closed spec fn remaining(&self) -> Option<usize> {
        self.remaining
    }

    /// The register of every transaction that was asked of the device,
    /// completed or not, oldest first.
    pub closed spec fn touched(&self) -> Seq<u8> {
        self.touched@
    }

    /// The log is one that a register file can have given that started with
    /// the origin; the registers hold what the log leaves in them; and the
    /// registers asked for are those of the log.
    pub open spec fn coherent(&self) -> bool {
        &&& self.origin().len() == REGISTERS
        &&& faithful(self.origin(), self.log())
        &&& self.memory() == replayed(self.origin(), self.log())
        &&& self.touched() == Seq::new(self.log().len(), |i: int| register_of(self.log()[i]))
    }

    /// Whether the device completes a transaction sent to bus address
    /// `device`: it is the address of the sensor, and the device has not
    /// started to fail.
    pub open spec fn answers(&self, device: u8) -> bool {
        device == DEVICE_ADDRESS && self.remaining() != Some(0usize)
    }

    /// What remains of the transactions to complete after one more.
    pub open spec fn after_one(remaining: Option<usize>) -> Option<usize> {
        match remaining {
            Some(n) => Some((n - 1) as usize),
            None => None,
        }
    }

    /// The fault that a transaction to bus address `device` ends in, where
    /// the device does not complete it.
    pub open spec fn fault(device: u8) -> Fault {
        if device != DEVICE_ADDRESS {
            Fault::Absent
        } else {
            Fault::Refused
        }
    }

    /// There are 256 registers.
    pub proof fn lemma_memory_len(&self)
        ensures
            self.memory().len() == REGISTERS,
    {
    }

    /// A device that never fails, with every register zero.
    pub fn new() -> (file: Self)
        ensures
            file.memory() == Seq::new(REGISTERS as nat, |i: int| 0u8),
            file.origin() == file.memory(),
            file.remaining() is None,
            file.log() == Seq::<Exchange<Fault>>::empty(),
            file.coherent(),
    {
        RegisterFile::make([0u8; REGISTERS], None)
    }

    /// A device that never fails and holds `cells` in its registers.
    pub fn holding(cells: [u8; REGISTERS]) -> (file: Self)
        ensures
            file.memory() == cells@,
            file.origin() == file.memory(),
            file.remaining() is None,
            file.log() == Seq::<Exchange<Fault>>::empty(),
            file.coherent(),
    {
        RegisterFile::make(cells, None)
    }

    /// A device with every register zero that completes `successes`
    /// transactions and fails every one after them.
    pub fn failing_after(successes: usize) -> (file: Self)
        ensures
            file.memory() == Seq::new(REGISTERS as nat, |i: int| 0u8),
            file.origin() == file.memory(),
            file.remaining() == Some(successes),
            file.log() == Seq::<Exchange<Fault>>::empty(),
            file.coherent(),
    {
        RegisterFile::make([0u8; REGISTERS], Some(successes))
    }

    fn make(cells: [u8; REGISTERS], remaining: Option<usize>) -> (file: Self)
        ensures
            file.memory() == cells@,
            file.origin() == cells@,
            file.remaining() == remaining,
            file.log() == Seq::<Exchange<Fault>>::empty(),
            file.coherent(),
    {
        let touched: Vec<u8> = Vec::new();
        let ghost log = Seq::<Exchange<Fault>>::empty();
        assert(touched@ == Seq::new(log.len(), |i: int| register_of(log[i])));
        assert(cells@ == replayed(cells@, log));
        RegisterFile { cells, remaining, touched, origin: Ghost(cells@), log: Ghost(log) }
    }

    /// What `register` holds, without a transaction.
    pub fn peek(&self, register: u8) -> (byte: u8)
        ensures
            byte == self.memory()[register as int],
            self.coherent(),
    {
        proof {
            use_type_invariant(self);
        }
        self.cells[register as usize]
    }

    /// The register of every transaction that was asked of the device,
    /// completed or not, oldest first.
    pub fn touched_registers(&self) -> (registers: Vec<u8>)
        ensures
            registers@ == self.touched(),
            self.coherent(),
    {
        proof {
            use_type_invariant(self);
        }
        self.touched.clone()
    }

    /// Takes one more exchange into the device: its register joins the list,
    /// the registers become `cells`, and the log grows by the exchange.
    fn take_in(
        &mut self,
        cells: [u8; REGISTERS],
        remaining: Option<usize>,
        Ghost(exchange): Ghost<Exchange<Fault>>,
        register: u8,
    )
        requires
            register == register_of(exchange),
            cells@ == replayed(old(self).origin(), old(self).log().push(exchange)),
            exchange matches Exchange::Read { reply: Ok(byte), .. } ==> byte == old(
                self,
            ).memory()[register as int],
        ensures
            final(self).memory() == cells@,
            final(self).remaining() == remaining,
            final(self).origin() == old(self).origin(),
            final(self).log() == old(self).log().push(exchange),
            final(self).touched() == old(self).touched().push(register),
            final(self).coherent(),
    {
        proof {
            use_type_invariant(&*self);
            lemma_faithful_push(self.origin@, self.log@, exchange);
        }
        let mut touched = self.touched.clone();
        touched.push(register);
        let ghost log = self.log@.push(exchange);
        assert(touched@ == Seq::new(log.len(), |i: int| register_of(log[i])));
        *self = RegisterFile {
            cells,
            remaining,
            touched,
            origin: Ghost(self.origin@),
            log: Ghost(log),
        };
    }

    /// Whether the device completes a transaction to bus address `device`,
    /// and what then remains of the transactions to complete.
    fn decide(&self, device: u8) -> (outcome: Result<Option<usize>, Fault>)
        ensures
            outcome is Ok <==> self.answers(device),
            outcome matches Ok(remaining) ==> remaining == Self::after_one(self.remaining()),
            outcome matches Err(fault) ==> fault == Self::fault(device),
    {
        if device != DEVICE_ADDRESS {
            return Err(Fault::Absent);
        }
        match self.remaining {
            Some(0) => Err(Fault::Refused),
            Some(n) => Ok(Some(n - 1)),
            None => Ok(None),
        }
    }
}

impl Transport for RegisterFile {
    type Error = Fault;

    closed spec fn log(&self) -> Seq<Exchange<Fault>> {
        self.log@
    }

    /// Stores `value` in `register`, where the device completes the
    /// transaction; leaves the registers as they are where it does not.
    fn write(&mut self, device: u8, register: u8, value: u8) -> (outcome: Result<(), Fault>)
        ensures
            final(self).touched() == old(self).touched().push(register),
            final(self).origin() == old(self).origin(),
            final(self).coherent(),
            outcome is Ok <==> old(self).answers(device),
            outcome is Ok ==> {
                &&& final(self).memory() == old(self).memory().update(register as int, value)
                &&& final(self).remaining() == Self::after_one(old(self).remaining())
            },
            outcome matches Err(fault) ==> {
                &&& fault == Self::fault(device)
                &&& final(self).memory() == old(self).memory()
                &&& final(self).remaining() == old(self).remaining()
            },
    {
        proof {
            use_type_invariant(&*self);
        }
        let mut cells = self.cells;
        let mut remaining = self.remaining;
        let outcome = match self.decide(device) {
            Ok(left) => {
                cells[register as usize] = value;
                remaining = left;
                Ok(())
            },
            Err(fault) => Err(fault),
        };
        let ghost exchange = Exchange::Write { device, register, value, outcome };
        let ghost log = self.log@;
        assert(log.push(exchange).drop_last() =~= log);
        self.take_in(cells, remaining, Ghost(exchange), register);
        outcome
    }

    /// Gives what `register` holds, where the device completes the
    /// transaction. The registers stay as they are either way.
    fn write_read(&mut self, device: u8, register: u8) -> (reply: Result<u8, Fault>)
        ensures
            final(self).touched() == old(self).touched().push(register),
            final(self).origin() == old(self).origin(),
            final(self).memory() == old(self).memory(),
            final(self).coherent(),
            reply is Ok <==> old(self).answers(device),
            reply matches Ok(byte) ==> {
                &&& byte == old(self).memory()[register as int]
                &&& final(self).remaining() == Self::after_one(old(self).remaining())
            },
            reply matches Err(fault) ==> {
                &&& fault == Self::fault(device)
                &&& final(self).remaining() == old(self).remaining()
            },
    {
        proof {
            use_type_invariant(&*self);
        }
        let cells = self.cells;
        let mut remaining = self.remaining;
        let reply = match self.decide(device) {
            Ok(left) => {
                remaining = left;
                Ok(cells[register as usize])
            },
            Err(fault) => Err(fault),
        };
        let ghost exchange = Exchange::Read { device, register, reply };
        let ghost log = self.log@;
        assert(log.push(exchange).drop_last() =~= log);
        self.take_in(cells, remaining, Ghost(exchange), register);
        reply
    }
}

} // verus!

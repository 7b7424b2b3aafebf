//! The transport the drivers talk through, and the record of what they sent.
use vstd::prelude::*;

use crate::error::ExpanderError;

verus! {

/// A byte-oriented I2C transport.
pub trait I2cBus {
    type Error;

    /// Writes `bytes` to the device at `address` in one transaction.
    fn write(&mut self, address: u8, bytes: &[u8]) -> Result<(), Self::Error>;

    /// Writes `bytes` to the device at `address`, then reads `buffer.len()`
    /// bytes back into `buffer`, in one transaction.
    fn write_read(&mut self, address: u8, bytes: &[u8], buffer: &mut [u8]) -> Result<(), Self::Error>;
}

/// The expander's interrupt output as the host sees it.
pub trait InterruptLine {
    /// True while the device signals that its input ports differ from what
    /// was last read from them.
    fn is_asserted(&mut self) -> bool;
}

/// One bus transaction, as issued by a driver, with what came of it.
pub enum Transaction {
    /// `bytes` written to the device at `address`; `ok` when the bus
    /// reported success.
    Write { address: u8, bytes: Seq<u8>, ok: bool },
    /// `bytes` written to the device at `address`, then `reply` read back;
    /// `ok` when the bus reported success.
    WriteRead { address: u8, bytes: Seq<u8>, reply: Seq<u8>, ok: bool },
}

impl Transaction {
    /// Whether the bus reported success.
    pub open spec fn succeeded(self) -> bool {
        match self {
            Transaction::Write { ok, .. } => ok,
            Transaction::WriteRead { ok, .. } => ok,
        }
    }

    /// The bytes read back; empty for a write.
    pub open spec fn reply(self) -> Seq<u8> {
        match self {
            Transaction::Write { .. } => Seq::empty(),
            Transaction::WriteRead { reply, .. } => reply,
        }
    }

    /// This is a read of `len` bytes from the device at `address`, starting
    /// at the register selected by `command`.
    pub open spec fn is_read_of(self, address: u8, command: u8, len: nat) -> bool {
        match self {
            Transaction::Write { .. } => false,
            Transaction::WriteRead { address: a, bytes, reply, .. } => a == address && bytes
                == seq![command] && reply.len() == len,
        }
    }
}

/// A device at a fixed address on a bus, with the transactions issued to it.
pub(crate) struct BusDevice<B> {
    address: u8,
    bus: B,
    log: Ghost<Seq<Transaction>>,
}

impl<B: I2cBus> BusDevice<B> {
    pub closed spec fn address(&self) -> u8 {
        self.address
    }

    /// Every transaction issued through this handle, oldest first.
    pub closed spec fn transactions(&self) -> Seq<Transaction> {
        self.log@
    }

    pub fn new(bus: B, address: u8) -> (r: Self)
        ensures
            r.address() == address,
            r.transactions() == Seq::<Transaction>::empty(),
    {
        BusDevice { address, bus, log: Ghost(Seq::empty()) }
    }

    /// Gives the bus back.
    pub fn release(self) -> B {
        self.bus
    }

    /// Writes `bytes` in one transaction.
    pub fn write(&mut self, bytes: &[u8]) -> (r: Result<(), ExpanderError<B::Error>>)
        ensures
            final(self).address() == old(self).address(),
            final(self).transactions() == old(self).transactions().push(
                Transaction::Write { address: old(self).address(), bytes: bytes@, ok: r is Ok },
            ),
            r is Err ==> r->Err_0 is WriteError,
    {
        let r = self.bus.write(self.address, bytes);
        proof {
            self.log@ = self.log@.push(
                Transaction::Write { address: self.address, bytes: bytes@, ok: r is Ok },
            );
        }
        match r {
            Ok(()) => Ok(()),
            Err(e) => Err(ExpanderError::WriteError(e)),
        }
    }

    /// Sends the command byte and reads one byte back, in one transaction.
    pub fn read_one(&mut self, command: u8) -> (r: Result<u8, ExpanderError<B::Error>>)
        ensures
            final(self).address() == old(self).address(),
            final(self).transactions().drop_last() == old(self).transactions(),
            final(self).transactions().len() == old(self).transactions().len() + 1,
            final(self).transactions().last().is_read_of(old(self).address(), command, 1),
            final(self).transactions().last().succeeded() == r is Ok,
            r is Ok ==> r->Ok_0 == final(self).transactions().last().reply()[0],
            r is Err ==> r->Err_0 is WriteReadError,
    {
        let out: [u8; 1] = [command];
        let mut buf: [u8; 1] = [0];
        let r = self.bus.write_read(self.address, &out, &mut buf);
        proof {
            self.log@ = self.log@.push(
                Transaction::WriteRead { address: self.address, bytes: out@, reply: buf@, ok: r is Ok },
            );
        }
        assert(out@ =~= seq![command]);
        match r {
            Ok(()) => Ok(buf[0]),
            Err(e) => Err(ExpanderError::WriteReadError(e)),
        }
    }

    /// Sends the command byte and reads two bytes back, in one transaction.
    pub fn read_two(&mut self, command: u8) -> (r: Result<(u8, u8), ExpanderError<B::Error>>)
        ensures
            final(self).address() == old(self).address(),
            final(self).transactions().drop_last() == old(self).transactions(),
            final(self).transactions().len() == old(self).transactions().len() + 1,
            final(self).transactions().last().is_read_of(old(self).address(), command, 2),
            final(self).transactions().last().succeeded() == r is Ok,
            r is Ok ==> r->Ok_0.0 == final(self).transactions().last().reply()[0]
                && r->Ok_0.1 == final(self).transactions().last().reply()[1],
            r is Err ==> r->Err_0 is WriteReadError,
    {
        let out: [u8; 1] = [command];
        let mut buf: [u8; 2] = [0, 0];
        let r = self.bus.write_read(self.address, &out, &mut buf);
        proof {
            self.log@ = self.log@.push(
                Transaction::WriteRead { address: self.address, bytes: out@, reply: buf@, ok: r is Ok },
            );
        }
        assert(out@ =~= seq![command]);
        match r {
            Ok(()) => Ok((buf[0], buf[1])),
            Err(e) => Err(ExpanderError::WriteReadError(e)),
        }
    }
}

} // verus!

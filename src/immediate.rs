//! The immediate driver: one bus transaction per operation, no state.
use vstd::prelude::*;

use crate::bus::{BusDevice, I2cBus, Transaction};
use crate::cache::{halfword, high_byte, join_halfword, low_byte, split_halfword};
use crate::error::ExpanderError;
use crate::expander::Expander;
use crate::register::Register;
use crate::standard::StandardExpanderInterface;

verus! {

/// A driver that issues one bus transaction for every operation and keeps
/// nothing of the device's state.
pub struct Pca9535Immediate<B> {
    device: BusDevice<B>,
}

impl<B: I2cBus> Pca9535Immediate<B> {
    /// The device's bus address.
    pub closed spec fn address(&self) -> u8 {
        self.device.address()
    }

    /// Every bus transaction this driver issued, oldest first.
    pub closed spec fn transactions(&self) -> Seq<Transaction> {
        self.device.transactions()
    }

    /// Creates an immediate driver for the device at `address` (32 to 39).
    pub fn new(i2c: B, address: u8) -> (r: Self)
        requires
            32 <= address <= 39,
        ensures
            r.address() == address,
            r.transactions() == Seq::<Transaction>::empty(),
    {
        Pca9535Immediate { device: BusDevice::new(i2c, address) }
    }

    /// Gives the transport back.
    pub fn destroy(self) -> B {
        self.device.release()
    }
}

impl<B: I2cBus> Expander for Pca9535Immediate<B> {
    type Error = B::Error;

    open spec fn write_byte_spec(
        pre: Self,
        post: Self,
        register: Register,
        data: u8,
        r: Result<(), ExpanderError<B::Error>>,
    ) -> bool {
        &&& post.address() == pre.address()
        &&& post.transactions() == pre.transactions().push(
            Transaction::Write {
                address: pre.address(),
                bytes: seq![register.spec_address(), data],
                ok: r is Ok,
            },
        )
        &&& r is Err ==> r->Err_0 is WriteError
    }

    open spec fn read_byte_spec(
        pre: Self,
        post: Self,
        register: Register,
        r: Result<u8, ExpanderError<B::Error>>,
    ) -> bool {
        &&& post.address() == pre.address()
        &&& post.transactions().len() == pre.transactions().len() + 1
        &&& post.transactions().drop_last() == pre.transactions()
        &&& {
            let read = post.transactions().last();
            &&& read.is_read_of(pre.address(), register.spec_address(), 1)
            &&& read.succeeded() == r is Ok
            &&& r is Ok ==> r->Ok_0 == read.reply()[0]
        }
        &&& r is Err ==> r->Err_0 is WriteReadError
    }

    open spec fn write_halfword_spec(
        pre: Self,
        post: Self,
        register: Register,
        data: u16,
        r: Result<(), ExpanderError<B::Error>>,
    ) -> bool {
        &&& post.address() == pre.address()
        &&& post.transactions() == pre.transactions().push(
            Transaction::Write {
                address: pre.address(),
                bytes: seq![register.spec_address(), high_byte(data), low_byte(data)],
                ok: r is Ok,
            },
        )
        &&& r is Err ==> r->Err_0 is WriteError
    }

    open spec fn read_halfword_spec(
        pre: Self,
        post: Self,
        register: Register,
        r: Result<u16, ExpanderError<B::Error>>,
    ) -> bool {
        &&& post.address() == pre.address()
        &&& post.transactions().len() == pre.transactions().len() + 1
        &&& post.transactions().drop_last() == pre.transactions()
        &&& {
            let read = post.transactions().last();
            &&& read.is_read_of(pre.address(), register.spec_address(), 2)
            &&& read.succeeded() == r is Ok
            &&& r is Ok ==> r->Ok_0 == halfword(read.reply()[0], read.reply()[1])
        }
        &&& r is Err ==> r->Err_0 is WriteReadError
    }

    /// Writes one byte to `register`.
    fn write_byte(&mut self, register: Register, data: u8) -> (r: Result<(), ExpanderError<B::Error>>) {
        let frame: [u8; 2] = [register.address(), data];
        assert(frame@ =~= seq![register.spec_address(), data]);
        self.device.write(&frame)
    }

    /// Reads one byte of `register` from the device.
    fn read_byte(&mut self, register: Register, buffer: &mut u8) -> (r: Result<(), ExpanderError<B::Error>>) {
        let value = match self.device.read_one(register.address()) {
            Ok(v) => v,
            Err(e) => {
                return Err(e);
            },
        };
        *buffer = value;
        Ok(())
    }

    /// Writes a half-word: the high byte to `register`, the low byte to its neighbor.
    fn write_halfword(&mut self, register: Register, data: u16) -> (r: Result<(), ExpanderError<B::Error>>) {
        let (high, low) = split_halfword(data);
        let frame: [u8; 3] = [register.address(), high, low];
        assert(frame@ =~= seq![register.spec_address(), high_byte(data), low_byte(data)]);
        self.device.write(&frame)
    }

    /// Reads a half-word from the device: `register` gives the high byte, its
    /// neighbor the low byte.
    fn read_halfword(&mut self, register: Register, buffer: &mut u16) -> (r: Result<(), ExpanderError<B::Error>>) {
        let (high, low) = match self.device.read_two(register.address()) {
            Ok(pair) => pair,
            Err(e) => {
                return Err(e);
            },
        };
        *buffer = join_halfword(high, low);
        Ok(())
    }
}

impl<B: I2cBus> StandardExpanderInterface for Pca9535Immediate<B> {

}

} // verus!

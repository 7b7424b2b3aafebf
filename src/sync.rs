//! Sharing one driver between pin handles through a mutual-exclusion primitive.
use vstd::prelude::*;

use core::marker::PhantomData;

use crate::error::ExpanderError;
use crate::expander::{read_result, Expander};
use crate::register::{GPIOBank, Register};
use crate::standard::{output_setup, read_modify_write, setup_output, update_bit};

verus! {

/// A primitive that gives exclusive access to the value it holds.
///
/// Implement it on whatever lock the platform offers. The library relies on
/// `lock` running `c` on the held value while no other call of `lock` on the
/// same primitive runs, and returning what `c` returned.
pub trait ExpanderMutex<Ex>: Sized {
    /// Runs `c` on the held value with exclusive access and returns its result.
    fn lock<R, C: FnOnce(&mut Ex) -> R>(&self, c: C) -> (r: R)
        requires
            forall|ex: &mut Ex| #[trigger] c.requires((ex,)),
        ensures
            exists|ex: &mut Ex| #[trigger] c.ensures((ex,), r),
    ;

    /// Wraps `ex`.
    fn new(ex: Ex) -> Self;
}

/// Register-level access through a shared reference, each operation
/// serialized with every other.
///
/// The relations say which results each operation may return.
pub trait SyncExpander: Sized {
    /// The transport's error type.
    type Error;

    /// Holds when `write_byte(register, data)` may return `r`.
    spec fn write_byte_spec(
        &self,
        register: Register,
        data: u8,
        r: Result<(), ExpanderError<Self::Error>>,
    ) -> bool;

    /// Holds when `read_byte(register)` may return `r`.
    spec fn read_byte_spec(&self, register: Register, r: Result<u8, ExpanderError<Self::Error>>) -> bool;

    /// Holds when `write_halfword(register, data)` may return `r`.
    spec fn write_halfword_spec(
        &self,
        register: Register,
        data: u16,
        r: Result<(), ExpanderError<Self::Error>>,
    ) -> bool;

    /// Holds when `read_halfword(register)` may return `r`.
    spec fn read_halfword_spec(
        &self,
        register: Register,
        r: Result<u16, ExpanderError<Self::Error>>,
    ) -> bool;

    /// Holds when `update_pin_bit(register, pin, set)` may return `r`.
    spec fn update_pin_bit_spec(
        &self,
        register: Register,
        pin: u8,
        set: bool,
        r: Result<(), ExpanderError<Self::Error>>,
    ) -> bool;

    /// Holds when `setup_output_pin(bank, pin, high)` may return `r`.
    spec fn setup_output_pin_spec(
        &self,
        bank: GPIOBank,
        pin: u8,
        high: bool,
        r: Result<(), ExpanderError<Self::Error>>,
    ) -> bool;

    fn write_byte(&self, register: Register, data: u8) -> (r: Result<(), ExpanderError<Self::Error>>)
        ensures
            self.write_byte_spec(register, data, r),
    ;

    /// Sets (or clears) `pin`'s bit of `register` by a read and a write,
    /// with no other operation in between.
    fn update_pin_bit(&self, register: Register, pin: u8, set: bool) -> (r: Result<
        (),
        ExpanderError<Self::Error>,
    >)
        requires
            pin < 8,
        ensures
            self.update_pin_bit_spec(register, pin, set, r),
    ;

    /// Drives `pin` of `bank` to a level, then configures it as an output,
    /// with no other operation in between.
    fn setup_output_pin(&self, bank: GPIOBank, pin: u8, high: bool) -> (r: Result<
        (),
        ExpanderError<Self::Error>,
    >)
        requires
            pin < 8,
        ensures
            self.setup_output_pin_spec(bank, pin, high, r),
    ;

    fn read_byte(&self, register: Register, buffer: &mut u8) -> (r: Result<(), ExpanderError<Self::Error>>)
        ensures
            self.read_byte_spec(register, read_result(r, *final(buffer))),
            r is Err ==> *final(buffer) == *old(buffer),
    ;

    fn write_halfword(&self, register: Register, data: u16) -> (r: Result<(), ExpanderError<Self::Error>>)
        ensures
            self.write_halfword_spec(register, data, r),
    ;

    fn read_halfword(&self, register: Register, buffer: &mut u16) -> (r: Result<(), ExpanderError<Self::Error>>)
        ensures
            self.read_halfword_spec(register, read_result(r, *final(buffer))),
            r is Err ==> *final(buffer) == *old(buffer),
    ;
}

/// A driver behind a mutual-exclusion primitive, from which input and output
/// pin handles can be made.
///
/// Each operation runs under one hold of the lock and returns the result of
/// the driver's operations: a read-modify-write of a pin bit, or the setup of
/// an output pin, is never interleaved with another caller's operation.
pub struct IoExpander<Em, Ex> {
    expander_mutex: Em,
    phantom_data: PhantomData<Ex>,
}

impl<Em: ExpanderMutex<Ex>, Ex: Expander> IoExpander<Em, Ex> {
    /// Wraps `expander` in a new `Em`.
    pub fn new(expander: Ex) -> Self {
        IoExpander { expander_mutex: Em::new(expander), phantom_data: PhantomData }
    }
}

impl<Em: ExpanderMutex<Ex>, Ex: Expander> SyncExpander for IoExpander<Em, Ex> {
    type Error = Ex::Error;

    open spec fn write_byte_spec(
        &self,
        register: Register,
        data: u8,
        r: Result<(), ExpanderError<Ex::Error>>,
    ) -> bool {
        exists|pre: Ex, post: Ex| #[trigger] Ex::write_byte_spec(pre, post, register, data, r)
    }

    open spec fn read_byte_spec(&self, register: Register, r: Result<u8, ExpanderError<Ex::Error>>) -> bool {
        exists|pre: Ex, post: Ex| #[trigger] Ex::read_byte_spec(pre, post, register, r)
    }

    open spec fn write_halfword_spec(
        &self,
        register: Register,
        data: u16,
        r: Result<(), ExpanderError<Ex::Error>>,
    ) -> bool {
        exists|pre: Ex, post: Ex| #[trigger] Ex::write_halfword_spec(pre, post, register, data, r)
    }

    open spec fn read_halfword_spec(
        &self,
        register: Register,
        r: Result<u16, ExpanderError<Ex::Error>>,
    ) -> bool {
        exists|pre: Ex, post: Ex| #[trigger] Ex::read_halfword_spec(pre, post, register, r)
    }

    open spec fn update_pin_bit_spec(
        &self,
        register: Register,
        pin: u8,
        set: bool,
        r: Result<(), ExpanderError<Ex::Error>>,
    ) -> bool {
        exists|pre: Ex, post: Ex| #[trigger] read_modify_write(pre, post, register, pin, set, r)
    }

    open spec fn setup_output_pin_spec(
        &self,
        bank: GPIOBank,
        pin: u8,
        high: bool,
        r: Result<(), ExpanderError<Ex::Error>>,
    ) -> bool {
        exists|pre: Ex, post: Ex| #[trigger] output_setup(pre, post, bank, pin, high, r)
    }

    fn update_pin_bit(&self, register: Register, pin: u8, set: bool) -> (r: Result<
        (),
        ExpanderError<Ex::Error>,
    >) {
        let op = |ex: &mut Ex| -> (r: Result<(), ExpanderError<Ex::Error>>)
            requires
                pin < 8,
            ensures
                read_modify_write(*old(ex), *final(ex), register, pin, set, r),
            { update_bit(ex, register, pin, set) };
        self.expander_mutex.lock(op)
    }

    fn setup_output_pin(&self, bank: GPIOBank, pin: u8, high: bool) -> (r: Result<
        (),
        ExpanderError<Ex::Error>,
    >) {
        let op = |ex: &mut Ex| -> (r: Result<(), ExpanderError<Ex::Error>>)
            requires
                pin < 8,
            ensures
                output_setup(*old(ex), *final(ex), bank, pin, high, r),
            { setup_output(ex, bank, pin, high) };
        self.expander_mutex.lock(op)
    }

    fn write_byte(&self, register: Register, data: u8) -> (r: Result<(), ExpanderError<Ex::Error>>) {
        let op = |ex: &mut Ex| -> (r: Result<(), ExpanderError<Ex::Error>>)
            ensures
                Ex::write_byte_spec(*old(ex), *final(ex), register, data, r),
            { ex.write_byte(register, data) };
        self.expander_mutex.lock(op)
    }

    fn read_byte(&self, register: Register, buffer: &mut u8) -> (r: Result<(), ExpanderError<Ex::Error>>) {
        let op = |ex: &mut Ex| -> (out: (Result<(), ExpanderError<Ex::Error>>, u8))
            ensures
                Ex::read_byte_spec(*old(ex), *final(ex), register, read_result(out.0, out.1)),
            {
                let mut value: u8 = 0;
                let r = ex.read_byte(register, &mut value);
                (r, value)
            };
        let (r, value) = self.expander_mutex.lock(op);
        match r {
            Ok(()) => {
                *buffer = value;
                Ok(())
            },
            Err(e) => Err(e),
        }
    }

    fn write_halfword(&self, register: Register, data: u16) -> (r: Result<(), ExpanderError<Ex::Error>>) {
        let op = |ex: &mut Ex| -> (r: Result<(), ExpanderError<Ex::Error>>)
            ensures
                Ex::write_halfword_spec(*old(ex), *final(ex), register, data, r),
            { ex.write_halfword(register, data) };
        self.expander_mutex.lock(op)
    }

    fn read_halfword(&self, register: Register, buffer: &mut u16) -> (r: Result<(), ExpanderError<Ex::Error>>) {
        let op = |ex: &mut Ex| -> (out: (Result<(), ExpanderError<Ex::Error>>, u16))
            ensures
                Ex::read_halfword_spec(*old(ex), *final(ex), register, read_result(out.0, out.1)),
            {
                let mut value: u16 = 0;
                let r = ex.read_halfword(register, &mut value);
                (r, value)
            };
        let (r, value) = self.expander_mutex.lock(op);
        match r {
            Ok(()) => {
                *buffer = value;
                Ok(())
            },
            Err(e) => Err(e),
        }
    }
}

} // verus!

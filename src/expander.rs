//! The register-level interface shared by both drivers.
use vstd::prelude::*;

use crate::error::ExpanderError;
use crate::register::Register;

verus! {

/// The value a read hands back through its buffer, paired with its outcome.
pub open spec fn read_result<T, E>(r: Result<(), E>, value: T) -> Result<T, E> {
    match r {
        Ok(_) => Ok(value),
        Err(e) => Err(e),
    }
}

/// Register-level access to an expander, as one exclusive owner sees it.
///
/// Each driver states, through the four relations, which results and which
/// successor states each operation may produce.
pub trait Expander: Sized {
    /// The transport's error type.
    type Error;

    /// Holds when `write_byte(register, data)` may take `pre` to `post` and return `r`.
    spec fn write_byte_spec(
        pre: Self,
        post: Self,
        register: Register,
        data: u8,
        r: Result<(), ExpanderError<Self::Error>>,
    ) -> bool;

    /// Holds when `read_byte(register)` may take `pre` to `post` and return `r`.
    spec fn read_byte_spec(
        pre: Self,
        post: Self,
        register: Register,
        r: Result<u8, ExpanderError<Self::Error>>,
    ) -> bool;

    /// Holds when `write_halfword(register, data)` may take `pre` to `post` and return `r`.
    spec fn write_halfword_spec(
        pre: Self,
        post: Self,
        register: Register,
        data: u16,
        r: Result<(), ExpanderError<Self::Error>>,
    ) -> bool;

    /// Holds when `read_halfword(register)` may take `pre` to `post` and return `r`.
    spec fn read_halfword_spec(
        pre: Self,
        post: Self,
        register: Register,
        r: Result<u16, ExpanderError<Self::Error>>,
    ) -> bool;

    /// Writes one byte to `register`.
    fn write_byte(&mut self, register: Register, data: u8) -> (r: Result<(), ExpanderError<Self::Error>>)
        ensures
            Self::write_byte_spec(*old(self), *final(self), register, data, r),
    ;

    /// Reads one byte of `register` into `buffer`.
    fn read_byte(&mut self, register: Register, buffer: &mut u8) -> (r: Result<(), ExpanderError<Self::Error>>)
        ensures
            Self::read_byte_spec(*old(self), *final(self), register, read_result(r, *final(buffer))),
            r is Err ==> *final(buffer) == *old(buffer),
    ;

    /// Writes a half-word: the high byte to `register`, the low byte to its neighbor.
    fn write_halfword(&mut self, register: Register, data: u16) -> (r: Result<(), ExpanderError<Self::Error>>)
        ensures
            Self::write_halfword_spec(*old(self), *final(self), register, data, r),
    ;

    /// Reads a half-word: `register` gives the high byte, its neighbor the low byte.
    fn read_halfword(&mut self, register: Register, buffer: &mut u16) -> (r: Result<(), ExpanderError<Self::Error>>)
        ensures
            Self::read_halfword_spec(*old(self), *final(self), register, read_result(r, *final(buffer))),
            r is Err ==> *final(buffer) == *old(buffer),
    ;
}

} // verus!

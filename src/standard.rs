//! Pin-level operations built on any [`Expander`] by read-modify-write of
//! the 8-bit registers.
use vstd::prelude::*;

use crate::error::ExpanderError;
use crate::expander::Expander;
use crate::register::{GPIOBank, Register};

verus! {

/// The bit of a register byte that belongs to `pin`.
pub open spec fn pin_mask(pin: u8) -> u8 {
    (1u8 << pin) as u8
}

/// Whether `pin`'s bit is set in the register byte `v`.
pub open spec fn bit_is_set(v: u8, pin: u8) -> bool {
    (v >> pin) & 1u8 == 1u8
}

/// The register byte `v` with `pin`'s bit set or cleared.
pub open spec fn with_bit(v: u8, pin: u8, set: bool) -> u8 {
    if set {
        v | pin_mask(pin)
    } else {
        v & !pin_mask(pin)
    }
}

/// The register byte `value` with `pin`'s bit set (`set`) or cleared.
pub fn with_pin_bit(value: u8, pin: u8, set: bool) -> (r: u8)
    requires
        pin < 8,
    ensures
        r == with_bit(value, pin, set),
{
    if set {
        value | (1u8 << pin)
    } else {
        value & !(1u8 << pin)
    }
}

/// Whether `pin`'s bit is set in the register byte `value`.
pub fn pin_bit(value: u8, pin: u8) -> (r: bool)
    requires
        pin < 8,
    ensures
        r == bit_is_set(value, pin),
{
    (value >> pin) & 1 == 1
}

/// The outcome of a pin test with the answer negated.
pub open spec fn inverted<E>(r: Result<bool, E>) -> Result<bool, E> {
    match r {
        Ok(b) => Ok(!b),
        Err(e) => Err(e),
    }
}

/// Holds when setting (or clearing) `pin`'s bit of `register` may take `pre`
/// to `post` and return `r`: a byte read of `register`, then, if it
/// succeeded, a byte write of the value read with that one bit changed.
pub open spec fn read_modify_write<X: Expander>(
    pre: X,
    post: X,
    register: Register,
    pin: u8,
    set: bool,
    r: Result<(), ExpanderError<X::Error>>,
) -> bool {
    ||| r is Err && X::read_byte_spec(pre, post, register, Err(r->Err_0))
    ||| exists|mid: X, v: u8|
        #[trigger] X::read_byte_spec(pre, mid, register, Ok(v)) && X::write_byte_spec(
            mid,
            post,
            register,
            with_bit(v, pin, set),
            r,
        )
}

/// Holds when testing `pin`'s bit of `register` may take `pre` to `post` and
/// return `r`: one byte read of `register`, whose bit is returned.
pub open spec fn read_bit<X: Expander>(
    pre: X,
    post: X,
    register: Register,
    pin: u8,
    r: Result<bool, ExpanderError<X::Error>>,
) -> bool {
    ||| r is Err && X::read_byte_spec(pre, post, register, Err(r->Err_0))
    ||| r is Ok && exists|v: u8|
        #[trigger] X::read_byte_spec(pre, post, register, Ok(v)) && r->Ok_0 == bit_is_set(v, pin)
}

/// Sets or clears `pin`'s bit of `register` by a read and a write.
pub(crate) fn update_bit<X: Expander>(expander: &mut X, register: Register, pin: u8, set: bool) -> (r: Result<
    (),
    ExpanderError<X::Error>,
>)
    requires
        pin < 8,
    ensures
        read_modify_write(*old(expander), *final(expander), register, pin, set, r),
{
    let ghost pre = *expander;
    let mut reg_val: u8 = 0x00;
    let read = expander.read_byte(register, &mut reg_val);
    let ghost mid = *expander;
    match read {
        Ok(()) => {},
        Err(e) => {
            return Err(e);
        },
    }
    assert(X::read_byte_spec(pre, mid, register, Ok(reg_val)));
    expander.write_byte(register, with_pin_bit(reg_val, pin, set))
}

/// Holds when making `pin` of `bank` an output driven high (`high`) or low
/// may take `pre` to `post` and return `r`: first the output register's bit
/// is set to the level by a read-modify-write; only if that succeeded is the
/// configuration register's bit cleared by a second one. The first error is
/// returned and stops the rest.
pub open spec fn output_setup<X: Expander>(
    pre: X,
    post: X,
    bank: GPIOBank,
    pin: u8,
    high: bool,
    r: Result<(), ExpanderError<X::Error>>,
) -> bool {
    exists|mid: X, level: Result<(), ExpanderError<X::Error>>|
        #[trigger] read_modify_write(pre, mid, bank.output(), pin, high, level) && (level is Err
            ==> r == level && post == mid) && (level is Ok ==> read_modify_write(
            mid,
            post,
            bank.configuration(),
            pin,
            false,
            r,
        ))
}

/// Sets `pin`'s output level, then configures it as an output, so that the
/// pin never drives a stale level.
pub(crate) fn setup_output<X: Expander>(expander: &mut X, bank: GPIOBank, pin: u8, high: bool) -> (r:
    Result<(), ExpanderError<X::Error>>)
    requires
        pin < 8,
    ensures
        output_setup(*old(expander), *final(expander), bank, pin, high, r),
{
    let ghost pre = *expander;
    let level = update_bit(expander, bank.output_register(), pin, high);
    let ghost mid = *expander;
    match level {
        Ok(()) => {},
        Err(e) => {
            assert(read_modify_write(pre, mid, bank.output(), pin, high, level));
            return Err(e);
        },
    }
    let r = update_bit(expander, bank.configuration_register(), pin, false);
    assert(read_modify_write(pre, mid, bank.output(), pin, high, level));
    r
}

/// Reads `register` and returns `pin`'s bit.
fn test_bit<X: Expander>(expander: &mut X, register: Register, pin: u8) -> (r: Result<
    bool,
    ExpanderError<X::Error>,
>)
    requires
        pin < 8,
    ensures
        read_bit(*old(expander), *final(expander), register, pin, r),
{
    let mut reg_val: u8 = 0x00;
    let read = expander.read_byte(register, &mut reg_val);
    match read {
        Ok(()) => {},
        Err(e) => {
            return Err(e);
        },
    }
    Ok(pin_bit(reg_val, pin))
}

/// Pin-level operations on either driver.
///
/// Nothing here tracks whether a pin is configured as input or output; the
/// caller configures pins before using them.
pub trait StandardExpanderInterface: Expander {
    /// Drives `pin` of `bank` high.
    fn pin_set_high(&mut self, bank: GPIOBank, pin: u8) -> (r: Result<(), ExpanderError<Self::Error>>)
        requires
            pin < 8,
        ensures
            read_modify_write(*old(self), *final(self), bank.output(), pin, true, r),
    {
        update_bit(self, bank.output_register(), pin, true)
    }

    /// Drives `pin` of `bank` low.
    fn pin_set_low(&mut self, bank: GPIOBank, pin: u8) -> (r: Result<(), ExpanderError<Self::Error>>)
        requires
            pin < 8,
        ensures
            read_modify_write(*old(self), *final(self), bank.output(), pin, false, r),
    {
        update_bit(self, bank.output_register(), pin, false)
    }

    /// Whether the input register reports `pin` of `bank` high: the level at
    /// the pin, inverted where polarity inversion is on.
    fn pin_is_high(&mut self, bank: GPIOBank, pin: u8) -> (r: Result<bool, ExpanderError<Self::Error>>)
        requires
            pin < 8,
        ensures
            read_bit(*old(self), *final(self), bank.input(), pin, r),
    {
        test_bit(self, bank.input_register(), pin)
    }

    /// Whether the input register reports `pin` of `bank` low.
    fn pin_is_low(&mut self, bank: GPIOBank, pin: u8) -> (r: Result<bool, ExpanderError<Self::Error>>)
        requires
            pin < 8,
        ensures
            read_bit(*old(self), *final(self), bank.input(), pin, inverted(r)),
    {
        match test_bit(self, bank.input_register(), pin) {
            Ok(high) => Ok(!high),
            Err(e) => Err(e),
        }
    }

    /// Configures `pin` of `bank` as an input.
    fn pin_into_input(&mut self, bank: GPIOBank, pin: u8) -> (r: Result<(), ExpanderError<Self::Error>>)
        requires
            pin < 8,
        ensures
            read_modify_write(*old(self), *final(self), bank.configuration(), pin, true, r),
    {
        update_bit(self, bank.configuration_register(), pin, true)
    }

    /// Configures `pin` of `bank` as an output.
    fn pin_into_output(&mut self, bank: GPIOBank, pin: u8) -> (r: Result<(), ExpanderError<Self::Error>>)
        requires
            pin < 8,
        ensures
            read_modify_write(*old(self), *final(self), bank.configuration(), pin, false, r),
    {
        update_bit(self, bank.configuration_register(), pin, false)
    }

    /// Inverts the reported polarity of `pin` of `bank`: a high level then
    /// reads as low.
    fn pin_inverse_polarity(&mut self, bank: GPIOBank, pin: u8) -> (r: Result<(), ExpanderError<Self::Error>>)
        requires
            pin < 8,
        ensures
            read_modify_write(*old(self), *final(self), bank.polarity_inversion(), pin, true, r),
    {
        update_bit(self, bank.polarity_inversion_register(), pin, true)
    }

    /// Restores the normal reported polarity of `pin` of `bank`.
    fn pin_normal_polarity(&mut self, bank: GPIOBank, pin: u8) -> (r: Result<(), ExpanderError<Self::Error>>)
        requires
            pin < 8,
        ensures
            read_modify_write(*old(self), *final(self), bank.polarity_inversion(), pin, false, r),
    {
        update_bit(self, bank.polarity_inversion_register(), pin, false)
    }

    /// Inverts the reported polarity of all sixteen pins in one half-word write.
    fn inverse_polarity(&mut self) -> (r: Result<(), ExpanderError<Self::Error>>)
        ensures
            Self::write_halfword_spec(
                *old(self),
                *final(self),
                Register::PolarityInversionPort0,
                0xFFFF,
                r,
            ),
    {
        self.write_halfword(Register::PolarityInversionPort0, 0xFFFF)
    }

    /// Restores the normal reported polarity of all sixteen pins in one
    /// half-word write.
    fn normal_polarity(&mut self) -> (r: Result<(), ExpanderError<Self::Error>>)
        ensures
            Self::write_halfword_spec(
                *old(self),
                *final(self),
                Register::PolarityInversionPort0,
                0x0000,
                r,
            ),
    {
        self.write_halfword(Register::PolarityInversionPort0, 0x0000)
    }
}

} // verus!

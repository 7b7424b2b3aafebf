//! Single-pin handles over a shared expander.
use vstd::prelude::*;

use crate::error::ExpanderError;
use crate::register::{GPIOBank, PinState, Polarity, Register};
use crate::standard::{bit_is_set, inverted, pin_bit};
use crate::sync::SyncExpander;

verus! {

/// The outcome of `r` with its value dropped.
pub open spec fn outcome<T, E>(r: Result<T, E>) -> Result<(), E> {
    match r {
        Ok(_) => Ok(()),
        Err(e) => Err(e),
    }
}

/// Holds when testing `pin`'s bit of `register` through `io` may return
/// `r`: one byte read of `register`, whose error or whose bit is returned.
pub open spec fn sync_read_bit<Io: SyncExpander>(
    io: Io,
    register: Register,
    pin: u8,
    r: Result<bool, ExpanderError<Io::Error>>,
) -> bool {
    ||| r is Err && io.read_byte_spec(register, Err(r->Err_0))
    ||| r is Ok && exists|v: u8|
        #[trigger] io.read_byte_spec(register, Ok(v)) && r->Ok_0 == bit_is_set(v, pin)
}

proof fn lemma_unit_ok<E>(r: Result<(), E>)
    requires
        r is Ok,
    ensures
        r == Ok::<(), E>(()),
{
    let u: () = r->Ok_0;
    assert(r == Ok::<(), E>(u));
}

/// Reads `register` through the shared expander and returns `pin`'s bit.
fn test_bit<Io: SyncExpander>(expander: &Io, register: Register, pin: u8) -> (r: Result<
    bool,
    ExpanderError<Io::Error>,
>)
    requires
        pin < 8,
    ensures
        sync_read_bit(*expander, register, pin, r),
{
    let mut reg_val: u8 = 0x00;
    match expander.read_byte(register, &mut reg_val) {
        Ok(()) => {},
        Err(e) => {
            return Err(e);
        },
    }
    Ok(pin_bit(reg_val, pin))
}

/// One pin of the expander, configured as an input.
pub struct ExpanderInputPin<'a, Io> {
    expander: &'a Io,
    bank: GPIOBank,
    pin: u8,
}

/// One pin of the expander, configured as an output.
pub struct ExpanderOutputPin<'a, Io> {
    expander: &'a Io,
    bank: GPIOBank,
    pin: u8,
}

impl<'a, Io> ExpanderInputPin<'a, Io> {
    #[verifier::type_invariant]
    spec fn valid(&self) -> bool {
        self.pin < 8
    }

    /// The expander this pin belongs to.
    pub closed spec fn io(&self) -> Io {
        *self.expander
    }

    pub closed spec fn bank(&self) -> GPIOBank {
        self.bank
    }

    pub closed spec fn pin(&self) -> u8 {
        self.pin
    }
}

impl<'a, Io> ExpanderOutputPin<'a, Io> {
    #[verifier::type_invariant]
    spec fn valid(&self) -> bool {
        self.pin < 8
    }

    /// The expander this pin belongs to.
    pub closed spec fn io(&self) -> Io {
        *self.expander
    }

    pub closed spec fn bank(&self) -> GPIOBank {
        self.bank
    }

    pub closed spec fn pin(&self) -> u8 {
        self.pin
    }
}

impl<'a, Io: SyncExpander> ExpanderInputPin<'a, Io> {
    /// Configures `pin` of `bank` as an input (sets its configuration bit)
    /// and returns its handle.
    pub fn new(expander: &'a Io, bank: GPIOBank, pin: u8) -> (r: Result<Self, ExpanderError<Io::Error>>)
        requires
            pin < 8,
        ensures
            expander.update_pin_bit_spec(bank.configuration(), pin, true, outcome(r)),
            r is Ok ==> r->Ok_0.io() == *expander && r->Ok_0.bank() == bank && r->Ok_0.pin()
                == pin,
    {
        let w = expander.update_pin_bit(bank.configuration_register(), pin, true);
        match w {
            Ok(()) => {
                proof {
                    lemma_unit_ok(w);
                }
                Ok(ExpanderInputPin { expander, bank, pin })
            },
            Err(e) => Err(e),
        }
    }

    /// Sets how the device reports this pin (its polarity-inversion bit):
    /// with [`Polarity::Inverse`] a high level reads as low.
    pub fn set_polarity(&mut self, polarity: Polarity) -> (r: Result<(), ExpanderError<Io::Error>>)
        ensures
            old(self).io().update_pin_bit_spec(
                old(self).bank().polarity_inversion(),
                old(self).pin(),
                polarity is Inverse,
                r,
            ),
            *final(self) == *old(self),
    {
        proof {
            use_type_invariant(&*self);
        }
        let register = self.bank.polarity_inversion_register();
        match polarity {
            Polarity::Normal => self.expander.update_pin_bit(register, self.pin, false),
            Polarity::Inverse => self.expander.update_pin_bit(register, self.pin, true),
        }
    }

    /// Whether the input register reports this pin high.
    pub fn is_high(&self) -> (r: Result<bool, ExpanderError<Io::Error>>)
        ensures
            sync_read_bit(self.io(), self.bank().input(), self.pin(), r),
    {
        proof {
            use_type_invariant(self);
        }
        test_bit(self.expander, self.bank.input_register(), self.pin)
    }

    /// Whether the input register reports this pin low.
    pub fn is_low(&self) -> (r: Result<bool, ExpanderError<Io::Error>>)
        ensures
            sync_read_bit(self.io(), self.bank().input(), self.pin(), inverted(r)),
    {
        proof {
            use_type_invariant(self);
        }
        match test_bit(self.expander, self.bank.input_register(), self.pin) {
            Ok(high) => Ok(!high),
            Err(e) => Err(e),
        }
    }

    /// Turns this pin into an output driven to `state`, as
    /// [`ExpanderOutputPin::new`] does.
    pub fn into_output_pin(self, state: PinState) -> (r: Result<
        ExpanderOutputPin<'a, Io>,
        ExpanderError<Io::Error>,
    >)
        ensures
            self.io().setup_output_pin_spec(self.bank(), self.pin(), state is High, outcome(r)),
            r is Ok ==> r->Ok_0.io() == self.io() && r->Ok_0.bank() == self.bank()
                && r->Ok_0.pin() == self.pin(),
    {
        proof {
            use_type_invariant(&self);
        }
        ExpanderOutputPin::new(self.expander, self.bank, self.pin, state)
    }
}

impl<'a, Io: SyncExpander> ExpanderOutputPin<'a, Io> {
    /// Drives `pin` of `bank` to `state` (its output bit), then configures it
    /// as an output (clears its configuration bit), both under one hold of the
    /// lock, and returns its handle. The level is set first so that the pin
    /// never drives a stale value.
    pub fn new(expander: &'a Io, bank: GPIOBank, pin: u8, state: PinState) -> (r: Result<
        Self,
        ExpanderError<Io::Error>,
    >)
        requires
            pin < 8,
        ensures
            expander.setup_output_pin_spec(bank, pin, state is High, outcome(r)),
            r is Ok ==> r->Ok_0.io() == *expander && r->Ok_0.bank() == bank && r->Ok_0.pin()
                == pin,
    {
        let high = match state {
            PinState::High => true,
            PinState::Low => false,
        };
        let w = expander.setup_output_pin(bank, pin, high);
        match w {
            Ok(()) => {
                proof {
                    lemma_unit_ok(w);
                }
                Ok(ExpanderOutputPin { expander, bank, pin })
            },
            Err(e) => Err(e),
        }
    }

    /// Drives this pin low.
    pub fn set_low(&mut self) -> (r: Result<(), ExpanderError<Io::Error>>)
        ensures
            old(self).io().update_pin_bit_spec(old(self).bank().output(), old(self).pin(), false, r),
            *final(self) == *old(self),
    {
        proof {
            use_type_invariant(&*self);
        }
        self.expander.update_pin_bit(self.bank.output_register(), self.pin, false)
    }

    /// Drives this pin high.
    pub fn set_high(&mut self) -> (r: Result<(), ExpanderError<Io::Error>>)
        ensures
            old(self).io().update_pin_bit_spec(old(self).bank().output(), old(self).pin(), true, r),
            *final(self) == *old(self),
    {
        proof {
            use_type_invariant(&*self);
        }
        self.expander.update_pin_bit(self.bank.output_register(), self.pin, true)
    }

    /// Turns this pin into an input, as [`ExpanderInputPin::new`] does.
    pub fn into_input_pin(self) -> (r: Result<ExpanderInputPin<'a, Io>, ExpanderError<Io::Error>>)
        ensures
            self.io().update_pin_bit_spec(self.bank().configuration(), self.pin(), true, outcome(r)),
            r is Ok ==> r->Ok_0.io() == self.io() && r->Ok_0.bank() == self.bank()
                && r->Ok_0.pin() == self.pin(),
    {
        proof {
            use_type_invariant(&self);
        }
        ExpanderInputPin::new(self.expander, self.bank, self.pin)
    }
}

} // verus!

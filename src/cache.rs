//! The mirror of the device's registers kept by the cached driver, and how
//! each successful transaction changes it.
use vstd::prelude::*;

use crate::register::Register;

verus! {

/// The high byte of a half-word: the part that lands in the named register.
pub open spec fn high_byte(v: u16) -> u8 {
    (v / 256) as u8
}

/// The low byte of a half-word: the part that lands in the named register's
/// neighbor.
pub open spec fn low_byte(v: u16) -> u8 {
    (v % 256) as u8
}

/// The half-word made of a high and a low byte.
pub open spec fn halfword(high: u8, low: u8) -> u16 {
    (high * 256 + low) as u16
}

/// Splits a half-word into its high and low bytes.
pub fn split_halfword(v: u16) -> (r: (u8, u8))
    ensures
        r.0 == high_byte(v),
        r.1 == low_byte(v),
        halfword(r.0, r.1) == v,
{
    ((v / 256) as u8, (v % 256) as u8)
}

/// Joins a high and a low byte into a half-word.
pub fn join_halfword(high: u8, low: u8) -> (r: u16)
    ensures
        r == halfword(high, low),
        high_byte(r) == high,
        low_byte(r) == low,
{
    (high as u16) * 256 + (low as u16)
}

/// The values the driver believes the device's eight registers hold.
#[derive(Debug, Copy, Clone, PartialEq, Eq, Structural)]
pub struct RegisterCache {
    pub input_port_0: u8,
    pub input_port_1: u8,
    pub output_port_0: u8,
    pub output_port_1: u8,
    pub polarity_inversion_port_0: u8,
    pub polarity_inversion_port_1: u8,
    pub configuration_port_0: u8,
    pub configuration_port_1: u8,
}

impl RegisterCache {
    /// The register values the device holds after power-on.
    pub open spec fn power_on() -> RegisterCache {
        RegisterCache {
            input_port_0: 0x00,
            input_port_1: 0x00,
            output_port_0: 0xFF,
            output_port_1: 0xFF,
            polarity_inversion_port_0: 0x00,
            polarity_inversion_port_1: 0x00,
            configuration_port_0: 0xFF,
            configuration_port_1: 0xFF,
        }
    }

    pub open spec fn value(self, register: Register) -> u8 {
        match register {
            Register::InputPort0 => self.input_port_0,
            Register::InputPort1 => self.input_port_1,
            Register::OutputPort0 => self.output_port_0,
            Register::OutputPort1 => self.output_port_1,
            Register::PolarityInversionPort0 => self.polarity_inversion_port_0,
            Register::PolarityInversionPort1 => self.polarity_inversion_port_1,
            Register::ConfigurationPort0 => self.configuration_port_0,
            Register::ConfigurationPort1 => self.configuration_port_1,
        }
    }

    pub open spec fn with_value(self, register: Register, v: u8) -> RegisterCache {
        match register {
            Register::InputPort0 => RegisterCache { input_port_0: v, ..self },
            Register::InputPort1 => RegisterCache { input_port_1: v, ..self },
            Register::OutputPort0 => RegisterCache { output_port_0: v, ..self },
            Register::OutputPort1 => RegisterCache { output_port_1: v, ..self },
            Register::PolarityInversionPort0 => RegisterCache {
                polarity_inversion_port_0: v,
                ..self
            },
            Register::PolarityInversionPort1 => RegisterCache {
                polarity_inversion_port_1: v,
                ..self
            },
            Register::ConfigurationPort0 => RegisterCache { configuration_port_0: v, ..self },
            Register::ConfigurationPort1 => RegisterCache { configuration_port_1: v, ..self },
        }
    }

    /// The mirror after `v` was written to `register`.
    ///
    /// Flipping a polarity-inversion bit flips how the device reports that
    /// pin in its input register, and the device raises no interrupt for it;
    /// so the flipped bits are applied to the mirrored input register of the
    /// same bank.
    pub open spec fn after_byte_write(self, register: Register, v: u8) -> RegisterCache {
        if register.spec_is_polarity_inversion() {
            let input = register.bank().input();
            let flipped = self.value(register) ^ v;
            self.with_value(input, self.value(input) ^ flipped).with_value(register, v)
        } else {
            self.with_value(register, v)
        }
    }

    /// The mirror after the half-word `v` was written starting at `register`:
    /// its high byte lands in `register` and its low byte in the neighbor.
    pub open spec fn after_halfword_write(self, register: Register, v: u16) -> RegisterCache {
        self.after_byte_write(register, high_byte(v)).after_byte_write(
            register.neighbor(),
            low_byte(v),
        )
    }

    /// The mirror with `first` in `register` and `second` in its neighbor.
    pub open spec fn with_pair(self, register: Register, first: u8, second: u8) -> RegisterCache {
        self.with_value(register, first).with_value(register.neighbor(), second)
    }

    /// The mirror seeded with the device's power-on values.
    pub fn defaults() -> (r: RegisterCache)
        ensures
            r == RegisterCache::power_on(),
    {
        RegisterCache {
            input_port_0: 0x00,
            input_port_1: 0x00,
            output_port_0: 0xFF,
            output_port_1: 0xFF,
            polarity_inversion_port_0: 0x00,
            polarity_inversion_port_1: 0x00,
            configuration_port_0: 0xFF,
            configuration_port_1: 0xFF,
        }
    }

    /// The mirrored value of `register`.
    pub fn get(&self, register: Register) -> (r: u8)
        ensures
            r == self.value(register),
    {
        match register {
            Register::InputPort0 => self.input_port_0,
            Register::InputPort1 => self.input_port_1,
            Register::OutputPort0 => self.output_port_0,
            Register::OutputPort1 => self.output_port_1,
            Register::PolarityInversionPort0 => self.polarity_inversion_port_0,
            Register::PolarityInversionPort1 => self.polarity_inversion_port_1,
            Register::ConfigurationPort0 => self.configuration_port_0,
            Register::ConfigurationPort1 => self.configuration_port_1,
        }
    }

    /// Replaces the mirrored value of `register`.
    pub fn set(&mut self, register: Register, value: u8)
        ensures
            *final(self) == old(self).with_value(register, value),
    {
        match register {
            Register::InputPort0 => self.input_port_0 = value,
            Register::InputPort1 => self.input_port_1 = value,
            Register::OutputPort0 => self.output_port_0 = value,
            Register::OutputPort1 => self.output_port_1 = value,
            Register::PolarityInversionPort0 => self.polarity_inversion_port_0 = value,
            Register::PolarityInversionPort1 => self.polarity_inversion_port_1 = value,
            Register::ConfigurationPort0 => self.configuration_port_0 = value,
            Register::ConfigurationPort1 => self.configuration_port_1 = value,
        }
    }

    /// Stores `first` in `register` and `second` in its neighbor.
    pub fn set_pair(&mut self, register: Register, first: u8, second: u8)
        ensures
            *final(self) == old(self).with_pair(register, first, second),
    {
        self.set(register, first);
        self.set(register.get_neighbor(), second);
    }
}

} // verus!

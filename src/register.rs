//! The register map of the device, its banks and pin levels.
use vstd::prelude::*;

verus! {

/// The data registers of the device.
///
/// The registers are 8 bits wide and form four pairs. A half-word written to
/// a register lands with its high byte in that register and its low byte in
/// the other member of the pair; half-word reads work the same way.
#[derive(Debug, Copy, Clone, PartialEq, Eq, Structural)]
pub enum Register {
    InputPort0,
    InputPort1,
    OutputPort0,
    OutputPort1,
    PolarityInversionPort0,
    PolarityInversionPort1,
    ConfigurationPort0,
    ConfigurationPort1,
}

/// The two GPIO banks of the device, eight pins each.
#[derive(Debug, Copy, Clone, PartialEq, Eq, Structural)]
pub enum GPIOBank {
    Bank0,
    Bank1,
}

/// How the device reports the level of an input pin.
#[derive(Debug, Copy, Clone, PartialEq, Eq, Structural)]
pub enum Polarity {
    Normal,
    Inverse,
}

/// The level an output pin is driven to.
#[derive(Debug, Copy, Clone, PartialEq, Eq, Structural)]
pub enum PinState {
    Low,
    High,
}

impl Register {
    /// The command byte that selects this register on the bus.
    pub open spec fn spec_address(self) -> u8 {
        match self {
            Register::InputPort0 => 0x00,
            Register::InputPort1 => 0x01,
            Register::OutputPort0 => 0x02,
            Register::OutputPort1 => 0x03,
            Register::PolarityInversionPort0 => 0x04,
            Register::PolarityInversionPort1 => 0x05,
            Register::ConfigurationPort0 => 0x06,
            Register::ConfigurationPort1 => 0x07,
        }
    }

    /// The other member of this register's pair.
    pub open spec fn neighbor(self) -> Register {
        match self {
            Register::InputPort0 => Register::InputPort1,
            Register::InputPort1 => Register::InputPort0,
            Register::OutputPort0 => Register::OutputPort1,
            Register::OutputPort1 => Register::OutputPort0,
            Register::PolarityInversionPort0 => Register::PolarityInversionPort1,
            Register::PolarityInversionPort1 => Register::PolarityInversionPort0,
            Register::ConfigurationPort0 => Register::ConfigurationPort1,
            Register::ConfigurationPort1 => Register::ConfigurationPort0,
        }
    }

    pub open spec fn spec_is_input(self) -> bool {
        self is InputPort0 || self is InputPort1
    }

    pub open spec fn spec_is_polarity_inversion(self) -> bool {
        self is PolarityInversionPort0 || self is PolarityInversionPort1
    }

    /// The bank whose pins this register describes.
    pub open spec fn bank(self) -> GPIOBank {
        match self {
            Register::InputPort0 | Register::OutputPort0 | Register::PolarityInversionPort0
            | Register::ConfigurationPort0 => GPIOBank::Bank0,
            _ => GPIOBank::Bank1,
        }
    }

    /// The command byte that selects this register on the bus.
    pub fn address(&self) -> (r: u8)
        ensures
            r == self.spec_address(),
    {
        match self {
            Register::InputPort0 => 0x00,
            Register::InputPort1 => 0x01,
            Register::OutputPort0 => 0x02,
            Register::OutputPort1 => 0x03,
            Register::PolarityInversionPort0 => 0x04,
            Register::PolarityInversionPort1 => 0x05,
            Register::ConfigurationPort0 => 0x06,
            Register::ConfigurationPort1 => 0x07,
        }
    }

    /// Returns the other member of this register's pair.
    pub fn get_neighbor(&self) -> (r: Register)
        ensures
            r == self.neighbor(),
    {
        match self {
            Register::InputPort0 => Register::InputPort1,
            Register::InputPort1 => Register::InputPort0,
            Register::OutputPort0 => Register::OutputPort1,
            Register::OutputPort1 => Register::OutputPort0,
            Register::PolarityInversionPort0 => Register::PolarityInversionPort1,
            Register::PolarityInversionPort1 => Register::PolarityInversionPort0,
            Register::ConfigurationPort0 => Register::ConfigurationPort1,
            Register::ConfigurationPort1 => Register::ConfigurationPort0,
        }
    }

    /// Returns true for the two input registers.
    pub fn is_input(&self) -> (r: bool)
        ensures
            r == self.spec_is_input(),
    {
        matches!(self, Register::InputPort0 | Register::InputPort1)
    }

    /// Returns true for the two polarity-inversion registers.
    pub fn is_polarity_inversion(&self) -> (r: bool)
        ensures
            r == self.spec_is_polarity_inversion(),
    {
        matches!(self, Register::PolarityInversionPort0 | Register::PolarityInversionPort1)
    }
}

impl GPIOBank {
    pub open spec fn input(self) -> Register {
        match self {
            GPIOBank::Bank0 => Register::InputPort0,
            GPIOBank::Bank1 => Register::InputPort1,
        }
    }

    pub open spec fn output(self) -> Register {
        match self {
            GPIOBank::Bank0 => Register::OutputPort0,
            GPIOBank::Bank1 => Register::OutputPort1,
        }
    }

    pub open spec fn polarity_inversion(self) -> Register {
        match self {
            GPIOBank::Bank0 => Register::PolarityInversionPort0,
            GPIOBank::Bank1 => Register::PolarityInversionPort1,
        }
    }

    pub open spec fn configuration(self) -> Register {
        match self {
            GPIOBank::Bank0 => Register::ConfigurationPort0,
            GPIOBank::Bank1 => Register::ConfigurationPort1,
        }
    }

    /// The input register of this bank.
    pub fn input_register(&self) -> (r: Register)
        ensures
            r == self.input(),
    {
        match self {
            GPIOBank::Bank0 => Register::InputPort0,
            GPIOBank::Bank1 => Register::InputPort1,
        }
    }

    /// The output register of this bank.
    pub fn output_register(&self) -> (r: Register)
        ensures
            r == self.output(),
    {
        match self {
            GPIOBank::Bank0 => Register::OutputPort0,
            GPIOBank::Bank1 => Register::OutputPort1,
        }
    }

    /// The polarity-inversion register of this bank.
    pub fn polarity_inversion_register(&self) -> (r: Register)
        ensures
            r == self.polarity_inversion(),
    {
        match self {
            GPIOBank::Bank0 => Register::PolarityInversionPort0,
            GPIOBank::Bank1 => Register::PolarityInversionPort1,
        }
    }

    /// The configuration register of this bank.
    pub fn configuration_register(&self) -> (r: Register)
        ensures
            r == self.configuration(),
    {
        match self {
            GPIOBank::Bank0 => Register::ConfigurationPort0,
            GPIOBank::Bank1 => Register::ConfigurationPort1,
        }
    }
}

/// Each register is the neighbor of its neighbor, and a pair never joins two
/// registers of one bank or of different functions.
pub proof fn lemma_neighbor_involution(r: Register)
    ensures
        r.neighbor().neighbor() == r,
        r.neighbor() != r,
        r.neighbor().bank() != r.bank(),
        r.neighbor().spec_is_input() == r.spec_is_input(),
        r.neighbor().spec_is_polarity_inversion() == r.spec_is_polarity_inversion(),
{
}

} // verus!

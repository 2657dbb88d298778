//! Register definitions for the TCA9534 8-bit I/O expander.
//!
//! The device exposes four one-byte registers, one bit per pin
//! (bit index = pin index, pins 0 through 7).

use vstd::prelude::*;

verus! {

/// The four addressable registers of the device.
#[derive(Debug, Copy, Clone)]
pub enum Register {
    /// Input port register (0x00), read only: reflects the incoming logic
    /// level of each pin, regardless of the pin's configured direction.
    InputPort,
    /// Output port register (0x01), read/write: the driven level for pins
    /// configured as outputs.
    OutputPort,
    /// Polarity inversion register (0x02), read/write: a 1 bit inverts the
    /// input port reading for that pin.
    Polarity,
    /// Configuration register (0x03), read/write: a 1 bit makes the pin an
    /// input (the reset state), a 0 bit makes it an output.
    Config,
}

impl Register {
    /// The one-byte bus address of this register.
    pub open spec fn addr_spec(self) -> u8 {
        match self {
            Register::InputPort => 0x00,
            Register::OutputPort => 0x01,
            Register::Polarity => 0x02,
            Register::Config => 0x03,
        }
    }

    /// Get register address.
    #[verifier::when_used_as_spec(addr_spec)]
    pub fn addr(self) -> (r: u8)
        ensures
            r == self.addr_spec(),
    {
        match self {
            Register::InputPort => 0x00,
            Register::OutputPort => 0x01,
            Register::Polarity => 0x02,
            Register::Config => 0x03,
        }
    }
}

/// Pin direction: each Config register bit holds one of these.
#[derive(Debug, Copy, Clone, PartialEq)]
pub enum PinConfig {
    /// Pin configured as input (high impedance); the reset state.
    Input,
    /// Pin configured as output (can drive high or low).
    Output,
}

impl PinConfig {
    /// The Config register bit value for this direction.
    pub open spec fn bits_spec(self) -> u8 {
        match self {
            PinConfig::Input => 1,
            PinConfig::Output => 0,
        }
    }

    /// Get pin config bit value.
    #[verifier::when_used_as_spec(bits_spec)]
    pub fn bits(self) -> (r: u8)
        ensures
            r == self.bits_spec(),
    {
        match self {
            PinConfig::Input => 1,
            PinConfig::Output => 0,
        }
    }
}

/// Pin polarity: each Polarity register bit holds one of these.
#[derive(Debug, Copy, Clone, PartialEq)]
pub enum PinPolarity {
    /// Normal polarity (the reset state): the input port bit reflects the
    /// level on the pin.
    Normal,
    /// Inverted polarity: the input port bit reflects the inverted level.
    Inverted,
}

impl PinPolarity {
    /// The Polarity register bit value for this setting.
    pub open spec fn bits_spec(self) -> u8 {
        match self {
            PinPolarity::Normal => 0,
            PinPolarity::Inverted => 1,
        }
    }

    /// Get polarity bit value.
    #[verifier::when_used_as_spec(bits_spec)]
    pub fn bits(self) -> (r: u8)
        ensures
            r == self.bits_spec(),
    {
        match self {
            PinPolarity::Normal => 0,
            PinPolarity::Inverted => 1,
        }
    }
}

/// Binary logic level of a pin.
#[derive(Debug, Copy, Clone, PartialEq)]
pub enum PinLevel {
    /// Logic low.
    Low,
    /// Logic high.
    High,
}

impl PinLevel {
    /// The register bit value for this level.
    pub open spec fn bits_spec(self) -> u8 {
        match self {
            PinLevel::Low => 0,
            PinLevel::High => 1,
        }
    }

    /// Get level bit value.
    #[verifier::when_used_as_spec(bits_spec)]
    pub fn bits(self) -> (r: u8)
        ensures
            r == self.bits_spec(),
    {
        match self {
            PinLevel::Low => 0,
            PinLevel::High => 1,
        }
    }
}

/// Pin number type (0-7).
pub type Pin = u8;

/// Port value type (8-bit value representing all pins).
pub type PortValue = u8;

} // verus!

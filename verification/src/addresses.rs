//! Common I2C addresses for the TCA9534, by the strapping of the A2, A1
//! and A0 pins.

use vstd::prelude::*;

verus! {

/// A2=0, A1=0, A0=0 (default).
pub const ADDR_000: u8 = 0x20;

/// A2=0, A1=0, A0=1.
pub const ADDR_001: u8 = 0x21;

/// A2=0, A1=1, A0=0.
pub const ADDR_010: u8 = 0x22;

/// A2=0, A1=1, A0=1.
pub const ADDR_011: u8 = 0x23;

/// A2=1, A1=0, A0=0.
pub const ADDR_100: u8 = 0x24;

/// A2=1, A1=0, A0=1.
pub const ADDR_101: u8 = 0x25;

/// A2=1, A1=1, A0=0.
pub const ADDR_110: u8 = 0x26;

/// A2=1, A1=1, A0=1.
pub const ADDR_111: u8 = 0x27;

} // verus!

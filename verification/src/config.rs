//! Whole-port configuration constants.

use vstd::prelude::*;

verus! {

/// All pins configured as inputs.
pub const ALL_INPUTS: u8 = 0xFF;

/// All pins configured as outputs.
pub const ALL_OUTPUTS: u8 = 0x00;

/// All pins normal polarity.
pub const ALL_NORMAL_POLARITY: u8 = 0x00;

/// All pins inverted polarity.
pub const ALL_INVERTED_POLARITY: u8 = 0xFF;

/// All outputs low.
pub const ALL_OUTPUTS_LOW: u8 = 0x00;

/// All outputs high.
pub const ALL_OUTPUTS_HIGH: u8 = 0xFF;

} // verus!

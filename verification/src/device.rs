//! Abstract model of a TCA9534 device and of a bus carrying such devices.
//!
//! A transport's ghost state is a map from seven-bit device address to
//! [`DeviceModel`]. The spec functions here say how one bus transaction is
//! allowed to change that state: a write transaction replaces one writable
//! register of one device, and every transaction leaves the writable
//! registers of all other devices alone. The input port is live pin state,
//! so no transaction pins it down.

use crate::bits::bit_at;
use vstd::prelude::*;

verus! {

/// The observable register state of one device.
///
/// `input` is the byte the input port register would report right now; it
/// tracks the physical pins and may change between any two transactions.
/// The other three fields are the writable registers, which hold exactly
/// what was last written to them.
pub struct DeviceModel {
    /// Current input port reading (live pin state).
    pub input: u8,
    /// Output port register.
    pub output: u8,
    /// Polarity inversion register.
    pub polarity: u8,
    /// Configuration register.
    pub config: u8,
}

/// The writable registers of `d1` hold the same bytes as those of `d0`.
///
/// The input port is deliberately left out: it follows the pins, not the
/// transaction history.
pub open spec fn keeps_regs(d0: DeviceModel, d1: DeviceModel) -> bool {
    &&& d1.output == d0.output
    &&& d1.polarity == d0.polarity
    &&& d1.config == d0.config
}

/// `d1` is `d0` after a bus write of byte `v` to register address `reg`.
///
/// Register 0x00 (the input port) is read only, so a write there changes
/// nothing; the device keeps any register address above 0x03 unmapped, so
/// such a write changes nothing either.
pub open spec fn writes_reg(d0: DeviceModel, d1: DeviceModel, reg: u8, v: u8) -> bool {
    &&& d1.output == (if reg == 0x01 { v } else { d0.output })
    &&& d1.polarity == (if reg == 0x02 { v } else { d0.polarity })
    &&& d1.config == (if reg == 0x03 { v } else { d0.config })
}

/// A transaction that writes nothing: the same devices are on the bus and
/// every one of them keeps its writable registers.
pub open spec fn same_devices(b0: Map<u8, DeviceModel>, b1: Map<u8, DeviceModel>) -> bool {
    &&& b1.dom() == b0.dom()
    &&& forall|a: u8| b0.dom().contains(a) ==> keeps_regs(b0[a], #[trigger] b1[a])
}

/// A single write transaction of byte `v` to register `reg` of the device
/// at `addr`: that device takes the write, every other device keeps its
/// writable registers, and the set of devices on the bus does not change.
pub open spec fn bus_write(
    b0: Map<u8, DeviceModel>,
    b1: Map<u8, DeviceModel>,
    addr: u8,
    reg: u8,
    v: u8,
) -> bool {
    &&& b1.dom() == b0.dom()
    &&& b0.dom().contains(addr)
    &&& writes_reg(b0[addr], b1[addr], reg, v)
    &&& forall|a: u8| b0.dom().contains(a) && a != addr ==> keeps_regs(b0[a], #[trigger] b1[a])
}

/// The byte `v` a one-byte read of register `reg` returns, between device
/// state `d0` before the transaction and `d1` after it: each writable
/// register reports its stored byte, and the input port reports the live
/// input byte as sampled by the read itself.
pub open spec fn reads_reg(d0: DeviceModel, d1: DeviceModel, reg: u8, v: u8) -> bool {
    &&& reg == 0x00 ==> v == d1.input
    &&& reg == 0x01 ==> v == d0.output
    &&& reg == 0x02 ==> v == d0.polarity
    &&& reg == 0x03 ==> v == d0.config
}

/// The byte the input port shows when the device's outward-facing pins sit
/// at `pins`: output-configured pins reflect the output register, input-
/// configured pins reflect `pins`, and the polarity register inverts the
/// result bit by bit.
pub open spec fn port_input(d: DeviceModel, pins: u8) -> u8 {
    ((d.output & !d.config) | (pins & d.config)) ^ d.polarity
}

/// Law, pin by pin, of what the input port shows: an output-configured
/// pin reads back its output register bit, an input-configured pin reads
/// the externally driven level, and a set polarity bit inverts the
/// reading. In particular, a driven output level reaches the input port
/// only once the pin is configured as an output.
pub proof fn lemma_port_input_bit(d: DeviceModel, pins: u8, p: u8)
    requires
        p < 8,
    ensures
        bit_at(port_input(d, pins), p) == ((if bit_at(d.config, p) {
            bit_at(pins, p)
        } else {
            bit_at(d.output, p)
        }) != bit_at(d.polarity, p)),
{
    let o = d.output;
    let c = d.config;
    let q = d.polarity;
    assert((((((o & !c) | (pins & c)) ^ q) >> p) & 1 == 1) == ((if (c >> p) & 1 == 1 {
        (pins >> p) & 1 == 1
    } else {
        (o >> p) & 1 == 1
    }) != ((q >> p) & 1 == 1))) by (bit_vector)
        requires
            p < 8,
    ;
}

} // verus!

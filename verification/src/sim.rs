//! An in-memory bus with one simulated TCA9534 on it.
//!
//! The simulator backs the transport contract with plain bytes: one
//! register file, a register pointer, and a byte of externally driven pin
//! levels. It is the reference implementation of [`SyncTransport`] — every
//! contract of the trait is proved against it — and it doubles as the fake
//! bus for exercising the driver without hardware: the input port mirrors
//! the output register for output-configured pins, follows the external
//! pin levels for input-configured pins, and honours polarity inversion,
//! as the real device does.

use crate::device::{keeps_regs, port_input, DeviceModel};
use crate::transport::SyncTransport;
use vstd::prelude::*;

verus! {

/// A simulated bus holding a single TCA9534 at a fixed address.
///
/// Transactions addressed anywhere else are not acknowledged and fail.
#[derive(Debug)]
pub struct SimTransport {
    dev_addr: u8,
    output: u8,
    polarity: u8,
    config: u8,
    pins: u8,
    pointer: u8,
}

impl SimTransport {
    /// The register state of the simulated device.
    pub closed spec fn model(&self) -> DeviceModel {
        DeviceModel {
            input: ((self.output & !self.config) | (self.pins & self.config)) ^ self.polarity,
            output: self.output,
            polarity: self.polarity,
            config: self.config,
        }
    }

    /// The address the simulated device answers at.
    pub closed spec fn device_addr(&self) -> u8 {
        self.dev_addr
    }

    /// The externally driven level of each pin.
    pub closed spec fn external_pins(&self) -> u8 {
        self.pins
    }

    /// Law: the simulated input port always shows the mirrored port
    /// byte — output register bits for output-configured pins, external
    /// pin levels for input-configured pins, inverted where the polarity
    /// register says so.
    pub proof fn lemma_input_mirrors(&self)
        ensures
            self.model().input == port_input(self.model(), self.external_pins()),
    {
    }

    /// Create a simulated bus whose device sits at `addr`, with an
    /// all-zero backing store and all external pins low.
    pub fn new(addr: u8) -> (r: SimTransport)
        ensures
            r.device_addr() == addr,
            r.external_pins() == 0,
            r.devices().dom() == set![addr],
            r.devices()[addr] == r.model(),
            r.model().output == 0,
            r.model().polarity == 0,
            r.model().config == 0,
            r.model().input == 0,
    {
        let r = SimTransport {
            dev_addr: addr,
            output: 0,
            polarity: 0,
            config: 0,
            pins: 0,
            pointer: 0,
        };
        proof {
            assert(r.devices().dom() =~= set![addr]);
            assert(((0u8 & !0u8) | (0u8 & 0u8)) ^ 0u8 == 0u8) by (bit_vector);
        }
        r
    }

    /// Drive the external pin levels; the backing registers keep their
    /// bytes, only the mirrored input port reading can change.
    pub fn set_pins(&mut self, levels: u8)
        ensures
            final(self).device_addr() == old(self).device_addr(),
            final(self).external_pins() == levels,
            final(self).devices().dom() == old(self).devices().dom(),
            keeps_regs(old(self).model(), final(self).model()),
            final(self).devices()[final(self).device_addr()] == final(self).model(),
    {
        self.pins = levels;
        proof {
            assert(final(self).devices().dom() =~= old(self).devices().dom());
        }
    }

    /// The byte the device would answer for its current register pointer.
    fn pointed_value(&self) -> (r: u8)
        ensures
            self.pointer == 0x00 ==> r == self.model().input,
            self.pointer == 0x01 ==> r == self.model().output,
            self.pointer == 0x02 ==> r == self.model().polarity,
            self.pointer == 0x03 ==> r == self.model().config,
    {
        if self.pointer == 0x00 {
            ((self.output & !self.config) | (self.pins & self.config)) ^ self.polarity
        } else if self.pointer == 0x01 {
            self.output
        } else if self.pointer == 0x02 {
            self.polarity
        } else if self.pointer == 0x03 {
            self.config
        } else {
            0xFF
        }
    }

    /// A run of `len` copies of `byte`, the shape of a multi-byte read
    /// that never moves the register pointer.
    fn repeated(byte: u8, len: usize) -> (r: Vec<u8>)
        ensures
            r@.len() == len,
            len > 0 ==> r@[0] == byte,
    {
        let mut out: Vec<u8> = Vec::new();
        let mut i: usize = 0;
        while i < len
            invariant
                i <= len,
                out@.len() == i,
                i > 0 ==> out@[0] == byte,
            decreases len - i,
        {
            out.push(byte);
            i = i + 1;
        }
        out
    }
}

impl SyncTransport for SimTransport {
    type Error = ();

    closed spec fn devices(&self) -> Map<u8, DeviceModel> {
        map![self.dev_addr => self.model()]
    }

    fn write(&mut self, addr: u8, bytes: &[u8]) -> (r: Result<(), ()>) {
        if addr != self.dev_addr {
            return Err(());
        }
        if bytes.len() == 2 {
            let reg = bytes[0];
            let value = bytes[1];
            self.pointer = reg;
            if reg == 0x01 {
                self.output = value;
            } else if reg == 0x02 {
                self.polarity = value;
            } else if reg == 0x03 {
                self.config = value;
            }
            proof {
                assert(final(self).devices().dom() =~= old(self).devices().dom());
            }
            Ok(())
        } else if bytes.len() == 1 {
            self.pointer = bytes[0];
            proof {
                assert(final(self).devices().dom() =~= old(self).devices().dom());
            }
            Ok(())
        } else {
            Err(())
        }
    }

    fn read(&mut self, addr: u8, len: usize) -> (r: Result<Vec<u8>, ()>) {
        if addr != self.dev_addr {
            return Err(());
        }
        let byte = self.pointed_value();
        Ok(Self::repeated(byte, len))
    }

    fn write_read(&mut self, addr: u8, wr_bytes: &[u8], rd_len: usize) -> (r: Result<
        Vec<u8>,
        (),
    >) {
        if addr != self.dev_addr {
            return Err(());
        }
        if wr_bytes.len() != 1 {
            return Err(());
        }
        self.pointer = wr_bytes[0];
        let byte = self.pointed_value();
        proof {
            assert(final(self).devices() =~= old(self).devices());
        }
        Ok(Self::repeated(byte, rd_len))
    }
}

} // verus!

//! The bus transport contract.
//!
//! A transport carries one atomic transaction at a time to a device
//! address: a write, a read, or a combined write-then-read that keeps the
//! bus between the two phases (so the register pointer set by the write
//! phase cannot be lost to another bus user). The contract is stated over
//! the ghost map of [`DeviceModel`]s on the bus: a successful two-byte
//! write stores one byte in one register of one device, a failed
//! transaction stores nothing anywhere (no torn writes), and no
//! transaction disturbs the writable registers of any other device.

use crate::device::{bus_write, reads_reg, same_devices, DeviceModel};
use vstd::prelude::*;

verus! {

/// A synchronous I2C transport: every operation blocks until its bus
/// transaction completes or fails.
pub trait SyncTransport: Sized {
    /// The type of error that can be returned by the transport.
    type Error;

    /// The devices on the bus, by seven-bit address, each with its
    /// observable register state. Unless an implementation says
    /// otherwise, nothing is known about the bus.
    open spec fn devices(&self) -> Map<u8, DeviceModel> {
        Map::empty()
    }

    /// Writes `bytes` to the device at `addr` as a single atomic bus
    /// transaction. A two-byte payload is a register write: first byte
    /// the register address, second the value stored there.
    fn write(&mut self, addr: u8, bytes: &[u8]) -> (r: Result<(), Self::Error>)
        ensures
            final(self).devices().dom() == old(self).devices().dom(),
            r matches Ok(()) && bytes@.len() == 2 ==> bus_write(
                old(self).devices(),
                final(self).devices(),
                addr,
                bytes@[0],
                bytes@[1],
            ),
            r matches Err(_) ==> same_devices(old(self).devices(), final(self).devices()),
    ;

    /// Reads `len` bytes from the device at `addr` as a single atomic bus
    /// transaction. What the bytes hold depends on the device's current
    /// register pointer, which the contract does not track; reading never
    /// stores anything.
    fn read(&mut self, addr: u8, len: usize) -> (r: Result<Vec<u8>, Self::Error>)
        ensures
            same_devices(old(self).devices(), final(self).devices()),
            r matches Ok(v) ==> v@.len() == len && old(self).devices().dom().contains(addr),
    ;

    /// Writes `wr_bytes` and then, without releasing the bus, reads
    /// `rd_len` bytes, all as one atomic transaction. With a one-byte
    /// payload this is a register read: the payload selects the register
    /// and the first byte read back is its value.
    fn write_read(&mut self, addr: u8, wr_bytes: &[u8], rd_len: usize) -> (r: Result<
        Vec<u8>,
        Self::Error,
    >)
        ensures
            wr_bytes@.len() == 1 ==> same_devices(old(self).devices(), final(self).devices()),
            r matches Err(_) ==> same_devices(old(self).devices(), final(self).devices()),
            r matches Ok(v) ==> ({
                &&& v@.len() == rd_len
                &&& old(self).devices().dom().contains(addr)
                &&& wr_bytes@.len() == 1 && rd_len == 1 ==> reads_reg(
                    old(self).devices()[addr],
                    final(self).devices()[addr],
                    wr_bytes@[0],
                    v@[0],
                )
            }),
    ;
}

} // verus!

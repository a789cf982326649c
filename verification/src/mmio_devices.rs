//! The memory-mapped-I/O device capability.
//!
//! The registry keeps an MMIO device list and can look it up by guest
//! physical address, but the MMIO dispatch protocol itself is deliberately
//! unwired (see the registry); the only model here is an inert region.

use vstd::prelude::*;

use crate::err::HvResult;

verus! {

/// An inert memory-mapped region: reads return zero, writes are dropped.
#[derive(Clone, Copy, Debug, PartialEq, Eq, Structural)]
pub struct MmioDummy {
    /// First covered guest-physical address.
    pub base: u64,
    /// Size of the region in bytes.
    pub size: u64,
}

/// An MMIO-capable device: a coverage predicate over guest-physical
/// addresses plus read and write.
#[derive(Clone, Copy, Debug, PartialEq, Eq, Structural)]
pub enum MmioDevice {
    /// An inert memory region.
    Dummy(MmioDummy),
}

impl MmioDevice {
    /// Whether this device claims guest-physical address `addr`.
    pub open spec fn spec_covers(self, addr: u64) -> bool {
        match self {
            MmioDevice::Dummy(d) => d.base <= addr < d.base + d.size,
        }
    }

    /// Whether this device claims guest-physical address `addr`.
    pub fn covers(&self, addr: u64) -> (r: bool)
        ensures
            r == self.spec_covers(addr),
    {
        match self {
            MmioDevice::Dummy(d) => d.base <= addr && (addr as u128) < d.base as u128
                + d.size as u128,
        }
    }

    /// Read `access_size` bytes at `addr`: an inert region reads as zero.
    pub fn read(&self, addr: u64, access_size: u8) -> (r: HvResult<u64>)
        ensures
            r == Ok::<u64, crate::err::HvError>(0u64),
    {
        let _ = addr;
        let _ = access_size;
        match self {
            MmioDevice::Dummy(_) => Ok(0),
        }
    }

    /// Write `access_size` bytes at `addr`: an inert region drops them.
    pub fn write(&mut self, addr: u64, access_size: u8, value: u64) -> (r: HvResult)
        ensures
            r is Ok,
            *final(self) == *old(self),
    {
        let _ = addr;
        let _ = access_size;
        let _ = value;
        match self {
            MmioDevice::Dummy(_) => {},
        }
        Ok(())
    }
}

} // verus!

//! Model of the PCI host bridge's root bus.
//!
//! The registry treats the root bus as a secondary, lower-priority port
//! address space: it is consulted only after the primary device list
//! misses. The bus records which device/function slots are occupied and
//! which BAR-backed port regions have been published; configuration-space
//! emulation beyond that range lookup is out of scope, so BAR regions are
//! published directly rather than through guest configuration writes.

use vstd::prelude::*;

use crate::devices::PortDevice;
use crate::err::{HvError, HvResult};

verus! {

/// The device/function slot of the virtio block stand-in device.
pub const VIRTIO_BLK_DEVFN: u8 = 0x18;

/// The root bus of the PCI host bridge.
#[derive(Debug)]
pub struct PciRootBus {
    /// Occupied device/function slots, in attach order.
    pub attached: Vec<u8>,
    /// BAR-backed port-I/O regions published on this bus, in publish order;
    /// each is itself a port device whose coverage is the programmed range.
    pub bars: Vec<PortDevice>,
}

impl PciRootBus {
    /// An empty root bus: no slot occupied, no BAR published.
    pub fn new() -> (r: PciRootBus)
        ensures
            r.attached@ == Seq::<u8>::empty(),
            r.bars@ == Seq::<PortDevice>::empty(),
    {
        PciRootBus { attached: Vec::new(), bars: Vec::new() }
    }

    /// Whether `devfn` is already occupied.
    pub fn slot_occupied(&self, devfn: u8) -> (r: bool)
        ensures
            r == self.attached@.contains(devfn),
    {
        let mut i: usize = 0;
        while i < self.attached.len()
            invariant
                i <= self.attached@.len(),
                forall|j: int| 0 <= j < i ==> self.attached@[j] != devfn,
            decreases self.attached@.len() - i,
        {
            if self.attached[i] == devfn {
                return true;
            }
            i = i + 1;
        }
        false
    }

    /// Attach a device at slot `devfn`. Fails, leaving the bus unchanged,
    /// exactly when the slot is already occupied.
    pub fn attach(&mut self, devfn: u8) -> (r: HvResult)
        ensures
            old(self).attached@.contains(devfn) ==> ({
                &&& r == Err::<(), HvError>(HvError::InvalidParam)
                &&& final(self).attached == old(self).attached
                &&& final(self).bars == old(self).bars
            }),
            !old(self).attached@.contains(devfn) ==> ({
                &&& r is Ok
                &&& final(self).attached@ == old(self).attached@.push(devfn)
                &&& final(self).bars == old(self).bars
            }),
    {
        if self.slot_occupied(devfn) {
            Err(HvError::InvalidParam)
        } else {
            self.attached.push(devfn);
            Ok(())
        }
    }

    /// Publish a BAR-backed port region on the bus.
    pub fn add_pio_bar(&mut self, bar: PortDevice)
        ensures
            final(self).bars@ == old(self).bars@.push(bar),
            final(self).attached == old(self).attached,
    {
        self.bars.push(bar);
    }
}

} // verus!

//! Boot-time support: VM identifier allocation, the cross-core one-shot
//! boot barriers, and the guest-image layout computation.
//!
//! The hypervisor's boot path keeps two pieces of process-wide state with
//! a strict lifecycle — a latch set once when core 0 finishes guest
//! page-table initialization, and a rendezvous counter every configured
//! core reaches before any core resumes guest execution. Both are modeled
//! here as explicit one-shot primitives: the latch offers no way to clear
//! again and the counter no way to decrease, so "never resets" is part of
//! the API rather than a convention. The spin-waiting on them, and the
//! raw reads of a boot image from physical memory, belong to the
//! surrounding runtime; what it reads is laid out by the verified
//! computation below.

use vstd::prelude::*;

use crate::err::{HvError, HvResult};

verus! {

/// Size of one 4 KiB page, which separates the boot header from the
/// BIOS image.
pub const PAGE_SIZE_4K: usize = 4096;

/// Allocator of virtual-machine identifiers; identifiers start at 1 and
/// wrap around at the counter's width.
#[derive(Clone, Copy, Debug, PartialEq, Eq, Structural)]
pub struct VmIdAllocator {
    /// The identifier the next allocation returns.
    pub next: u32,
}

impl VmIdAllocator {
    /// A fresh allocator: the first identifier handed out is 1.
    pub fn new() -> (r: VmIdAllocator)
        ensures
            r.next == 1u32,
    {
        VmIdAllocator { next: 1 }
    }
}

/// Allocate the next virtual-machine identifier: the current counter
/// value is returned and the counter advances by one, wrapping at the
/// counter's width.
pub fn generate_vm_id(ids: &mut VmIdAllocator) -> (id: u32)
    ensures
        id == old(ids).next,
        final(ids).next == ((old(ids).next + 1) % 0x1_0000_0000) as u32,
{
    let id = ids.next;
    if ids.next == u32::MAX {
        ids.next = 0;
    } else {
        ids.next = ids.next + 1;
    }
    id
}

/// The one-shot latch secondary cores wait on until core 0 has built the
/// guest page tables. It opens once and offers no way to close again.
#[derive(Clone, Copy, Debug, PartialEq, Eq, Structural)]
pub struct InitLatch {
    /// Whether core 0 has set the latch.
    pub released: bool,
}

impl InitLatch {
    /// A clear latch, as armed at hypervisor start.
    pub fn new() -> (r: InitLatch)
        ensures
            !r.released,
    {
        InitLatch { released: false }
    }

    /// Set the latch; setting it again changes nothing.
    pub fn release(&mut self)
        ensures
            final(self).released,
    {
        self.released = true;
    }

    /// Whether the latch has been set.
    pub fn is_released(&self) -> (r: bool)
        ensures
            r == self.released,
    {
        self.released
    }
}

/// The rendezvous every configured core reaches before any core resumes
/// guest execution. Arrivals only ever increase the count; there is no
/// way to reset it.
#[derive(Clone, Copy, Debug, PartialEq, Eq, Structural)]
pub struct Rendezvous {
    /// How many cores have arrived.
    pub arrived: u32,
    /// How many cores must arrive before the rendezvous completes.
    pub required: u32,
}

impl Rendezvous {
    /// A rendezvous awaiting `required` cores, none arrived yet.
    pub fn new(required: u32) -> (r: Rendezvous)
        ensures
            r.arrived == 0u32,
            r.required == required,
    {
        Rendezvous { arrived: 0, required }
    }

    /// Record one core's arrival. Each core arrives once, so the count
    /// never exceeds the number of configured cores.
    pub fn arrive(&mut self)
        requires
            old(self).arrived < old(self).required,
        ensures
            final(self).arrived == old(self).arrived + 1,
            final(self).required == old(self).required,
    {
        self.arrived = self.arrived + 1;
    }

    /// Whether every required core has arrived.
    pub fn is_complete(&self) -> (r: bool)
        ensures
            r == (self.arrived >= self.required),
    {
        self.arrived >= self.required
    }
}

/// Where the parts of a boot image sit in guest-physical memory.
#[derive(Clone, Copy, Debug, PartialEq, Eq, Structural)]
pub struct BootImageLayout {
    /// Start of the BIOS image: one page past the boot header.
    pub bios_paddr: usize,
    /// Size of the BIOS image in bytes.
    pub bios_size: usize,
    /// Start of the guest kernel image, directly after the BIOS.
    pub guest_image_paddr: usize,
    /// Size of the guest kernel image in bytes.
    pub guest_image_size: usize,
}

/// Lay out a boot image from the sizes its header declares: the BIOS
/// starts one page past the header at `phy_addr`, the guest image
/// directly after the BIOS. Succeeds exactly when the regions fit the
/// address space.
pub fn boot_image_layout(phy_addr: usize, bios_size: usize, guest_image_size: usize) -> (r:
    HvResult<BootImageLayout>)
    ensures
        phy_addr + PAGE_SIZE_4K + bios_size + guest_image_size <= usize::MAX ==> (r matches Ok(
            layout,
        ) && layout == (BootImageLayout {
            bios_paddr: (phy_addr + PAGE_SIZE_4K) as usize,
            bios_size,
            guest_image_paddr: (phy_addr + PAGE_SIZE_4K + bios_size) as usize,
            guest_image_size,
        })),
        phy_addr + PAGE_SIZE_4K + bios_size + guest_image_size > usize::MAX ==> r == Err::<
            BootImageLayout,
            HvError,
        >(HvError::InvalidParam),
{
    if phy_addr > usize::MAX - PAGE_SIZE_4K {
        return Err(HvError::InvalidParam);
    }
    let bios_paddr = phy_addr + PAGE_SIZE_4K;
    if bios_size > usize::MAX - bios_paddr {
        return Err(HvError::InvalidParam);
    }
    let guest_image_paddr = bios_paddr + bios_size;
    if guest_image_size > usize::MAX - guest_image_paddr {
        return Err(HvError::InvalidParam);
    }
    Ok(BootImageLayout { bios_paddr, bios_size, guest_image_paddr, guest_image_size })
}

} // verus!

//! The closed set of emulated model-specific-register devices.
//!
//! Same capability shape as the port devices: a coverage predicate over MSR
//! indices plus 64-bit read and write, each with an exact
//! specification-level transition.

use vstd::prelude::*;

use crate::err::HvResult;

verus! {

/// Number of registers in the x2APIC MSR window.
pub const APIC_MSR_COUNT: u32 = 0x40;

/// First MSR of the x2APIC window.
pub const APIC_MSR_BASE: u32 = 0x800;

/// The `IA32_APIC_BASE` MSR index.
pub const IA32_APIC_BASE_MSR: u32 = 0x1b;

/// The emulated local APIC's register file, exposed through the x2APIC MSR
/// window (0x800–0x83f). Registers read back what was written; the timer
/// machinery that consumes some of them lives with the per-vCPU device set.
#[derive(Debug)]
pub struct LocalApicMsrs {
    /// One slot per MSR of the window, in index order.
    pub regs: Vec<u64>,
}

/// Mathematical view of the local APIC register file.
pub struct LocalApicMsrsView {
    /// One slot per MSR of the window, in index order.
    pub regs: Seq<u64>,
}

impl View for LocalApicMsrs {
    type V = LocalApicMsrsView;

    open spec fn view(&self) -> LocalApicMsrsView {
        LocalApicMsrsView { regs: self.regs@ }
    }
}

impl LocalApicMsrsView {
    /// Whether `msr` lies in the x2APIC window.
    pub open spec fn spec_covers(self, msr: u32) -> bool {
        APIC_MSR_BASE <= msr < APIC_MSR_BASE + APIC_MSR_COUNT
    }

    /// The value a read of `msr` returns: the stored register, or zero for
    /// a slot the file does not hold.
    pub open spec fn spec_read(self, msr: u32) -> u64 {
        if APIC_MSR_BASE <= msr && msr - APIC_MSR_BASE < self.regs.len() {
            self.regs[msr - APIC_MSR_BASE]
        } else {
            0
        }
    }

    /// The register file after a write of `value` to `msr`.
    pub open spec fn spec_write(self, msr: u32, value: u64) -> LocalApicMsrsView {
        if APIC_MSR_BASE <= msr && msr - APIC_MSR_BASE < self.regs.len() {
            LocalApicMsrsView { regs: self.regs.update(msr - APIC_MSR_BASE, value) }
        } else {
            self
        }
    }
}

impl LocalApicMsrs {
    /// A register file with every slot of the window present and zero.
    pub fn new() -> (r: LocalApicMsrs)
        ensures
            r.regs@ == Seq::<u64>::new(APIC_MSR_COUNT as nat, |i: int| 0u64),
    {
        let regs: Vec<u64> = vec![0u64; APIC_MSR_COUNT as usize];
        proof {
            assert(regs@ =~= Seq::<u64>::new(APIC_MSR_COUNT as nat, |i: int| 0u64));
        }
        LocalApicMsrs { regs }
    }
}

/// The `IA32_APIC_BASE` MSR: one stored 64-bit value, read back as written.
#[derive(Clone, Copy, Debug, PartialEq, Eq, Structural)]
pub struct ApicBaseMsr {
    /// The stored APIC base value.
    pub value: u64,
}

/// An inert single MSR a guest kernel probes defensively: reads return
/// zero, writes are dropped.
#[derive(Clone, Copy, Debug, PartialEq, Eq, Structural)]
pub struct MsrDummy {
    /// The single covered MSR index.
    pub msr: u32,
}

/// An MSR-capable device: the coverage predicate plus 64-bit read and
/// write, each with an exact specification-level transition over its view.
#[derive(Debug)]
pub enum MsrDevice {
    /// The emulated local APIC register file.
    Apic(LocalApicMsrs),
    /// The `IA32_APIC_BASE` MSR.
    ApicBase(ApicBaseMsr),
    /// An inert probed MSR.
    Dummy(MsrDummy),
}

/// Mathematical view of an MSR device.
pub enum MsrDeviceView {
    /// The emulated local APIC register file.
    Apic(LocalApicMsrsView),
    /// The `IA32_APIC_BASE` MSR.
    ApicBase(ApicBaseMsr),
    /// An inert probed MSR.
    Dummy(MsrDummy),
}

impl View for MsrDevice {
    type V = MsrDeviceView;

    open spec fn view(&self) -> MsrDeviceView {
        match self {
            MsrDevice::Apic(d) => MsrDeviceView::Apic(d@),
            MsrDevice::ApicBase(d) => MsrDeviceView::ApicBase(*d),
            MsrDevice::Dummy(d) => MsrDeviceView::Dummy(*d),
        }
    }
}

impl DeepView for MsrDevice {
    type V = MsrDeviceView;

    open spec fn deep_view(&self) -> MsrDeviceView {
        self@
    }
}

impl MsrDeviceView {
    /// Whether this device claims `msr`.
    pub open spec fn spec_covers(self, msr: u32) -> bool {
        match self {
            MsrDeviceView::Apic(d) => d.spec_covers(msr),
            MsrDeviceView::ApicBase(_) => msr == IA32_APIC_BASE_MSR,
            MsrDeviceView::Dummy(d) => msr == d.msr,
        }
    }

    /// The value a read of `msr` returns; always `Ok` for these models, the
    /// `Result` being the capability's shape.
    pub open spec fn spec_read(self, msr: u32) -> HvResult<u64> {
        match self {
            MsrDeviceView::Apic(d) => Ok(d.spec_read(msr)),
            MsrDeviceView::ApicBase(d) => Ok(d.value),
            MsrDeviceView::Dummy(_) => Ok(0),
        }
    }

    /// The device state after a write of `value` to `msr`.
    pub open spec fn spec_write(self, msr: u32, value: u64) -> MsrDeviceView {
        match self {
            MsrDeviceView::Apic(d) => MsrDeviceView::Apic(d.spec_write(msr, value)),
            MsrDeviceView::ApicBase(_) => MsrDeviceView::ApicBase(ApicBaseMsr { value }),
            MsrDeviceView::Dummy(d) => MsrDeviceView::Dummy(d),
        }
    }
}

impl MsrDevice {
    /// Whether this device claims `msr`.
    pub fn covers(&self, msr: u32) -> (r: bool)
        ensures
            r == self@.spec_covers(msr),
    {
        match self {
            MsrDevice::Apic(_) => APIC_MSR_BASE <= msr && msr < APIC_MSR_BASE + APIC_MSR_COUNT,
            MsrDevice::ApicBase(_) => msr == IA32_APIC_BASE_MSR,
            MsrDevice::Dummy(d) => msr == d.msr,
        }
    }

    /// Read the 64-bit value of `msr`.
    pub fn read(&self, msr: u32) -> (r: HvResult<u64>)
        ensures
            r == self@.spec_read(msr),
    {
        match self {
            MsrDevice::Apic(d) => {
                if APIC_MSR_BASE <= msr && ((msr - APIC_MSR_BASE) as usize) < d.regs.len() {
                    Ok(d.regs[(msr - APIC_MSR_BASE) as usize])
                } else {
                    Ok(0)
                }
            },
            MsrDevice::ApicBase(d) => Ok(d.value),
            MsrDevice::Dummy(_) => Ok(0),
        }
    }

    /// Write the 64-bit `value` to `msr`.
    pub fn write(&mut self, msr: u32, value: u64) -> (r: HvResult)
        ensures
            r is Ok,
            final(self)@ == old(self)@.spec_write(msr, value),
    {
        match self {
            MsrDevice::Apic(d) => {
                if APIC_MSR_BASE <= msr && ((msr - APIC_MSR_BASE) as usize) < d.regs.len() {
                    d.regs[(msr - APIC_MSR_BASE) as usize] = value;
                }
            },
            MsrDevice::ApicBase(d) => {
                d.value = value;
            },
            MsrDevice::Dummy(_) => {},
        }
        Ok(())
    }
}

/// A write never changes which MSRs a device claims, nor which variant it
/// is: a device's declared range is immutable after registration.
pub proof fn lemma_msr_write_keeps_coverage(d: MsrDeviceView, msr: u32, value: u64)
    ensures
        forall|m: u32| d.spec_write(msr, value).spec_covers(m) == d.spec_covers(m),
        d.spec_write(msr, value) is ApicBase == d is ApicBase,
{
}

} // verus!

//! Model of the guest state the dispatch layer reads and mutates.
//!
//! The virtual-CPU run loop owns the real VMCS; dispatch only ever touches
//! the general-purpose registers involved in I/O and MSR instructions
//! (`rax`, `rcx`, `rdx`), the guest instruction pointer, the decoded exit
//! descriptors, and the queue of interrupt vectors waiting for injection.
//! That surface is modeled here as plain data.

use vstd::prelude::*;

use crate::err::{HvError, HvResult};

verus! {

/// The general-purpose registers that I/O and MSR dispatch reads and writes.
#[derive(Clone, Copy, Debug, PartialEq, Eq, Structural)]
pub struct GuestRegs {
    /// Accumulator; target of `IN`, source of `OUT`, low half of MSR values.
    pub rax: u64,
    /// Counter; holds the MSR index for `RDMSR`/`WRMSR`.
    pub rcx: u64,
    /// Data register; high half of MSR values.
    pub rdx: u64,
}

/// The I/O sub-descriptor of an I/O-instruction exit.
#[derive(Clone, Copy, Debug, PartialEq, Eq, Structural)]
pub struct IoExitInfo {
    /// The accessed port.
    pub port: u16,
    /// Access width in bytes: 1, 2 or 4.
    pub access_size: u8,
    /// True for `IN` (guest reads the device), false for `OUT`.
    pub is_in: bool,
    /// True for the string forms `INS`/`OUTS`.
    pub is_string: bool,
    /// True when the instruction carries a `REP` prefix.
    pub is_repeat: bool,
}

/// Declaration of `page_table_entry::MappingFlags` so that fault
/// descriptors can carry the mapping-flags value the trap reported. The
/// value is opaque here; dispatch only asks whether the write bit is set.
#[verifier::external_type_specification]
#[verifier::external_body]
pub struct ExMappingFlags(page_table_entry::MappingFlags);

/// Whether the write bit is set in a mapping-flags value: what
/// `MappingFlags::contains` applied to `MappingFlags::WRITE` returns. A
/// function of the flags value alone.
pub uninterp spec fn spec_flags_contain_write(flags: page_table_entry::MappingFlags) -> bool;

/// Relies on `bitflags`' generated `MappingFlags::contains`, applied to
/// `MappingFlags::WRITE`: whether the fault was a write access.
#[verifier::external_body]
pub fn flags_contain_write(flags: &page_table_entry::MappingFlags) -> (r: bool)
    ensures
        r == spec_flags_contain_write(*flags),
{
    flags.contains(page_table_entry::MappingFlags::WRITE)
}

/// The nested-page-fault descriptor of an EPT-violation exit.
pub struct EptFaultInfo {
    /// Guest-physical address whose access trapped.
    pub fault_guest_paddr: usize,
    /// Access permissions the guest attempted, as page-table mapping flags.
    pub access_flags: page_table_entry::MappingFlags,
}

/// The descriptor of an external-interrupt exit.
#[derive(Clone, Copy, Debug, PartialEq, Eq, Structural)]
pub struct InterruptExitInfo {
    /// The physical interrupt vector.
    pub vector: u8,
    /// Whether the interrupt information field was marked valid.
    pub valid: bool,
}

/// The exit reasons this layer distinguishes; everything else defers to the
/// caller.
#[derive(Clone, Copy, Debug, PartialEq, Eq, Structural)]
pub enum ExitReason {
    /// An `IN`/`OUT` family instruction trapped.
    IoInstruction,
    /// A `RDMSR` trapped.
    MsrRead,
    /// A `WRMSR` trapped.
    MsrWrite,
    /// The guest touched an unmapped guest-physical address (MMIO).
    EptViolation,
    /// A physical interrupt arrived while the guest was running.
    ExternalInterrupt,
    /// Any exit reason this layer does not handle.
    Other,
}

/// What a VM exit reported, independent of the vCPU's register file.
#[derive(Clone, Copy, Debug, PartialEq, Eq, Structural)]
pub struct VmExitInfo {
    /// Why the guest trapped.
    pub exit_reason: ExitReason,
    /// Guest instruction pointer at the exit.
    pub guest_rip: u64,
    /// Length in bytes of the exiting instruction, as the hardware reports it.
    pub exit_instruction_length: u32,
}

/// The per-vCPU guest state dispatch operates on.
pub struct VCpu {
    /// General-purpose registers.
    pub regs: GuestRegs,
    /// Guest instruction pointer.
    pub rip: u64,
    /// Decoded I/O exit descriptor, present when the exit was an I/O
    /// instruction.
    pub io_exit_info: Option<IoExitInfo>,
    /// Decoded nested-page-fault descriptor, present when the exit was an
    /// EPT violation with fault information.
    pub nested_page_fault_info: Option<EptFaultInfo>,
    /// Decoded external-interrupt descriptor.
    pub interrupt_exit_info: Option<InterruptExitInfo>,
    /// Interrupt vectors queued for injection into the guest.
    pub pending_events: Vec<u8>,
}

impl VCpu {
    /// A vCPU model with the given registers and instruction pointer, no
    /// decoded exit descriptors and no pending events.
    pub fn new(regs: GuestRegs, rip: u64) -> (r: VCpu)
        ensures
            r.regs == regs,
            r.rip == rip,
            r.io_exit_info is None,
            r.nested_page_fault_info is None,
            r.interrupt_exit_info is None,
            r.pending_events@ == Seq::<u8>::empty(),
    {
        VCpu {
            regs,
            rip,
            io_exit_info: None,
            nested_page_fault_info: None,
            interrupt_exit_info: None,
            pending_events: Vec::new(),
        }
    }

    /// Advance the guest instruction pointer past the emulated instruction.
    pub fn advance_rip(&mut self, instr_len: u32) -> (r: HvResult)
        requires
            old(self).rip + instr_len <= u64::MAX,
        ensures
            r == Ok::<(), HvError>(()),
            final(self).rip == old(self).rip + instr_len,
            final(self).regs == old(self).regs,
            final(self).io_exit_info == old(self).io_exit_info,
            final(self).nested_page_fault_info == old(self).nested_page_fault_info,
            final(self).interrupt_exit_info == old(self).interrupt_exit_info,
            final(self).pending_events == old(self).pending_events,
    {
        self.rip = self.rip + instr_len as u64;
        Ok(())
    }

    /// Queue an interrupt vector for injection into the guest.
    pub fn queue_event(&mut self, vector: u8)
        ensures
            final(self).pending_events@ == old(self).pending_events@.push(vector),
            final(self).regs == old(self).regs,
            final(self).rip == old(self).rip,
            final(self).io_exit_info == old(self).io_exit_info,
            final(self).nested_page_fault_info == old(self).nested_page_fault_info,
            final(self).interrupt_exit_info == old(self).interrupt_exit_info,
    {
        self.pending_events.push(vector);
    }
}

} // verus!

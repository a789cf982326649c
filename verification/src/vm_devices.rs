//! The per-VM device set: VM-wide devices behind a private registry, and
//! the second dispatch stage for exits the per-vCPU set left unhandled.
//!
//! Construction installs the PCI host bridge — its configuration ports as
//! a port device, its root bus as the registry's secondary address space —
//! and attaches the virtio block stand-in at its fixed device/function.
//! External-interrupt exits are validated here; the actual forwarding to
//! the host's interrupt dispatcher is the caller's, so a validated exit
//! is answered with the vector to dispatch.

use vstd::prelude::*;

use crate::classify::spec_instruction_invalid;
use crate::device_list::{
    spec_io_dispatch_post, spec_msr_read_post, spec_msr_write_post, DeviceList,
    VM_EXIT_INSTR_LEN_RDMSR, VM_EXIT_INSTR_LEN_WRMSR,
};
use crate::devices::{PciConfigPorts, PortDevice, PortDeviceView};
use crate::err::{HvError, HvResult};
use crate::pci::VIRTIO_BLK_DEVFN;
use crate::vcpu::{ExitReason, VCpu, VmExitInfo};

verus! {

/// The single physical interrupt vector the hypervisor forwards to the
/// host; any other vector in an external-interrupt exit is fatal.
pub const FORWARDED_INTERRUPT_VECTOR: u8 = 0xf0;

/// What the caller must still do after a handled per-VM exit.
#[derive(Clone, Copy, Debug, PartialEq, Eq, Structural)]
pub enum ExitAction {
    /// Nothing: the exit was completed inside the device set.
    Completed,
    /// Run the host interrupt dispatcher for this validated vector.
    DispatchHostIrq(u8),
}

/// The plain dispatch result under an exit action: what the registry's
/// own contracts speak of.
pub open spec fn spec_plain_result(r: HvResult<ExitAction>) -> HvResult {
    match r {
        Ok(_) => Ok(()),
        Err(e) => Err(e),
    }
}

/// The per-VM device set: VM-wide devices behind a private registry.
#[derive(Debug)]
pub struct X64VmDevices {
    /// The private registry holding the VM-wide devices.
    pub devices: DeviceList,
}

impl X64VmDevices {
    /// A fresh per-VM set: the PCI host installed, its configuration
    /// ports registered as the only port device, and the virtio block
    /// stand-in attached at its fixed slot.
    pub fn new() -> (r: X64VmDevices)
        ensures
            r.devices.port_io_devices.deep_view() == seq![
                PortDeviceView::PciConfig(PciConfigPorts { config_address: 0 }),
            ],
            r.devices.memory_io_devices@ == Seq::<crate::mmio_devices::MmioDevice>::empty(),
            r.devices.msr_devices@ == Seq::<crate::msr_devices::MsrDevice>::empty(),
            r.devices.pci_host matches Some(bus) && bus.attached@ == seq![VIRTIO_BLK_DEVFN]
                && bus.bars@ == Seq::<PortDevice>::empty(),
    {
        let mut devices = DeviceList::new();
        devices.init_pci_host();
        devices.add_port_io_device(PortDevice::PciConfig(PciConfigPorts { config_address: 0 }));
        let attached = devices.add_virtio_pci_device(VIRTIO_BLK_DEVFN);
        proof {
            assert(attached is Ok);
        }
        let result = X64VmDevices { devices };
        proof {
            assert(result.devices.port_io_devices.deep_view() =~= seq![
                PortDeviceView::PciConfig(PciConfigPorts { config_address: 0 }),
            ]);
        }
        result
    }

    /// Validate an external-interrupt exit: the descriptor must be
    /// present, marked valid, and name the single forwarded vector; the
    /// validated vector is returned for the caller to dispatch. Anything
    /// else is fatal and surfaced with its diagnostic payload.
    fn handle_external_interrupt(vcpu: &VCpu) -> (r: HvResult<u8>)
        ensures
            vcpu.interrupt_exit_info is None ==> r == Err::<u8, HvError>(
                HvError::BadInterrupt { vector: 0, valid: false },
            ),
            vcpu.interrupt_exit_info matches Some(info) ==> ({
                &&& info.vector == FORWARDED_INTERRUPT_VECTOR && info.valid ==> r == Ok::<
                    u8,
                    HvError,
                >(info.vector)
                &&& !(info.vector == FORWARDED_INTERRUPT_VECTOR && info.valid) ==> r == Err::<
                    u8,
                    HvError,
                >(HvError::BadInterrupt { vector: info.vector, valid: info.valid })
            }),
    {
        match &vcpu.interrupt_exit_info {
            None => Err(HvError::BadInterrupt { vector: 0, valid: false }),
            Some(info) => {
                if info.vector == FORWARDED_INTERRUPT_VECTOR && info.valid {
                    Ok(info.vector)
                } else {
                    Err(HvError::BadInterrupt { vector: info.vector, valid: info.valid })
                }
            },
        }
    }

    /// Second dispatch stage for a VM exit: external interrupts are
    /// validated and answered with the vector to dispatch; EPT violations
    /// go to the (deliberately unwired) MMIO path; I/O and MSR exits are
    /// delegated to this set's registry exactly as on the per-vCPU path.
    pub fn vmexit_handler(
        &mut self,
        vcpu: &mut VCpu,
        exit_info: &VmExitInfo,
        instr: Option<iced_x86::Instruction>,
    ) -> (r: Option<HvResult<ExitAction>>)
        requires
            exit_info.exit_reason is IoInstruction ==> (old(vcpu).io_exit_info matches Some(io)
                && (io.access_size == 1 || io.access_size == 2 || io.access_size == 4)),
            exit_info.exit_reason is IoInstruction ==> old(vcpu).rip
                + exit_info.exit_instruction_length <= u64::MAX,
            exit_info.exit_reason is MsrRead ==> old(vcpu).rip + VM_EXIT_INSTR_LEN_RDMSR
                <= u64::MAX,
            exit_info.exit_reason is MsrWrite ==> old(vcpu).rip + VM_EXIT_INSTR_LEN_WRMSR
                <= u64::MAX,
        ensures
            exit_info.exit_reason is ExternalInterrupt ==> ({
                &&& final(self).devices == old(self).devices
                &&& *final(vcpu) == *old(vcpu)
                &&& old(vcpu).interrupt_exit_info is None ==> r == Some(
                    Err::<ExitAction, HvError>(HvError::BadInterrupt { vector: 0, valid: false }),
                )
                &&& old(vcpu).interrupt_exit_info matches Some(info) ==> ({
                    &&& info.vector == FORWARDED_INTERRUPT_VECTOR && info.valid ==> r == Some(
                        Ok::<ExitAction, HvError>(ExitAction::DispatchHostIrq(info.vector)),
                    )
                    &&& !(info.vector == FORWARDED_INTERRUPT_VECTOR && info.valid) ==> r == Some(
                        Err::<ExitAction, HvError>(
                            HvError::BadInterrupt { vector: info.vector, valid: info.valid },
                        ),
                    )
                })
            }),
            exit_info.exit_reason is EptViolation ==> ({
                &&& final(self).devices == old(self).devices
                &&& *final(vcpu) == *old(vcpu)
                &&& instr is None ==> r is None
                &&& instr is Some && old(vcpu).nested_page_fault_info is None ==> r == Some(
                    Err::<ExitAction, HvError>(
                        HvError::NoFaultInfo { guest_rip: exit_info.guest_rip },
                    ),
                )
                &&& instr is Some && old(vcpu).nested_page_fault_info is Some ==> ({
                    &&& spec_instruction_invalid(instr->0) ==> r == Some(
                        Err::<ExitAction, HvError>(HvError::DecodeError),
                    )
                    &&& !spec_instruction_invalid(instr->0) ==> r is None
                })
            }),
            exit_info.exit_reason is IoInstruction ==> ({
                &&& r matches Some(res) ==> (res matches Ok(action) && action
                    == ExitAction::Completed || res is Err)
                &&& spec_io_dispatch_post(
                    old(self).devices,
                    final(self).devices,
                    *old(vcpu),
                    *final(vcpu),
                    *exit_info,
                    match r {
                        None => None,
                        Some(res) => Some(spec_plain_result(res)),
                    },
                )
            }),
            exit_info.exit_reason is MsrRead ==> ({
                &&& final(self).devices == old(self).devices
                &&& r matches Some(res) && spec_msr_read_post(
                    old(self).devices,
                    *old(vcpu),
                    *final(vcpu),
                    spec_plain_result(res),
                )
                &&& r matches Some(res) ==> (res matches Ok(action) ==> action
                    == ExitAction::Completed)
            }),
            exit_info.exit_reason is MsrWrite ==> ({
                &&& r matches Some(res) && spec_msr_write_post(
                    old(self).devices,
                    final(self).devices,
                    *old(vcpu),
                    *final(vcpu),
                    spec_plain_result(res),
                )
                &&& r matches Some(res) ==> (res matches Ok(action) ==> action
                    == ExitAction::Completed)
            }),
            !(exit_info.exit_reason is ExternalInterrupt || exit_info.exit_reason is EptViolation
                || exit_info.exit_reason is IoInstruction || exit_info.exit_reason is MsrRead
                || exit_info.exit_reason is MsrWrite) ==> ({
                &&& r is None
                &&& final(self).devices == old(self).devices
                &&& *final(vcpu) == *old(vcpu)
            }),
    {
        match exit_info.exit_reason {
            ExitReason::ExternalInterrupt => {
                match Self::handle_external_interrupt(vcpu) {
                    Ok(vector) => Some(Ok(ExitAction::DispatchHostIrq(vector))),
                    Err(e) => Some(Err(e)),
                }
            },
            ExitReason::EptViolation => {
                match self.devices.handle_mmio_instruction(vcpu, exit_info, instr) {
                    None => None,
                    Some(Ok(_)) => Some(Ok(ExitAction::Completed)),
                    Some(Err(e)) => Some(Err(e)),
                }
            },
            ExitReason::IoInstruction => {
                match self.devices.handle_io_instruction(vcpu, exit_info) {
                    None => None,
                    Some(Ok(_)) => Some(Ok(ExitAction::Completed)),
                    Some(Err(e)) => Some(Err(e)),
                }
            },
            ExitReason::MsrRead => {
                match self.devices.handle_msr_read(vcpu) {
                    Ok(_) => Some(Ok(ExitAction::Completed)),
                    Err(e) => Some(Err(e)),
                }
            },
            ExitReason::MsrWrite => {
                match self.devices.handle_msr_write(vcpu) {
                    Ok(_) => Some(Ok(ExitAction::Completed)),
                    Err(e) => Some(Err(e)),
                }
            },
            _ => None,
        }
    }
}

} // verus!

//! The device registry: three ordered device sequences, range-based
//! first-match lookup, and the read/modify-register/write protocol for
//! trapped instructions.
//!
//! Lookup is linear and first-match: when two registered ranges overlap,
//! the device registered first wins — registration order is part of the
//! registry's contract, not an accident, and no overlap detection is
//! performed. The optional PCI root bus is a secondary address space
//! consulted only after the primary port list misses.

use vstd::prelude::*;

use crate::classify::{get_access_size, spec_instruction_invalid};
use crate::devices::{PortDevice, PortDeviceView};
use crate::err::{HvError, HvResult};
use crate::mmio_devices::MmioDevice;
use crate::msr_devices::{MsrDevice, MsrDeviceView};
use crate::pci::PciRootBus;
use crate::protocol::{low_bytes, merge_accumulator, msr_combine, msr_high, msr_low};
use crate::vcpu::{GuestRegs, IoExitInfo, VCpu, VmExitInfo};

verus! {

/// Instruction length of `RDMSR`, by which its emulation advances the
/// guest instruction pointer.
pub const VM_EXIT_INSTR_LEN_RDMSR: u32 = 2;

/// Instruction length of `WRMSR`.
pub const VM_EXIT_INSTR_LEN_WRMSR: u32 = 2;

/// Index of the first port device claiming `port`, scanning in
/// registration order.
pub open spec fn spec_find_port(devs: Seq<PortDeviceView>, port: u16) -> Option<int>
    decreases devs.len(),
{
    if devs.len() == 0 {
        None
    } else if devs[0].spec_covers(port) {
        Some(0)
    } else {
        match spec_find_port(devs.skip(1), port) {
            None => None,
            Some(i) => Some(i + 1),
        }
    }
}

/// Index of the first MSR device claiming `msr`, scanning in registration
/// order.
pub open spec fn spec_find_msr(devs: Seq<MsrDeviceView>, msr: u32) -> Option<int>
    decreases devs.len(),
{
    if devs.len() == 0 {
        None
    } else if devs[0].spec_covers(msr) {
        Some(0)
    } else {
        match spec_find_msr(devs.skip(1), msr) {
            None => None,
            Some(i) => Some(i + 1),
        }
    }
}

/// Index of the first MMIO device claiming `addr`, scanning in
/// registration order.
pub open spec fn spec_find_mmio(devs: Seq<MmioDevice>, addr: u64) -> Option<int>
    decreases devs.len(),
{
    if devs.len() == 0 {
        None
    } else if devs[0].spec_covers(addr) {
        Some(0)
    } else {
        match spec_find_mmio(devs.skip(1), addr) {
            None => None,
            Some(i) => Some(i + 1),
        }
    }
}

/// What first-match lookup means: a hit is a coverer before which no
/// device covers, a miss means no device covers at all.
pub proof fn lemma_find_port_characterization(devs: Seq<PortDeviceView>, port: u16)
    ensures
        match spec_find_port(devs, port) {
            Some(i) => {
                &&& 0 <= i < devs.len()
                &&& devs[i].spec_covers(port)
                &&& forall|j: int| 0 <= j < i ==> !devs[j].spec_covers(port)
            },
            None => forall|j: int| 0 <= j < devs.len() ==> !devs[j].spec_covers(port),
        },
    decreases devs.len(),
{
    if devs.len() > 0 && !devs[0].spec_covers(port) {
        lemma_find_port_characterization(devs.skip(1), port);
        assert(forall|j: int| 0 < j < devs.len() ==> devs[j] == devs.skip(1)[j - 1]);
    }
}

/// For all ports covered by some device, dispatch selects the first
/// registered coverer: lookup answers exactly the witnessed index.
pub proof fn lemma_first_registered_wins(devs: Seq<PortDeviceView>, port: u16, i: int)
    requires
        0 <= i < devs.len(),
        devs[i].spec_covers(port),
        forall|j: int| 0 <= j < i ==> !devs[j].spec_covers(port),
    ensures
        spec_find_port(devs, port) == Some(i),
    decreases devs.len(),
{
    if i > 0 {
        assert(forall|j: int| 0 <= j < i - 1 ==> devs.skip(1)[j] == devs[j + 1]);
        lemma_first_registered_wins(devs.skip(1), port, i - 1);
    }
}

/// For all ports covered by exactly one device's range, dispatch always
/// selects that device.
pub proof fn lemma_unique_coverer_is_selected(devs: Seq<PortDeviceView>, port: u16, i: int)
    requires
        0 <= i < devs.len(),
        devs[i].spec_covers(port),
        forall|j: int| 0 <= j < devs.len() && j != i ==> !devs[j].spec_covers(port),
    ensures
        spec_find_port(devs, port) == Some(i),
{
    lemma_first_registered_wins(devs, port, i);
}

/// A port not covered by any registered device is never found.
pub proof fn lemma_uncovered_port_misses(devs: Seq<PortDeviceView>, port: u16)
    requires
        forall|j: int| 0 <= j < devs.len() ==> !devs[j].spec_covers(port),
    ensures
        spec_find_port(devs, port) is None,
{
    lemma_find_port_characterization(devs, port);
}

/// First-match scan of a port device sequence.
fn find_port_match(devs: &Vec<PortDevice>, port: u16) -> (r: Option<usize>)
    ensures
        match r {
            Some(i) => i < devs@.len() && spec_find_port(devs.deep_view(), port) == Some(i as int),
            None => spec_find_port(devs.deep_view(), port) is None,
        },
{
    let ghost dv = devs.deep_view();
    proof {
        assert(dv.len() == devs@.len());
    }
    let mut i: usize = 0;
    while i < devs.len()
        invariant
            dv == devs.deep_view(),
            dv.len() == devs@.len(),
            i <= devs@.len(),
            forall|j: int| 0 <= j < i ==> !dv[j].spec_covers(port),
        decreases devs@.len() - i,
    {
        proof {
            assert(dv[i as int] == devs@[i as int]@);
        }
        if devs[i].covers(port) {
            proof {
                lemma_first_registered_wins(dv, port, i as int);
            }
            return Some(i);
        }
        i = i + 1;
    }
    proof {
        lemma_uncovered_port_misses(dv, port);
    }
    None
}

/// First-match scan of an MSR device sequence; same shape as the port
/// scan, with the same characterization.
fn find_msr_match(devs: &Vec<MsrDevice>, msr: u32) -> (r: Option<usize>)
    ensures
        match r {
            Some(i) => i < devs@.len() && spec_find_msr(devs.deep_view(), msr) == Some(i as int),
            None => spec_find_msr(devs.deep_view(), msr) is None,
        },
{
    let ghost dv = devs.deep_view();
    proof {
        assert(dv.len() == devs@.len());
    }
    let mut i: usize = 0;
    while i < devs.len()
        invariant
            dv == devs.deep_view(),
            dv.len() == devs@.len(),
            i <= devs@.len(),
            forall|j: int| 0 <= j < i ==> !dv[j].spec_covers(msr),
        decreases devs@.len() - i,
    {
        proof {
            assert(dv[i as int] == devs@[i as int]@);
        }
        if devs[i].covers(msr) {
            proof {
                lemma_find_msr_first(dv, msr, i as int);
            }
            return Some(i);
        }
        i = i + 1;
    }
    proof {
        lemma_find_msr_none(dv, msr);
    }
    None
}

/// MSR analogue of `lemma_first_registered_wins`.
pub proof fn lemma_find_msr_first(devs: Seq<MsrDeviceView>, msr: u32, i: int)
    requires
        0 <= i < devs.len(),
        devs[i].spec_covers(msr),
        forall|j: int| 0 <= j < i ==> !devs[j].spec_covers(msr),
    ensures
        spec_find_msr(devs, msr) == Some(i),
    decreases devs.len(),
{
    if i > 0 {
        assert(forall|j: int| 0 <= j < i - 1 ==> devs.skip(1)[j] == devs[j + 1]);
        lemma_find_msr_first(devs.skip(1), msr, i - 1);
    }
}

/// MSR analogue of `lemma_uncovered_port_misses`.
pub proof fn lemma_find_msr_none(devs: Seq<MsrDeviceView>, msr: u32)
    requires
        forall|j: int| 0 <= j < devs.len() ==> !devs[j].spec_covers(msr),
    ensures
        spec_find_msr(devs, msr) is None,
    decreases devs.len(),
{
    if devs.len() > 0 {
        assert(forall|j: int| 0 <= j < devs.len() - 1 ==> devs.skip(1)[j] == devs[j + 1]);
        lemma_find_msr_none(devs.skip(1), msr);
    }
}

/// MMIO analogue of `lemma_first_registered_wins`.
pub proof fn lemma_find_mmio_first(devs: Seq<MmioDevice>, addr: u64, i: int)
    requires
        0 <= i < devs.len(),
        devs[i].spec_covers(addr),
        forall|j: int| 0 <= j < i ==> !devs[j].spec_covers(addr),
    ensures
        spec_find_mmio(devs, addr) == Some(i),
    decreases devs.len(),
{
    if i > 0 {
        assert(forall|j: int| 0 <= j < i - 1 ==> devs.skip(1)[j] == devs[j + 1]);
        lemma_find_mmio_first(devs.skip(1), addr, i - 1);
    }
}

/// MMIO analogue of `lemma_uncovered_port_misses`.
pub proof fn lemma_find_mmio_none(devs: Seq<MmioDevice>, addr: u64)
    requires
        forall|j: int| 0 <= j < devs.len() ==> !devs[j].spec_covers(addr),
    ensures
        spec_find_mmio(devs, addr) is None,
    decreases devs.len(),
{
    if devs.len() > 0 {
        assert(forall|j: int| 0 <= j < devs.len() - 1 ==> devs.skip(1)[j] == devs[j + 1]);
        lemma_find_mmio_none(devs.skip(1), addr);
    }
}

/// Outcome of the shared I/O protocol, at the specification level: the
/// device after the access, the guest registers and instruction pointer
/// after it, and the reported result.
pub struct IoStep {
    /// The accessed device afterwards.
    pub dev: PortDeviceView,
    /// The guest registers afterwards.
    pub regs: GuestRegs,
    /// The guest instruction pointer afterwards.
    pub rip: u64,
    /// The result handed back to the exit handler.
    pub result: HvResult,
}

/// The shared I/O protocol against one resolved device. String and
/// repeat-prefixed instructions are rejected as `NotSupported` with
/// nothing mutated. An `IN` merges the device value into the accumulator
/// under the architecture's zero-extension rule; an `OUT` hands the low
/// bytes of the accumulator to the device. On success the instruction
/// pointer advances by the exit's reported length; a device error leaves
/// the guest state untouched.
pub open spec fn spec_io_step(
    dev: PortDeviceView,
    io: IoExitInfo,
    regs: GuestRegs,
    rip: u64,
    instr_len: u32,
) -> IoStep {
    if io.is_string || io.is_repeat {
        IoStep { dev, regs, rip, result: Err(HvError::NotSupported) }
    } else if io.is_in {
        match dev.spec_read(io.port) {
            Ok(value) => IoStep {
                dev,
                regs: GuestRegs {
                    rax: merge_accumulator(regs.rax, io.access_size, value),
                    ..regs
                },
                rip: (rip + instr_len) as u64,
                result: Ok(()),
            },
            Err(e) => IoStep { dev, regs, rip, result: Err(e) },
        }
    } else {
        IoStep {
            dev: dev.spec_write(io.port, low_bytes(regs.rax, io.access_size)),
            regs,
            rip: (rip + instr_len) as u64,
            result: Ok(()),
        }
    }
}

/// String or repeat-flagged I/O always yields `NotSupported` without
/// mutating the device, the guest registers or the instruction pointer.
pub proof fn lemma_string_io_rejected(
    dev: PortDeviceView,
    io: IoExitInfo,
    regs: GuestRegs,
    rip: u64,
    instr_len: u32,
)
    requires
        io.is_string || io.is_repeat,
    ensures
        spec_io_step(dev, io, regs, rip, instr_len) == (IoStep {
            dev,
            regs,
            rip,
            result: Err::<(), HvError>(HvError::NotSupported),
        }),
{
}

/// For all ports not covered by any registered device, and with no PCI
/// host installed, I/O dispatch reports the exit unhandled and mutates
/// nothing.
pub proof fn lemma_unserved_port_not_handled(
    pre: DeviceList,
    post: DeviceList,
    pre_vcpu: VCpu,
    post_vcpu: VCpu,
    exit: VmExitInfo,
    r: Option<HvResult>,
)
    requires
        spec_io_dispatch_post(pre, post, pre_vcpu, post_vcpu, exit, r),
        pre.pci_host is None,
        forall|j: int|
            0 <= j < pre.port_io_devices.deep_view().len()
                ==> !pre.port_io_devices.deep_view()[j].spec_covers(
                (pre_vcpu.io_exit_info->0).port,
            ),
    ensures
        r is None,
        post_vcpu.regs == pre_vcpu.regs,
        post_vcpu.rip == pre_vcpu.rip,
        post_vcpu.pending_events == pre_vcpu.pending_events,
        post.port_io_devices == pre.port_io_devices,
        post.pci_host == pre.pci_host,
{
    lemma_uncovered_port_misses(pre.port_io_devices.deep_view(), (pre_vcpu.io_exit_info->0).port);
}

/// Execute the I/O protocol of `spec_io_step` against `device`, mutating
/// the guest registers and instruction pointer in place.
pub fn handle_io_instruction_to_device(
    vcpu: &mut VCpu,
    exit_info: &VmExitInfo,
    device: &mut PortDevice,
) -> (r: HvResult)
    requires
        old(vcpu).io_exit_info matches Some(io) && (io.access_size == 1 || io.access_size == 2
            || io.access_size == 4),
        old(vcpu).rip + exit_info.exit_instruction_length <= u64::MAX,
    ensures
        final(vcpu).io_exit_info == old(vcpu).io_exit_info,
        final(vcpu).nested_page_fault_info == old(vcpu).nested_page_fault_info,
        final(vcpu).interrupt_exit_info == old(vcpu).interrupt_exit_info,
        final(vcpu).pending_events == old(vcpu).pending_events,
        final(device)@ == spec_io_step(
            old(device)@,
            old(vcpu).io_exit_info->0,
            old(vcpu).regs,
            old(vcpu).rip,
            exit_info.exit_instruction_length,
        ).dev,
        final(vcpu).regs == spec_io_step(
            old(device)@,
            old(vcpu).io_exit_info->0,
            old(vcpu).regs,
            old(vcpu).rip,
            exit_info.exit_instruction_length,
        ).regs,
        final(vcpu).rip == spec_io_step(
            old(device)@,
            old(vcpu).io_exit_info->0,
            old(vcpu).regs,
            old(vcpu).rip,
            exit_info.exit_instruction_length,
        ).rip,
        r == spec_io_step(
            old(device)@,
            old(vcpu).io_exit_info->0,
            old(vcpu).regs,
            old(vcpu).rip,
            exit_info.exit_instruction_length,
        ).result,
{
    let io = vcpu.io_exit_info.unwrap();
    if io.is_string {
        return Err(HvError::NotSupported);
    }
    if io.is_repeat {
        return Err(HvError::NotSupported);
    }
    if io.is_in {
        let value = match device.read(io.port, io.access_size) {
            Ok(value) => value,
            Err(e) => {
                return Err(e);
            },
        };
        if io.access_size == 1 {
            vcpu.regs.rax = (vcpu.regs.rax & !0xff) | ((value & 0xff) as u64);
        } else if io.access_size == 2 {
            vcpu.regs.rax = (vcpu.regs.rax & !0xffff) | ((value & 0xffff) as u64);
        } else {
            vcpu.regs.rax = value as u64;
        }
    } else {
        let value = if io.access_size == 1 {
            #[verifier::truncate] ((vcpu.regs.rax & 0xff) as u32)
        } else if io.access_size == 2 {
            #[verifier::truncate] ((vcpu.regs.rax & 0xffff) as u32)
        } else {
            #[verifier::truncate] (vcpu.regs.rax as u32)
        };
        match device.write(io.port, io.access_size, value) {
            Ok(_) => {},
            Err(e) => {
                return Err(e);
            },
        }
    }
    vcpu.advance_rip(exit_info.exit_instruction_length)
}

/// What resolving an I/O-instruction exit against a registry means: the
/// primary port list is searched first-match; on a miss the installed PCI
/// root bus's BAR regions are searched; a hit runs `spec_io_step` against
/// the found device and nothing else changes; a miss everywhere reports
/// `None` and changes nothing. This relation is the contract of
/// `DeviceList::handle_io_instruction` and of the exit handlers that
/// delegate to it.
pub open spec fn spec_io_dispatch_post(
    pre: DeviceList,
    post: DeviceList,
    pre_vcpu: VCpu,
    post_vcpu: VCpu,
    exit: VmExitInfo,
    r: Option<HvResult>,
) -> bool {
    let io = pre_vcpu.io_exit_info->0;
    let devs = pre.port_io_devices.deep_view();
    &&& post_vcpu.io_exit_info == pre_vcpu.io_exit_info
    &&& post_vcpu.nested_page_fault_info == pre_vcpu.nested_page_fault_info
    &&& post_vcpu.interrupt_exit_info == pre_vcpu.interrupt_exit_info
    &&& post_vcpu.pending_events == pre_vcpu.pending_events
    &&& post.memory_io_devices == pre.memory_io_devices
    &&& post.msr_devices == pre.msr_devices
    &&& match spec_find_port(devs, io.port) {
        Some(i) => ({
            let step = spec_io_step(
                devs[i],
                io,
                pre_vcpu.regs,
                pre_vcpu.rip,
                exit.exit_instruction_length,
            );
            &&& r == Some(step.result)
            &&& post.port_io_devices.deep_view() == devs.update(i, step.dev)
            &&& post_vcpu.regs == step.regs
            &&& post_vcpu.rip == step.rip
            &&& post.pci_host == pre.pci_host
        }),
        None => ({
            &&& post.port_io_devices == pre.port_io_devices
            &&& match pre.pci_host {
                None => ({
                    &&& r is None
                    &&& post.pci_host == pre.pci_host
                    &&& post_vcpu.regs == pre_vcpu.regs
                    &&& post_vcpu.rip == pre_vcpu.rip
                }),
                Some(bus) => ({
                    let bars = bus.bars.deep_view();
                    match spec_find_port(bars, io.port) {
                        Some(b) => ({
                            let step = spec_io_step(
                                bars[b],
                                io,
                                pre_vcpu.regs,
                                pre_vcpu.rip,
                                exit.exit_instruction_length,
                            );
                            &&& r == Some(step.result)
                            &&& post.pci_host matches Some(bus2) && bus2.bars.deep_view()
                                == bars.update(b, step.dev) && bus2.attached == bus.attached
                            &&& post_vcpu.regs == step.regs
                            &&& post_vcpu.rip == step.rip
                        }),
                        None => ({
                            &&& r is None
                            &&& post.pci_host == pre.pci_host
                            &&& post_vcpu.regs == pre_vcpu.regs
                            &&& post_vcpu.rip == pre_vcpu.rip
                        }),
                    }
                }),
            }
        }),
    }
}

/// What resolving a `RDMSR` exit means: the index comes from `rcx`; on a
/// hit the device's value is split across `rax`/`rdx` and the instruction
/// pointer advances by the fixed `RDMSR` length; an unclaimed index is
/// surfaced as `NoMsrDevice` with nothing changed. The registry itself is
/// never changed by a read.
pub open spec fn spec_msr_read_post(
    pre: DeviceList,
    pre_vcpu: VCpu,
    post_vcpu: VCpu,
    r: HvResult,
) -> bool {
    let msr = pre_vcpu.regs.rcx as u32;
    let devs = pre.msr_devices.deep_view();
    &&& post_vcpu.io_exit_info == pre_vcpu.io_exit_info
    &&& post_vcpu.nested_page_fault_info == pre_vcpu.nested_page_fault_info
    &&& post_vcpu.interrupt_exit_info == pre_vcpu.interrupt_exit_info
    &&& post_vcpu.pending_events == pre_vcpu.pending_events
    &&& match spec_find_msr(devs, msr) {
        Some(i) => match devs[i].spec_read(msr) {
            Ok(value) => ({
                &&& r == Ok::<(), HvError>(())
                &&& post_vcpu.regs == (GuestRegs {
                    rax: msr_low(value),
                    rdx: msr_high(value),
                    ..pre_vcpu.regs
                })
                &&& post_vcpu.rip == pre_vcpu.rip + VM_EXIT_INSTR_LEN_RDMSR
            }),
            Err(e) => ({
                &&& r == Err::<(), HvError>(e)
                &&& post_vcpu.regs == pre_vcpu.regs
                &&& post_vcpu.rip == pre_vcpu.rip
            }),
        },
        None => ({
            &&& r == Err::<(), HvError>(HvError::NoMsrDevice { msr })
            &&& post_vcpu.regs == pre_vcpu.regs
            &&& post_vcpu.rip == pre_vcpu.rip
        }),
    }
}

/// What resolving a `WRMSR` exit means: the index comes from `rcx`, the
/// written value is the recombination of `rax` and `rdx`, and on a hit
/// the claiming device takes the write and the instruction pointer
/// advances by the fixed `WRMSR` length; an unclaimed index is surfaced
/// as `NoMsrDevice` with nothing changed.
pub open spec fn spec_msr_write_post(
    pre: DeviceList,
    post: DeviceList,
    pre_vcpu: VCpu,
    post_vcpu: VCpu,
    r: HvResult,
) -> bool {
    let msr = pre_vcpu.regs.rcx as u32;
    let value = msr_combine(pre_vcpu.regs.rax, pre_vcpu.regs.rdx);
    let devs = pre.msr_devices.deep_view();
    &&& post_vcpu.regs == pre_vcpu.regs
    &&& post_vcpu.io_exit_info == pre_vcpu.io_exit_info
    &&& post_vcpu.nested_page_fault_info == pre_vcpu.nested_page_fault_info
    &&& post_vcpu.interrupt_exit_info == pre_vcpu.interrupt_exit_info
    &&& post_vcpu.pending_events == pre_vcpu.pending_events
    &&& post.port_io_devices == pre.port_io_devices
    &&& post.memory_io_devices == pre.memory_io_devices
    &&& post.pci_host == pre.pci_host
    &&& match spec_find_msr(devs, msr) {
        Some(i) => ({
            &&& r == Ok::<(), HvError>(())
            &&& post.msr_devices.deep_view() == devs.update(i, devs[i].spec_write(msr, value))
            &&& post_vcpu.rip == pre_vcpu.rip + VM_EXIT_INSTR_LEN_WRMSR
        }),
        None => ({
            &&& r == Err::<(), HvError>(HvError::NoMsrDevice { msr })
            &&& post.msr_devices == pre.msr_devices
            &&& post_vcpu.rip == pre_vcpu.rip
        }),
    }
}

/// The device registry of one virtual CPU or one virtual machine.
#[derive(Debug)]
pub struct DeviceList {
    /// Port-I/O devices, in registration order.
    pub port_io_devices: Vec<PortDevice>,
    /// Memory-mapped-I/O devices, in registration order.
    pub memory_io_devices: Vec<MmioDevice>,
    /// MSR devices, in registration order.
    pub msr_devices: Vec<MsrDevice>,
    /// The PCI host bridge's root bus, the secondary port address space,
    /// when one has been installed.
    pub pci_host: Option<PciRootBus>,
}

impl DeviceList {
    /// An empty registry: no devices, no PCI host.
    pub fn new() -> (r: DeviceList)
        ensures
            r.port_io_devices@ == Seq::<PortDevice>::empty(),
            r.memory_io_devices@ == Seq::<MmioDevice>::empty(),
            r.msr_devices@ == Seq::<MsrDevice>::empty(),
            r.pci_host is None,
    {
        DeviceList {
            port_io_devices: Vec::new(),
            memory_io_devices: Vec::new(),
            msr_devices: Vec::new(),
            pci_host: None,
        }
    }

    /// Install an empty PCI host bridge as the secondary address space.
    pub fn init_pci_host(&mut self)
        ensures
            final(self).pci_host matches Some(bus) && bus.attached@ == Seq::<u8>::empty()
                && bus.bars@ == Seq::<PortDevice>::empty(),
            final(self).port_io_devices == old(self).port_io_devices,
            final(self).memory_io_devices == old(self).memory_io_devices,
            final(self).msr_devices == old(self).msr_devices,
    {
        self.pci_host = Some(PciRootBus::new());
    }

    /// Attach the virtio stand-in device at `devfn` on the PCI root bus.
    /// Fails, changing nothing, exactly when the slot is occupied.
    pub fn add_virtio_pci_device(&mut self, devfn: u8) -> (r: HvResult)
        requires
            old(self).pci_host is Some,
        ensures
            final(self).port_io_devices == old(self).port_io_devices,
            final(self).memory_io_devices == old(self).memory_io_devices,
            final(self).msr_devices == old(self).msr_devices,
            old(self).pci_host matches Some(bus) ==> ({
                &&& !bus.attached@.contains(devfn) ==> r is Ok
                &&& !bus.attached@.contains(devfn) ==> (final(self).pci_host matches Some(bus2)
                    && bus2.attached@ == bus.attached@.push(devfn) && bus2.bars == bus.bars)
                &&& bus.attached@.contains(devfn) ==> r == Err::<(), HvError>(
                    HvError::InvalidParam,
                )
                &&& bus.attached@.contains(devfn) ==> (final(self).pci_host matches Some(bus2)
                    && bus2.attached == bus.attached && bus2.bars == bus.bars)
            }),
    {
        match &mut self.pci_host {
            Some(bus) => bus.attach(devfn),
            None => Err(HvError::InvalidParam),
        }
    }

    /// Append a device to the port-I/O sequence; overlapping ranges are
    /// accepted silently, first match winning at lookup time.
    pub fn add_port_io_device(&mut self, device: PortDevice)
        ensures
            final(self).port_io_devices@ == old(self).port_io_devices@.push(device),
            final(self).memory_io_devices == old(self).memory_io_devices,
            final(self).msr_devices == old(self).msr_devices,
            final(self).pci_host == old(self).pci_host,
    {
        self.port_io_devices.push(device)
    }

    /// Append several port-I/O devices, keeping their order; `devices` is
    /// drained.
    pub fn add_port_io_devices(&mut self, devices: &mut Vec<PortDevice>)
        ensures
            final(self).port_io_devices@ == old(self).port_io_devices@ + old(devices)@,
            final(devices)@ == Seq::<PortDevice>::empty(),
            final(self).memory_io_devices == old(self).memory_io_devices,
            final(self).msr_devices == old(self).msr_devices,
            final(self).pci_host == old(self).pci_host,
    {
        self.port_io_devices.append(devices)
    }

    /// Index of the first registered port-I/O device claiming `port`.
    pub fn find_port_io_device(&self, port: u16) -> (r: Option<usize>)
        ensures
            match r {
                Some(i) => i < self.port_io_devices@.len() && spec_find_port(
                    self.port_io_devices.deep_view(),
                    port,
                ) == Some(i as int),
                None => spec_find_port(self.port_io_devices.deep_view(), port) is None,
            },
    {
        find_port_match(&self.port_io_devices, port)
    }

    /// Append a device to the MMIO sequence.
    pub fn add_memory_io_device(&mut self, device: MmioDevice)
        ensures
            final(self).memory_io_devices@ == old(self).memory_io_devices@.push(device),
            final(self).port_io_devices == old(self).port_io_devices,
            final(self).msr_devices == old(self).msr_devices,
            final(self).pci_host == old(self).pci_host,
    {
        self.memory_io_devices.push(device)
    }

    /// Append several MMIO devices, keeping their order; `devices` is
    /// drained.
    pub fn add_memory_io_devices(&mut self, devices: &mut Vec<MmioDevice>)
        ensures
            final(self).memory_io_devices@ == old(self).memory_io_devices@ + old(devices)@,
            final(devices)@ == Seq::<MmioDevice>::empty(),
            final(self).port_io_devices == old(self).port_io_devices,
            final(self).msr_devices == old(self).msr_devices,
            final(self).pci_host == old(self).pci_host,
    {
        self.memory_io_devices.append(devices)
    }

    /// Index of the first registered MMIO device claiming `address`.
    pub fn find_memory_io_device(&self, address: u64) -> (r: Option<usize>)
        ensures
            match r {
                Some(i) => i < self.memory_io_devices@.len() && spec_find_mmio(
                    self.memory_io_devices@,
                    address,
                ) == Some(i as int),
                None => spec_find_mmio(self.memory_io_devices@, address) is None,
            },
    {
        let mut i: usize = 0;
        while i < self.memory_io_devices.len()
            invariant
                i <= self.memory_io_devices@.len(),
                forall|j: int| 0 <= j < i ==> !self.memory_io_devices@[j].spec_covers(address),
            decreases self.memory_io_devices@.len() - i,
        {
            if self.memory_io_devices[i].covers(address) {
                proof {
                    lemma_find_mmio_first(self.memory_io_devices@, address, i as int);
                }
                return Some(i);
            }
            i = i + 1;
        }
        proof {
            lemma_find_mmio_none(self.memory_io_devices@, address);
        }
        None
    }

    /// Append a device to the MSR sequence.
    pub fn add_msr_device(&mut self, device: MsrDevice)
        ensures
            final(self).msr_devices@ == old(self).msr_devices@.push(device),
            final(self).port_io_devices == old(self).port_io_devices,
            final(self).memory_io_devices == old(self).memory_io_devices,
            final(self).pci_host == old(self).pci_host,
    {
        self.msr_devices.push(device)
    }

    /// Append several MSR devices, keeping their order; `devices` is
    /// drained.
    pub fn add_msr_devices(&mut self, devices: &mut Vec<MsrDevice>)
        ensures
            final(self).msr_devices@ == old(self).msr_devices@ + old(devices)@,
            final(devices)@ == Seq::<MsrDevice>::empty(),
            final(self).port_io_devices == old(self).port_io_devices,
            final(self).memory_io_devices == old(self).memory_io_devices,
            final(self).pci_host == old(self).pci_host,
    {
        self.msr_devices.append(devices)
    }

    /// Resolve an I/O-instruction exit against this registry: the primary
    /// port list first, then — only on a miss, and only when a PCI host is
    /// installed — the root bus's BAR-backed regions. `None` is returned
    /// exactly when no device exists anywhere for the port; the registry
    /// never synthesizes a fallback value, so the caller must treat that
    /// as an unsupported condition.
    pub fn handle_io_instruction(&mut self, vcpu: &mut VCpu, exit_info: &VmExitInfo) -> (r: Option<
        HvResult,
    >)
        requires
            old(vcpu).io_exit_info matches Some(io) && (io.access_size == 1 || io.access_size == 2
                || io.access_size == 4),
            old(vcpu).rip + exit_info.exit_instruction_length <= u64::MAX,
        ensures
            spec_io_dispatch_post(*old(self), *final(self), *old(vcpu), *final(vcpu), *exit_info, r),
    {
        let io = vcpu.io_exit_info.unwrap();
        match find_port_match(&self.port_io_devices, io.port) {
            Some(i) => {
                let ghost devs = self.port_io_devices.deep_view();
                let device = &mut self.port_io_devices[i];
                let res = handle_io_instruction_to_device(vcpu, exit_info, device);
                proof {
                    assert(self.port_io_devices.deep_view() =~= devs.update(
                        i as int,
                        self.port_io_devices@[i as int]@,
                    ));
                }
                Some(res)
            },
            None => {
                match &mut self.pci_host {
                    Some(bus) => {
                        match find_port_match(&bus.bars, io.port) {
                            Some(b) => {
                                let ghost bars = bus.bars.deep_view();
                                let bar = &mut bus.bars[b];
                                let res = handle_io_instruction_to_device(vcpu, exit_info, bar);
                                proof {
                                    assert(bus.bars.deep_view() =~= bars.update(
                                        b as int,
                                        bus.bars@[b as int]@,
                                    ));
                                }
                                Some(res)
                            },
                            None => None,
                        }
                    },
                    None => None,
                }
            },
        }
    }

    /// Recognize an EPT-violation exit. The fault's address, direction and
    /// access width are recovered — a missing fault descriptor or an
    /// unclassifiable instruction is surfaced, with its diagnostic
    /// payload, rather than ignored — but the exit is then reported as
    /// unhandled: mirroring the I/O protocol for memory operands is a
    /// known open design question of this layer, and no device is
    /// invoked. Guest state and registry are left untouched.
    pub fn handle_mmio_instruction(
        &mut self,
        vcpu: &mut VCpu,
        exit_info: &VmExitInfo,
        instr: Option<iced_x86::Instruction>,
    ) -> (r: Option<HvResult>)
        ensures
            final(self).port_io_devices == old(self).port_io_devices,
            final(self).memory_io_devices == old(self).memory_io_devices,
            final(self).msr_devices == old(self).msr_devices,
            final(self).pci_host == old(self).pci_host,
            final(vcpu).regs == old(vcpu).regs,
            final(vcpu).rip == old(vcpu).rip,
            final(vcpu).io_exit_info == old(vcpu).io_exit_info,
            final(vcpu).nested_page_fault_info == old(vcpu).nested_page_fault_info,
            final(vcpu).interrupt_exit_info == old(vcpu).interrupt_exit_info,
            final(vcpu).pending_events == old(vcpu).pending_events,
            instr is None ==> r is None,
            instr is Some && old(vcpu).nested_page_fault_info is None ==> r == Some(
                Err::<(), HvError>(HvError::NoFaultInfo { guest_rip: exit_info.guest_rip }),
            ),
            instr is Some && old(vcpu).nested_page_fault_info is Some ==> ({
                &&& spec_instruction_invalid(instr->0) ==> r == Some(
                    Err::<(), HvError>(HvError::DecodeError),
                )
                &&& !spec_instruction_invalid(instr->0) ==> r is None
            }),
    {
        match instr {
            Some(instruction) => {
                match &vcpu.nested_page_fault_info {
                    Some(fault) => {
                        let _is_write = crate::vcpu::flags_contain_write(&fault.access_flags);
                        let _fault_addr = fault.fault_guest_paddr;
                        match get_access_size(instruction) {
                            // The fault is recognized and classified, but the
                            // memory-operand dispatch protocol is not wired
                            // up: report the exit as unhandled.
                            Ok(_width) => None,
                            Err(e) => Some(Err(e)),
                        }
                    },
                    None => Some(Err(HvError::NoFaultInfo { guest_rip: exit_info.guest_rip })),
                }
            },
            None => None,
        }
    }

    /// Resolve a `RDMSR` exit: the index comes from the guest's `rcx`; on
    /// a hit the device's 64-bit value is split across `rax` (low half)
    /// and `rdx` (high half) and the instruction pointer advances by the
    /// fixed `RDMSR` length. An index no device claims is an unrecoverable
    /// condition for this vCPU and is surfaced as `NoMsrDevice`, never as
    /// a default value.
    pub fn handle_msr_read(&mut self, vcpu: &mut VCpu) -> (r: HvResult)
        requires
            old(vcpu).rip + VM_EXIT_INSTR_LEN_RDMSR <= u64::MAX,
        ensures
            final(self).port_io_devices == old(self).port_io_devices,
            final(self).memory_io_devices == old(self).memory_io_devices,
            final(self).msr_devices == old(self).msr_devices,
            final(self).pci_host == old(self).pci_host,
            spec_msr_read_post(*old(self), *old(vcpu), *final(vcpu), r),
    {
        let msr = #[verifier::truncate] (vcpu.regs.rcx as u32);
        match find_msr_match(&self.msr_devices, msr) {
            Some(i) => {
                match self.msr_devices[i].read(msr) {
                    Ok(value) => {
                        vcpu.regs.rax = value & 0xffff_ffff;
                        vcpu.regs.rdx = value >> 32;
                        let res = vcpu.advance_rip(VM_EXIT_INSTR_LEN_RDMSR);
                        res
                    },
                    Err(e) => Err(e),
                }
            },
            None => Err(HvError::NoMsrDevice { msr }),
        }
    }

    /// Resolve a `WRMSR` exit: the index comes from `rcx`, the value is
    /// recombined from `rax` (low half) and `rdx` (high half) and written
    /// to the claiming device, and the instruction pointer advances by the
    /// fixed `WRMSR` length. An unclaimed index is surfaced as
    /// `NoMsrDevice`.
    pub fn handle_msr_write(&mut self, vcpu: &mut VCpu) -> (r: HvResult)
        requires
            old(vcpu).rip + VM_EXIT_INSTR_LEN_WRMSR <= u64::MAX,
        ensures
            spec_msr_write_post(*old(self), *final(self), *old(vcpu), *final(vcpu), r),
    {
        let msr = #[verifier::truncate] (vcpu.regs.rcx as u32);
        let value = (vcpu.regs.rax & 0xffff_ffff) | (vcpu.regs.rdx << 32u64);
        match find_msr_match(&self.msr_devices, msr) {
            Some(i) => {
                let ghost devs = self.msr_devices.deep_view();
                let device = &mut self.msr_devices[i];
                let res = device.write(msr, value);
                proof {
                    assert(self.msr_devices.deep_view() =~= devs.update(
                        i as int,
                        self.msr_devices@[i as int]@,
                    ));
                }
                match res {
                    Ok(_) => vcpu.advance_rip(VM_EXIT_INSTR_LEN_WRMSR),
                    Err(e) => Err(e),
                }
            },
            None => Err(HvError::NoMsrDevice { msr }),
        }
    }

    /// Index of the first registered MSR device claiming `msr`.
    pub fn find_msr_device(&self, msr: u32) -> (r: Option<usize>)
        ensures
            match r {
                Some(i) => i < self.msr_devices@.len() && spec_find_msr(
                    self.msr_devices.deep_view(),
                    msr,
                ) == Some(i as int),
                None => spec_find_msr(self.msr_devices.deep_view(), msr) is None,
            },
    {
        find_msr_match(&self.msr_devices, msr)
    }
}

} // verus!

//! The per-vCPU device set: CPU-local legacy devices, the first dispatch
//! stage for every VM exit, NMI-message consumption and the periodic
//! timer tick.
//!
//! Construction populates the standard legacy port map — four serial
//! ports, the two cascaded PICs, the debug port, the chipset bundle and
//! the inert probed ranges — plus the local APIC's MSR window, the APIC
//! base MSR and two defensively-probed MSRs. Registration order is fixed
//! and part of the contract: lookup is first-match.

use vstd::prelude::*;

use crate::device_list::{
    lemma_find_port_characterization, spec_find_port, spec_io_dispatch_post, spec_io_step,
    spec_msr_read_post, spec_msr_write_post, DeviceList, VM_EXIT_INSTR_LEN_RDMSR,
    VM_EXIT_INSTR_LEN_WRMSR,
};
use crate::devices::{
    lemma_port_write_keeps_coverage, Bundle, DebugPort, DummyPort, I8259Pic, PortDevice,
    PortDeviceView, Uart16550, UartView,
};
use crate::protocol::low_bytes;
use crate::err::{HvError, HvResult};
use crate::msr_devices::{
    ApicBaseMsr, LocalApicMsrs, LocalApicMsrsView, MsrDevice, MsrDeviceView, MsrDummy,
    APIC_MSR_COUNT,
};
use crate::vcpu::{ExitReason, VCpu, VmExitInfo};

verus! {

/// Interrupt vector of the emulated local APIC timer.
pub const APIC_TIMER_VECTOR: u8 = 0xec;

/// Reset value of the `IA32_APIC_BASE` MSR: the standard base address
/// with the global-enable and bootstrap-processor bits set.
pub const APIC_BASE_RESET: u64 = 0xfee0_0900;

/// The AMD `DE_CFG` MSR, probed defensively by guest kernels even on
/// other vendors' processors.
pub const MSR_AMD64_DE_CFG: u32 = 0xc001_1029;

/// The `IA32_UMWAIT_CONTROL` MSR, likewise probed defensively.
pub const IA32_UMWAIT_CONTROL: u32 = 0xe1;

/// Position of the master PIC in the per-vCPU port map: it follows the
/// four serial ports.
pub const PIC_MASTER_INDEX: usize = 4;

/// Interrupt vector the periodic tick injects: vector 0 of the legacy
/// PIT, as the guest's interrupt controller remaps it.
pub const TICK_VECTOR: u8 = 0x30;

/// Period of the tick once armed: one millisecond.
pub const TICK_PERIOD_NS: u64 = 1_000_000;

/// Delay between the first `check_events` call and the earliest tick:
/// five seconds.
pub const TICK_STARTUP_DELAY_NS: u64 = 5_000_000_000;

/// The emulated local APIC timer: a one-shot deadline and the vector it
/// injects. The MSR writes that would program a real APIC timer are out
/// of this layer's scope; the deadline is armed directly.
#[derive(Clone, Copy, Debug, PartialEq, Eq, Structural)]
pub struct ApicTimer {
    /// Vector queued to the vCPU when the deadline is reached.
    pub vector: u8,
    /// The pending deadline, in nanoseconds, if the timer is armed.
    pub deadline_ns: Option<u64>,
}

/// Whether the timer fires at time `now_ns`: it is armed and its deadline
/// has been reached.
pub open spec fn spec_apic_fires(timer: ApicTimer, now_ns: u64) -> bool {
    timer.deadline_ns matches Some(deadline) && now_ns >= deadline
}

/// The timer after a `check_interrupt` at `now_ns`: firing disarms it.
pub open spec fn spec_apic_next(timer: ApicTimer, now_ns: u64) -> ApicTimer {
    if spec_apic_fires(timer, now_ns) {
        ApicTimer { deadline_ns: None, ..timer }
    } else {
        timer
    }
}

impl ApicTimer {
    /// An unarmed timer with the standard vector.
    pub fn new() -> (r: ApicTimer)
        ensures
            r == (ApicTimer { vector: APIC_TIMER_VECTOR, deadline_ns: None }),
    {
        ApicTimer { vector: APIC_TIMER_VECTOR, deadline_ns: None }
    }

    /// Arm the timer for `deadline_ns`.
    pub fn arm(&mut self, deadline_ns: u64)
        ensures
            *final(self) == (ApicTimer { deadline_ns: Some(deadline_ns), ..*old(self) }),
    {
        self.deadline_ns = Some(deadline_ns);
    }

    /// Whether the deadline has been reached; firing disarms the timer.
    pub fn check_interrupt(&mut self, now_ns: u64) -> (fired: bool)
        ensures
            fired == spec_apic_fires(*old(self), now_ns),
            *final(self) == spec_apic_next(*old(self), now_ns),
    {
        match self.deadline_ns {
            Some(deadline) => {
                if now_ns >= deadline {
                    self.deadline_ns = None;
                    true
                } else {
                    false
                }
            },
            None => false,
        }
    }
}

/// A cross-core message delivered over NMI.
#[derive(Clone, Copy, Debug, PartialEq, Eq, Structural)]
pub enum NmiMessage {
    /// Request to boot the virtual machine with the given identifier.
    BootVm(usize),
}

/// One physical CPU's NMI message queue, consumed by the NMI handler of
/// whichever vCPU set runs on that CPU. Each message is consumed at most
/// once, in arrival order.
#[derive(Debug)]
pub struct NmiQueue {
    /// Pending messages, oldest first.
    pub messages: Vec<NmiMessage>,
}

impl NmiQueue {
    /// An empty queue.
    pub fn new() -> (r: NmiQueue)
        ensures
            r.messages@ == Seq::<NmiMessage>::empty(),
    {
        NmiQueue { messages: Vec::new() }
    }

    /// Enqueue a message behind the pending ones.
    pub fn push(&mut self, message: NmiMessage)
        ensures
            final(self).messages@ == old(self).messages@.push(message),
    {
        self.messages.push(message);
    }

    /// Dequeue the oldest message, if any.
    pub fn pop(&mut self) -> (r: Option<NmiMessage>)
        ensures
            old(self).messages@.len() == 0 ==> ({
                &&& r is None
                &&& final(self).messages == old(self).messages
            }),
            old(self).messages@.len() > 0 ==> ({
                &&& r == Some(old(self).messages@[0])
                &&& final(self).messages@ == old(self).messages@.skip(1)
            }),
    {
        if self.messages.len() == 0 {
            None
        } else {
            let message = self.messages.remove(0);
            proof {
                assert(final(self).messages@ =~= old(self).messages@.skip(1));
            }
            Some(message)
        }
    }
}

/// What an NMI amounted to: a consumed boot request, or a spurious NMI
/// answered benignly so the guest never sees instability.
#[derive(Clone, Copy, Debug, PartialEq, Eq, Structural)]
pub enum NmiOutcome {
    /// Exactly one boot request for this VM identifier was consumed; the
    /// caller performs the boot.
    Boot(usize),
    /// The queue was empty: an unexpected but recoverable NMI.
    Spurious,
}

/// The tick state after a `check_events` call at `now_ns`: the first call
/// arms the tick a startup delay into the future; afterwards, a call past
/// the period re-arms at the current time, and any other call changes
/// nothing.
pub open spec fn spec_tick_next(last: Option<u64>, now_ns: u64) -> Option<u64> {
    match last {
        None => Some((now_ns + TICK_STARTUP_DELAY_NS) as u64),
        Some(last_ns) => if now_ns > last_ns + TICK_PERIOD_NS {
            Some(now_ns)
        } else {
            Some(last_ns)
        },
    }
}

/// Whether the tick fires at `now_ns`: it is armed and strictly more than
/// one period has elapsed since the recorded time.
pub open spec fn spec_tick_fires(last: Option<u64>, now_ns: u64) -> bool {
    last matches Some(last_ns) && now_ns > last_ns + TICK_PERIOD_NS
}

/// The periodic tick fires at most once per elapsed millisecond: if it
/// fires at `n1` and, from the resulting state, again at `n2`, then
/// strictly more than one period separates the two.
pub proof fn lemma_tick_rate_limited(last: Option<u64>, n1: u64, n2: u64)
    requires
        spec_tick_fires(last, n1),
        spec_tick_fires(spec_tick_next(last, n1), n2),
    ensures
        n2 > n1 + TICK_PERIOD_NS,
{
}

/// The tick never fires before the startup delay has passed: if the
/// first `check_events` call happens at `n0`, no call at any `n1` with
/// `n1 <= n0 + 5` seconds fires.
pub proof fn lemma_tick_initial_delay(n0: u64, n1: u64)
    requires
        n0 + TICK_STARTUP_DELAY_NS <= u64::MAX,
        spec_tick_fires(spec_tick_next(None, n0), n1),
    ensures
        n1 > n0 + TICK_STARTUP_DELAY_NS,
{
}

/// The per-vCPU port map: four serial ports at the standard bases, the
/// cascaded PICs, the debug port, the chipset bundle and the inert
/// probed ranges, in registration order.
pub open spec fn spec_vcpu_port_map() -> Seq<PortDeviceView> {
    seq![
        PortDeviceView::Uart(UartView { base: 0x3f8, tx: Seq::empty() }),
        PortDeviceView::Uart(UartView { base: 0x2f8, tx: Seq::empty() }),
        PortDeviceView::Uart(UartView { base: 0x3e8, tx: Seq::empty() }),
        PortDeviceView::Uart(UartView { base: 0x2e8, tx: Seq::empty() }),
        PortDeviceView::Pic(I8259Pic { base: 0x20, mask: 0xff }),
        PortDeviceView::Pic(I8259Pic { base: 0xa0, mask: 0xff }),
        PortDeviceView::Dbg(DebugPort { base: 0x80 }),
        PortDeviceView::Bundle(Bundle { system_control_a: 0, system_control_b: 0, cmos_index: 0 }),
        PortDeviceView::Dummy(DummyPort { base: 0xf0, len: 2 }),
        PortDeviceView::Dummy(DummyPort { base: 0x3d4, len: 2 }),
        PortDeviceView::Dummy(DummyPort { base: 0x87, len: 1 }),
        PortDeviceView::Dummy(DummyPort { base: 0x60, len: 1 }),
        PortDeviceView::Dummy(DummyPort { base: 0x64, len: 1 }),
    ]
}

/// The per-vCPU MSR map: the local APIC window, the APIC base MSR and
/// the two defensively-probed MSRs, in registration order.
pub open spec fn spec_vcpu_msr_map() -> Seq<MsrDeviceView> {
    seq![
        MsrDeviceView::Apic(
            LocalApicMsrsView { regs: Seq::new(APIC_MSR_COUNT as nat, |i: int| 0u64) },
        ),
        MsrDeviceView::ApicBase(ApicBaseMsr { value: APIC_BASE_RESET }),
        MsrDeviceView::Dummy(MsrDummy { msr: MSR_AMD64_DE_CFG }),
        MsrDeviceView::Dummy(MsrDummy { msr: IA32_UMWAIT_CONTROL }),
    ]
}

/// The per-vCPU device set: the CPU-local devices behind a private
/// registry, the emulated APIC timer, and the periodic tick's
/// "last fired" record.
#[derive(Debug)]
pub struct X64VcpuDevices {
    /// The emulated local APIC timer.
    pub apic_timer: ApicTimer,
    /// The private registry holding the CPU-local devices.
    pub devices: DeviceList,
    /// When the periodic tick last fired (or, before the first firing,
    /// the arming point); `None` until the first `check_events` call.
    pub last: Option<u64>,
}

impl X64VcpuDevices {
    /// The structural facts dispatch maintains about this set: the port
    /// map is long enough to hold the master PIC at its fixed position,
    /// and that position holds a PIC. Device writes never change a
    /// device's variant, so every handler preserves this.
    pub open spec fn wf(self) -> bool {
        &&& self.devices.port_io_devices@.len() > PIC_MASTER_INDEX
        &&& self.devices.port_io_devices.deep_view()[PIC_MASTER_INDEX as int] is Pic
    }

    /// The master PIC's interrupt mask, as the tick consults it.
    pub open spec fn spec_master_pic_mask(self) -> u8 {
        match self.devices.port_io_devices.deep_view()[PIC_MASTER_INDEX as int] {
            PortDeviceView::Pic(pic) => pic.mask,
            _ => 0,
        }
    }

    /// The master PIC's interrupt mask.
    pub fn master_pic_mask(&self) -> (r: u8)
        requires
            self.wf(),
        ensures
            r == self.spec_master_pic_mask(),
    {
        proof {
            assert(self.devices.port_io_devices.deep_view()[PIC_MASTER_INDEX as int]
                == self.devices.port_io_devices@[PIC_MASTER_INDEX as int]@);
        }
        match &self.devices.port_io_devices[PIC_MASTER_INDEX] {
            PortDevice::Pic(pic) => pic.mask,
            _ => 0,
        }
    }

    /// A fresh per-vCPU set: the standard port and MSR maps, an unarmed
    /// APIC timer, and the tick not yet armed.
    pub fn new() -> (r: X64VcpuDevices)
        ensures
            r.devices.port_io_devices.deep_view() == spec_vcpu_port_map(),
            r.devices.msr_devices.deep_view() == spec_vcpu_msr_map(),
            r.devices.memory_io_devices@ == Seq::<crate::mmio_devices::MmioDevice>::empty(),
            r.devices.pci_host is None,
            r.apic_timer == (ApicTimer { vector: APIC_TIMER_VECTOR, deadline_ns: None }),
            r.last is None,
            r.wf(),
    {
        let mut devices = DeviceList::new();
        let mut pmio_devices: Vec<PortDevice> = Vec::new();
        // The four legacy serial ports, fully emulated.
        pmio_devices.push(PortDevice::Uart(Uart16550::new(0x3f8)));
        pmio_devices.push(PortDevice::Uart(Uart16550::new(0x2f8)));
        pmio_devices.push(PortDevice::Uart(Uart16550::new(0x3e8)));
        pmio_devices.push(PortDevice::Uart(Uart16550::new(0x2e8)));
        // The cascaded interrupt controllers.
        pmio_devices.push(PortDevice::Pic(I8259Pic::new(0x20)));
        pmio_devices.push(PortDevice::Pic(I8259Pic::new(0xa0)));
        // The debug port.
        pmio_devices.push(PortDevice::Dbg(DebugPort { base: 0x80 }));
        // The conflict-prone legacy ports behind one shared state.
        pmio_devices.push(PortDevice::Bundle(Bundle::new()));
        // Inert ranges the guest probes: FPU, VGA text, DMA and the PS/2
        // controller ports.
        pmio_devices.push(PortDevice::Dummy(DummyPort { base: 0xf0, len: 2 }));
        pmio_devices.push(PortDevice::Dummy(DummyPort { base: 0x3d4, len: 2 }));
        pmio_devices.push(PortDevice::Dummy(DummyPort { base: 0x87, len: 1 }));
        pmio_devices.push(PortDevice::Dummy(DummyPort { base: 0x60, len: 1 }));
        pmio_devices.push(PortDevice::Dummy(DummyPort { base: 0x64, len: 1 }));
        devices.add_port_io_devices(&mut pmio_devices);

        devices.add_msr_device(MsrDevice::Apic(LocalApicMsrs::new()));
        devices.add_msr_device(MsrDevice::ApicBase(ApicBaseMsr { value: APIC_BASE_RESET }));
        devices.add_msr_device(MsrDevice::Dummy(MsrDummy { msr: MSR_AMD64_DE_CFG }));
        devices.add_msr_device(MsrDevice::Dummy(MsrDummy { msr: IA32_UMWAIT_CONTROL }));

        let result = X64VcpuDevices { apic_timer: ApicTimer::new(), devices, last: None };
        proof {
            assert(result.devices.port_io_devices.deep_view() =~= spec_vcpu_port_map());
            assert(result.devices.msr_devices.deep_view() =~= spec_vcpu_msr_map());
        }
        result
    }

    /// First dispatch stage for a VM exit: I/O, MSR-read and MSR-write
    /// exits go to the private registry; every other reason is reported
    /// unhandled, deferring to the per-VM set.
    pub fn vmexit_handler(&mut self, vcpu: &mut VCpu, exit_info: &VmExitInfo) -> (r: Option<
        HvResult,
    >)
        requires
            exit_info.exit_reason is IoInstruction ==> (old(vcpu).io_exit_info matches Some(io)
                && (io.access_size == 1 || io.access_size == 2 || io.access_size == 4)),
            exit_info.exit_reason is IoInstruction ==> old(vcpu).rip
                + exit_info.exit_instruction_length <= u64::MAX,
            exit_info.exit_reason is MsrRead ==> old(vcpu).rip + VM_EXIT_INSTR_LEN_RDMSR
                <= u64::MAX,
            exit_info.exit_reason is MsrWrite ==> old(vcpu).rip + VM_EXIT_INSTR_LEN_WRMSR
                <= u64::MAX,
        ensures
            final(self).apic_timer == old(self).apic_timer,
            final(self).last == old(self).last,
            old(self).wf() ==> final(self).wf(),
            exit_info.exit_reason is IoInstruction ==> spec_io_dispatch_post(
                old(self).devices,
                final(self).devices,
                *old(vcpu),
                *final(vcpu),
                *exit_info,
                r,
            ),
            exit_info.exit_reason is MsrRead ==> ({
                &&& r matches Some(res) && spec_msr_read_post(
                    old(self).devices,
                    *old(vcpu),
                    *final(vcpu),
                    res,
                )
                &&& final(self).devices == old(self).devices
            }),
            exit_info.exit_reason is MsrWrite ==> (r matches Some(res) && spec_msr_write_post(
                old(self).devices,
                final(self).devices,
                *old(vcpu),
                *final(vcpu),
                res,
            )),
            !(exit_info.exit_reason is IoInstruction || exit_info.exit_reason is MsrRead
                || exit_info.exit_reason is MsrWrite) ==> ({
                &&& r is None
                &&& final(self).devices == old(self).devices
                &&& *final(vcpu) == *old(vcpu)
            }),
    {
        match exit_info.exit_reason {
            ExitReason::IoInstruction => {
                let r = self.devices.handle_io_instruction(vcpu, exit_info);
                proof {
                    if old(self).wf() {
                        lemma_io_dispatch_keeps_wf(
                            old(self).devices,
                            self.devices,
                            *old(vcpu),
                            *vcpu,
                            *exit_info,
                            r,
                        );
                    }
                }
                r
            },
            ExitReason::MsrRead => Some(self.devices.handle_msr_read(vcpu)),
            ExitReason::MsrWrite => Some(self.devices.handle_msr_write(vcpu)),
            _ => None,
        }
    }

    /// Forward a hypercall to the external hypercall dispatcher and hand
    /// back its 32-bit result unchanged: the per-vCPU set takes no
    /// decision of its own on hypercalls.
    pub fn hypercall_handler<F: FnMut(u32, (usize, usize, usize)) -> HvResult<u32>>(
        &mut self,
        id: u32,
        args: (usize, usize, usize),
        dispatch: F,
    ) -> (r: HvResult<u32>)
        requires
            call_requires(dispatch, (id, args)),
        ensures
            call_ensures(dispatch, (id, args), r),
            *final(self) == *old(self),
    {
        let mut dispatch = dispatch;
        dispatch(id, args)
    }

    /// Consume one message from this physical CPU's NMI queue. A boot
    /// request is consumed exactly once and handed to the caller as the
    /// outcome; an empty queue is a spurious NMI, answered benignly and
    /// booting nothing.
    pub fn nmi_handler(&mut self, queue: &mut NmiQueue) -> (r: NmiOutcome)
        ensures
            *final(self) == *old(self),
            old(queue).messages@.len() == 0 ==> ({
                &&& r == NmiOutcome::Spurious
                &&& final(queue).messages == old(queue).messages
            }),
            old(queue).messages@.len() > 0 ==> ({
                &&& final(queue).messages@ == old(queue).messages@.skip(1)
                &&& old(queue).messages@[0] matches NmiMessage::BootVm(vm_id) && r
                    == NmiOutcome::Boot(vm_id)
            }),
    {
        match queue.pop() {
            Some(NmiMessage::BootVm(vm_id)) => NmiOutcome::Boot(vm_id),
            None => NmiOutcome::Spurious,
        }
    }

    /// Per-quantum event check. If the APIC timer's deadline has been
    /// reached its vector is queued. Independently, the simplified
    /// periodic tick runs: the first call arms it a startup delay into
    /// the future; thereafter, once per elapsed millisecond, the legacy
    /// timer vector is queued — but only while the master PIC's line 0
    /// is unmasked — and the tick re-arms at the current time.
    pub fn check_events(&mut self, vcpu: &mut VCpu, now_ns: u64) -> (r: HvResult)
        requires
            old(self).wf(),
            old(self).last is None ==> now_ns + TICK_STARTUP_DELAY_NS <= u64::MAX,
        ensures
            r == Ok::<(), HvError>(()),
            final(self).wf(),
            final(self).devices == old(self).devices,
            final(self).apic_timer == spec_apic_next(old(self).apic_timer, now_ns),
            final(self).last == spec_tick_next(old(self).last, now_ns),
            final(vcpu).regs == old(vcpu).regs,
            final(vcpu).rip == old(vcpu).rip,
            final(vcpu).io_exit_info == old(vcpu).io_exit_info,
            final(vcpu).nested_page_fault_info == old(vcpu).nested_page_fault_info,
            final(vcpu).interrupt_exit_info == old(vcpu).interrupt_exit_info,
            final(vcpu).pending_events@ == old(vcpu).pending_events@ + (if spec_apic_fires(
                old(self).apic_timer,
                now_ns,
            ) {
                seq![old(self).apic_timer.vector]
            } else {
                Seq::<u8>::empty()
            }) + (if spec_tick_fires(old(self).last, now_ns) && old(self).spec_master_pic_mask()
                & 1 == 0 {
                seq![TICK_VECTOR]
            } else {
                Seq::<u8>::empty()
            }),
    {
        let ghost pending0 = vcpu.pending_events@;
        if self.apic_timer.check_interrupt(now_ns) {
            vcpu.queue_event(self.apic_timer.vector);
        }
        match self.last {
            Some(last_ns) => {
                if now_ns > last_ns && now_ns - last_ns > TICK_PERIOD_NS {
                    if self.master_pic_mask() & 1 == 0 {
                        vcpu.queue_event(TICK_VECTOR);
                    }
                    self.last = Some(now_ns);
                }
            },
            None => {
                self.last = Some(now_ns + TICK_STARTUP_DELAY_NS);
            },
        }
        proof {
            assert(final(vcpu).pending_events@ =~= pending0 + (if spec_apic_fires(
                old(self).apic_timer,
                now_ns,
            ) {
                seq![old(self).apic_timer.vector]
            } else {
                Seq::<u8>::empty()
            }) + (if spec_tick_fires(old(self).last, now_ns) && old(self).spec_master_pic_mask()
                & 1 == 0 {
                seq![TICK_VECTOR]
            } else {
                Seq::<u8>::empty()
            }));
        }
        Ok(())
    }
}

/// I/O dispatch preserves the per-vCPU structural facts: the port map's
/// length is unchanged and a write to any device keeps its variant, so
/// the master PIC stays a PIC at its fixed position.
proof fn lemma_io_dispatch_keeps_wf(
    pre: DeviceList,
    post: DeviceList,
    pre_vcpu: VCpu,
    post_vcpu: VCpu,
    exit: VmExitInfo,
    r: Option<HvResult>,
)
    requires
        pre.port_io_devices@.len() > PIC_MASTER_INDEX,
        pre.port_io_devices.deep_view()[PIC_MASTER_INDEX as int] is Pic,
        spec_io_dispatch_post(pre, post, pre_vcpu, post_vcpu, exit, r),
    ensures
        post.port_io_devices@.len() > PIC_MASTER_INDEX,
        post.port_io_devices.deep_view()[PIC_MASTER_INDEX as int] is Pic,
{
    let io = pre_vcpu.io_exit_info->0;
    let devs = pre.port_io_devices.deep_view();
    match spec_find_port(devs, io.port) {
        Some(i) => {
            lemma_find_port_characterization(devs, io.port);
            let step = spec_io_step(
                devs[i],
                io,
                pre_vcpu.regs,
                pre_vcpu.rip,
                exit.exit_instruction_length,
            );
            lemma_port_write_keeps_coverage(
                devs[i],
                io.port,
                low_bytes(pre_vcpu.regs.rax, io.access_size),
            );
            assert(step.dev is Pic == devs[i] is Pic);
            assert(devs.len() == pre.port_io_devices@.len());
            assert(post.port_io_devices.deep_view() == devs.update(i, step.dev));
            assert(post.port_io_devices.deep_view().len() == post.port_io_devices@.len());
        },
        None => {},
    }
}

} // verus!

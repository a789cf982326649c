use axvm::devices::PortDevice;
use axvm::err::HvError;
use axvm::vcpu::{ExitReason, GuestRegs, IoExitInfo, InterruptExitInfo, VCpu, VmExitInfo};
use axvm::vcpu_devices::{NmiMessage, NmiOutcome, NmiQueue, X64VcpuDevices};
use axvm::vm_devices::{ExitAction, X64VmDevices};

fn exit(reason: ExitReason, len: u32) -> VmExitInfo {
    VmExitInfo { exit_reason: reason, guest_rip: 0x1000, exit_instruction_length: len }
}

#[test]
fn serial_write_reaches_com1_and_advances_rip() {
    // End-to-end: the guest writes byte 0x41 to port 0x3f8 (COM1); the
    // serial device records exactly that byte and the instruction
    // pointer advances by the exit's reported length.
    let mut set = X64VcpuDevices::new();
    let mut vcpu = VCpu::new(GuestRegs { rax: 0x41, rcx: 0, rdx: 0 }, 0x7000);
    vcpu.io_exit_info = Some(IoExitInfo {
        port: 0x3f8,
        access_size: 1,
        is_in: false,
        is_string: false,
        is_repeat: false,
    });
    let r = set.vmexit_handler(&mut vcpu, &exit(ExitReason::IoInstruction, 2));
    assert_eq!(r, Some(Ok(())));
    assert_eq!(vcpu.rip, 0x7002);
    match &set.devices.port_io_devices[0] {
        PortDevice::Uart(uart) => {
            assert_eq!(uart.base, 0x3f8);
            assert_eq!(uart.tx, vec![0x41u8]);
        },
        other => panic!("expected COM1 first in the port map, found {:?}", other),
    }
}

#[test]
fn com1_line_status_reports_transmitter_idle() {
    let mut set = X64VcpuDevices::new();
    let mut vcpu = VCpu::new(GuestRegs { rax: 0xffff_ffff_ffff_ffff, rcx: 0, rdx: 0 }, 0x7000);
    vcpu.io_exit_info = Some(IoExitInfo {
        port: 0x3fd,
        access_size: 1,
        is_in: true,
        is_string: false,
        is_repeat: false,
    });
    let r = set.vmexit_handler(&mut vcpu, &exit(ExitReason::IoInstruction, 2));
    assert_eq!(r, Some(Ok(())));
    assert_eq!(vcpu.regs.rax, 0xffff_ffff_ffff_ff60);
}

#[test]
fn vcpu_set_rdmsr_of_unregistered_index_is_fatal() {
    // End-to-end: RDMSR of an index no device claims surfaces the
    // condition, never a default value of zero.
    let mut set = X64VcpuDevices::new();
    let mut vcpu = VCpu::new(GuestRegs { rax: 1, rcx: 0x199, rdx: 2 }, 0x5000);
    let r = set.vmexit_handler(&mut vcpu, &exit(ExitReason::MsrRead, 2));
    assert_eq!(r, Some(Err(HvError::NoMsrDevice { msr: 0x199 })));
    assert_eq!(vcpu.regs.rax, 1);
    assert_eq!(vcpu.regs.rdx, 2);
    assert_eq!(vcpu.rip, 0x5000);
}

#[test]
fn vcpu_set_reads_apic_base_msr() {
    let mut set = X64VcpuDevices::new();
    let mut vcpu = VCpu::new(GuestRegs { rax: 0, rcx: 0x1b, rdx: 0 }, 0x5000);
    let r = set.vmexit_handler(&mut vcpu, &exit(ExitReason::MsrRead, 2));
    assert_eq!(r, Some(Ok(())));
    assert_eq!(vcpu.regs.rax, 0xfee0_0900 & 0xffff_ffff);
    assert_eq!(vcpu.regs.rdx, 0);
    assert_eq!(vcpu.rip, 0x5002);
}

#[test]
fn vcpu_set_defers_unknown_exit_reasons() {
    let mut set = X64VcpuDevices::new();
    let mut vcpu = VCpu::new(GuestRegs { rax: 0, rcx: 0, rdx: 0 }, 0x5000);
    let r = set.vmexit_handler(&mut vcpu, &exit(ExitReason::Other, 0));
    assert_eq!(r, None);
    assert_eq!(vcpu.rip, 0x5000);
}

#[test]
fn queued_boot_message_is_consumed_exactly_once() {
    let mut set = X64VcpuDevices::new();
    let mut queue = NmiQueue::new();
    queue.push(NmiMessage::BootVm(3));
    assert_eq!(set.nmi_handler(&mut queue), NmiOutcome::Boot(3));
    assert_eq!(queue.messages.len(), 0);
    // The message is gone: a second NMI is spurious and boots nothing.
    assert_eq!(set.nmi_handler(&mut queue), NmiOutcome::Spurious);
}

#[test]
fn empty_nmi_queue_is_spurious_and_benign() {
    let mut set = X64VcpuDevices::new();
    let mut queue = NmiQueue::new();
    assert_eq!(set.nmi_handler(&mut queue), NmiOutcome::Spurious);
    assert_eq!(queue.messages.len(), 0);
}

#[test]
fn nmi_messages_are_consumed_in_arrival_order() {
    let mut set = X64VcpuDevices::new();
    let mut queue = NmiQueue::new();
    queue.push(NmiMessage::BootVm(1));
    queue.push(NmiMessage::BootVm(2));
    assert_eq!(set.nmi_handler(&mut queue), NmiOutcome::Boot(1));
    assert_eq!(set.nmi_handler(&mut queue), NmiOutcome::Boot(2));
    assert_eq!(set.nmi_handler(&mut queue), NmiOutcome::Spurious);
}

fn unmask_timer_line(set: &mut X64VcpuDevices) {
    // The guest clears bit 0 of the master PIC's mask by writing its
    // data port.
    let mut vcpu = VCpu::new(GuestRegs { rax: 0xfe, rcx: 0, rdx: 0 }, 0x100);
    vcpu.io_exit_info = Some(IoExitInfo {
        port: 0x21,
        access_size: 1,
        is_in: false,
        is_string: false,
        is_repeat: false,
    });
    let r = set.vmexit_handler(&mut vcpu, &exit(ExitReason::IoInstruction, 2));
    assert_eq!(r, Some(Ok(())));
}

#[test]
fn tick_never_fires_before_startup_delay() {
    let mut set = X64VcpuDevices::new();
    unmask_timer_line(&mut set);
    let mut vcpu = VCpu::new(GuestRegs { rax: 0, rcx: 0, rdx: 0 }, 0);

    // First call arms the tick five seconds ahead; nothing is injected.
    assert_eq!(set.check_events(&mut vcpu, 1_000), Ok(()));
    assert_eq!(vcpu.pending_events.len(), 0);

    // Exactly at the startup deadline: still nothing.
    assert_eq!(set.check_events(&mut vcpu, 1_000 + 5_000_000_000), Ok(()));
    assert_eq!(vcpu.pending_events.len(), 0);

    // Past the deadline by more than a millisecond: vector 0x30 arrives.
    assert_eq!(set.check_events(&mut vcpu, 1_000 + 5_001_000_001), Ok(()));
    assert_eq!(vcpu.pending_events, vec![0x30u8]);
}

#[test]
fn tick_fires_at_most_once_per_millisecond() {
    let mut set = X64VcpuDevices::new();
    unmask_timer_line(&mut set);
    let mut vcpu = VCpu::new(GuestRegs { rax: 0, rcx: 0, rdx: 0 }, 0);
    let fire1: u64 = 10_000_000_000;
    assert_eq!(set.check_events(&mut vcpu, 1_000), Ok(()));
    assert_eq!(set.check_events(&mut vcpu, fire1), Ok(()));
    assert_eq!(vcpu.pending_events, vec![0x30u8]);

    // Less than a millisecond later: no second injection.
    assert_eq!(set.check_events(&mut vcpu, fire1 + 999_999), Ok(()));
    assert_eq!(vcpu.pending_events, vec![0x30u8]);

    // More than a millisecond later: the next tick.
    assert_eq!(set.check_events(&mut vcpu, fire1 + 1_000_001), Ok(()));
    assert_eq!(vcpu.pending_events, vec![0x30u8, 0x30u8]);
}

#[test]
fn tick_respects_pic_mask_bit() {
    // With the legacy timer line masked (the PIC's reset state), the
    // tick elapses without injecting vector 0x30.
    let mut set = X64VcpuDevices::new();
    let mut vcpu = VCpu::new(GuestRegs { rax: 0, rcx: 0, rdx: 0 }, 0);
    assert_eq!(set.check_events(&mut vcpu, 1_000), Ok(()));
    assert_eq!(set.check_events(&mut vcpu, 10_000_000_000), Ok(()));
    assert_eq!(vcpu.pending_events.len(), 0);
}

#[test]
fn apic_timer_fires_once_at_deadline() {
    let mut set = X64VcpuDevices::new();
    let mut vcpu = VCpu::new(GuestRegs { rax: 0, rcx: 0, rdx: 0 }, 0);
    set.apic_timer.arm(5_000);
    assert_eq!(set.check_events(&mut vcpu, 1_000), Ok(()));
    assert_eq!(vcpu.pending_events.len(), 0);
    assert_eq!(set.check_events(&mut vcpu, 6_000), Ok(()));
    assert_eq!(vcpu.pending_events, vec![0xecu8]);
    // One-shot: it does not fire again.
    assert_eq!(set.check_events(&mut vcpu, 7_000), Ok(()));
    assert_eq!(vcpu.pending_events, vec![0xecu8]);
}

#[test]
fn vm_set_validates_external_interrupts() {
    let mut set = X64VmDevices::new();
    let exit_info = exit(ExitReason::ExternalInterrupt, 0);

    let mut vcpu = VCpu::new(GuestRegs { rax: 0, rcx: 0, rdx: 0 }, 0);
    vcpu.interrupt_exit_info = Some(InterruptExitInfo { vector: 0xf0, valid: true });
    let r = set.vmexit_handler(&mut vcpu, &exit_info, None);
    assert_eq!(r, Some(Ok(ExitAction::DispatchHostIrq(0xf0))));

    let mut vcpu2 = VCpu::new(GuestRegs { rax: 0, rcx: 0, rdx: 0 }, 0);
    vcpu2.interrupt_exit_info = Some(InterruptExitInfo { vector: 0x20, valid: true });
    let r2 = set.vmexit_handler(&mut vcpu2, &exit_info, None);
    assert_eq!(r2, Some(Err(HvError::BadInterrupt { vector: 0x20, valid: true })));

    let mut vcpu3 = VCpu::new(GuestRegs { rax: 0, rcx: 0, rdx: 0 }, 0);
    vcpu3.interrupt_exit_info = Some(InterruptExitInfo { vector: 0xf0, valid: false });
    let r3 = set.vmexit_handler(&mut vcpu3, &exit_info, None);
    assert_eq!(r3, Some(Err(HvError::BadInterrupt { vector: 0xf0, valid: false })));

    let mut vcpu4 = VCpu::new(GuestRegs { rax: 0, rcx: 0, rdx: 0 }, 0);
    let r4 = set.vmexit_handler(&mut vcpu4, &exit_info, None);
    assert_eq!(r4, Some(Err(HvError::BadInterrupt { vector: 0, valid: false })));
}

#[test]
fn vm_set_serves_pci_config_ports() {
    let mut set = X64VmDevices::new();

    // Latch a configuration address through port 0xcf8.
    let mut vcpu = VCpu::new(GuestRegs { rax: 0x8000_0018, rcx: 0, rdx: 0 }, 0x100);
    vcpu.io_exit_info = Some(IoExitInfo {
        port: 0xcf8,
        access_size: 4,
        is_in: false,
        is_string: false,
        is_repeat: false,
    });
    let r = set.vmexit_handler(&mut vcpu, &exit(ExitReason::IoInstruction, 2), None);
    assert_eq!(r, Some(Ok(ExitAction::Completed)));

    // Read it back.
    let mut vcpu2 = VCpu::new(GuestRegs { rax: 0, rcx: 0, rdx: 0 }, 0x100);
    vcpu2.io_exit_info = Some(IoExitInfo {
        port: 0xcf8,
        access_size: 4,
        is_in: true,
        is_string: false,
        is_repeat: false,
    });
    let r2 = set.vmexit_handler(&mut vcpu2, &exit(ExitReason::IoInstruction, 2), None);
    assert_eq!(r2, Some(Ok(ExitAction::Completed)));
    assert_eq!(vcpu2.regs.rax, 0x8000_0018);

    // The data port answers "no device": configuration-space emulation
    // beyond range lookup is out of scope.
    let mut vcpu3 = VCpu::new(GuestRegs { rax: 0, rcx: 0, rdx: 0 }, 0x100);
    vcpu3.io_exit_info = Some(IoExitInfo {
        port: 0xcfc,
        access_size: 4,
        is_in: true,
        is_string: false,
        is_repeat: false,
    });
    let r3 = set.vmexit_handler(&mut vcpu3, &exit(ExitReason::IoInstruction, 2), None);
    assert_eq!(r3, Some(Ok(ExitAction::Completed)));
    assert_eq!(vcpu3.regs.rax, 0xffff_ffff);
}

#[test]
fn vm_set_rejects_duplicate_virtio_slot() {
    let mut set = X64VmDevices::new();
    assert_eq!(set.devices.add_virtio_pci_device(0x18), Err(HvError::InvalidParam));
    assert_eq!(set.devices.add_virtio_pci_device(0x20), Ok(()));
}

#[test]
fn hypercall_result_is_forwarded_unchanged() {
    let mut set = X64VcpuDevices::new();
    let r = set.hypercall_handler(7, (1, 2, 3), |id, args| Ok(id + args.0 as u32));
    assert_eq!(r, Ok(8));
    let e = set.hypercall_handler(9, (0, 0, 0), |_, _| Err(HvError::NotSupported));
    assert_eq!(e, Err(HvError::NotSupported));
}

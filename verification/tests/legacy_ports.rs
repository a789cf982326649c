use axvm::vcpu::{ExitReason, GuestRegs, IoExitInfo, VCpu, VmExitInfo};
use axvm::vcpu_devices::X64VcpuDevices;

fn io_exit() -> VmExitInfo {
    VmExitInfo {
        exit_reason: ExitReason::IoInstruction,
        guest_rip: 0x400,
        exit_instruction_length: 2,
    }
}

fn port_write(set: &mut X64VcpuDevices, port: u16, value: u64) {
    let mut vcpu = VCpu::new(GuestRegs { rax: value, rcx: 0, rdx: 0 }, 0x400);
    vcpu.io_exit_info = Some(IoExitInfo {
        port,
        access_size: 1,
        is_in: false,
        is_string: false,
        is_repeat: false,
    });
    assert_eq!(set.vmexit_handler(&mut vcpu, &io_exit()), Some(Ok(())));
}

fn port_read(set: &mut X64VcpuDevices, port: u16) -> u64 {
    let mut vcpu = VCpu::new(GuestRegs { rax: 0, rcx: 0, rdx: 0 }, 0x400);
    vcpu.io_exit_info = Some(IoExitInfo {
        port,
        access_size: 1,
        is_in: true,
        is_string: false,
        is_repeat: false,
    });
    assert_eq!(set.vmexit_handler(&mut vcpu, &io_exit()), Some(Ok(())));
    vcpu.regs.rax
}

#[test]
fn bundle_latches_system_control_ports() {
    let mut set = X64VcpuDevices::new();
    port_write(&mut set, 0x92, 0x02);
    assert_eq!(port_read(&mut set, 0x92), 0x02);
    port_write(&mut set, 0x61, 0x05);
    assert_eq!(port_read(&mut set, 0x61), 0x05);
}

#[test]
fn bundle_latches_cmos_index_with_nmi_bit() {
    let mut set = X64VcpuDevices::new();
    port_write(&mut set, 0x70, 0x8a);
    assert_eq!(port_read(&mut set, 0x70), 0x8a);
    // The CMOS data port is not modeled beyond the range: it reads zero.
    assert_eq!(port_read(&mut set, 0x71), 0);
}

#[test]
fn bundle_pit_counter_ports_read_zero() {
    let mut set = X64VcpuDevices::new();
    port_write(&mut set, 0x40, 0x55);
    assert_eq!(port_read(&mut set, 0x40), 0);
    assert_eq!(port_read(&mut set, 0x43), 0);
}

#[test]
fn pic_mask_is_set_through_its_data_port() {
    let mut set = X64VcpuDevices::new();
    // Reset state: everything masked.
    assert_eq!(port_read(&mut set, 0x21), 0xff);
    port_write(&mut set, 0x21, 0xfc);
    assert_eq!(port_read(&mut set, 0x21), 0xfc);
    // The slave controller is independent.
    assert_eq!(port_read(&mut set, 0xa1), 0xff);
}

#[test]
fn dummy_and_debug_ports_accept_probes() {
    let mut set = X64VcpuDevices::new();
    port_write(&mut set, 0x80, 0x12);
    assert_eq!(port_read(&mut set, 0x80), 0);
    port_write(&mut set, 0xf0, 0x34);
    assert_eq!(port_read(&mut set, 0xf1), 0);
    assert_eq!(port_read(&mut set, 0x3d5), 0);
    assert_eq!(port_read(&mut set, 0x60), 0);
    assert_eq!(port_read(&mut set, 0x64), 0);
    assert_eq!(port_read(&mut set, 0x87), 0);
}

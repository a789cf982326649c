use axvm::device_list::DeviceList;
use axvm::devices::{DummyPort, I8259Pic, PortDevice};
use axvm::err::HvError;
use axvm::mmio_devices::{MmioDevice, MmioDummy};
use axvm::msr_devices::{ApicBaseMsr, MsrDevice};
use axvm::vcpu::{ExitReason, GuestRegs, IoExitInfo, VCpu, VmExitInfo};

fn io_vcpu(rax: u64, port: u16, access_size: u8, is_in: bool) -> VCpu {
    let mut vcpu = VCpu::new(GuestRegs { rax, rcx: 0, rdx: 0 }, 0x1000);
    vcpu.io_exit_info = Some(IoExitInfo {
        port,
        access_size,
        is_in,
        is_string: false,
        is_repeat: false,
    });
    vcpu
}

fn io_exit(len: u32) -> VmExitInfo {
    VmExitInfo {
        exit_reason: ExitReason::IoInstruction,
        guest_rip: 0x1000,
        exit_instruction_length: len,
    }
}

fn list_with_pic(base: u16, mask: u8) -> DeviceList {
    let mut devices = DeviceList::new();
    devices.add_port_io_device(PortDevice::Pic(I8259Pic { base, mask }));
    devices
}

#[test]
fn in_one_byte_preserves_high_bits() {
    let mut devices = list_with_pic(0x70, 0xab);
    let mut vcpu = io_vcpu(0xdead_beef_cafe_1234, 0x71, 1, true);
    let r = devices.handle_io_instruction(&mut vcpu, &io_exit(2));
    assert_eq!(r, Some(Ok(())));
    assert_eq!(vcpu.regs.rax, 0xdead_beef_cafe_12ab);
    assert_eq!(vcpu.rip, 0x1002);
}

#[test]
fn in_two_bytes_preserves_high_bits() {
    let mut devices = list_with_pic(0x70, 0xab);
    let mut vcpu = io_vcpu(0xdead_beef_cafe_1234, 0x71, 2, true);
    let r = devices.handle_io_instruction(&mut vcpu, &io_exit(2));
    assert_eq!(r, Some(Ok(())));
    assert_eq!(vcpu.regs.rax, 0xdead_beef_cafe_00ab);
}

#[test]
fn in_four_bytes_overwrites_accumulator() {
    let mut devices = list_with_pic(0x70, 0xab);
    let mut vcpu = io_vcpu(0xdead_beef_cafe_1234, 0x71, 4, true);
    let r = devices.handle_io_instruction(&mut vcpu, &io_exit(2));
    assert_eq!(r, Some(Ok(())));
    assert_eq!(vcpu.regs.rax, 0x0000_0000_0000_00ab);
}

#[test]
fn out_writes_low_byte_of_accumulator() {
    let mut devices = list_with_pic(0x70, 0x00);
    let mut vcpu = io_vcpu(0xffff_ffff_ffff_ff5a, 0x71, 1, false);
    let r = devices.handle_io_instruction(&mut vcpu, &io_exit(2));
    assert_eq!(r, Some(Ok(())));
    match &devices.port_io_devices[0] {
        PortDevice::Pic(pic) => assert_eq!(pic.mask, 0x5a),
        other => panic!("unexpected device {:?}", other),
    }
    assert_eq!(vcpu.regs.rax, 0xffff_ffff_ffff_ff5a);
    assert_eq!(vcpu.rip, 0x1002);
}

#[test]
fn unserved_port_without_pci_host_is_not_handled() {
    let mut devices = list_with_pic(0x70, 0xab);
    let mut vcpu = io_vcpu(7, 0x3f8, 1, true);
    let r = devices.handle_io_instruction(&mut vcpu, &io_exit(2));
    assert_eq!(r, None);
    assert_eq!(vcpu.regs.rax, 7);
    assert_eq!(vcpu.rip, 0x1000);
}

#[test]
fn overlapping_ranges_first_registered_wins() {
    // Two devices with overlapping port ranges [0x70, 0x72) and
    // [0x71, 0x73): a read at 0x71 is serviced by the first registered.
    let mut devices = DeviceList::new();
    devices.add_port_io_device(PortDevice::Pic(I8259Pic { base: 0x70, mask: 0x11 }));
    devices.add_port_io_device(PortDevice::Pic(I8259Pic { base: 0x71, mask: 0x22 }));
    assert_eq!(devices.find_port_io_device(0x71), Some(0));

    // Port 0x71 is the first device's data port: the read returns its
    // mask, not anything of the second device.
    let mut vcpu = io_vcpu(0, 0x71, 1, true);
    let r = devices.handle_io_instruction(&mut vcpu, &io_exit(1));
    assert_eq!(r, Some(Ok(())));
    assert_eq!(vcpu.regs.rax, 0x11);
}

#[test]
fn uniquely_covered_port_selects_that_device() {
    let mut devices = DeviceList::new();
    devices.add_port_io_device(PortDevice::Dummy(DummyPort { base: 0x10, len: 4 }));
    devices.add_port_io_device(PortDevice::Pic(I8259Pic { base: 0x70, mask: 0x33 }));
    devices.add_port_io_device(PortDevice::Dummy(DummyPort { base: 0x90, len: 4 }));
    assert_eq!(devices.find_port_io_device(0x70), Some(1));
    assert_eq!(devices.find_port_io_device(0x12), Some(0));
    assert_eq!(devices.find_port_io_device(0x93), Some(2));
    assert_eq!(devices.find_port_io_device(0x94), None);
}

#[test]
fn string_io_yields_not_supported_without_mutation() {
    let mut devices = list_with_pic(0x70, 0xab);
    let mut vcpu = io_vcpu(0x1234, 0x71, 1, true);
    vcpu.io_exit_info = Some(IoExitInfo {
        port: 0x71,
        access_size: 1,
        is_in: true,
        is_string: true,
        is_repeat: false,
    });
    let r = devices.handle_io_instruction(&mut vcpu, &io_exit(2));
    assert_eq!(r, Some(Err(HvError::NotSupported)));
    assert_eq!(vcpu.regs.rax, 0x1234);
    assert_eq!(vcpu.rip, 0x1000);
}

#[test]
fn repeat_io_yields_not_supported_without_mutation() {
    let mut devices = list_with_pic(0x70, 0xab);
    let mut vcpu = io_vcpu(0x1234, 0x71, 1, false);
    vcpu.io_exit_info = Some(IoExitInfo {
        port: 0x71,
        access_size: 1,
        is_in: false,
        is_string: false,
        is_repeat: true,
    });
    let r = devices.handle_io_instruction(&mut vcpu, &io_exit(2));
    assert_eq!(r, Some(Err(HvError::NotSupported)));
    assert_eq!(vcpu.regs.rax, 0x1234);
    assert_eq!(vcpu.rip, 0x1000);
    match &devices.port_io_devices[0] {
        PortDevice::Pic(pic) => assert_eq!(pic.mask, 0xab),
        other => panic!("unexpected device {:?}", other),
    }
}

#[test]
fn msr_write_then_read_round_trips() {
    let mut devices = DeviceList::new();
    devices.add_msr_device(MsrDevice::ApicBase(ApicBaseMsr { value: 0 }));
    let value: u64 = 0x1234_5678_9abc_def0;

    // WRMSR: rcx selects the MSR, rax/rdx carry the halves.
    let mut vcpu = VCpu::new(
        GuestRegs { rax: value & 0xffff_ffff, rcx: 0x1b, rdx: value >> 32 },
        0x2000,
    );
    assert_eq!(devices.handle_msr_write(&mut vcpu), Ok(()));
    assert_eq!(vcpu.rip, 0x2002);
    match &devices.msr_devices[0] {
        MsrDevice::ApicBase(apic_base) => assert_eq!(apic_base.value, value),
        other => panic!("unexpected device {:?}", other),
    }

    // RDMSR with the same rcx: the halves come back exactly.
    let mut vcpu2 = VCpu::new(GuestRegs { rax: 0, rcx: 0x1b, rdx: 0 }, 0x3000);
    assert_eq!(devices.handle_msr_read(&mut vcpu2), Ok(()));
    assert_eq!(vcpu2.regs.rax, value & 0xffff_ffff);
    assert_eq!(vcpu2.regs.rdx, value >> 32);
    assert_eq!(vcpu2.rip, 0x3002);

    // Writing back the very registers the read produced leaves the
    // device's value unchanged: the split is inverted exactly.
    vcpu2.regs.rcx = 0x1b;
    assert_eq!(devices.handle_msr_write(&mut vcpu2), Ok(()));
    match &devices.msr_devices[0] {
        MsrDevice::ApicBase(apic_base) => assert_eq!(apic_base.value, value),
        other => panic!("unexpected device {:?}", other),
    }
}

#[test]
fn unregistered_msr_read_is_surfaced_not_defaulted() {
    let mut devices = DeviceList::new();
    devices.add_msr_device(MsrDevice::ApicBase(ApicBaseMsr { value: 5 }));
    let mut vcpu = VCpu::new(GuestRegs { rax: 77, rcx: 0x199, rdx: 88 }, 0x2000);
    let r = devices.handle_msr_read(&mut vcpu);
    assert_eq!(r, Err(HvError::NoMsrDevice { msr: 0x199 }));
    // Never a default value of zero: the registers are untouched.
    assert_eq!(vcpu.regs.rax, 77);
    assert_eq!(vcpu.regs.rdx, 88);
    assert_eq!(vcpu.rip, 0x2000);
}

#[test]
fn pci_bar_fallback_serves_missed_port() {
    let mut devices = DeviceList::new();
    devices.add_port_io_device(PortDevice::Dummy(DummyPort { base: 0x10, len: 4 }));
    devices.init_pci_host();
    devices
        .pci_host
        .as_mut()
        .unwrap()
        .add_pio_bar(PortDevice::Pic(I8259Pic { base: 0xc000, mask: 0x44 }));

    // The primary list misses 0xc001; the BAR region answers.
    let mut vcpu = io_vcpu(0, 0xc001, 1, true);
    let r = devices.handle_io_instruction(&mut vcpu, &io_exit(2));
    assert_eq!(r, Some(Ok(())));
    assert_eq!(vcpu.regs.rax, 0x44);

    // A port no BAR covers either stays unhandled.
    let mut vcpu2 = io_vcpu(0, 0xd000, 1, true);
    assert_eq!(devices.handle_io_instruction(&mut vcpu2, &io_exit(2)), None);
}

#[test]
fn mmio_lookup_is_first_match() {
    let mut devices = DeviceList::new();
    devices.add_memory_io_device(MmioDevice::Dummy(MmioDummy { base: 0x1000, size: 0x100 }));
    devices.add_memory_io_device(MmioDevice::Dummy(MmioDummy { base: 0x1080, size: 0x100 }));
    assert_eq!(devices.find_memory_io_device(0x1080), Some(0));
    assert_eq!(devices.find_memory_io_device(0x1100), Some(1));
    assert_eq!(devices.find_memory_io_device(0x2000), None);
}

#[test]
fn msr_lookup_matches_claimed_index_only() {
    let mut devices = DeviceList::new();
    devices.add_msr_device(MsrDevice::ApicBase(ApicBaseMsr { value: 0 }));
    assert_eq!(devices.find_msr_device(0x1b), Some(0));
    assert_eq!(devices.find_msr_device(0x1c), None);
}

#[test]
fn inert_mmio_region_reads_zero_and_drops_writes() {
    let mut region = MmioDevice::Dummy(MmioDummy { base: 0x1000, size: 0x100 });
    assert_eq!(region.read(0x1004, 4), Ok(0));
    assert_eq!(region.write(0x1004, 4, 0x1234), Ok(()));
    assert_eq!(region.read(0x1004, 4), Ok(0));
    assert!(region.covers(0x10ff));
    assert!(!region.covers(0x1100));
}

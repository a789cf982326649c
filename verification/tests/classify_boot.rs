use axvm::classify::{access_width, get_access_size, OperandClass};
use axvm::err::HvError;
use axvm::vcpu::{EptFaultInfo, ExitReason, GuestRegs, VCpu, VmExitInfo};
use axvm::vm::{
    boot_image_layout, generate_vm_id, BootImageLayout, InitLatch, Rendezvous, VmIdAllocator,
};
use axvm::vm_devices::X64VmDevices;

use iced_x86::{Decoder, DecoderOptions, Instruction};

fn decode(bytes: &[u8]) -> Instruction {
    let mut decoder = Decoder::new(64, bytes, DecoderOptions::NONE);
    decoder.decode()
}

#[test]
fn undecodable_instruction_is_a_decode_error() {
    assert_eq!(get_access_size(Instruction::default()), Err(HvError::DecodeError));
}

#[test]
fn register_destination_decides_the_width() {
    // mov ecx, [rax]: the first operand is the 32-bit register ecx.
    assert_eq!(get_access_size(decode(&[0x8b, 0x08])), Ok(4));
    // mov cl, [rax]: 8-bit register destination.
    assert_eq!(get_access_size(decode(&[0x8a, 0x08])), Ok(1));
    // mov rcx, [rax]: 64-bit register destination.
    assert_eq!(get_access_size(decode(&[0x48, 0x8b, 0x08])), Ok(8));
}

#[test]
fn width_rule_priorities_are_fixed() {
    assert_eq!(access_width(OperandClass::Register, OperandClass::Memory, OperandClass::Other, 4, 8), 4);
    assert_eq!(access_width(OperandClass::Other, OperandClass::Memory, OperandClass::Other, 4, 8), 8);
    assert_eq!(
        access_width(OperandClass::Other, OperandClass::Immediate8, OperandClass::Other, 0, 0),
        1,
    );
    assert_eq!(
        access_width(OperandClass::Immediate16, OperandClass::Other, OperandClass::Other, 0, 0),
        2,
    );
    assert_eq!(
        access_width(OperandClass::Other, OperandClass::Other, OperandClass::Immediate32, 0, 0),
        4,
    );
    assert_eq!(
        access_width(OperandClass::Immediate64, OperandClass::Other, OperandClass::Other, 0, 0),
        8,
    );
    assert_eq!(access_width(OperandClass::Other, OperandClass::Other, OperandClass::Other, 0, 0), 0);
}

#[test]
fn ept_violation_without_fault_info_is_fatal() {
    let mut set = X64VmDevices::new();
    let mut vcpu = VCpu::new(GuestRegs { rax: 0, rcx: 0, rdx: 0 }, 0x9000);
    let exit_info = VmExitInfo {
        exit_reason: ExitReason::EptViolation,
        guest_rip: 0x9000,
        exit_instruction_length: 3,
    };
    let r = set.vmexit_handler(&mut vcpu, &exit_info, Some(decode(&[0x8b, 0x08])));
    assert!(matches!(r, Some(Err(HvError::NoFaultInfo { guest_rip: 0x9000 }))));
}

#[test]
fn ept_violation_with_fault_info_is_recognized_but_unhandled() {
    let mut set = X64VmDevices::new();
    let mut vcpu = VCpu::new(GuestRegs { rax: 0, rcx: 0, rdx: 0 }, 0x9000);
    vcpu.nested_page_fault_info = Some(EptFaultInfo {
        fault_guest_paddr: 0xfee0_0000,
        access_flags: page_table_entry::MappingFlags::WRITE,
    });
    let exit_info = VmExitInfo {
        exit_reason: ExitReason::EptViolation,
        guest_rip: 0x9000,
        exit_instruction_length: 3,
    };
    let r = set.vmexit_handler(&mut vcpu, &exit_info, Some(decode(&[0x8b, 0x08])));
    assert_eq!(r, None);
    assert_eq!(vcpu.rip, 0x9000);
}

#[test]
fn ept_violation_without_instruction_is_unhandled() {
    let mut set = X64VmDevices::new();
    let mut vcpu = VCpu::new(GuestRegs { rax: 0, rcx: 0, rdx: 0 }, 0x9000);
    let exit_info = VmExitInfo {
        exit_reason: ExitReason::EptViolation,
        guest_rip: 0x9000,
        exit_instruction_length: 3,
    };
    assert_eq!(set.vmexit_handler(&mut vcpu, &exit_info, None), None);
}

#[test]
fn ept_violation_with_undecodable_instruction_is_a_decode_error() {
    let mut set = X64VmDevices::new();
    let mut vcpu = VCpu::new(GuestRegs { rax: 0, rcx: 0, rdx: 0 }, 0x9000);
    vcpu.nested_page_fault_info = Some(EptFaultInfo {
        fault_guest_paddr: 0xfee0_0000,
        access_flags: page_table_entry::MappingFlags::READ,
    });
    let exit_info = VmExitInfo {
        exit_reason: ExitReason::EptViolation,
        guest_rip: 0x9000,
        exit_instruction_length: 3,
    };
    let r = set.vmexit_handler(&mut vcpu, &exit_info, Some(Instruction::default()));
    assert_eq!(r, Some(Err(HvError::DecodeError)));
}

#[test]
fn vm_ids_count_up_from_one() {
    let mut ids = VmIdAllocator::new();
    assert_eq!(generate_vm_id(&mut ids), 1);
    assert_eq!(generate_vm_id(&mut ids), 2);
    assert_eq!(generate_vm_id(&mut ids), 3);
}

#[test]
fn vm_ids_wrap_at_the_counter_width() {
    let mut ids = VmIdAllocator { next: u32::MAX };
    assert_eq!(generate_vm_id(&mut ids), u32::MAX);
    assert_eq!(generate_vm_id(&mut ids), 0);
    assert_eq!(ids.next, 1);
}

#[test]
fn init_latch_sets_once_and_stays_set() {
    let mut latch = InitLatch::new();
    assert!(!latch.is_released());
    latch.release();
    assert!(latch.is_released());
    latch.release();
    assert!(latch.is_released());
}

#[test]
fn rendezvous_completes_when_all_cores_arrive() {
    let mut barrier = Rendezvous::new(3);
    assert!(!barrier.is_complete());
    barrier.arrive();
    barrier.arrive();
    assert!(!barrier.is_complete());
    barrier.arrive();
    assert!(barrier.is_complete());
}

#[test]
fn boot_image_layout_places_bios_and_kernel() {
    let layout = boot_image_layout(0x8000, 0x3000, 0x5000);
    assert_eq!(
        layout,
        Ok(BootImageLayout {
            bios_paddr: 0x9000,
            bios_size: 0x3000,
            guest_image_paddr: 0xc000,
            guest_image_size: 0x5000,
        }),
    );
}

#[test]
fn boot_image_layout_rejects_overflow() {
    assert_eq!(boot_image_layout(usize::MAX - 0x100, 0x3000, 0x5000), Err(HvError::InvalidParam));
    assert_eq!(boot_image_layout(0x8000, usize::MAX, 0x5000), Err(HvError::InvalidParam));
    assert_eq!(boot_image_layout(0x8000, 0x3000, usize::MAX), Err(HvError::InvalidParam));
}

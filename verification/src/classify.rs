//! Instruction classifier: the access width of a decoded instruction.
//!
//! MMIO dispatch needs to know how many bytes a trapped instruction moves.
//! The rule inspects the instruction's first three operand kinds in a fixed
//! priority order — a register operand decides by the first operand
//! register's width, then a memory operand by the addressed memory size,
//! then an immediate by its own width — and reports width zero when no
//! kind it knows about appears. The rule itself is verified over plain
//! values; what those values are for a given instruction comes from the
//! `iced_x86` decoder through the trusted wrappers below.

use vstd::prelude::*;

use crate::err::{HvError, HvResult};

verus! {

/// Declaration of `iced_x86::Instruction`, the decoded-instruction value
/// handed in by the vCPU run loop. Opaque here; the wrappers below extract
/// what the width rule reads.
#[verifier::external_type_specification]
#[verifier::external_body]
pub struct ExInstruction(iced_x86::Instruction);

/// Declaration of `iced_x86::Register`.
#[verifier::external_type_specification]
#[verifier::external_body]
pub struct ExRegister(iced_x86::Register);

/// Declaration of `iced_x86::MemorySize`.
#[verifier::external_type_specification]
#[verifier::external_body]
pub struct ExMemorySize(iced_x86::MemorySize);

/// The operand kinds the width rule distinguishes; every other kind of
/// operand (branch targets, far pointers, folded immediates) falls under
/// `Other` and contributes no width.
#[derive(Clone, Copy, Debug, PartialEq, Eq, Structural)]
pub enum OperandClass {
    /// A register operand.
    Register,
    /// A memory operand.
    Memory,
    /// An 8-bit immediate.
    Immediate8,
    /// A 16-bit immediate.
    Immediate16,
    /// A 32-bit immediate.
    Immediate32,
    /// A 64-bit immediate.
    Immediate64,
    /// Any operand kind the rule does not size.
    Other,
}

/// What `Instruction::code` compared against the invalid marker returns:
/// whether the bytes did not decode to an instruction. A function of the
/// instruction value alone.
pub uninterp spec fn spec_instruction_invalid(instruction: iced_x86::Instruction) -> bool;

/// What `Instruction::op_kind` for operand `n` returns, folded onto the
/// classes the width rule distinguishes. A function of the instruction
/// value alone.
pub uninterp spec fn spec_operand_class(instruction: iced_x86::Instruction, n: u32) -> OperandClass;

/// What `Instruction::op_register` for operand 0 returns. A function of
/// the instruction value alone.
pub uninterp spec fn spec_op0_register(instruction: iced_x86::Instruction) -> iced_x86::Register;

/// What `Register::size` returns: the register's width in bytes. A
/// function of the register value alone.
pub uninterp spec fn spec_register_size(register: iced_x86::Register) -> usize;

/// What `Instruction::memory_size` returns. A function of the instruction
/// value alone.
pub uninterp spec fn spec_memory_size(instruction: iced_x86::Instruction) -> iced_x86::MemorySize;

/// What `MemorySize::size` returns: the access width in bytes. A function
/// of the size descriptor alone.
pub uninterp spec fn spec_memory_size_bytes(memory_size: iced_x86::MemorySize) -> usize;

/// Relies on `Instruction::code`: true exactly when the stored code is the
/// invalid marker, i.e. the bytes did not decode to an instruction.
#[verifier::external_body]
fn instruction_is_invalid(instruction: &iced_x86::Instruction) -> (r: bool)
    ensures
        r == spec_instruction_invalid(*instruction),
{
    instruction.code() == iced_x86::Code::INVALID
}

/// Relies on `Instruction::op_kind`: the stored kind of operand `n`
/// (operands 0 through 4 are always queryable), folded onto the classes
/// the width rule distinguishes, one arm per distinguished variant.
#[verifier::external_body]
fn operand_class(instruction: &iced_x86::Instruction, n: u32) -> (r: OperandClass)
    requires
        n < 3,
    ensures
        r == spec_operand_class(*instruction, n),
{
    match instruction.op_kind(n) {
        iced_x86::OpKind::Register => OperandClass::Register,
        iced_x86::OpKind::Memory => OperandClass::Memory,
        iced_x86::OpKind::Immediate8 => OperandClass::Immediate8,
        iced_x86::OpKind::Immediate16 => OperandClass::Immediate16,
        iced_x86::OpKind::Immediate32 => OperandClass::Immediate32,
        iced_x86::OpKind::Immediate64 => OperandClass::Immediate64,
        _ => OperandClass::Other,
    }
}

/// Relies on `Instruction::op_register` for operand 0: the register stored
/// for the first operand (`Register::None` when there is none).
#[verifier::external_body]
fn op0_register(instruction: &iced_x86::Instruction) -> (r: iced_x86::Register)
    ensures
        r == spec_op0_register(*instruction),
{
    instruction.op_register(0)
}

/// Relies on `Register::size`: the register's width in bytes (zero for
/// `Register::None`).
#[verifier::external_body]
fn register_size_bytes(register: iced_x86::Register) -> (r: usize)
    ensures
        r == spec_register_size(register),
{
    register.size()
}

/// Relies on `Instruction::memory_size`: the size descriptor of the
/// instruction's memory access.
#[verifier::external_body]
fn instr_memory_size(instruction: &iced_x86::Instruction) -> (r: iced_x86::MemorySize)
    ensures
        r == spec_memory_size(*instruction),
{
    instruction.memory_size()
}

/// Relies on `MemorySize::size`: the access width in bytes (zero when the
/// location is not accessed or its size is unknown or variable).
#[verifier::external_body]
fn memory_size_bytes(memory_size: iced_x86::MemorySize) -> (r: usize)
    ensures
        r == spec_memory_size_bytes(memory_size),
{
    memory_size.size()
}

/// The access width in bytes decided by the first three operand kinds, the
/// first operand register's width and the addressed memory size: a
/// register operand anywhere decides first, then a memory operand, then an
/// immediate of known width; otherwise the width is zero. Widths wider
/// than a byte can carry are truncated as the byte-sized result is formed.
pub open spec fn spec_access_width(
    k0: OperandClass,
    k1: OperandClass,
    k2: OperandClass,
    reg_size: usize,
    mem_size: usize,
) -> u8 {
    if k0 is Register || k1 is Register || k2 is Register {
        reg_size as u8
    } else if k0 is Memory || k1 is Memory || k2 is Memory {
        mem_size as u8
    } else if k0 is Immediate8 || k1 is Immediate8 || k2 is Immediate8 {
        1
    } else if k0 is Immediate16 || k1 is Immediate16 || k2 is Immediate16 {
        2
    } else if k0 is Immediate32 || k1 is Immediate32 || k2 is Immediate32 {
        4
    } else if k0 is Immediate64 || k1 is Immediate64 || k2 is Immediate64 {
        8
    } else {
        0
    }
}

/// The verified width rule over plain operand data; `get_access_size`
/// feeds it what the decoder reports for a concrete instruction.
pub fn access_width(
    k0: OperandClass,
    k1: OperandClass,
    k2: OperandClass,
    reg_size: usize,
    mem_size: usize,
) -> (r: u8)
    ensures
        r == spec_access_width(k0, k1, k2, reg_size, mem_size),
{
    if k0 == OperandClass::Register || k1 == OperandClass::Register || k2
        == OperandClass::Register {
        #[verifier::truncate] (reg_size as u8)
    } else if k0 == OperandClass::Memory || k1 == OperandClass::Memory || k2
        == OperandClass::Memory {
        #[verifier::truncate] (mem_size as u8)
    } else if k0 == OperandClass::Immediate8 || k1 == OperandClass::Immediate8 || k2
        == OperandClass::Immediate8 {
        1
    } else if k0 == OperandClass::Immediate16 || k1 == OperandClass::Immediate16 || k2
        == OperandClass::Immediate16 {
        2
    } else if k0 == OperandClass::Immediate32 || k1 == OperandClass::Immediate32 || k2
        == OperandClass::Immediate32 {
        4
    } else if k0 == OperandClass::Immediate64 || k1 == OperandClass::Immediate64 || k2
        == OperandClass::Immediate64 {
        8
    } else {
        0
    }
}

/// The access width of a decoded instruction, as the width rule names
/// it for every instruction: invalid exactly when the decoder left the
/// invalid marker. The MMIO path's contracts go through this.
pub open spec fn spec_get_access_size(instruction: iced_x86::Instruction) -> HvResult<u8> {
    if spec_instruction_invalid(instruction) {
        Err(HvError::DecodeError)
    } else {
        Ok(
            spec_access_width(
                spec_operand_class(instruction, 0),
                spec_operand_class(instruction, 1),
                spec_operand_class(instruction, 2),
                spec_register_size(spec_op0_register(instruction)),
                spec_memory_size_bytes(spec_memory_size(instruction)),
            ),
        )
    }
}

/// The access width of a decoded trapped instruction: an instruction the
/// decoder could not decode is reported as `DecodeError`, never silently
/// defaulted to a width; any other instruction gets the verified width
/// rule applied to what the decoder reports of it.
pub fn get_access_size(instruction: iced_x86::Instruction) -> (r: HvResult<u8>)
    ensures
        r == spec_get_access_size(instruction),
        r is Err <==> spec_instruction_invalid(instruction),
        r matches Err(e) ==> e == HvError::DecodeError,
{
    if instruction_is_invalid(&instruction) {
        Err(HvError::DecodeError)
    } else {
        let k0 = operand_class(&instruction, 0);
        let k1 = operand_class(&instruction, 1);
        let k2 = operand_class(&instruction, 2);
        let reg_size = register_size_bytes(op0_register(&instruction));
        let mem_size = memory_size_bytes(instr_memory_size(&instruction));
        Ok(access_width(k0, k1, k2, reg_size, mem_size))
    }
}

} // verus!

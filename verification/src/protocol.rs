//! Operand-size rules for trapped I/O and MSR instructions.
//!
//! The SDM fixes how an `IN` result lands in the accumulator: 1- and 2-byte
//! reads leave the untouched high bits of `rax` alone, while a 4-byte read
//! zero-extends into the full 64-bit register. `OUT` sends the low
//! `access_size` bytes of the accumulator. `RDMSR` splits a 64-bit value
//! across `rax`/`rdx`; `WRMSR` recombines the two halves.

use vstd::prelude::*;

verus! {

/// The accumulator after an `IN` of `access_size` bytes read `value`.
pub open spec fn merge_accumulator(rax: u64, access_size: u8, value: u32) -> u64 {
    if access_size == 1 {
        (rax & !0xff) | ((value & 0xff) as u64)
    } else if access_size == 2 {
        (rax & !0xffff) | ((value & 0xffff) as u64)
    } else {
        value as u64
    }
}

/// The low `access_size` bytes of the accumulator, as sent by an `OUT`.
pub open spec fn low_bytes(rax: u64, access_size: u8) -> u32 {
    if access_size == 1 {
        (rax & 0xff) as u32
    } else if access_size == 2 {
        (rax & 0xffff) as u32
    } else {
        rax as u32
    }
}

/// The low half of an MSR value, as `RDMSR` leaves it in `rax`.
pub open spec fn msr_low(value: u64) -> u64 {
    value & 0xffff_ffff
}

/// The high half of an MSR value, as `RDMSR` leaves it in `rdx`.
pub open spec fn msr_high(value: u64) -> u64 {
    value >> 32
}

/// The 64-bit value `WRMSR` writes, recombined from `rax` and `rdx`.
pub open spec fn msr_combine(rax: u64, rdx: u64) -> u64 {
    (rax & 0xffff_ffff) | (rdx << 32)
}

/// Merging a device value into the accumulator preserves the untouched
/// high-order bits for 1- and 2-byte reads, places exactly the low bytes of
/// the device value, and fully overwrites the register for 4-byte reads.
pub proof fn lemma_merge_preserves_high_bits(rax: u64, value: u32)
    ensures
        merge_accumulator(rax, 1, value) & !0xff == rax & !0xff,
        merge_accumulator(rax, 1, value) & 0xff == (value & 0xff) as u64,
        merge_accumulator(rax, 2, value) & !0xffff == rax & !0xffff,
        merge_accumulator(rax, 2, value) & 0xffff == (value & 0xffff) as u64,
        merge_accumulator(rax, 4, value) == value as u64,
{
    assert(((rax & !0xff) | ((value & 0xff) as u64)) & !0xff == rax & !0xff) by (bit_vector);
    assert(((rax & !0xff) | ((value & 0xff) as u64)) & 0xff == (value & 0xff) as u64)
        by (bit_vector);
    assert(((rax & !0xffff) | ((value & 0xffff) as u64)) & !0xffff == rax & !0xffff)
        by (bit_vector);
    assert(((rax & !0xffff) | ((value & 0xffff) as u64)) & 0xffff == (value & 0xffff) as u64)
        by (bit_vector);
}

/// Reading an MSR and writing back the two register halves restores the very
/// value the device held: the `rax`/`rdx` split is inverted exactly by the
/// `WRMSR` recombination.
pub proof fn lemma_msr_round_trip(value: u64)
    ensures
        msr_combine(msr_low(value), msr_high(value)) == value,
{
    assert(((value & 0xffff_ffff) & 0xffff_ffff) | ((value >> 32) << 32) == value)
        by (bit_vector);
}

} // verus!

//! Bit test against a zero-page operand.
//!
//! Zero is set from the AND of accumulator and memory operand; Negative and
//! Overflow are set from bits 7 and 6 of the *memory operand itself*, not
//! of the AND result — the hardware-accurate reading.

use super::super::mem_read;
use super::super::spec_advance;
use super::super::spec_imm8;
use super::super::Cpu;
use super::super::CpuSnap;
use super::super::ProcessorStatus;
use crate::memory_map::MemoryMapper;
use vstd::prelude::*;

verus! {

/// Bit test, zero-page mode: 3 cycles. Zero from the AND result; Negative
/// and Overflow from bits 7 and 6 of the memory operand.
pub open spec fn spec_bit_zero_page<T: MemoryMapper>(s: CpuSnap) -> CpuSnap {
    let addr = spec_imm8::<T>(s) as u16;
    let s1 = spec_advance(s, 1);
    let value = mem_read::<T>(s1.mem, addr);
    let result = s1.a & value;
    CpuSnap {
        pending_cycles: 3,
        status: ProcessorStatus {
            zero: result == 0,
            negative: value >= 0x80,
            overflow_flag: value & 0x40 != 0,
            ..s1.status
        },
        ..s1
    }
}

/// Bit test, zero-page mode.
pub fn bit_zero_page<T: MemoryMapper>(cpu: &mut Cpu<T>)
    requires
        old(cpu).inv(),
    ensures
        final(cpu).inv(),
        final(cpu).snap() == spec_bit_zero_page::<T>(old(cpu).snap()),
{
    let address = cpu.next_word() as u16;
    let value = cpu.read(address);
    let result = cpu.reg_accumulator & value;

    cpu.processor_status.zero = result == 0;
    cpu.processor_status.negative = value >= 0x80;
    cpu.processor_status.overflow_flag = value & 0x40 != 0;

    cpu.take_cycles(3);

    cpu.set_last_instr_disasm_str("bit");
}

} // verus!

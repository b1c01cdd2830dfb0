//! Add-with-carry in all its addressing modes.
//!
//! The result is the 8-bit truncated sum of accumulator, operand and
//! carry-in; the unsigned carry-out and the signed overflow are detected
//! independently; Zero and Negative follow the truncated result.

use super::super::mem_read;
use super::super::spec_advance;
use super::super::spec_imm8;
use super::super::spec_imm16;
use super::super::Cpu;
use super::super::CpuSnap;
use super::super::ProcessorStatus;
use crate::memory_map;
use crate::memory_map::spec_page;
use crate::memory_map::wrap8;
use crate::memory_map::wrap16;
use crate::memory_map::MemoryMapper;
use vstd::prelude::*;

verus! {

/// The value of a byte reinterpreted as a signed quantity.
pub open spec fn spec_signed(v: u8) -> int {
    if v < 0x80 {
        v as int
    } else {
        v as int - 0x100
    }
}

/// The 8-bit truncated sum of accumulator, operand and carry-in.
pub open spec fn spec_adc_result(a: u8, operand: u8, carry_in: bool) -> u8 {
    wrap8(
        a + operand + (if carry_in {
            1int
        } else {
            0int
        }),
    )
}

/// Whether the unsigned sum carries out of 8 bits.
pub open spec fn spec_adc_carry(a: u8, operand: u8, carry_in: bool) -> bool {
    a + operand + (if carry_in {
        1int
    } else {
        0int
    }) > 0xff
}

/// Whether the signed sum leaves the representable range.
pub open spec fn spec_adc_overflow(a: u8, operand: u8, carry_in: bool) -> bool {
    let ssum = spec_signed(a) + spec_signed(operand) + (if carry_in {
        1int
    } else {
        0int
    });
    ssum < -128 || ssum > 127
}

/// The machine after add-with-carry of `operand`: the truncated sum in the
/// accumulator; Carry from the unsigned carry-out; Overflow from the signed
/// sum; Zero and Negative from the truncated result.
pub open spec fn spec_adc_apply(s: CpuSnap, operand: u8) -> CpuSnap {
    let c = s.status.carry_flag;
    let result = spec_adc_result(s.a, operand, c);
    CpuSnap {
        a: result,
        status: ProcessorStatus {
            carry_flag: spec_adc_carry(s.a, operand, c),
            overflow_flag: spec_adc_overflow(s.a, operand, c),
            zero: result == 0,
            negative: result >= 0x80,
            ..s.status
        },
        ..s
    }
}

/// Add-with-carry, immediate mode: 2 cycles.
pub open spec fn spec_adc_immediate<T: MemoryMapper>(s: CpuSnap) -> CpuSnap {
    let operand = spec_imm8::<T>(s);
    CpuSnap { pending_cycles: 2, ..spec_adc_apply(spec_advance(s, 1), operand) }
}

/// Add-with-carry, zero-page mode: 3 cycles.
pub open spec fn spec_adc_zero_page<T: MemoryMapper>(s: CpuSnap) -> CpuSnap {
    let operand = mem_read::<T>(s.mem, spec_imm8::<T>(s) as u16);
    CpuSnap { pending_cycles: 3, ..spec_adc_apply(spec_advance(s, 1), operand) }
}

/// Add-with-carry, zero-page indexed by X: 4 cycles; no page cross is
/// possible.
pub open spec fn spec_adc_zero_page_x<T: MemoryMapper>(s: CpuSnap) -> CpuSnap {
    let operand = mem_read::<T>(s.mem, (spec_imm8::<T>(s) + s.x) as u16);
    CpuSnap { pending_cycles: 4, ..spec_adc_apply(spec_advance(s, 1), operand) }
}

/// Add-with-carry, absolute mode: 4 cycles.
pub open spec fn spec_adc_abs<T: MemoryMapper>(s: CpuSnap) -> CpuSnap {
    let operand = mem_read::<T>(s.mem, spec_imm16::<T>(s));
    CpuSnap { pending_cycles: 4, ..spec_adc_apply(spec_advance(s, 2), operand) }
}

/// Add-with-carry at an absolute address displaced by an index register:
/// 4 cycles, one more when the indexed address leaves the base's page.
pub open spec fn spec_adc_abs_indexed<T: MemoryMapper>(
    s: CpuSnap,
    abs_addr: u16,
    offset: u16,
) -> CpuSnap {
    let indexed = wrap16(abs_addr + offset);
    let operand = mem_read::<T>(s.mem, indexed);
    let cycles = if spec_page(abs_addr) != spec_page(indexed) {
        5int
    } else {
        4int
    };
    CpuSnap { pending_cycles: cycles as u8, ..spec_adc_apply(s, operand) }
}

/// Add-with-carry, absolute indexed by X.
pub open spec fn spec_adc_abs_x<T: MemoryMapper>(s: CpuSnap) -> CpuSnap {
    spec_adc_abs_indexed::<T>(spec_advance(s, 2), spec_imm16::<T>(s), s.x as u16)
}

/// Add-with-carry, absolute indexed by Y.
pub open spec fn spec_adc_abs_y<T: MemoryMapper>(s: CpuSnap) -> CpuSnap {
    spec_adc_abs_indexed::<T>(spec_advance(s, 2), spec_imm16::<T>(s), s.y as u16)
}

/// Add-with-carry, indexed indirect: the zero-page pointer displaced by X
/// names the operand's zero-page address. 6 cycles.
pub open spec fn spec_adc_indirect_x<T: MemoryMapper>(s: CpuSnap) -> CpuSnap {
    let direct = mem_read::<T>(s.mem, (spec_imm8::<T>(s) + s.x) as u16) as u16;
    let operand = mem_read::<T>(s.mem, direct);
    CpuSnap { pending_cycles: 6, ..spec_adc_apply(spec_advance(s, 1), operand) }
}

/// Add-with-carry, indirect indexed: the zero-page pointer is
/// dereferenced, then displaced by Y. 5 cycles, one more when the
/// displaced address leaves the dereferenced base's page.
pub open spec fn spec_adc_indirect_y<T: MemoryMapper>(s: CpuSnap) -> CpuSnap {
    let offset = mem_read::<T>(s.mem, spec_imm8::<T>(s) as u16) as u16;
    let abs_addr = (offset + s.y) as u16;
    let operand = mem_read::<T>(s.mem, abs_addr);
    let cycles = if spec_page(offset) != spec_page(abs_addr) {
        6int
    } else {
        5int
    };
    CpuSnap { pending_cycles: cycles as u8, ..spec_adc_apply(spec_advance(s, 1), operand) }
}

/// Immediate mode: the operand is the next program byte.
pub fn immediate<T: MemoryMapper>(cpu: &mut Cpu<T>)
    requires
        old(cpu).inv(),
    ensures
        final(cpu).inv(),
        final(cpu).snap() == spec_adc_immediate::<T>(old(cpu).snap()),
{
    let immediate = cpu.next_word();
    adc(cpu, immediate);

    cpu.take_cycles(2);
}

/// Zero-page mode: the next program byte is the operand's low-page
/// address.
pub fn zero_page<T: MemoryMapper>(cpu: &mut Cpu<T>)
    requires
        old(cpu).inv(),
    ensures
        final(cpu).inv(),
        final(cpu).snap() == spec_adc_zero_page::<T>(old(cpu).snap()),
{
    let address = cpu.next_word();
    let value = cpu.read(address as u16);

    adc(cpu, value);

    cpu.take_cycles(3);
}

/// Zero-page indexed by X: the low-page address displaced by the X
/// register.
pub fn zero_page_x<T: MemoryMapper>(cpu: &mut Cpu<T>)
    requires
        old(cpu).inv(),
    ensures
        final(cpu).inv(),
        final(cpu).snap() == spec_adc_zero_page_x::<T>(old(cpu).snap()),
{
    let address = cpu.next_word() as u16;
    let x = cpu.reg_index_x as u16;
    let value = cpu.read(address + x);

    adc(cpu, value);

    cpu.take_cycles(4);
}

/// Absolute mode: the next two program bytes, little-endian, are the
/// operand's address.
pub fn abs<T: MemoryMapper>(cpu: &mut Cpu<T>)
    requires
        old(cpu).inv(),
    ensures
        final(cpu).inv(),
        final(cpu).snap() == spec_adc_abs::<T>(old(cpu).snap()),
{
    let address = cpu.next_double_word();
    let value = cpu.read(address);

    adc(cpu, value);

    cpu.take_cycles(4);
}

/// Absolute indexed by X.
pub fn abs_x<T: MemoryMapper>(cpu: &mut Cpu<T>)
    requires
        old(cpu).inv(),
    ensures
        final(cpu).inv(),
        final(cpu).snap() == spec_adc_abs_x::<T>(old(cpu).snap()),
{
    let abs_addr = cpu.next_double_word();
    let x = cpu.reg_index_x as u16;

    abs_indexed(cpu, abs_addr, x);
}

/// Absolute indexed by Y.
pub fn abs_y<T: MemoryMapper>(cpu: &mut Cpu<T>)
    requires
        old(cpu).inv(),
    ensures
        final(cpu).inv(),
        final(cpu).snap() == spec_adc_abs_y::<T>(old(cpu).snap()),
{
    let abs_addr = cpu.next_double_word();
    let y = cpu.reg_index_y as u16;

    abs_indexed(cpu, abs_addr, y);
}

/// Indexed indirect: a zero-page pointer indexed by X, dereferenced.
pub fn indirect_x<T: MemoryMapper>(cpu: &mut Cpu<T>)
    requires
        old(cpu).inv(),
    ensures
        final(cpu).inv(),
        final(cpu).snap() == spec_adc_indirect_x::<T>(old(cpu).snap()),
{
    let indirect_addr = cpu.next_word() as u16;
    let x = cpu.reg_index_x as u16;
    let direct_zero_page_addr = cpu.read(indirect_addr + x) as u16;
    let value = cpu.read(direct_zero_page_addr);

    adc(cpu, value);

    cpu.take_cycles(6);
}

/// Indirect indexed: a zero-page pointer dereferenced, then indexed by Y;
/// one extra cycle when the indexed address leaves the base's page.
pub fn indirect_y<T: MemoryMapper>(cpu: &mut Cpu<T>)
    requires
        old(cpu).inv(),
    ensures
        final(cpu).inv(),
        final(cpu).snap() == spec_adc_indirect_y::<T>(old(cpu).snap()),
{
    let indirect_zero_page_addr = cpu.next_word() as u16;
    let y = cpu.reg_index_y as u16;
    let offset = cpu.read(indirect_zero_page_addr) as u16;
    let abs_addr = offset + y;

    let value = cpu.read(abs_addr);
    adc(cpu, value);

    let cycles: u8 = match memory_map::crosses_page_boundary(offset, abs_addr) {
        false => 5,
        true => 6,
    };

    cpu.take_cycles(cycles);
}

/// Applies add-with-carry of `value` to the accumulator and flags.
fn adc<T: MemoryMapper>(cpu: &mut Cpu<T>, value: u8)
    ensures
        final(cpu).snap() == spec_adc_apply(old(cpu).snap(), value),
        final(cpu).memory_map == old(cpu).memory_map,
        final(cpu).last_instr_disasm == old(cpu).last_instr_disasm,
{
    let carry: u16 = if cpu.processor_status.carry_flag {
        1
    } else {
        0
    };
    let acc = cpu.reg_accumulator;

    let sum: u16 = acc as u16 + value as u16 + carry;
    let result: u8 = (sum % 0x100) as u8;

    let signed_sum: i16 = (acc as i8) as i16 + (value as i8) as i16 + carry as i16;
    proof {
        assert((acc as i8) as int == (if acc < 0x80 {
            acc as int
        } else {
            acc as int - 0x100
        })) by (bit_vector);
        assert((value as i8) as int == (if value < 0x80 {
            value as int
        } else {
            value as int - 0x100
        })) by (bit_vector);
    }

    cpu.processor_status.overflow_flag = signed_sum < -128 || signed_sum > 127;
    cpu.processor_status.carry_flag = sum > 0xff;
    cpu.processor_status.zero = result == 0;
    cpu.processor_status.negative = result >= 0x80;

    cpu.reg_accumulator = result;
}

/// Add-with-carry at an absolute address displaced by `offset`, with the
/// page-cross penalty: the shared tail of the absolute indexed modes.
pub fn abs_indexed<T: MemoryMapper>(cpu: &mut Cpu<T>, abs_addr: u16, offset: u16)
    requires
        old(cpu).inv(),
    ensures
        final(cpu).inv(),
        final(cpu).snap() == spec_adc_abs_indexed::<T>(old(cpu).snap(), abs_addr, offset),
{
    let indexed_addr = abs_addr.wrapping_add(offset);

    let value = cpu.read(indexed_addr);
    adc(cpu, value);

    let cycles: u8 = match memory_map::crosses_page_boundary(abs_addr, indexed_addr) {
        false => 4,
        true => 5,
    };

    cpu.take_cycles(cycles);
}

} // verus!

//! The conditional-branch family.
//!
//! Every branch reads one condition flag, computes its target from a
//! signed displacement measured from the address immediately following the
//! operand, and applies the two-tier cycle penalty: 2 cycles when not
//! taken, 3 when taken, 4 when the taken branch crosses a page boundary.
//! The whole family shares one underlying "maybe branch" primitive
//! differing only in which flag and polarity is tested.

use super::super::mem_read;
use super::super::spec_advance;
use super::super::Cpu;
use super::super::CpuSnap;
use crate::memory_map;
use crate::memory_map::spec_page;
use crate::memory_map::wrap16;
use crate::memory_map::MemoryMapper;
use vstd::prelude::*;

verus! {

/// The branch decision applied after the displacement has been consumed:
/// not taken costs 2 cycles; taken moves to the displaced target for 3
/// cycles, or 4 when the target lies in a different page.
pub open spec fn spec_branch_resolved(s: CpuSnap, rel: i8, take_branch: bool) -> CpuSnap {
    let target = wrap16(s.pc + rel as int);
    if take_branch {
        CpuSnap {
            pc: target,
            pending_cycles: (3 + (if spec_page(s.pc) != spec_page(target) {
                1int
            } else {
                0int
            })) as u8,
            ..s
        }
    } else {
        CpuSnap { pending_cycles: 2, ..s }
    }
}

/// One whole branch instruction: the displacement byte is consumed, then
/// the decision applied.
pub open spec fn spec_branch<T: MemoryMapper>(s: CpuSnap, take_branch: bool) -> CpuSnap {
    let rel = mem_read::<T>(s.mem, s.pc) as i8;
    spec_branch_resolved(spec_advance(s, 1), rel, take_branch)
}

/// Branch on carry set.
pub open spec fn spec_bcs<T: MemoryMapper>(s: CpuSnap) -> CpuSnap {
    spec_branch::<T>(s, s.status.carry_flag == true)
}

/// Branch on carry clear.
pub open spec fn spec_bcc<T: MemoryMapper>(s: CpuSnap) -> CpuSnap {
    spec_branch::<T>(s, s.status.carry_flag == false)
}

/// Branch on zero set.
pub open spec fn spec_beq<T: MemoryMapper>(s: CpuSnap) -> CpuSnap {
    spec_branch::<T>(s, s.status.zero)
}

/// Branch on zero clear.
pub open spec fn spec_bne<T: MemoryMapper>(s: CpuSnap) -> CpuSnap {
    spec_branch::<T>(s, !s.status.zero)
}

/// Branch on overflow set.
pub open spec fn spec_bvs<T: MemoryMapper>(s: CpuSnap) -> CpuSnap {
    spec_branch::<T>(s, s.status.overflow_flag == true)
}

/// Branch on overflow clear.
pub open spec fn spec_bvc<T: MemoryMapper>(s: CpuSnap) -> CpuSnap {
    spec_branch::<T>(s, s.status.overflow_flag == false)
}

/// Branch on negative clear.
pub open spec fn spec_bpl<T: MemoryMapper>(s: CpuSnap) -> CpuSnap {
    spec_branch::<T>(s, s.status.negative == false)
}

/// The shared "maybe branch" primitive, applied once the displacement has
/// been consumed. Returns the displaced target whether or not it was
/// taken.
fn do_branch_instruction<T: MemoryMapper>(
    cpu: &mut Cpu<T>,
    relative_address: i8,
    take_branch: bool,
) -> (r: u16)
    requires
        old(cpu).inv(),
    ensures
        final(cpu).inv(),
        r == wrap16(old(cpu).snap().pc + relative_address as int),
        final(cpu).snap() == spec_branch_resolved(old(cpu).snap(), relative_address, take_branch),
        final(cpu).last_instr_disasm == old(cpu).last_instr_disasm,
{
    let absolute_address = cpu.add_relative_address(relative_address as i16);

    let num_cycles: u8 = if !take_branch {
        2
    } else {
        let num_cycles: u8 = match memory_map::crosses_page_boundary(
            cpu.reg_program_counter,
            absolute_address,
        ) {
            false => 3,
            true => 4,
        };

        cpu.reg_program_counter = absolute_address;

        num_cycles
    };

    cpu.take_cycles(num_cycles);

    absolute_address
}

/// Reads the displacement, tests the overflow flag against the wanted
/// polarity, and maybe branches.
fn do_branch_overflow_instruction<T: MemoryMapper>(cpu: &mut Cpu<T>, branch_if_flag_set: bool) -> (r:
    u16)
    requires
        old(cpu).inv(),
    ensures
        final(cpu).inv(),
        final(cpu).snap() == spec_branch::<T>(
            old(cpu).snap(),
            old(cpu).snap().status.overflow_flag == branch_if_flag_set,
        ),
        final(cpu).last_instr_disasm == old(cpu).last_instr_disasm,
{
    let relative_address = cpu.next_signed_word();
    let take_branch = cpu.processor_status.overflow_flag == branch_if_flag_set;

    do_branch_instruction(cpu, relative_address, take_branch)
}

/// Reads the displacement, tests the carry flag against the wanted
/// polarity, and maybe branches.
fn do_branch_carry_instruction<T: MemoryMapper>(cpu: &mut Cpu<T>, branch_if_flag_set: bool) -> (r:
    u16)
    requires
        old(cpu).inv(),
    ensures
        final(cpu).inv(),
        final(cpu).snap() == spec_branch::<T>(
            old(cpu).snap(),
            old(cpu).snap().status.carry_flag == branch_if_flag_set,
        ),
        final(cpu).last_instr_disasm == old(cpu).last_instr_disasm,
{
    let relative_address = cpu.next_signed_word();

    let is_set = cpu.processor_status.carry_flag;
    let take_branch = branch_if_flag_set == is_set;

    do_branch_instruction(cpu, relative_address, take_branch)
}

/// Branch on carry set, relative mode.
pub fn bcs<T: MemoryMapper>(cpu: &mut Cpu<T>)
    requires
        old(cpu).inv(),
    ensures
        final(cpu).inv(),
        final(cpu).snap() == spec_bcs::<T>(old(cpu).snap()),
{
    do_branch_carry_instruction(cpu, true);

    cpu.set_last_instr_disasm_str("bcs");
}

/// Branch on carry clear, relative mode.
pub fn bcc<T: MemoryMapper>(cpu: &mut Cpu<T>)
    requires
        old(cpu).inv(),
    ensures
        final(cpu).inv(),
        final(cpu).snap() == spec_bcc::<T>(old(cpu).snap()),
{
    do_branch_carry_instruction(cpu, false);

    cpu.set_last_instr_disasm_str("bcc");
}

/// Branch on zero set, relative mode.
pub fn beq<T: MemoryMapper>(cpu: &mut Cpu<T>)
    requires
        old(cpu).inv(),
    ensures
        final(cpu).inv(),
        final(cpu).snap() == spec_beq::<T>(old(cpu).snap()),
{
    let relative_address = cpu.next_signed_word();
    let take_branch = cpu.processor_status.zero;

    do_branch_instruction(cpu, relative_address, take_branch);

    cpu.set_last_instr_disasm_str("beq");
}

/// Branch on zero clear, relative mode.
pub fn bne<T: MemoryMapper>(cpu: &mut Cpu<T>)
    requires
        old(cpu).inv(),
    ensures
        final(cpu).inv(),
        final(cpu).snap() == spec_bne::<T>(old(cpu).snap()),
{
    let relative_address = cpu.next_signed_word();
    let take_branch = !cpu.processor_status.zero;

    do_branch_instruction(cpu, relative_address, take_branch);

    cpu.set_last_instr_disasm_str("bne");
}

/// Branch on overflow set, relative mode.
pub fn bvs<T: MemoryMapper>(cpu: &mut Cpu<T>)
    requires
        old(cpu).inv(),
    ensures
        final(cpu).inv(),
        final(cpu).snap() == spec_bvs::<T>(old(cpu).snap()),
{
    do_branch_overflow_instruction(cpu, true);

    cpu.set_last_instr_disasm_str("bvs");
}

/// Branch on overflow clear, relative mode.
pub fn bvc<T: MemoryMapper>(cpu: &mut Cpu<T>)
    requires
        old(cpu).inv(),
    ensures
        final(cpu).inv(),
        final(cpu).snap() == spec_bvc::<T>(old(cpu).snap()),
{
    do_branch_overflow_instruction(cpu, false);

    cpu.set_last_instr_disasm_str("bvc");
}

/// Branch on negative clear, relative mode.
pub fn bpl<T: MemoryMapper>(cpu: &mut Cpu<T>)
    requires
        old(cpu).inv(),
    ensures
        final(cpu).inv(),
        final(cpu).snap() == spec_bpl::<T>(old(cpu).snap()),
{
    let relative_address = cpu.next_signed_word();
    let take_branch = cpu.processor_status.negative == false;

    do_branch_instruction(cpu, relative_address, take_branch);

    cpu.set_last_instr_disasm_str("bpl");
}

} // verus!

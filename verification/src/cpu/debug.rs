//! Debug hooks: instruction injection and disassembly recording.
//!
//! The core is silent by default; it records the mnemonic of the last
//! dispatched instruction in a field a host may read, and offers a hook
//! that writes raw opcode bytes at the program counter and executes one
//! instruction — a test aid, not part of normal operation.

use super::mem_write;
use super::spec_step;
use super::Cpu;
use super::CpuSnap;
use crate::fault::Fault;
use crate::memory_map::wrap16;
use crate::memory_map::MemoryMapper;
use vstd::prelude::*;

verus! {

/// The backing store after the instruction bytes have been written at
/// consecutive (wrapping) addresses starting at `pc`, from index `i` on.
pub open spec fn spec_inject_from<T: MemoryMapper>(
    m: Seq<u8>,
    pc: u16,
    bytes: Seq<u8>,
    i: int,
) -> Seq<u8>
    decreases bytes.len() - i,
{
    if i < 0 || i >= bytes.len() {
        m
    } else {
        spec_inject_from::<T>(mem_write::<T>(m, wrap16(pc + i), bytes[i]), pc, bytes, i + 1)
    }
}

/// The debug interface a host can program against; `Cpu` implements it
/// with its verified hooks.
pub trait CpuDebug {
    /// What the injection hook needs of the implementing machine.
    spec fn debug_inv(&self) -> bool;

    fn exec_instr(&mut self, instruction: &[u8]) -> (r: Result<(), Fault>)
        requires
            old(self).debug_inv(),
            instruction@.len() <= 0x10000,
        ensures
            final(self).debug_inv(),
    ;

    fn set_last_instr_disasm(&mut self, disassembly: String);

    fn set_last_instr_disasm_str(&mut self, disassembly: &'static str);
}

impl<T: MemoryMapper> CpuDebug for Cpu<T> {
    open spec fn debug_inv(&self) -> bool {
        self.inv()
    }

    fn exec_instr(&mut self, instruction: &[u8]) -> (r: Result<(), Fault>) {
        Cpu::exec_instr(self, instruction)
    }

    fn set_last_instr_disasm(&mut self, disassembly: String) {
        Cpu::set_last_instr_disasm(self, disassembly);
    }

    fn set_last_instr_disasm_str(&mut self, disassembly: &'static str) {
        Cpu::set_last_instr_disasm_str(self, disassembly);
    }
}

impl<T: MemoryMapper> Cpu<T> {
    /// Writes raw opcode bytes at the current program-counter location and
    /// executes one instruction: a test and debug hook, not part of normal
    /// operation.
    pub fn exec_instr(&mut self, instruction: &[u8]) -> (r: Result<(), Fault>)
        requires
            old(self).inv(),
            instruction@.len() <= 0x10000,
        ensures
            final(self).inv(),
            ({
                let injected = CpuSnap {
                    mem: spec_inject_from::<T>(
                        old(self).snap().mem,
                        old(self).snap().pc,
                        instruction@,
                        0,
                    ),
                    ..old(self).snap()
                };
                match spec_step::<T>(injected) {
                    Ok(s2) => r is Ok && final(self).snap() == s2,
                    Err(f) => r == Err::<(), Fault>(f) && final(self).snap() == injected,
                }
            }),
    {
        let len: usize = instruction.len();
        let mut i: usize = 0;
        while i < len
            invariant
                self.inv(),
                i <= len,
                len == instruction@.len(),
                len <= 0x10000,
                self.snap() == (CpuSnap { mem: self.snap().mem, ..old(self).snap() }),
                self.last_instr_disasm == old(self).last_instr_disasm,
                spec_inject_from::<T>(
                    old(self).snap().mem,
                    old(self).snap().pc,
                    instruction@,
                    0,
                ) == spec_inject_from::<T>(
                    self.snap().mem,
                    old(self).snap().pc,
                    instruction@,
                    i as int,
                ),
            decreases len - i,
        {
            let b = instruction[i];
            let addr = self.reg_program_counter.wrapping_add(i as u16);

            self.write(addr, b);
            i += 1;
        }

        self.step_instruction()
    }

    /// Records the disassembly of the last dispatched instruction.
    pub fn set_last_instr_disasm(&mut self, disassembly: String)
        ensures
            *final(self) == (Cpu { last_instr_disasm: disassembly, ..*old(self) }),
    {
        self.last_instr_disasm = disassembly;
    }

    /// Records the disassembly of the last dispatched instruction from a
    /// static string.
    pub fn set_last_instr_disasm_str(&mut self, disassembly: &'static str)
        ensures
            final(self).snap() == old(self).snap(),
            final(self).memory_map == old(self).memory_map,
            final(self).last_instr_disasm@ == disassembly@,
    {
        self.last_instr_disasm = disassembly.to_owned();
    }
}

} // verus!

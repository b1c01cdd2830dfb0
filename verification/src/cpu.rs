//! The heart of the system: a MOS 6502-family processor.
//!
//! The dispatch core is a two-state machine: in **Fetch** (pending-cycle
//! counter zero) a call to [`Cpu::step_instruction`] reads the opcode at the
//! program counter, executes the whole instruction and enters **Stall** for
//! the instruction's remaining cycles; in Stall it only decrements the
//! counter. One call corresponds to one master clock cycle, so an
//! instruction occupies exactly its reported cycle cost before the next
//! opcode is fetched.
//!
//! Every contract is stated over [`CpuSnap`], the mathematical value of the
//! machine: registers, flags, pending cycles and the 64KB backing store.

pub mod debug;
pub mod instructions;
pub mod processor_status;
pub mod stack;

pub use self::debug::CpuDebug;
pub use self::processor_status::ProcessorStatus;
pub use self::stack::CpuStack;

use crate::fault::Fault;
use crate::memory_map;
use crate::memory_map::wrap16;
use crate::memory_map::MemoryMapper;
use crate::rom::NesRom;
use vstd::prelude::*;

verus! {

/// The registers, flags, pending-cycle counter and backing store of a CPU
/// as one mathematical value: the model every contract speaks of.
#[verifier::ext_equal]
pub ghost struct CpuSnap {
    /// Cycles left for the instruction in flight; an opcode is fetched only
    /// when this is zero.
    pub pending_cycles: u8,
    /// The program counter.
    pub pc: u16,
    /// The stack pointer: an 8-bit offset from the bottom of the fixed
    /// stack page, not an absolute address.
    pub sp: u8,
    /// The accumulator.
    pub a: u8,
    /// Index register X.
    pub x: u8,
    /// Index register Y.
    pub y: u8,
    /// The processor status register.
    pub status: ProcessorStatus,
    /// The bus's backing store.
    pub mem: Seq<u8>,
}

/// The byte the bus yields at `addr`: the backing store at the address's
/// canonical alias.
pub open spec fn mem_read<T: MemoryMapper>(m: Seq<u8>, addr: u16) -> u8 {
    m[T::resolve(addr) as int]
}

/// The backing store after a mirrored write of `v` at `addr`.
pub open spec fn mem_write<T: MemoryMapper>(m: Seq<u8>, addr: u16, v: u8) -> Seq<u8> {
    m.update(T::resolve(addr) as int, v)
}

/// The little-endian word at `addr`: the low byte there, the high byte at
/// the next (wrapping) address.
pub open spec fn mem_read16<T: MemoryMapper>(m: Seq<u8>, addr: u16) -> u16 {
    (mem_read::<T>(m, addr) + 0x100 * mem_read::<T>(m, wrap16(addr as int + 1))) as u16
}

/// The machine after the reset operation: the program counter from the
/// little-endian word stored at the reset vector, the stack pointer at
/// the top of the stack page.
pub open spec fn spec_boot<T: MemoryMapper>(s: CpuSnap) -> CpuSnap {
    CpuSnap { pc: mem_read16::<T>(s.mem, 0xfffc), sp: 0xff, ..s }
}

/// The machine with its program counter advanced `n` bytes, wrapping at
/// the top of the address space.
pub open spec fn spec_advance(s: CpuSnap, n: int) -> CpuSnap {
    CpuSnap { pc: wrap16(s.pc + n), ..s }
}

/// The operand byte at the program counter.
pub open spec fn spec_imm8<T: MemoryMapper>(s: CpuSnap) -> u8 {
    mem_read::<T>(s.mem, s.pc)
}

/// The little-endian operand word at the program counter.
pub open spec fn spec_imm16<T: MemoryMapper>(s: CpuSnap) -> u16 {
    mem_read16::<T>(s.mem, s.pc)
}

/// Logical shift right, absolute mode: the addressed byte is shifted right
/// one bit in place; the shifted-out bit 0 becomes the carry, Zero follows
/// the result, and Negative clears, since bit 7 of the result is always
/// zero. 3 cycles.
pub open spec fn spec_lsr_abs<T: MemoryMapper>(s: CpuSnap) -> CpuSnap {
    let addr = spec_imm16::<T>(s);
    let s1 = spec_advance(s, 2);
    let val = mem_read::<T>(s1.mem, addr);
    CpuSnap {
        mem: mem_write::<T>(s1.mem, addr, val >> 1),
        status: ProcessorStatus {
            carry_flag: val & 1 == 1,
            zero: val >> 1 == 0,
            negative: false,
            ..s1.status
        },
        pending_cycles: 3,
        ..s1
    }
}

/// Transfer X to the stack pointer: 2 cycles.
pub open spec fn spec_txs(s: CpuSnap) -> CpuSnap {
    CpuSnap { sp: s.x, pending_cycles: 2, ..s }
}

/// Jump, absolute mode: 3 cycles.
pub open spec fn spec_jmp<T: MemoryMapper>(s: CpuSnap) -> CpuSnap {
    CpuSnap { pc: spec_imm16::<T>(s), pending_cycles: 3, ..s }
}

/// Load X, immediate mode: 2 cycles.
pub open spec fn spec_ldx<T: MemoryMapper>(s: CpuSnap) -> CpuSnap {
    CpuSnap { x: spec_imm8::<T>(s), pending_cycles: 2, ..spec_advance(s, 1) }
}

/// Store X, zero-page mode: 3 cycles.
pub open spec fn spec_stx<T: MemoryMapper>(s: CpuSnap) -> CpuSnap {
    let addr = spec_imm8::<T>(s) as u16;
    let s1 = spec_advance(s, 1);
    CpuSnap { mem: mem_write::<T>(s1.mem, addr, s1.x), pending_cycles: 3, ..s1 }
}

/// Jump to subroutine: pushes the address of the last byte of its own
/// instruction (not of the next instruction), so a return can add one.
/// 6 cycles.
pub open spec fn spec_jsr<T: MemoryMapper>(s: CpuSnap) -> CpuSnap {
    let target = spec_imm16::<T>(s);
    let s1 = spec_advance(s, 2);
    let s2 = crate::cpu::stack::spec_push16::<T>(s1, wrap16(s.pc + 1));
    CpuSnap { pc: target, pending_cycles: 6, ..s2 }
}

/// Return from subroutine: the popped address plus one. 6 cycles.
pub open spec fn spec_rts<T: MemoryMapper>(s: CpuSnap) -> CpuSnap {
    let (s1, val) = crate::cpu::stack::spec_pop16::<T>(s);
    CpuSnap { pc: wrap16(val + 1), pending_cycles: 6, ..s1 }
}

/// Set carry: 2 cycles.
pub open spec fn spec_sec(s: CpuSnap) -> CpuSnap {
    CpuSnap {
        status: ProcessorStatus { carry_flag: true, ..s.status },
        pending_cycles: 2,
        ..s
    }
}

/// Clear carry: 2 cycles.
pub open spec fn spec_clc(s: CpuSnap) -> CpuSnap {
    CpuSnap {
        status: ProcessorStatus { carry_flag: false, ..s.status },
        pending_cycles: 2,
        ..s
    }
}

/// Set interrupt-disable: 2 cycles.
pub open spec fn spec_sei(s: CpuSnap) -> CpuSnap {
    CpuSnap {
        status: ProcessorStatus { interrupts_disabled: true, ..s.status },
        pending_cycles: 2,
        ..s
    }
}

/// Set decimal mode: 2 cycles.
pub open spec fn spec_sed(s: CpuSnap) -> CpuSnap {
    CpuSnap {
        status: ProcessorStatus { decimal_mode: true, ..s.status },
        pending_cycles: 2,
        ..s
    }
}

/// Clear decimal mode: 2 cycles.
pub open spec fn spec_cld(s: CpuSnap) -> CpuSnap {
    CpuSnap {
        status: ProcessorStatus { decimal_mode: false, ..s.status },
        pending_cycles: 2,
        ..s
    }
}

/// No operation: 2 cycles.
pub open spec fn spec_nop(s: CpuSnap) -> CpuSnap {
    CpuSnap { pending_cycles: 2, ..s }
}

/// Load accumulator, immediate mode: Zero and Negative follow the loaded
/// value. 2 cycles.
pub open spec fn spec_lda<T: MemoryMapper>(s: CpuSnap) -> CpuSnap {
    let v = spec_imm8::<T>(s);
    let s1 = spec_advance(s, 1);
    CpuSnap {
        a: v,
        status: ProcessorStatus { zero: v == 0, negative: v >= 0x80, ..s1.status },
        pending_cycles: 2,
        ..s1
    }
}

/// Store accumulator, zero-page mode: 3 cycles.
pub open spec fn spec_sta<T: MemoryMapper>(s: CpuSnap) -> CpuSnap {
    let addr = spec_imm8::<T>(s) as u16;
    let s1 = spec_advance(s, 1);
    CpuSnap { mem: mem_write::<T>(s1.mem, addr, s1.a), pending_cycles: 3, ..s1 }
}

/// Push processor status: the unused bit-four position forced high before
/// packing. 3 cycles.
pub open spec fn spec_php<T: MemoryMapper>(s: CpuSnap) -> CpuSnap {
    let packed = crate::cpu::processor_status::spec_to_u8(
        ProcessorStatus { bit_four: true, ..s.status },
    );
    CpuSnap { pending_cycles: 3, ..crate::cpu::stack::spec_push::<T>(s, packed) }
}

/// Pull accumulator: 4 cycles.
pub open spec fn spec_pla<T: MemoryMapper>(s: CpuSnap) -> CpuSnap {
    let (s1, v) = crate::cpu::stack::spec_pop::<T>(s);
    CpuSnap { a: v, pending_cycles: 4, ..s1 }
}

/// Push accumulator: 3 cycles.
pub open spec fn spec_pha<T: MemoryMapper>(s: CpuSnap) -> CpuSnap {
    CpuSnap { pending_cycles: 3, ..crate::cpu::stack::spec_push::<T>(s, s.a) }
}

/// Pull processor status: all seven flags restored verbatim from the
/// popped byte. 4 cycles.
pub open spec fn spec_plp<T: MemoryMapper>(s: CpuSnap) -> CpuSnap {
    let (s1, v) = crate::cpu::stack::spec_pop::<T>(s);
    CpuSnap {
        status: crate::cpu::processor_status::spec_from_u8(v),
        pending_cycles: 4,
        ..s1
    }
}

/// And accumulator, immediate mode: Zero and Negative follow the result.
/// 2 cycles.
pub open spec fn spec_and<T: MemoryMapper>(s: CpuSnap) -> CpuSnap {
    let v = spec_imm8::<T>(s);
    let s1 = spec_advance(s, 1);
    let result = s1.a & v;
    CpuSnap {
        a: result,
        status: ProcessorStatus { zero: result == 0, negative: result >= 0x80, ..s1.status },
        pending_cycles: 2,
        ..s1
    }
}

/// Compare accumulator, immediate mode: the operand is subtracted without
/// being stored; Carry is set exactly when the accumulator is at least the
/// operand (no borrow); Zero and Negative follow the subtraction result.
/// 2 cycles.
pub open spec fn spec_cmp<T: MemoryMapper>(s: CpuSnap) -> CpuSnap {
    let v = spec_imm8::<T>(s);
    let s1 = spec_advance(s, 1);
    let diff = crate::memory_map::wrap8(s1.a - v);
    CpuSnap {
        status: ProcessorStatus {
            carry_flag: s1.a >= v,
            zero: s1.a == v,
            negative: diff >= 0x80,
            ..s1.status
        },
        pending_cycles: 2,
        ..s1
    }
}

/// Whether the core implements the given opcode.
pub open spec fn is_supported_opcode(opcode: u8) -> bool {
    ||| opcode == 0x4e
    ||| opcode == 0x9a
    ||| opcode == 0x4c
    ||| opcode == 0xa2
    ||| opcode == 0x86
    ||| opcode == 0x20
    ||| opcode == 0x38
    ||| opcode == 0xb0
    ||| opcode == 0xea
    ||| opcode == 0x18
    ||| opcode == 0x90
    ||| opcode == 0xa9
    ||| opcode == 0xf0
    ||| opcode == 0xd0
    ||| opcode == 0x85
    ||| opcode == 0x24
    ||| opcode == 0x70
    ||| opcode == 0x50
    ||| opcode == 0x69
    ||| opcode == 0x10
    ||| opcode == 0x60
    ||| opcode == 0x78
    ||| opcode == 0xf8
    ||| opcode == 0x08
    ||| opcode == 0x68
    ||| opcode == 0x29
    ||| opcode == 0xc9
    ||| opcode == 0xd8
    ||| opcode == 0x48
    ||| opcode == 0x28
}

/// The machine after one whole instruction, given the state with the
/// program counter already past the opcode byte.
pub open spec fn spec_exec_opcode<T: MemoryMapper>(s: CpuSnap, opcode: u8) -> CpuSnap
    recommends
        is_supported_opcode(opcode),
{
    if opcode == 0x4e {
        spec_lsr_abs::<T>(s)
    } else if opcode == 0x9a {
        spec_txs(s)
    } else if opcode == 0x4c {
        spec_jmp::<T>(s)
    } else if opcode == 0xa2 {
        spec_ldx::<T>(s)
    } else if opcode == 0x86 {
        spec_stx::<T>(s)
    } else if opcode == 0x20 {
        spec_jsr::<T>(s)
    } else if opcode == 0x38 {
        spec_sec(s)
    } else if opcode == 0xb0 {
        instructions::branch::spec_bcs::<T>(s)
    } else if opcode == 0xea {
        spec_nop(s)
    } else if opcode == 0x18 {
        spec_clc(s)
    } else if opcode == 0x90 {
        instructions::branch::spec_bcc::<T>(s)
    } else if opcode == 0xa9 {
        spec_lda::<T>(s)
    } else if opcode == 0xf0 {
        instructions::branch::spec_beq::<T>(s)
    } else if opcode == 0xd0 {
        instructions::branch::spec_bne::<T>(s)
    } else if opcode == 0x85 {
        spec_sta::<T>(s)
    } else if opcode == 0x24 {
        instructions::bit::spec_bit_zero_page::<T>(s)
    } else if opcode == 0x70 {
        instructions::branch::spec_bvs::<T>(s)
    } else if opcode == 0x50 {
        instructions::branch::spec_bvc::<T>(s)
    } else if opcode == 0x69 {
        instructions::adc::spec_adc_immediate::<T>(s)
    } else if opcode == 0x10 {
        instructions::branch::spec_bpl::<T>(s)
    } else if opcode == 0x60 {
        spec_rts::<T>(s)
    } else if opcode == 0x78 {
        spec_sei(s)
    } else if opcode == 0xf8 {
        spec_sed(s)
    } else if opcode == 0x08 {
        spec_php::<T>(s)
    } else if opcode == 0x68 {
        spec_pla::<T>(s)
    } else if opcode == 0x29 {
        spec_and::<T>(s)
    } else if opcode == 0xc9 {
        spec_cmp::<T>(s)
    } else if opcode == 0xd8 {
        spec_cld(s)
    } else if opcode == 0x48 {
        spec_pha::<T>(s)
    } else {
        spec_plp::<T>(s)
    }
}

/// One master clock cycle of the two-state dispatch machine. In Stall
/// (pending cycles nonzero) the counter just steps down. In Fetch the
/// opcode at the program counter either dispatches — the instruction's
/// whole effect lands and the counter holds its remaining cycles — or
/// faults as `UnimplementedOpcode`, carrying the opcode byte and its
/// address, with the machine unchanged.
pub open spec fn spec_step<T: MemoryMapper>(s: CpuSnap) -> Result<CpuSnap, Fault> {
    if s.pending_cycles != 0 {
        Ok(CpuSnap { pending_cycles: (s.pending_cycles - 1) as u8, ..s })
    } else {
        let opcode = mem_read::<T>(s.mem, s.pc);
        if is_supported_opcode(opcode) {
            let s1 = spec_exec_opcode::<T>(spec_advance(s, 1), opcode);
            Ok(CpuSnap { pending_cycles: (s1.pending_cycles - 1) as u8, ..s1 })
        } else {
            Err(Fault::UnimplementedOpcode(opcode, s.pc))
        }
    }
}

/// The machine after `n` clock cycles, with the first fault met, if any:
/// stepping stops at a fault and the machine holds its pre-fault value.
pub open spec fn spec_run<T: MemoryMapper>(s: CpuSnap, n: nat) -> (CpuSnap, Option<Fault>)
    decreases n,
{
    if n == 0 {
        (s, None)
    } else {
        match spec_step::<T>(s) {
            Ok(s2) => spec_run::<T>(s2, (n - 1) as nat),
            Err(f) => (s, Some(f)),
        }
    }
}

/// A fault-free run of `n` cycles followed by `m - n` more cycles is the
/// run of `m` cycles.
pub proof fn lemma_spec_run_extend<T: MemoryMapper>(s: CpuSnap, n: nat, m: nat)
    requires
        n <= m,
        spec_run::<T>(s, n).1 is None,
    ensures
        spec_run::<T>(s, m) == spec_run::<T>(spec_run::<T>(s, n).0, (m - n) as nat),
    decreases n,
{
    if n > 0 {
        match spec_step::<T>(s) {
            Ok(s2) => {
                lemma_spec_run_extend::<T>(s2, (n - 1) as nat, (m - 1) as nat);
            },
            Err(_) => {
                assert(false);
            },
        }
    }
}

/// A MOS 6502-family processor over a memory bus of type `T`.
pub struct Cpu<T: MemoryMapper> {
    pub memory_map: T,

    /// Number of cycles left for the last instruction to execute.
    pub pending_cycles: u8,

    /// PC
    pub reg_program_counter: u16,

    /// SP. The u8 offset from the bottom of the stack page.
    pub reg_stack_pointer: u8,

    /// A
    pub reg_accumulator: u8,

    /// X
    pub reg_index_x: u8,

    /// Y
    pub reg_index_y: u8,

    /// P
    pub processor_status: ProcessorStatus,

    /// The mnemonic of the last dispatched instruction.
    pub last_instr_disasm: String,
}

impl<T: MemoryMapper> Cpu<T> {
    /// The bus invariant holds: the backing store spans the address space.
    pub open spec fn inv(&self) -> bool {
        self.memory_map.inv()
    }

    /// The machine's current mathematical value.
    pub open spec fn snap(&self) -> CpuSnap {
        CpuSnap {
            pending_cycles: self.pending_cycles,
            pc: self.reg_program_counter,
            sp: self.reg_stack_pointer,
            a: self.reg_accumulator,
            x: self.reg_index_x,
            y: self.reg_index_y,
            status: self.processor_status,
            mem: self.memory_map.mem(),
        }
    }

    /// The reset operation: positions the program counter at the
    /// little-endian word stored at the reset vector and the stack pointer
    /// at the top of the stack page.
    pub fn init_registers(&mut self)
        requires
            old(self).inv(),
        ensures
            final(self).inv(),
            final(self).snap() == spec_boot::<T>(old(self).snap()),
            final(self).last_instr_disasm == old(self).last_instr_disasm,
    {
        // set pc to the word the reset vector holds
        self.reg_program_counter = self.read_u16(memory_map::RESET_VECTOR);

        // set sp to the top of the stack page
        proof {
            assert(0x1ffu16 as u8 == 0xffu8) by (bit_vector);
        }
        self.reg_stack_pointer = #[verifier::truncate] (memory_map::STACK_END as u8);
    }

    /// Records an instruction's cycle cost in the pending-cycle counter.
    fn take_cycles(&mut self, cycles: u8)
        ensures
            *final(self) == (Cpu { pending_cycles: cycles, ..*old(self) }),
    {
        self.pending_cycles = cycles;
    }

    /// Spends one clock cycle of the instruction in flight. The counter is
    /// never taken below zero: that would be a defect.
    fn finish_cycle(&mut self)
        requires
            old(self).pending_cycles > 0,
        ensures
            *final(self) == (Cpu {
                pending_cycles: (old(self).pending_cycles - 1) as u8,
                ..*old(self)
            }),
    {
        self.pending_cycles -= 1;
    }

    /// Writes `val` at `mem_loc` through the bus.
    pub fn write(&mut self, mem_loc: u16, val: u8)
        requires
            old(self).inv(),
        ensures
            final(self).inv(),
            final(self).snap() == (CpuSnap {
                mem: mem_write::<T>(old(self).snap().mem, mem_loc, val),
                ..old(self).snap()
            }),
            final(self).last_instr_disasm == old(self).last_instr_disasm,
    {
        self.memory_map.write(mem_loc, val);
    }

    /// Reads the byte at `address` through the bus.
    pub fn read(&self, address: u16) -> (r: u8)
        requires
            self.inv(),
        ensures
            r == mem_read::<T>(self.snap().mem, address),
    {
        self.memory_map.read(address)
    }

    /// Reads the little-endian word at `address` through the bus.
    fn read_u16(&self, address: u16) -> (r: u16)
        requires
            self.inv(),
        ensures
            r == mem_read16::<T>(self.snap().mem, address),
    {
        self.memory_map.read_u16(address)
    }

    /// Fetches the byte at the program counter and advances past it,
    /// wrapping at the top of the address space.
    fn next_word(&mut self) -> (r: u8)
        requires
            old(self).inv(),
        ensures
            final(self).inv(),
            r == mem_read::<T>(old(self).snap().mem, old(self).snap().pc),
            *final(self) == (Cpu {
                reg_program_counter: wrap16(old(self).snap().pc + 1),
                ..*old(self)
            }),
    {
        let word = self.read(self.reg_program_counter);
        self.reg_program_counter = self.reg_program_counter.wrapping_add(1);

        word
    }

    /// Fetches the little-endian word at the program counter and advances
    /// past both bytes.
    fn next_double_word(&mut self) -> (r: u16)
        requires
            old(self).inv(),
        ensures
            final(self).inv(),
            r == mem_read16::<T>(old(self).snap().mem, old(self).snap().pc),
            *final(self) == (Cpu {
                reg_program_counter: wrap16(old(self).snap().pc + 2),
                ..*old(self)
            }),
    {
        let double_word = self.read_u16(self.reg_program_counter);
        self.reg_program_counter = self.reg_program_counter.wrapping_add(2);

        double_word
    }

    /// Fetches the byte at the program counter reinterpreted as a signed
    /// displacement.
    fn next_signed_word(&mut self) -> (r: i8)
        requires
            old(self).inv(),
        ensures
            final(self).inv(),
            r == mem_read::<T>(old(self).snap().mem, old(self).snap().pc) as i8,
            *final(self) == (Cpu {
                reg_program_counter: wrap16(old(self).snap().pc + 1),
                ..*old(self)
            }),
    {
        let w = self.next_word();
        #[verifier::truncate] (w as i8)
    }

    /// Whether the core implements the given opcode.
    fn opcode_supported(opcode: u8) -> (r: bool)
        ensures
            r == is_supported_opcode(opcode),
    {
        match opcode {
            0x4e | 0x9a | 0x4c | 0xa2 | 0x86 | 0x20 | 0x38 | 0xb0 | 0xea | 0x18 | 0x90 | 0xa9
                | 0xf0 | 0xd0 | 0x85 | 0x24 | 0x70 | 0x50 | 0x69 | 0x10 | 0x60 | 0x78 | 0xf8
                | 0x08 | 0x68 | 0x29 | 0xc9 | 0xd8 | 0x48 | 0x28 => true,
            _ => false,
        }
    }

    /// Advances the machine exactly one clock cycle, per [`spec_step`]: in
    /// Stall the pending-cycle counter steps down; in Fetch the opcode at
    /// the program counter dispatches, or surfaces as a typed
    /// `UnimplementedOpcode` fault with the machine unchanged so a host
    /// can log context and halt cleanly.
    pub fn step_instruction(&mut self) -> (r: Result<(), Fault>)
        requires
            old(self).inv(),
        ensures
            final(self).inv(),
            ({
                match spec_step::<T>(old(self).snap()) {
                    Ok(s2) => r is Ok && final(self).snap() == s2,
                    Err(f) => r == Err::<(), Fault>(f) && final(self).snap() == old(self).snap(),
                }
            }),
    {
        match self.pending_cycles {
            0 => {
                self.last_instr_disasm = String::new();

                let pc = self.reg_program_counter;
                let opcode = self.read(pc);

                if !Cpu::<T>::opcode_supported(opcode) {
                    return Err(Fault::UnimplementedOpcode(opcode, pc));
                }
                self.reg_program_counter = pc.wrapping_add(1);

                self.dispatch_opcode(opcode);

                self.finish_cycle();
            },
            _ => {
                self.finish_cycle();
            },
        }

        Ok(())
    }

    /// Executes one already-fetched instruction: the program counter is
    /// past the opcode byte, the routine fetches its own operands, applies
    /// the instruction's effect and records its cycle cost.
    fn dispatch_opcode(&mut self, opcode: u8)
        requires
            old(self).inv(),
            is_supported_opcode(opcode),
        ensures
            final(self).inv(),
            final(self).snap() == spec_exec_opcode::<T>(old(self).snap(), opcode),
            final(self).snap().pending_cycles >= 1,
    {
        match opcode {
            0x4e | 0x9a | 0x4c | 0xa2 | 0x86 | 0xa9 | 0x85 | 0xea => {
                self.dispatch_memory_opcode(opcode);
            },
            0x69 | 0x29 | 0xc9 | 0x24 | 0x38 | 0x18 | 0x78 | 0xf8 | 0xd8 => {
                self.dispatch_alu_opcode(opcode);
            },
            0x20 | 0x60 | 0x08 | 0x68 | 0x48 | 0x28 => {
                self.dispatch_stack_opcode(opcode);
            },
            _ => {
                self.dispatch_branch_opcode(opcode);
            },
        }
    }

    /// Loads, stores, transfers, shifts and jumps.
    #[verifier::rlimit(100)]
    fn dispatch_memory_opcode(&mut self, opcode: u8)
        requires
            old(self).inv(),
            ({
                ||| opcode == 0x4e
                ||| opcode == 0x9a
                ||| opcode == 0x4c
                ||| opcode == 0xa2
                ||| opcode == 0x86
                ||| opcode == 0xa9
                ||| opcode == 0x85
                ||| opcode == 0xea
            }),
        ensures
            final(self).inv(),
            final(self).snap() == spec_exec_opcode::<T>(old(self).snap(), opcode),
            final(self).snap().pending_cycles >= 1,
    {
        match opcode {
            0x4e => {
                // lsr -- absolute
                let mem_loc = self.next_double_word();

                let val = self.read(mem_loc);
                let result = val >> 1;

                self.processor_status.carry_flag = val & 1 == 1;
                self.processor_status.zero = result == 0;
                self.processor_status.negative = false;
                self.write(mem_loc, result);
                self.take_cycles(3);

                self.set_last_instr_disasm_str("lsr");
            },
            0x9a => {
                // txs -- implied
                self.reg_stack_pointer = self.reg_index_x;
                self.take_cycles(2);

                self.set_last_instr_disasm_str("txs");
            },
            0x4c => {
                // jmp -- absolute
                let address = self.next_double_word();

                self.reg_program_counter = address;
                self.take_cycles(3);

                self.set_last_instr_disasm_str("jmp");
            },
            0xa2 => {
                // ldx -- immediate
                let immediate = self.next_word();

                self.reg_index_x = immediate;
                self.take_cycles(2);

                self.set_last_instr_disasm_str("ldx");
            },
            0x86 => {
                // stx -- zero page
                let address = self.next_word() as u16;
                let x = self.reg_index_x;

                self.write(address, x);
                self.take_cycles(3);

                self.set_last_instr_disasm_str("stx");
            },
            0xa9 => {
                // lda -- immediate
                let immediate = self.next_word();

                self.processor_status.zero = immediate == 0;
                self.processor_status.negative = immediate >= 0x80;

                self.reg_accumulator = immediate;
                self.take_cycles(2);

                self.set_last_instr_disasm_str("lda");
            },
            0x85 => {
                // sta -- zero page
                let address = self.next_word() as u16;
                let acc = self.reg_accumulator;

                self.write(address, acc);
                self.take_cycles(3);

                self.set_last_instr_disasm_str("sta");
            },
            0xea => {
                // nop -- implied
                self.take_cycles(2);

                self.set_last_instr_disasm_str("nop");
            },
            _ => {
                proof {
                    assert(false);
                }
            },
        }
    }

    /// Arithmetic, logic, the bit test, and the flag instructions.
    #[verifier::rlimit(100)]
    fn dispatch_alu_opcode(&mut self, opcode: u8)
        requires
            old(self).inv(),
            ({
                ||| opcode == 0x69
                ||| opcode == 0x29
                ||| opcode == 0xc9
                ||| opcode == 0x24
                ||| opcode == 0x38
                ||| opcode == 0x18
                ||| opcode == 0x78
                ||| opcode == 0xf8
                ||| opcode == 0xd8
            }),
        ensures
            final(self).inv(),
            final(self).snap() == spec_exec_opcode::<T>(old(self).snap(), opcode),
            final(self).snap().pending_cycles >= 1,
    {
        match opcode {
            0x69 => {
                // adc -- immediate
                instructions::adc::immediate(self);
            },
            0x29 => {
                // and -- immediate
                let immediate = self.next_word();
                let acc = self.reg_accumulator;
                let result = acc & immediate;

                self.processor_status.negative = result >= 0x80;
                self.processor_status.zero = result == 0;

                self.reg_accumulator = result;
                self.take_cycles(2);

                self.set_last_instr_disasm_str("and");
            },
            0xc9 => {
                // cmp -- immediate
                let immediate = self.next_word();
                let acc = self.reg_accumulator;
                let result = acc.wrapping_sub(immediate);

                self.processor_status.negative = result >= 0x80;
                self.processor_status.zero = acc == immediate;
                self.processor_status.carry_flag = acc >= immediate;

                self.take_cycles(2);

                self.set_last_instr_disasm_str("cmp");
            },
            0x24 => {
                // bit -- zero page
                instructions::bit::bit_zero_page(self);
            },
            0x38 => {
                // sec -- implied
                self.processor_status.carry_flag = true;
                self.take_cycles(2);

                self.set_last_instr_disasm_str("sec");
            },
            0x18 => {
                // clc -- implied
                self.processor_status.carry_flag = false;
                self.take_cycles(2);

                self.set_last_instr_disasm_str("clc");
            },
            0x78 => {
                // sei -- implied
                self.processor_status.interrupts_disabled = true;
                self.take_cycles(2);

                self.set_last_instr_disasm_str("sei");
            },
            0xf8 => {
                // sed -- implied
                self.processor_status.decimal_mode = true;
                self.take_cycles(2);

                self.set_last_instr_disasm_str("sed");
            },
            0xd8 => {
                // cld -- implied
                self.processor_status.decimal_mode = false;

                self.take_cycles(2);

                self.set_last_instr_disasm_str("cld");
            },
            _ => {
                proof {
                    assert(false);
                }
            },
        }
    }

    /// The stack-affecting instructions: subroutine call and return,
    /// pushes and pulls.
    #[verifier::rlimit(100)]
    fn dispatch_stack_opcode(&mut self, opcode: u8)
        requires
            old(self).inv(),
            ({
                ||| opcode == 0x20
                ||| opcode == 0x60
                ||| opcode == 0x08
                ||| opcode == 0x68
                ||| opcode == 0x48
                ||| opcode == 0x28
            }),
        ensures
            final(self).inv(),
            final(self).snap() == spec_exec_opcode::<T>(old(self).snap(), opcode),
            final(self).snap().pending_cycles >= 1,
    {
        match opcode {
            0x20 => {
                // jsr -- absolute
                let return_to = self.reg_program_counter.wrapping_add(1);
                let address = self.next_double_word();

                // push the address of the last byte of this
                // instruction and move pc to the new address
                self.push_u16(return_to);

                self.reg_program_counter = address;
                self.take_cycles(6);

                self.set_last_instr_disasm_str("jsr");
            },
            0x60 => {
                // rts -- implied

                // the stored return address, plus one for the next
                // instruction
                let return_addr = self.pop_u16().wrapping_add(1);

                self.reg_program_counter = return_addr;
                self.take_cycles(6);

                self.set_last_instr_disasm_str("rts");
            },
            0x08 => {
                // php -- implied
                let mut status = self.processor_status.clone();
                status.bit_four = true;

                self.push(ProcessorStatus::to_u8(&status));
                self.take_cycles(3);

                self.set_last_instr_disasm_str("php");
            },
            0x68 => {
                // pla -- implied
                let value = self.pop();
                self.reg_accumulator = value;
                self.take_cycles(4);

                self.set_last_instr_disasm_str("pla");
            },
            0x48 => {
                // pha -- implied
                let acc = self.reg_accumulator;
                self.push(acc);

                self.take_cycles(3);

                self.set_last_instr_disasm_str("pha");
            },
            0x28 => {
                // plp -- implied
                let status = self.pop();
                self.processor_status = ProcessorStatus::from_u8(status);

                self.take_cycles(4);

                self.set_last_instr_disasm_str("plp");
            },
            _ => {
                proof {
                    assert(false);
                }
            },
        }
    }

    /// The conditional-branch family.
    #[verifier::rlimit(100)]
    fn dispatch_branch_opcode(&mut self, opcode: u8)
        requires
            old(self).inv(),
            ({
                ||| opcode == 0xb0
                ||| opcode == 0x90
                ||| opcode == 0xf0
                ||| opcode == 0xd0
                ||| opcode == 0x70
                ||| opcode == 0x50
                ||| opcode == 0x10
            }),
        ensures
            final(self).inv(),
            final(self).snap() == spec_exec_opcode::<T>(old(self).snap(), opcode),
            final(self).snap().pending_cycles >= 1,
    {
        match opcode {
            0xb0 => {
                // bcs -- relative
                instructions::branch::bcs(self);
            },
            0x90 => {
                // bcc -- relative
                instructions::branch::bcc(self);
            },
            0xf0 => {
                // beq -- relative
                instructions::branch::beq(self);
            },
            0xd0 => {
                // bne -- relative
                instructions::branch::bne(self);
            },
            0x70 => {
                // bvs -- relative
                instructions::branch::bvs(self);
            },
            0x50 => {
                // bvc -- relative
                instructions::branch::bvc(self);
            },
            0x10 => {
                // bpl -- relative
                instructions::branch::bpl(self);
            },
            _ => {
                proof {
                    assert(false);
                }
            },
        }
    }

    /// Installs a cartridge's program data into the bus and positions the
    /// program counter at the little-endian word stored at the reset
    /// vector, with the stack pointer at the top of the stack page.
    /// All-or-nothing: a rejected cartridge leaves the machine untouched.
    pub fn load(&mut self, rom: &NesRom) -> (r: Result<(), Fault>)
        requires
            old(self).inv(),
            rom.wf(),
        ensures
            final(self).inv(),
            (r is Ok) == T::load_accepts(rom),
            r is Err ==> r == Err::<(), Fault>(Fault::MalformedCartridge) && final(self).snap()
                == old(self).snap(),
            r is Ok ==> ({
                let m2 = T::loaded_mem(old(self).snap().mem, rom);
                final(self).snap() == (CpuSnap {
                    mem: m2,
                    pc: mem_read16::<T>(m2, 0xfffc),
                    sp: 0xff,
                    ..old(self).snap()
                })
            }),
    {
        match self.memory_map.load(rom) {
            Ok(()) => {
                self.init_registers();
                Ok(())
            },
            Err(f) => Err(f),
        }
    }

    /// Performs the reset operation, then drives the state machine for as
    /// many cycles as a 64-bit budget allows — far beyond any real
    /// program — stopping early at the first fault. A host that wants to
    /// stay in control of pacing and shutdown should call
    /// [`Cpu::run_for`] instead.
    pub fn run(&mut self) -> (r: Result<(), Fault>)
        requires
            old(self).inv(),
        ensures
            final(self).inv(),
            ({
                let (s2, f) = spec_run::<T>(spec_boot::<T>(old(self).snap()), 0xffff_ffff_ffff_ffff);
                final(self).snap() == s2 && (match r {
                    Ok(()) => f is None,
                    Err(e) => f == Some(e),
                })
            }),
    {
        self.init_registers();

        self.run_for(0xffff_ffff_ffff_ffff)
    }

    /// Drives the state machine for `n_cycles` clock cycles, stopping
    /// early at the first fault with the machine as the fault found it.
    pub fn run_for(&mut self, n_cycles: u64) -> (r: Result<(), Fault>)
        requires
            old(self).inv(),
        ensures
            final(self).inv(),
            ({
                let (s2, f) = spec_run::<T>(old(self).snap(), n_cycles as nat);
                final(self).snap() == s2 && (match r {
                    Ok(()) => f is None,
                    Err(e) => f == Some(e),
                })
            }),
    {
        let mut i: u64 = 0;
        while i < n_cycles
            invariant
                self.inv(),
                i <= n_cycles,
                spec_run::<T>(old(self).snap(), i as nat) == (self.snap(), None::<Fault>),
            decreases n_cycles - i,
        {
            match self.step_instruction() {
                Ok(()) => {
                    proof {
                        assert(spec_run::<T>(self.snap(), 0nat) == (self.snap(), None::<Fault>));
                        lemma_spec_run_extend::<T>(old(self).snap(), i as nat, (i + 1) as nat);
                    }
                },
                Err(f) => {
                    proof {
                        lemma_spec_run_extend::<T>(old(self).snap(), i as nat, n_cycles as nat);
                        assert(spec_step::<T>(self.snap()) == Err::<CpuSnap, Fault>(f));
                        assert(spec_run::<T>(self.snap(), (n_cycles - i) as nat) == (
                        self.snap(),
                        Some(f),
                        ));
                    }
                    return Err(f);
                },
            }
            i += 1;
        }
        Ok(())
    }

    /// The program counter displaced by a signed relative amount, wrapping
    /// at the ends of the address space.
    fn add_relative_address(&self, relative_address: i16) -> (r: u16)
        ensures
            r == wrap16(self.reg_program_counter + relative_address),
    {
        match relative_address >= 0 {
            true => self.reg_program_counter.wrapping_add(relative_address as u16),
            false => {
                let magnitude: u16 = (-(relative_address as i32)) as u16;
                self.reg_program_counter.wrapping_sub(magnitude)
            },
        }
    }
}

impl<T: MemoryMapper> Default for Cpu<T> {
    /// A power-on CPU: all registers and flags zero, the counter at the
    /// very bottom of the address space, over a zeroed bus.
    fn default() -> (r: Self)
        ensures
            r.inv(),
            r.pending_cycles == 0,
            r.reg_program_counter == 0,
            r.reg_stack_pointer == 0,
            r.reg_accumulator == 0,
            r.reg_index_x == 0,
            r.reg_index_y == 0,
            r.processor_status == (ProcessorStatus {
                carry_flag: false,
                zero: false,
                interrupts_disabled: false,
                decimal_mode: false,
                bit_four: false,
                break_instruction_executed: false,
                overflow_flag: false,
                negative: false,
            }),
            forall|i: int| 0 <= i < 0x10000 ==> r.snap().mem[i] == 0u8,
    {
        Cpu {
            memory_map: T::new(),
            pending_cycles: 0,
            reg_program_counter: 0,
            reg_stack_pointer: 0,
            reg_accumulator: 0,
            reg_index_x: 0,
            reg_index_y: 0,
            processor_status: ProcessorStatus::default(),
            last_instr_disasm: String::new(),
        }
    }
}

} // verus!

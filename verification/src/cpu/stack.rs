//! Stack discipline: push and pop of 1- and 2-byte values onto the fixed
//! 256-byte stack page, addressed through an 8-bit offset.
//!
//! The pointer decrements on push and increments on pop, wrapping modulo
//! 256 with no overflow or underflow detection — the silent wraparound is
//! the authentic hardware behaviour and is reproduced exactly, not guarded
//! against. A 16-bit push decrements the pointer by two first, then writes
//! the word little-endian at the two offsets just above the new top, so
//! the bytes land contiguously below the previous top of stack; each
//! offset wraps modulo 256 too, so the bytes always stay inside the fixed
//! 256-byte page.

use super::mem_read;
use super::mem_write;
use super::Cpu;
use super::CpuSnap;
use crate::memory_map;
use crate::memory_map::wrap8;
use crate::memory_map::MemoryMapper;
use vstd::prelude::*;

verus! {

/// The absolute address a stack offset denotes: the offset above the bottom
/// of the fixed stack page.
pub open spec fn spec_stack_address(sp: u8) -> u16 {
    (0x100 + sp as int) as u16
}

/// The machine after pushing one byte: the byte lands at the current
/// offset's address and the pointer steps down, wrapping modulo 256.
pub open spec fn spec_push<T: MemoryMapper>(s: CpuSnap, value: u8) -> CpuSnap {
    CpuSnap {
        sp: wrap8(s.sp - 1),
        mem: mem_write::<T>(s.mem, spec_stack_address(s.sp), value),
        ..s
    }
}

/// The machine after popping one byte, and the byte: the pointer steps up,
/// wrapping modulo 256, and the byte at the new offset comes back.
pub open spec fn spec_pop<T: MemoryMapper>(s: CpuSnap) -> (CpuSnap, u8) {
    let sp2 = wrap8(s.sp + 1);
    (CpuSnap { sp: sp2, ..s }, mem_read::<T>(s.mem, spec_stack_address(sp2)))
}

/// The machine after pushing a word: the pointer steps down two, wrapping,
/// and the word lands little-endian at the two in-page offsets just above
/// the new top.
pub open spec fn spec_push16<T: MemoryMapper>(s: CpuSnap, value: u16) -> CpuSnap {
    let sp2 = wrap8(s.sp - 2);
    CpuSnap {
        sp: sp2,
        mem: mem_write::<T>(
            mem_write::<T>(
                s.mem,
                spec_stack_address(wrap8(sp2 + 1)),
                (value as int % 0x100) as u8,
            ),
            spec_stack_address(wrap8(sp2 + 2)),
            (value as int / 0x100) as u8,
        ),
        ..s
    }
}

/// The machine after popping a word, and the word: the pointer steps up
/// two, wrapping, and the little-endian word at the two in-page offsets it
/// moved past comes back.
pub open spec fn spec_pop16<T: MemoryMapper>(s: CpuSnap) -> (CpuSnap, u16) {
    let lo = mem_read::<T>(s.mem, spec_stack_address(wrap8(s.sp + 1)));
    let hi = mem_read::<T>(s.mem, spec_stack_address(wrap8(s.sp + 2)));
    (CpuSnap { sp: wrap8(s.sp + 2), ..s }, (lo + 0x100 * hi) as u16)
}

/// The stack interface a host can program against; `Cpu` implements it
/// with its verified stack operations.
pub trait CpuStack {
    /// What the operations need of the implementing machine.
    spec fn stack_inv(&self) -> bool;

    fn push(&mut self, value: u8)
        requires
            old(self).stack_inv(),
        ensures
            final(self).stack_inv(),
    ;

    fn push_u16(&mut self, value: u16)
        requires
            old(self).stack_inv(),
        ensures
            final(self).stack_inv(),
    ;

    fn pop(&mut self) -> (r: u8)
        requires
            old(self).stack_inv(),
        ensures
            final(self).stack_inv(),
    ;

    fn pop_u16(&mut self) -> (r: u16)
        requires
            old(self).stack_inv(),
        ensures
            final(self).stack_inv(),
    ;

    fn resolve_stack_pointer(&self) -> u16;
}

impl<T: MemoryMapper> Cpu<T> {
    /// The absolute address the stack pointer denotes.
    pub fn resolve_stack_pointer(&self) -> (r: u16)
        ensures
            r == spec_stack_address(self.reg_stack_pointer),
    {
        memory_map::STACK_START + (self.reg_stack_pointer as u16)
    }

    /// Pushes one byte: writes at the pointer's address, then steps the
    /// pointer down, wrapping modulo 256.
    pub fn push(&mut self, value: u8)
        requires
            old(self).inv(),
        ensures
            final(self).inv(),
            final(self).snap() == spec_push::<T>(old(self).snap(), value),
            final(self).last_instr_disasm == old(self).last_instr_disasm,
    {
        let sp = self.resolve_stack_pointer();
        self.write(sp, value);

        self.reg_stack_pointer = self.reg_stack_pointer.wrapping_sub(1);
    }

    /// Pushes a word: steps the pointer down two, wrapping, then writes the
    /// word little-endian at the two in-page offsets just above the new
    /// top.
    pub fn push_u16(&mut self, value: u16)
        requires
            old(self).inv(),
        ensures
            final(self).inv(),
            final(self).snap() == spec_push16::<T>(old(self).snap(), value),
            final(self).last_instr_disasm == old(self).last_instr_disasm,
    {
        self.reg_stack_pointer = self.reg_stack_pointer.wrapping_sub(2);

        let low_address = memory_map::STACK_START + (self.reg_stack_pointer.wrapping_add(1)
            as u16);
        let high_address = memory_map::STACK_START + (self.reg_stack_pointer.wrapping_add(2)
            as u16);
        self.write(low_address, (value % 0x100) as u8);
        self.write(high_address, (value / 0x100) as u8);
    }

    /// Pops one byte: steps the pointer up, wrapping modulo 256, and reads
    /// at the new offset's address.
    pub fn pop(&mut self) -> (r: u8)
        requires
            old(self).inv(),
        ensures
            final(self).inv(),
            ({
                let (s2, v) = spec_pop::<T>(old(self).snap());
                final(self).snap() == s2 && r == v
            }),
            final(self).last_instr_disasm == old(self).last_instr_disasm,
    {
        self.reg_stack_pointer = self.reg_stack_pointer.wrapping_add(1);
        let val = self.read(self.resolve_stack_pointer());

        val
    }

    /// Pops a word: reads the little-endian word at the two in-page
    /// offsets above the pointer, then steps the pointer up two, wrapping.
    pub fn pop_u16(&mut self) -> (r: u16)
        requires
            old(self).inv(),
        ensures
            final(self).inv(),
            ({
                let (s2, v) = spec_pop16::<T>(old(self).snap());
                final(self).snap() == s2 && r == v
            }),
            final(self).last_instr_disasm == old(self).last_instr_disasm,
    {
        let low_address = memory_map::STACK_START + (self.reg_stack_pointer.wrapping_add(1)
            as u16);
        let high_address = memory_map::STACK_START + (self.reg_stack_pointer.wrapping_add(2)
            as u16);
        let low = self.read(low_address);
        let high = self.read(high_address);

        self.reg_stack_pointer = self.reg_stack_pointer.wrapping_add(2);

        low as u16 + 0x100 * high as u16
    }
}

impl<T: MemoryMapper> CpuStack for Cpu<T> {
    open spec fn stack_inv(&self) -> bool {
        self.inv()
    }

    fn push(&mut self, value: u8) {
        Cpu::push(self, value);
    }

    fn push_u16(&mut self, value: u16) {
        Cpu::push_u16(self, value);
    }

    fn pop(&mut self) -> u8 {
        Cpu::pop(self)
    }

    fn pop_u16(&mut self) -> u16 {
        Cpu::pop_u16(self)
    }

    fn resolve_stack_pointer(&self) -> u16 {
        Cpu::resolve_stack_pointer(self)
    }
}

/// Stack last-in-first-out discipline for one byte: popping right after a
/// push returns the pushed value and restores the stack pointer, from every
/// machine state and for every value.
pub proof fn lemma_stack_lifo_u8<T: MemoryMapper>(s: CpuSnap, value: u8)
    requires
        s.mem.len() == 0x10000,
    ensures
        ({
            let (s2, v) = spec_pop::<T>(spec_push::<T>(s, value));
            v == value && s2.sp == s.sp && s2.pc == s.pc && s2.a == s.a && s2.x == s.x && s2.y
                == s.y && s2.status == s.status && s2.pending_cycles == s.pending_cycles
        }),
{
}

/// Stack last-in-first-out discipline for a word: popping a word right
/// after pushing one returns the pushed word and restores the stack
/// pointer, from every machine state and for every value — the in-page
/// wraparound keeps both bytes inside the fixed page.
pub proof fn lemma_stack_lifo_u16<T: MemoryMapper>(s: CpuSnap, value: u16)
    requires
        s.mem.len() == 0x10000,
    ensures
        ({
            let (s2, v) = spec_pop16::<T>(spec_push16::<T>(s, value));
            v == value && s2.sp == s.sp && s2.pc == s.pc && s2.a == s.a && s2.x == s.x && s2.y
                == s.y && s2.status == s.status && s2.pending_cycles == s.pending_cycles
        }),
{
    let sp2 = wrap8(s.sp - 2);
    let low_addr = spec_stack_address(wrap8(sp2 + 1));
    let high_addr = spec_stack_address(wrap8(sp2 + 2));
    assert(T::resolve(low_addr) != T::resolve(high_addr)) by {
        T::lemma_resolve_stack_distinct(low_addr, high_addr);
    };
    let (s2, v) = spec_pop16::<T>(spec_push16::<T>(s, value));
    assert(v == value);
}

/// One value a host can push onto the stack: a byte or a little-endian
/// word.
pub enum StackValue {
    Byte(u8),
    Word(u16),
}

/// How many stack bytes one value occupies.
pub open spec fn stack_value_size(v: StackValue) -> int {
    match v {
        StackValue::Byte(_) => 1,
        StackValue::Word(_) => 2,
    }
}

/// How many stack bytes a sequence of values occupies.
pub open spec fn stack_values_size(vs: Seq<StackValue>) -> int
    decreases vs.len(),
{
    if vs.len() == 0 {
        0
    } else {
        stack_value_size(vs[0]) + stack_values_size(vs.subrange(1, vs.len() as int))
    }
}

/// The machine after pushing one stack value.
pub open spec fn spec_push_value<T: MemoryMapper>(s: CpuSnap, v: StackValue) -> CpuSnap {
    match v {
        StackValue::Byte(b) => spec_push::<T>(s, b),
        StackValue::Word(w) => spec_push16::<T>(s, w),
    }
}

/// The machine after pushing a sequence of stack values, first to last.
pub open spec fn spec_push_values<T: MemoryMapper>(s: CpuSnap, vs: Seq<StackValue>) -> CpuSnap
    decreases vs.len(),
{
    if vs.len() == 0 {
        s
    } else {
        spec_push_values::<T>(spec_push_value::<T>(s, vs[0]), vs.subrange(1, vs.len() as int))
    }
}

/// The machine after a run of pops whose widths follow `pattern`, paired
/// with the values the pops returned, in pop order.
pub open spec fn spec_pop_values<T: MemoryMapper>(s: CpuSnap, pattern: Seq<StackValue>) -> (
    CpuSnap,
    Seq<StackValue>,
)
    decreases pattern.len(),
{
    if pattern.len() == 0 {
        (s, Seq::empty())
    } else {
        let first = (match pattern[0] {
            StackValue::Byte(_) => {
                let (s1, b) = spec_pop::<T>(s);
                (s1, StackValue::Byte(b))
            },
            StackValue::Word(_) => {
                let (s1, w) = spec_pop16::<T>(s);
                (s1, StackValue::Word(w))
            },
        });
        let (s2, rest) = spec_pop_values::<T>(first.0, pattern.subrange(1, pattern.len() as int));
        (s2, seq![first.1] + rest)
    }
}

/// A sequence of stack values never occupies a negative number of bytes.
pub proof fn lemma_stack_values_size_nonneg(vs: Seq<StackValue>)
    ensures
        stack_values_size(vs) >= 0,
    decreases vs.len(),
{
    if vs.len() > 0 {
        lemma_stack_values_size_nonneg(vs.subrange(1, vs.len() as int));
    }
}

/// Pushing a sequence of values lowers the stack pointer by exactly their
/// total size, writes only at stack offsets at or below the starting
/// offset, and leaves the registers alone.
pub proof fn lemma_push_values_effect<T: MemoryMapper>(s: CpuSnap, vs: Seq<StackValue>)
    requires
        s.mem.len() == 0x10000,
        stack_values_size(vs) <= s.sp,
    ensures
        ({
            let p = spec_push_values::<T>(s, vs);
            &&& p.sp == s.sp - stack_values_size(vs)
            &&& p.pc == s.pc
            &&& p.a == s.a
            &&& p.x == s.x
            &&& p.y == s.y
            &&& p.status == s.status
            &&& p.pending_cycles == s.pending_cycles
            &&& p.mem.len() == 0x10000
            &&& forall|o: u8|
                s.sp < o ==> #[trigger] p.mem[T::resolve(spec_stack_address(o)) as int]
                    == s.mem[T::resolve(spec_stack_address(o)) as int]
        }),
    decreases vs.len(),
{
    lemma_stack_values_size_nonneg(vs);
    if vs.len() > 0 {
        let v0 = vs[0];
        let rest = vs.subrange(1, vs.len() as int);
        lemma_stack_values_size_nonneg(rest);
        let x = spec_push_value::<T>(s, v0);
        match v0 {
            StackValue::Byte(b) => {
                assert(x.sp == s.sp - 1);
                assert forall|o: u8|
                    s.sp < o implies #[trigger] x.mem[T::resolve(
                    spec_stack_address(o),
                ) as int] == s.mem[T::resolve(spec_stack_address(o)) as int] by {
                    T::lemma_resolve_stack_distinct(
                        spec_stack_address(s.sp),
                        spec_stack_address(o),
                    );
                };
            },
            StackValue::Word(w) => {
                let sp2 = wrap8(s.sp - 2);
                let low_addr = spec_stack_address(wrap8(sp2 + 1));
                let high_addr = spec_stack_address(wrap8(sp2 + 2));
                assert(sp2 == s.sp - 2);
                assert(low_addr == spec_stack_address((s.sp - 1) as u8));
                assert(high_addr == spec_stack_address(s.sp));
                assert(x.sp == s.sp - 2);
                assert forall|o: u8|
                    s.sp < o implies #[trigger] x.mem[T::resolve(
                    spec_stack_address(o),
                ) as int] == s.mem[T::resolve(spec_stack_address(o)) as int] by {
                    T::lemma_resolve_stack_distinct(low_addr, spec_stack_address(o));
                    T::lemma_resolve_stack_distinct(high_addr, spec_stack_address(o));
                };
            },
        }
        lemma_push_values_effect::<T>(x, rest);
    }
}

/// Popping a concatenated pattern is popping its halves in turn.
pub proof fn lemma_pop_values_append<T: MemoryMapper>(
    s: CpuSnap,
    p1: Seq<StackValue>,
    p2: Seq<StackValue>,
)
    ensures
        ({
            let (sa, va) = spec_pop_values::<T>(s, p1);
            let (sb, vb) = spec_pop_values::<T>(sa, p2);
            spec_pop_values::<T>(s, p1 + p2) == (sb, va + vb)
        }),
    decreases p1.len(),
{
    if p1.len() == 0 {
        assert(p1 + p2 =~= p2);
        let (sb, vb) = spec_pop_values::<T>(s, p2);
        assert(Seq::<StackValue>::empty() + vb =~= vb);
    } else {
        let t = p1.subrange(1, p1.len() as int);
        assert((p1 + p2)[0] == p1[0]);
        assert((p1 + p2).subrange(1, (p1 + p2).len() as int) =~= t + p2);
        let first = (match p1[0] {
            StackValue::Byte(_) => {
                let (s1, b) = spec_pop::<T>(s);
                (s1, StackValue::Byte(b))
            },
            StackValue::Word(_) => {
                let (s1, w) = spec_pop16::<T>(s);
                (s1, StackValue::Word(w))
            },
        });
        lemma_pop_values_append::<T>(first.0, t, p2);
        let (sa, va) = spec_pop_values::<T>(s, p1);
        let (sb, vb) = spec_pop_values::<T>(sa, p2);
        let (st, vt) = spec_pop_values::<T>(first.0, t);
        assert((seq![first.1] + vt) + vb =~= seq![first.1] + (vt + vb));
    }
}

/// A run of pops never touches the backing store or the registers; only
/// the stack pointer moves.
pub proof fn lemma_pop_values_preserves<T: MemoryMapper>(s: CpuSnap, pattern: Seq<StackValue>)
    ensures
        ({
            let (s2, got) = spec_pop_values::<T>(s, pattern);
            &&& s2.mem == s.mem
            &&& s2.pc == s.pc
            &&& s2.a == s.a
            &&& s2.x == s.x
            &&& s2.y == s.y
            &&& s2.status == s.status
            &&& s2.pending_cycles == s.pending_cycles
            &&& got.len() == pattern.len()
        }),
    decreases pattern.len(),
{
    if pattern.len() > 0 {
        let first_state = (match pattern[0] {
            StackValue::Byte(_) => spec_pop::<T>(s).0,
            StackValue::Word(_) => spec_pop16::<T>(s).0,
        });
        lemma_pop_values_preserves::<T>(first_state, pattern.subrange(1, pattern.len() as int));
    }
}

/// Stack last-in-first-out discipline in full generality: pushing any
/// balanced sequence of 1- and 2-byte values and popping the same widths
/// back returns exactly the pushed values in reverse order and restores
/// the stack pointer, from every machine state whose pointer has room for
/// the whole sequence without wrapping mid-value.
#[verifier::rlimit(100)]
pub proof fn lemma_stack_lifo<T: MemoryMapper>(s: CpuSnap, vs: Seq<StackValue>)
    requires
        s.mem.len() == 0x10000,
        stack_values_size(vs) <= s.sp,
    ensures
        ({
            let pushed = spec_push_values::<T>(s, vs);
            let (s2, got) = spec_pop_values::<T>(pushed, vs.reverse());
            &&& got == vs.reverse()
            &&& s2.sp == s.sp
            &&& s2.mem == pushed.mem
            &&& s2.pc == s.pc
            &&& s2.a == s.a
            &&& s2.x == s.x
            &&& s2.y == s.y
            &&& s2.status == s.status
            &&& s2.pending_cycles == s.pending_cycles
        }),
    decreases vs.len(),
{
    lemma_stack_values_size_nonneg(vs);
    if vs.len() == 0 {
        assert(vs.reverse() =~= Seq::<StackValue>::empty());
    } else {
        let v0 = vs[0];
        let rest = vs.subrange(1, vs.len() as int);
        lemma_stack_values_size_nonneg(rest);
        let x = spec_push_value::<T>(s, v0);
        let pushed = spec_push_values::<T>(x, rest);
        assert(spec_push_values::<T>(s, vs) == pushed);
        assert(vs.reverse() =~= rest.reverse() + seq![v0]);

        lemma_stack_lifo::<T>(x, rest);
        let (s_mid, got1) = spec_pop_values::<T>(pushed, rest.reverse());
        lemma_pop_values_append::<T>(pushed, rest.reverse(), seq![v0]);
        lemma_push_values_effect::<T>(x, rest);

        // the bytes of the first-pushed value sit above everything the
        // deeper pushes wrote, so the final pop reads them back intact
        match v0 {
            StackValue::Byte(b0) => {
                assert(x.sp == wrap8(s.sp - 1));
                let (s_fin, b) = spec_pop::<T>(s_mid);
                assert(s_mid.sp == x.sp);
                assert(wrap8(x.sp + 1) == s.sp);
                assert(s_mid.mem[T::resolve(spec_stack_address(s.sp)) as int] == x.mem[T::resolve(
                    spec_stack_address(s.sp),
                ) as int]);
                assert(b == b0);
                assert(seq![v0].subrange(1, 1) =~= Seq::<StackValue>::empty());
                assert(spec_pop_values::<T>(s_fin, Seq::<StackValue>::empty()) == (
                    s_fin,
                    Seq::<StackValue>::empty(),
                ));
                assert(seq![StackValue::Byte(b)] + Seq::<StackValue>::empty() =~= seq![v0]);
                assert(spec_pop_values::<T>(s_mid, seq![v0]) == (s_fin, seq![v0]));
            },
            StackValue::Word(w0) => {
                let sp2 = wrap8(s.sp - 2);
                let low_addr = spec_stack_address(wrap8(sp2 + 1));
                let high_addr = spec_stack_address(wrap8(sp2 + 2));
                assert(sp2 == s.sp - 2);
                assert(low_addr == spec_stack_address((s.sp - 1) as u8));
                assert(high_addr == spec_stack_address(s.sp));
                assert(T::resolve(low_addr) != T::resolve(high_addr)) by {
                    T::lemma_resolve_stack_distinct(low_addr, high_addr);
                };
                let (s_fin, w) = spec_pop16::<T>(s_mid);
                assert(s_mid.sp == x.sp);
                assert(wrap8(x.sp + 2) == s.sp);
                assert(spec_stack_address(wrap8(s_mid.sp + 1)) == low_addr);
                assert(spec_stack_address(wrap8(s_mid.sp + 2)) == high_addr);
                assert(s_mid.mem[T::resolve(low_addr) as int] == x.mem[T::resolve(
                    low_addr,
                ) as int]);
                assert(s_mid.mem[T::resolve(high_addr) as int] == x.mem[T::resolve(
                    high_addr,
                ) as int]);
                assert(x.mem[T::resolve(low_addr) as int] == w0 as int % 0x100);
                assert(x.mem[T::resolve(high_addr) as int] == w0 as int / 0x100);
                assert(w == w0);
                assert(seq![v0].subrange(1, 1) =~= Seq::<StackValue>::empty());
                assert(spec_pop_values::<T>(s_fin, Seq::<StackValue>::empty()) == (
                    s_fin,
                    Seq::<StackValue>::empty(),
                ));
                assert(seq![StackValue::Word(w)] + Seq::<StackValue>::empty() =~= seq![v0]);
                assert(spec_pop_values::<T>(s_mid, seq![v0]) == (s_fin, seq![v0]));
            },
        }
        let (s2, got) = spec_pop_values::<T>(pushed, vs.reverse());
        assert(got =~= rest.reverse() + seq![v0]);
    }
}

} // verus!

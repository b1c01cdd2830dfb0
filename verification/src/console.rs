//! The top-level wiring a host drives: a console owning the CPU and its
//! bus. Opening and reading image files is the host's business; the
//! console takes a parsed cartridge and runs it.

use crate::cpu::mem_read16;
use crate::cpu::Cpu;
use crate::cpu::CpuSnap;
use crate::fault::Fault;
use crate::memory_map::MemoryMapper;
use crate::rom::NesRom;
use vstd::prelude::*;

verus! {

/// A console: the CPU over its memory bus.
pub struct Nes<T: MemoryMapper> {
    pub cpu: Cpu<T>,
}

impl<T: MemoryMapper> Nes<T> {
    /// Power-on housekeeping; the machine is left exactly as built.
    pub fn power_on(&mut self)
        ensures
            *final(self) == *old(self),
    {
    }

    /// Resets the machine and runs the loaded program from its reset
    /// vector, stopping at the first fault.
    pub fn run(&mut self) -> (r: Result<(), Fault>)
        requires
            old(self).cpu.inv(),
        ensures
            final(self).cpu.inv(),
            ({
                let (s2, f) = crate::cpu::spec_run::<T>(
                    crate::cpu::spec_boot::<T>(old(self).cpu.snap()),
                    0xffff_ffff_ffff_ffff,
                );
                final(self).cpu.snap() == s2 && (match r {
                    Ok(()) => f is None,
                    Err(e) => f == Some(e),
                })
            }),
    {
        self.cpu.run()
    }

    /// Installs a parsed cartridge into the bus and positions the program
    /// counter at the reset vector. All-or-nothing.
    pub fn load_rom(&mut self, rom: &NesRom) -> (r: Result<(), Fault>)
        requires
            old(self).cpu.inv(),
            rom.wf(),
        ensures
            final(self).cpu.inv(),
            (r is Ok) == T::load_accepts(rom),
            r is Err ==> r == Err::<(), Fault>(Fault::MalformedCartridge) && final(self).cpu.snap()
                == old(self).cpu.snap(),
            r is Ok ==> ({
                let m2 = T::loaded_mem(old(self).cpu.snap().mem, rom);
                final(self).cpu.snap() == (CpuSnap {
                    mem: m2,
                    pc: mem_read16::<T>(m2, 0xfffc),
                    sp: 0xff,
                    ..old(self).cpu.snap()
                })
            }),
    {
        self.cpu.load(rom)
    }
}

impl<T: MemoryMapper> Default for Nes<T> {
    /// A power-on console over a zeroed bus.
    fn default() -> (r: Self)
        ensures
            r.cpu.inv(),
            r.cpu.pending_cycles == 0,
            forall|i: int| 0 <= i < 0x10000 ==> r.cpu.snap().mem[i] == 0u8,
    {
        Nes { cpu: Default::default() }
    }
}

} // verus!

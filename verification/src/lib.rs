//! A cycle-accurate core for a MOS 6502-family microprocessor: the CPU
//! instruction-execution engine together with the memory bus it operates on.
//!
//! The crate models opcode dispatch, addressing-mode resolution,
//! per-instruction flag computation, stack discipline, and the
//! memory-mirroring bus abstraction with bank-switched program storage.

pub mod bits;
pub mod console;
pub mod cpu;
pub mod fault;
pub mod memory_map;
pub mod ppu;
pub mod rom;
pub mod system;

//! Fixed geometry of the 16-bit address space.

use vstd::prelude::*;

verus! {

pub const MEMORY_MAP_TOTAL_SIZE: usize = 0x010000;

pub const PRG_ROM_BANK_SIZE: usize = 0x004000;

pub const PRG_ROM_TOTAL_SIZE: usize = PRG_ROM_BANK_SIZE * 2;

pub const PRG_ROM_START: u16 = 0x8000;

pub const PRG_ROM_END: u16 = 0xffff;

/// The little-endian word at this address is the program counter a reset
/// starts from.
pub const RESET_VECTOR: u16 = 0xfffc;

pub const SRAM_SIZE: usize = 0x002000;

pub const EXPANSION_ROM_SIZE: usize = 0x001fe0;

pub const IO_REGISTERS_HI_SIZE: usize = 0x000020;

pub const IO_REGISTERS_LO_SIZE: usize = 0x000008;

pub const RAM_SIZE: usize = 0x000600;

pub const STACK_SIZE: usize = 0x000100;

/// The absolute address of the bottom of the fixed stack page.
pub const STACK_START: u16 = 0x0100;

/// The absolute address of the top of the fixed stack page.
pub const STACK_END: u16 = 0x01ff;

pub const ZERO_PAGE_SIZE: usize = 0x000100;

} // verus!

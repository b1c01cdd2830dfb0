//! The simplest mapper: a single 16KB program bank duplicated into both
//! halves of the bank-switched region, so code runs correctly whichever
//! half the reset vector targets.

use crate::fault::Fault;
use crate::memory_map::common::le_pair_to_u16;
use crate::memory_map::common::spec_resolve_address;
use crate::memory_map::common::u16_to_le_pair;
use crate::memory_map::common::wrap16;
use crate::memory_map::common::write_memory;
use crate::memory_map::common::zeroed_memory;
use crate::memory_map::constants::PRG_ROM_BANK_SIZE;
use crate::memory_map::constants::PRG_ROM_START;
use crate::memory_map::MemoryMapper;
use crate::memory_map::MirrorRegion;
use crate::rom::NesRom;
use vstd::prelude::*;

verus! {

/// The store contents after placing a single 16KB bank: the bank's bytes in
/// both halves of `[0x8000, 0x10000)`, everything below unchanged.
pub open spec fn spec_nrom_loaded(m: Seq<u8>, prg: Seq<u8>) -> Seq<u8> {
    Seq::new(
        0x10000,
        |i: int|
            if 0x8000 <= i < 0xc000 {
                prg[i - 0x8000]
            } else if 0xc000 <= i {
                prg[i - 0xc000]
            } else {
                m[i]
            },
    )
}

/// A bus with the two standard mirrored regions whose bank-switched region
/// holds one program bank, mirrored into both 16KB windows.
pub struct NROMMemoryMap {
    pub memory: Vec<u8>,
    pub num_prg_banks: u8,
    pub num_chr_banks: u8,
}

impl NROMMemoryMap {
    /// Places a 16KB bank in the upper window `[0xc000, 0x10000)`.
    fn load_prg_rom_upper(&mut self, buf: &[u8])
        requires
            old(self).inv(),
            buf@.len() >= 0x4000,
        ensures
            final(self).inv(),
            forall|j: int|
                0 <= j < 0x10000 ==> final(self).memory@[j] == (if 0xc000 <= j < 0x10000 {
                    buf@[j - 0xc000]
                } else {
                    old(self).memory@[j]
                }),
            final(self).num_prg_banks == old(self).num_prg_banks,
            final(self).num_chr_banks == old(self).num_chr_banks,
    {
        let upper_bank_start = PRG_ROM_START + (PRG_ROM_BANK_SIZE as u16);

        self.write_memory(upper_bank_start as usize, PRG_ROM_BANK_SIZE, buf);
    }

    /// Places a 16KB bank in the lower window `[0x8000, 0xc000)`.
    fn load_prg_rom_lower(&mut self, buf: &[u8])
        requires
            old(self).inv(),
            buf@.len() >= 0x4000,
        ensures
            final(self).inv(),
            forall|j: int|
                0 <= j < 0x10000 ==> final(self).memory@[j] == (if 0x8000 <= j < 0xc000 {
                    buf@[j - 0x8000]
                } else {
                    old(self).memory@[j]
                }),
            final(self).num_prg_banks == old(self).num_prg_banks,
            final(self).num_chr_banks == old(self).num_chr_banks,
    {
        let lower_bank_start = PRG_ROM_START;

        self.write_memory(lower_bank_start as usize, PRG_ROM_BANK_SIZE, buf);
    }

    /// Which mirrored region an address falls into.
    fn get_mirror_region_for_address(address: u16) -> (r: MirrorRegion)
        ensures
            (r is One) == (address < 0x2000),
            (r is Two) == (0x2000 <= address < 0x4000),
            (r is Direct) == (0x4000 <= address),
    {
        if address < 0x2000 {
            MirrorRegion::One
        } else if address < 0x4000 {
            MirrorRegion::Two
        } else {
            MirrorRegion::Direct
        }
    }

    /// Overlays `len` bytes of `buf` onto the backing store at
    /// `starting_at`.
    fn write_memory(&mut self, starting_at: usize, len: usize, buf: &[u8])
        requires
            old(self).inv(),
            starting_at + len <= 0x10000,
            len <= buf@.len(),
        ensures
            final(self).inv(),
            forall|j: int|
                0 <= j < 0x10000 ==> final(self).memory@[j] == (if starting_at <= j < starting_at
                    + len {
                    buf@[j - starting_at]
                } else {
                    old(self).memory@[j]
                }),
            final(self).num_prg_banks == old(self).num_prg_banks,
            final(self).num_chr_banks == old(self).num_chr_banks,
    {
        write_memory(&mut self.memory, starting_at, len, buf);
    }

    /// Writes through the internal-RAM mirror: the value lands at the
    /// canonical alias below `0x800`.
    pub fn write_to_mirrored_region_one(&mut self, address: u16, val: u8)
        requires
            old(self).inv(),
        ensures
            final(self).inv(),
            final(self).memory@ == old(self).memory@.update(address as int % 0x800, val),
            final(self).num_prg_banks == old(self).num_prg_banks,
            final(self).num_chr_banks == old(self).num_chr_banks,
    {
        let address = NROMMemoryMap::resolve_address_in_region_one(address);

        self.write_direct(address, val);
    }

    /// Writes through the register-block mirror: the value lands at the
    /// canonical alias in `[0x2000, 0x2008)`.
    pub fn write_to_mirrored_region_two(&mut self, address: u16, val: u8)
        requires
            old(self).inv(),
        ensures
            final(self).inv(),
            final(self).memory@ == old(self).memory@.update(0x2000 + address as int % 8, val),
            final(self).num_prg_banks == old(self).num_prg_banks,
            final(self).num_chr_banks == old(self).num_chr_banks,
    {
        let address = NROMMemoryMap::resolve_address_in_region_two(address);

        self.write_direct(address, val);
    }

    /// The canonical alias of an internal-RAM address.
    fn resolve_address_in_region_one(address: u16) -> (r: u16)
        ensures
            r == address as int % 0x800,
    {
        crate::memory_map::common::resolve_mirrored_address(address, 0x0000, 0x0800)
    }

    /// The canonical alias of a register-block address.
    fn resolve_address_in_region_two(address: u16) -> (r: u16)
        ensures
            r == 0x2000 + address as int % 8,
    {
        crate::memory_map::common::resolve_mirrored_address(address, 0x2000, 0x0008)
    }

    /// Writes to the backing store without mirror resolution.
    fn write_direct(&mut self, address: u16, val: u8)
        requires
            old(self).inv(),
        ensures
            final(self).inv(),
            final(self).memory@ == old(self).memory@.update(address as int, val),
            final(self).num_prg_banks == old(self).num_prg_banks,
            final(self).num_chr_banks == old(self).num_chr_banks,
    {
        self.memory[address as usize] = val;
    }
}

impl MemoryMapper for NROMMemoryMap {
    open spec fn mem(&self) -> Seq<u8> {
        self.memory@
    }

    open spec fn inv(&self) -> bool {
        self.memory@.len() == 0x10000
    }

    open spec fn resolve(address: u16) -> u16 {
        spec_resolve_address(address)
    }

    /// This mapper places exactly one program bank.
    open spec fn load_accepts(rom: &NesRom) -> bool {
        rom.num_prg_banks == 1
    }

    open spec fn loaded_mem(m: Seq<u8>, rom: &NesRom) -> Seq<u8> {
        spec_nrom_loaded(m, rom.prg_rom@)
    }

    proof fn lemma_inv_len(&self) {
    }

    proof fn lemma_resolve_direct(address: u16) {
    }

    proof fn lemma_resolve_stack_distinct(a: u16, b: u16) {
    }

    fn new() -> (r: Self) {
        NROMMemoryMap { memory: zeroed_memory(), num_chr_banks: 0, num_prg_banks: 0 }
    }

    fn read(&self, address: u16) -> (r: u8) {
        let address = match NROMMemoryMap::get_mirror_region_for_address(address) {
            MirrorRegion::One => NROMMemoryMap::resolve_address_in_region_one(address),
            MirrorRegion::Two => NROMMemoryMap::resolve_address_in_region_two(address),
            MirrorRegion::Direct => address,
        };

        self.memory[address as usize]
    }

    fn read_u16(&self, address: u16) -> (r: u16) {
        let first = self.read(address);
        let second = self.read(address.wrapping_add(1));

        le_pair_to_u16(first, second)
    }

    fn write(&mut self, address: u16, val: u8) {
        match NROMMemoryMap::get_mirror_region_for_address(address) {
            MirrorRegion::One => self.write_to_mirrored_region_one(address, val),
            MirrorRegion::Two => self.write_to_mirrored_region_two(address, val),
            MirrorRegion::Direct => self.write_direct(address, val),
        }
    }

    fn write_u16(&mut self, address: u16, val: u16) {
        let pair = u16_to_le_pair(val);
        self.write(address, pair.0);
        self.write(address.wrapping_add(1), pair.1);
    }

    fn load(&mut self, rom: &NesRom) -> (r: Result<(), Fault>) {
        if rom.num_prg_banks != 1 {
            return Err(Fault::MalformedCartridge);
        }
        self.num_prg_banks = rom.num_prg_banks;
        self.num_chr_banks = rom.num_chr_banks;

        self.load_prg_rom_upper(rom.prg_rom.as_slice());
        self.load_prg_rom_lower(rom.prg_rom.as_slice());

        proof {
            assert(self.memory@ =~= spec_nrom_loaded(old(self).memory@, rom.prg_rom@));
        }
        Ok(())
    }
}

impl Default for NROMMemoryMap {
    /// A power-on bus: every byte zero, no banks placed.
    fn default() -> (r: Self)
        ensures
            r.inv(),
            forall|i: int| 0 <= i < 0x10000 ==> r.memory@[i] == 0u8,
            r.num_prg_banks == 0,
            r.num_chr_banks == 0,
    {
        NROMMemoryMap { memory: zeroed_memory(), num_chr_banks: 0, num_prg_banks: 0 }
    }
}

} // verus!

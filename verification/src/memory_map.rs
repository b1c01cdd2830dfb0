//! The memory bus: the full 64KB address space with two mirrored low
//! regions and a bank-switched high region.
//!
//! Every read and write first resolves its address through the mirror-region
//! logic — a pure function of the address — before touching the backing
//! store, so the canonical (lowest) alias is always the one physically
//! stored. The `MemoryMapper` trait abstracts the bus so the instruction
//! logic can be reused over alternative mirroring and bank-switching
//! policies.

pub mod common;
pub mod constants;
pub mod mappers;

pub use self::common::crosses_page_boundary;
pub use self::common::lemma_mirrored_write_observability;
pub use self::common::lemma_resolve_characterization;
pub use self::common::resolve_mirrored_address;
pub use self::common::spec_page;
pub use self::common::spec_resolve_address;
pub use self::common::wrap16;
pub use self::common::wrap8;
pub use self::common::write_memory;
pub use self::common::zeroed_memory;
pub use self::constants::EXPANSION_ROM_SIZE;
pub use self::constants::IO_REGISTERS_HI_SIZE;
pub use self::constants::IO_REGISTERS_LO_SIZE;
pub use self::constants::MEMORY_MAP_TOTAL_SIZE;
pub use self::constants::PRG_ROM_BANK_SIZE;
pub use self::constants::PRG_ROM_END;
pub use self::constants::PRG_ROM_START;
pub use self::constants::PRG_ROM_TOTAL_SIZE;
pub use self::constants::RAM_SIZE;
pub use self::constants::RESET_VECTOR;
pub use self::constants::SRAM_SIZE;
pub use self::constants::STACK_END;
pub use self::constants::STACK_SIZE;
pub use self::constants::STACK_START;
pub use self::constants::ZERO_PAGE_SIZE;
pub use self::mappers::NROMMemoryMap;

use crate::fault::Fault;
use crate::rom::NesRom;
use crate::system::SystemConfiguration;
use vstd::prelude::*;

verus! {

/// Which mirrored region, if any, an address falls into.
pub enum MirrorRegion {
    /// Below `0x2000`: internal RAM, mirrored every `0x800` bytes.
    One,
    /// In `[0x2000, 0x4000)`: the register block, mirrored every 8 bytes.
    Two,
    /// At or above `0x4000`: mapped directly.
    Direct,
}

/// The abstract contract of a memory bus: byte and little-endian word
/// access over a 64KB backing store, behind a mirroring policy that is a
/// pure function of the address, plus cartridge loading.
pub trait MemoryMapper: Sized {
    /// The 64KB backing store.
    spec fn mem(&self) -> Seq<u8>;

    /// Structural invariant: the store spans the full address space.
    spec fn inv(&self) -> bool;

    /// The canonical backing-store index for an address; a pure function of
    /// the address alone, never of bus state.
    spec fn resolve(address: u16) -> u16;

    /// Whether this mapper can place the given cartridge.
    spec fn load_accepts(rom: &NesRom) -> bool;

    /// The store contents after a successful load of `rom` over `m`.
    spec fn loaded_mem(m: Seq<u8>, rom: &NesRom) -> Seq<u8>;

    /// The invariant pins the store to the full address space.
    proof fn lemma_inv_len(&self)
        requires
            self.inv(),
        ensures
            self.mem().len() == 0x10000,
    ;

    /// Addresses at or above `0x4000` map directly.
    proof fn lemma_resolve_direct(address: u16)
        requires
            0x4000 <= address,
        ensures
            Self::resolve(address) == address,
    ;

    /// Distinct addresses within the fixed stack page keep distinct
    /// backing storage: no mirroring policy may fold the stack onto
    /// itself.
    proof fn lemma_resolve_stack_distinct(a: u16, b: u16)
        requires
            0x100 <= a < 0x200,
            0x100 <= b < 0x200,
            a != b,
        ensures
            Self::resolve(a) != Self::resolve(b),
    ;

    /// A power-on bus: every byte of the store zero.
    fn new() -> (r: Self)
        ensures
            r.inv(),
            forall|i: int| 0 <= i < 0x10000 ==> r.mem()[i] == 0u8,
    ;

    /// Reads the byte stored at the canonical alias of `address`.
    fn read(&self, address: u16) -> (r: u8)
        requires
            self.inv(),
        ensures
            r == self.mem()[Self::resolve(address) as int],
    ;

    /// Reads the little-endian word at `address`: the low byte there, the
    /// high byte at the next (wrapping) address, both through resolution.
    fn read_u16(&self, address: u16) -> (r: u16)
        requires
            self.inv(),
        ensures
            r == self.mem()[Self::resolve(address) as int] + 0x100 * self.mem()[Self::resolve(
                wrap16(address as int + 1),
            ) as int],
    ;

    /// Writes `val` at the canonical alias of `address`.
    fn write(&mut self, address: u16, val: u8)
        requires
            old(self).inv(),
        ensures
            final(self).inv(),
            final(self).mem() == old(self).mem().update(Self::resolve(address) as int, val),
    ;

    /// Writes the little-endian word `val` as two byte accesses: the low
    /// byte at `address`, the high byte at the next (wrapping) address.
    fn write_u16(&mut self, address: u16, val: u16)
        requires
            old(self).inv(),
        ensures
            final(self).inv(),
            final(self).mem() == old(self).mem().update(
                Self::resolve(address) as int,
                (val as int % 0x100) as u8,
            ).update(Self::resolve(wrap16(address as int + 1)) as int, (val as int / 0x100) as u8),
    ;

    /// Installs a cartridge's program data. All-or-nothing: on a rejected
    /// cartridge the store is untouched and the fault is
    /// `MalformedCartridge`.
    fn load(&mut self, rom: &NesRom) -> (r: Result<(), Fault>)
        requires
            old(self).inv(),
            rom.wf(),
        ensures
            final(self).inv(),
            (r is Ok) == Self::load_accepts(rom),
            r is Ok ==> final(self).mem() == Self::loaded_mem(old(self).mem(), rom),
            r is Err ==> final(self).mem() == old(self).mem() && r == Err::<(), Fault>(
                Fault::MalformedCartridge,
            ),
    ;
}

/// A plain bus with the two standard mirrored regions and no bank
/// switching: every address at or above `0x4000` is backed directly.
pub struct MemoryMap {
    pub memory: Vec<u8>,
    pub num_prg_banks: u8,
    pub num_chr_banks: u8,
    pub num_ram_banks: u8,
}

impl MemoryMap {
    /// The backing store spans the full address space.
    pub open spec fn inv(&self) -> bool {
        self.memory@.len() == 0x10000
    }

    /// Reads the byte stored at the canonical alias of `address`.
    pub fn read(&self, address: u16) -> (r: u8)
        requires
            self.inv(),
        ensures
            r == self.memory@[spec_resolve_address(address) as int],
    {
        let address = match MemoryMap::get_mirror_region_for_address(address) {
            MirrorRegion::One => MemoryMap::resolve_address_in_region_one(address),
            MirrorRegion::Two => MemoryMap::resolve_address_in_region_two(address),
            MirrorRegion::Direct => address,
        };

        self.memory[address as usize]
    }

    /// Writes `val` at the canonical alias of `address`.
    pub fn write(&mut self, address: u16, val: u8)
        requires
            old(self).inv(),
        ensures
            final(self).inv(),
            final(self).memory@ == old(self).memory@.update(
                spec_resolve_address(address) as int,
                val,
            ),
            final(self).num_prg_banks == old(self).num_prg_banks,
            final(self).num_chr_banks == old(self).num_chr_banks,
            final(self).num_ram_banks == old(self).num_ram_banks,
    {
        match MemoryMap::get_mirror_region_for_address(address) {
            MirrorRegion::One => self.write_to_mirrored_region_one(address, val),
            MirrorRegion::Two => self.write_to_mirrored_region_two(address, val),
            MirrorRegion::Direct => self.write_direct(address, val),
        }
    }

    /// Which mirrored region an address falls into.
    fn get_mirror_region_for_address(address: u16) -> (r: MirrorRegion)
        ensures
            (r is One) == (address < 0x2000),
            (r is Two) == (0x2000 <= address < 0x4000),
            (r is Direct) == (0x4000 <= address),
    {
        if address < 0x2000 {
            MirrorRegion::One
        } else if address < 0x4000 {
            MirrorRegion::Two
        } else {
            MirrorRegion::Direct
        }
    }

    /// Writes through the internal-RAM mirror: the value lands at the
    /// canonical alias below `0x800`.
    pub fn write_to_mirrored_region_one(&mut self, address: u16, val: u8)
        requires
            old(self).inv(),
        ensures
            final(self).inv(),
            final(self).memory@ == old(self).memory@.update(address as int % 0x800, val),
            final(self).num_prg_banks == old(self).num_prg_banks,
            final(self).num_chr_banks == old(self).num_chr_banks,
            final(self).num_ram_banks == old(self).num_ram_banks,
    {
        let address = MemoryMap::resolve_address_in_region_one(address);

        self.write_direct(address, val);
    }

    /// Writes through the register-block mirror: the value lands at the
    /// canonical alias in `[0x2000, 0x2008)`.
    pub fn write_to_mirrored_region_two(&mut self, address: u16, val: u8)
        requires
            old(self).inv(),
        ensures
            final(self).inv(),
            final(self).memory@ == old(self).memory@.update(0x2000 + address as int % 8, val),
            final(self).num_prg_banks == old(self).num_prg_banks,
            final(self).num_chr_banks == old(self).num_chr_banks,
            final(self).num_ram_banks == old(self).num_ram_banks,
    {
        let address = MemoryMap::resolve_address_in_region_two(address);

        self.write_direct(address, val);
    }

    /// The canonical alias of an internal-RAM address.
    fn resolve_address_in_region_one(address: u16) -> (r: u16)
        ensures
            r == address as int % 0x800,
    {
        MemoryMap::resolve_mirrored_address(address, 0x0000, 0x0800)
    }

    /// The canonical alias of a register-block address.
    fn resolve_address_in_region_two(address: u16) -> (r: u16)
        ensures
            r == 0x2000 + address as int % 8,
    {
        MemoryMap::resolve_mirrored_address(address, 0x2000, 0x0008)
    }

    /// Maps an address onto the canonical copy of a mirrored region.
    fn resolve_mirrored_address(address: u16, start_address: u16, region_size: u16) -> (r: u16)
        requires
            region_size > 0,
            start_address + region_size <= 0x10000,
        ensures
            r == start_address + address as int % region_size as int,
    {
        resolve_mirrored_address(address, start_address, region_size)
    }

    /// Writes to the backing store without mirror resolution.
    fn write_direct(&mut self, address: u16, val: u8)
        requires
            old(self).inv(),
        ensures
            final(self).inv(),
            final(self).memory@ == old(self).memory@.update(address as int, val),
            final(self).num_prg_banks == old(self).num_prg_banks,
            final(self).num_chr_banks == old(self).num_chr_banks,
            final(self).num_ram_banks == old(self).num_ram_banks,
    {
        self.memory[address as usize] = val;
    }

    /// Accepts a system configuration; this plain bus keeps no bank state,
    /// so the bus is left exactly as it was.
    pub fn configure(&mut self, config: SystemConfiguration)
        ensures
            *final(self) == *old(self),
    {
        let _ = config;
    }
}

impl Default for MemoryMap {
    /// A power-on bus: every byte zero, no banks configured.
    fn default() -> (r: Self)
        ensures
            r.inv(),
            forall|i: int| 0 <= i < 0x10000 ==> r.memory@[i] == 0u8,
            r.num_prg_banks == 0,
            r.num_chr_banks == 0,
            r.num_ram_banks == 0,
    {
        MemoryMap {
            memory: zeroed_memory(),
            num_chr_banks: 0,
            num_prg_banks: 0,
            num_ram_banks: 0,
        }
    }
}

} // verus!

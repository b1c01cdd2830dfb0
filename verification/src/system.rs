//! Header-derived configuration a cartridge hands to the rest of the system.

use crate::ppu;
use vstd::prelude::*;

verus! {

/// Bank counts and mirroring mode extracted from a cartridge header.
pub struct SystemConfiguration {
    pub num_prg_banks: u8,
    pub num_chr_banks: u8,
    pub num_ram_banks: u8,
    pub mirroring_type: ppu::MirroringType,
}

} // verus!

//! The graphics subsystem is an external collaborator; only the mirroring
//! mode a cartridge requests of it is modelled here.

use vstd::prelude::*;

verus! {

/// The nametable mirroring arrangement a cartridge asks the graphics chip
/// to use.
#[derive(Debug, Clone, Copy, PartialEq, Eq, Structural)]
pub enum MirroringType {
    Unknown,
    Horizontal,
    Vertical,
    Both,
}

impl Default for MirroringType {
    fn default() -> (r: MirroringType)
        ensures
            r == MirroringType::Unknown,
    {
        MirroringType::Unknown
    }
}

} // verus!

//! Nibble manipulation helpers.

use vstd::prelude::*;

verus! {

/// Packs the high nibble of `hi` (kept in place) with the high nibble of
/// `lo` (moved to the low position) into one byte. The cartridge header
/// stores a mapper identifier split across two control bytes this way.
pub fn overlay(hi: u8, lo: u8) -> (r: u8)
    ensures
        r == (hi & 0xf0) | ((lo >> 4) & 0x0f),
{
    let hi_ex = ((hi >> 4) & 0b1111) << 4;
    let lo_ex = (lo >> 4) & 0b1111;

    let r = (hi_ex | 0x0f) & (lo_ex | 0xf0);
    proof {
        assert(((((hi >> 4) & 0xf) << 4) | 0x0f) & (((lo >> 4) & 0xf) | 0xf0)
            == (hi & 0xf0) | ((lo >> 4) & 0x0f)) by (bit_vector);
    }
    r
}

} // verus!

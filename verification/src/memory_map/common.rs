//! Address resolution and raw-memory helpers shared by every mapper.

use byteorder::ByteOrder;
use vstd::prelude::*;

verus! {

/// A 16-bit value congruent to `x`, as address arithmetic wraps on the part.
pub open spec fn wrap16(x: int) -> u16 {
    (x % 0x10000) as u16
}

/// An 8-bit value congruent to `x`, as the stack offset wraps on the part.
pub open spec fn wrap8(x: int) -> u8 {
    (x % 0x100) as u8
}

/// The 256-byte page an address belongs to: its high byte.
pub open spec fn spec_page(address: u16) -> int {
    address as int / 0x100
}

/// The canonical (lowest) alias of an address. Addresses below `0x2000`
/// mirror every `0x800` bytes; addresses in `[0x2000, 0x4000)` mirror every
/// `0x8` bytes onto the register block at `0x2000`; addresses at or above
/// `0x4000` map directly. A pure function of the address, not of bus state.
pub open spec fn spec_resolve_address(address: u16) -> u16 {
    if address < 0x2000 {
        (address as int % 0x800) as u16
    } else if address < 0x4000 {
        (0x2000 + address as int % 8) as u16
    } else {
        address
    }
}

/// Two addresses share backing storage exactly when they lie in the same
/// mirrored region and are congruent modulo its period, or are the same
/// direct address.
pub proof fn lemma_resolve_characterization(a: u16, b: u16)
    ensures
        (spec_resolve_address(a) == spec_resolve_address(b)) <==> ({
            ||| (a < 0x2000 && b < 0x2000 && a as int % 0x800 == b as int % 0x800)
            ||| (0x2000 <= a < 0x4000 && 0x2000 <= b < 0x4000 && a as int % 8 == b as int % 8)
            ||| (0x4000 <= a && 0x4000 <= b && a == b)
        }),
{
}

/// What one mirrored write leaves readable: the written value at every
/// address that shares the canonical alias, and the old contents everywhere
/// else.
pub proof fn lemma_mirrored_write_observability(m: Seq<u8>, write_addr: u16, read_addr: u16, v: u8)
    requires
        m.len() == 0x10000,
    ensures
        m.update(spec_resolve_address(write_addr) as int, v)[spec_resolve_address(
            read_addr,
        ) as int] == (if spec_resolve_address(write_addr) == spec_resolve_address(read_addr) {
            v
        } else {
            m[spec_resolve_address(read_addr) as int]
        }),
{
}

/// Maps an address onto the canonical copy of a mirrored region: the region
/// start plus the address's offset within the repeating period.
pub fn resolve_mirrored_address(address: u16, start_address: u16, region_size: u16) -> (r: u16)
    requires
        region_size > 0,
        start_address + region_size <= 0x10000,
    ensures
        r == start_address + address as int % region_size as int,
{
    let mirror_address = start_address + (address % region_size);

    mirror_address
}

/// Whether two addresses lie in different 256-byte pages; indexed and branch
/// accesses that cross a page cost one extra cycle.
pub fn crosses_page_boundary(in_page: u16, address: u16) -> (r: bool)
    ensures
        r == (spec_page(in_page) != spec_page(address)),
{
    proof {
        assert((in_page & 0xff00 != address & 0xff00) == (in_page / 0x100 != address / 0x100))
            by (bit_vector);
    }
    (in_page & 0xff00) != (address & 0xff00)
}

/// Overlays `len` bytes of `buf` onto `memory` starting at `starting_at`,
/// leaving everything outside that window unchanged.
pub fn write_memory(memory: &mut Vec<u8>, starting_at: usize, len: usize, buf: &[u8])
    requires
        starting_at + len <= old(memory)@.len(),
        len <= buf@.len(),
    ensures
        final(memory)@.len() == old(memory)@.len(),
        forall|j: int|
            0 <= j < old(memory)@.len() ==> final(memory)@[j] == (if starting_at <= j
                < starting_at + len {
                buf@[j - starting_at]
            } else {
                old(memory)@[j]
            }),
{
    let total: usize = memory.len();
    let mut i: usize = 0;
    while i < len
        invariant
            i <= len,
            len <= buf@.len(),
            total == memory@.len(),
            starting_at + len <= total,
            memory@.len() == old(memory)@.len(),
            forall|j: int|
                0 <= j < old(memory)@.len() ==> memory@[j] == (if starting_at <= j < starting_at
                    + i {
                    buf@[j - starting_at]
                } else {
                    old(memory)@[j]
                }),
        decreases len - i,
    {
        let address = starting_at + i;
        let value = buf[i];

        memory[address] = value;
        i += 1;
    }
}

/// A fresh 64KB backing store, every byte zero.
pub fn zeroed_memory() -> (r: Vec<u8>)
    ensures
        r@.len() == 0x10000,
        forall|i: int| 0 <= i < 0x10000 ==> r@[i] == 0u8,
{
    let v: Vec<u8> = vec![0u8; 0x10000];
    v
}

/// Relies on byteorder's `LittleEndian::read_u16`: composes a word from the
/// low byte followed by the high byte.
#[verifier::external_body]
pub(crate) fn le_pair_to_u16(lo: u8, hi: u8) -> (r: u16)
    ensures
        r == lo + 0x100 * hi,
{
    byteorder::LittleEndian::read_u16(&[lo, hi])
}

/// Relies on byteorder's `LittleEndian::write_u16`: splits a word into its
/// low byte followed by its high byte.
#[verifier::external_body]
pub(crate) fn u16_to_le_pair(val: u16) -> (r: (u8, u8))
    ensures
        r.0 == val as int % 0x100,
        r.1 == val as int / 0x100,
{
    let mut bytes = [0u8; 2];
    byteorder::LittleEndian::write_u16(&mut bytes, val);
    (bytes[0], bytes[1])
}

} // verus!

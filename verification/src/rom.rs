//! The cartridge image: a fixed 16-byte header followed by the raw program
//! bytes. Parsing is all-or-nothing: a bad signature, a truncated header or
//! data region, or a missing program bank is a `MalformedCartridge` fault,
//! and nothing is produced.

use crate::bits;
use crate::fault::Fault;
use crate::ppu;
use vstd::prelude::*;

verus! {

/// A parsed cartridge: header-derived metadata plus the raw program bytes.
/// Immutable after construction; consumed exactly once by the bus loader.
pub struct NesRom {
    /// The raw program bytes, `num_prg_banks` banks of 16KB each.
    pub prg_rom: Vec<u8>,

    /// The 3-byte signature from the start of the header.
    pub identifier: Vec<u8>,

    /// The magic byte following the identifier.
    pub format: u8,

    /// Program banks, units of 16KB.
    pub num_prg_banks: u8,

    /// Character banks, units of 8KB.
    pub num_chr_banks: u8,

    /// RAM banks.
    pub num_ram_banks: u8,

    /// The nametable mirroring arrangement the cartridge requests.
    pub mirroring_type: ppu::MirroringType,

    /// Whether battery-backed RAM is present.
    pub has_battery_backed_ram: bool,

    /// Whether a trainer section is present.
    pub has_trainer: bool,

    /// The mapper identifier packed from the two control bytes.
    pub mapper_number: u8,
}

/// A well-formed image starts with the fixed signature `NES` followed by the
/// magic byte `0x1a`, and keeps its reserved bytes zero.
pub open spec fn spec_header_valid(b: Seq<u8>) -> bool {
    &&& b.len() >= 16
    &&& b[0] == 0x4e
    &&& b[1] == 0x45
    &&& b[2] == 0x53
    &&& b[3] == 0x1a
    &&& (forall|i: int| 9 <= i < 16 ==> b[i] == 0)
}

/// A loadable image has a valid header, at least one program bank, and
/// carries all the program bytes the bank count announces.
pub open spec fn spec_image_valid(b: Seq<u8>) -> bool {
    &&& spec_header_valid(b)
    &&& b[4] >= 1
    &&& b.len() >= 16 + b[4] as int * 0x4000
}

/// The mirroring mode encoded in the first control byte: the four-screen
/// override (bit 3) wins, then bit 0 selects vertical over horizontal.
pub open spec fn spec_mirroring_type(control_byte_one: u8) -> ppu::MirroringType {
    if control_byte_one & 0x08 != 0 {
        ppu::MirroringType::Both
    } else if control_byte_one & 0x01 != 0 {
        ppu::MirroringType::Vertical
    } else {
        ppu::MirroringType::Horizontal
    }
}

/// Copies `len` bytes of `buf` starting at `start` into a fresh vector.
fn copy_range(buf: &[u8], start: usize, len: usize) -> (r: Vec<u8>)
    requires
        start + len <= buf@.len(),
    ensures
        r@ == buf@.subrange(start as int, start as int + len as int),
{
    let buf_len: usize = buf.len();
    let mut out: Vec<u8> = Vec::new();
    let mut i: usize = 0;
    while i < len
        invariant
            i <= len,
            buf_len == buf@.len(),
            start + len <= buf_len,
            out@.len() == i,
            forall|j: int| 0 <= j < i ==> out@[j] == buf@[start + j],
        decreases len - i,
    {
        out.push(buf[start + i]);
        i += 1;
    }
    proof {
        assert(out@ =~= buf@.subrange(start as int, start as int + len as int));
    }
    out
}

impl NesRom {
    /// The program bytes fill exactly the announced number of 16KB banks,
    /// and there is at least one.
    pub open spec fn wf(&self) -> bool {
        &&& self.num_prg_banks >= 1
        &&& self.prg_rom@.len() == self.num_prg_banks as int * 0x4000
    }

    /// Parses a cartridge image. Succeeds exactly on well-formed images;
    /// everything else is a `MalformedCartridge` fault, with nothing
    /// partially constructed.
    pub fn from_bytes(data: &[u8]) -> (r: Result<NesRom, Fault>)
        ensures
            (r is Ok) == spec_image_valid(data@),
            r is Err ==> r == Err::<NesRom, Fault>(Fault::MalformedCartridge),
            r matches Ok(rom) ==> {
                &&& rom.wf()
                &&& rom.identifier@ == data@.subrange(0, 3)
                &&& rom.format == data@[3]
                &&& rom.num_prg_banks == data@[4]
                &&& rom.num_chr_banks == data@[5]
                &&& rom.num_ram_banks == data@[8]
                &&& rom.mirroring_type == spec_mirroring_type(data@[6])
                &&& rom.has_battery_backed_ram == (data@[6] & 0x02 != 0)
                &&& rom.has_trainer == (data@[6] & 0x04 != 0)
                &&& rom.mapper_number == ((data@[7] & 0xf0) | ((data@[6] >> 4) & 0x0f))
                &&& rom.prg_rom@ == data@.subrange(16, 16 + data@[4] as int * 0x4000)
            },
    {
        let header_size: usize = 16;
        if data.len() < header_size {
            return Err(Fault::MalformedCartridge);
        }
        if data[0] != 0x4e || data[1] != 0x45 || data[2] != 0x53 || data[3] != 0x1a {
            return Err(Fault::MalformedCartridge);
        }
        let mut i: usize = 9;
        while i < 16
            invariant
                9 <= i <= 16,
                data@.len() >= 16,
                forall|j: int| 9 <= j < i ==> data@[j] == 0,
            decreases 16 - i,
        {
            if data[i] != 0 {
                return Err(Fault::MalformedCartridge);
            }
            i += 1;
        }

        let format = data[3];
        let num_prg_banks = data[4];
        let num_chr_banks = data[5];
        let control_byte_one = data[6];
        let control_byte_two = data[7];
        let num_ram_banks = data[8];

        if num_prg_banks == 0 {
            return Err(Fault::MalformedCartridge);
        }
        let prg_len: usize = (num_prg_banks as usize) * 0x4000;
        if data.len() < header_size + prg_len {
            return Err(Fault::MalformedCartridge);
        }

        let mirroring_type = NesRom::get_mirroring_type(control_byte_one);
        let has_battery_backed_ram = (control_byte_one & 0b10) >> 1 == 1;
        let has_trainer = (control_byte_one & 0b100) >> 2 == 1;
        let mapper_number = NesRom::get_maper_number(control_byte_one, control_byte_two);

        proof {
            assert((((control_byte_one & 0x02) >> 1 == 1) <==> control_byte_one & 0x02 != 0) && ((
            (control_byte_one & 0x04) >> 2 == 1) <==> control_byte_one & 0x04 != 0))
                by (bit_vector);
        }

        let identifier = copy_range(data, 0, 3);
        let prg_rom = copy_range(data, header_size, prg_len);

        Ok(
            NesRom {
                prg_rom,
                identifier,
                format,
                num_prg_banks,
                num_chr_banks,
                num_ram_banks,
                mirroring_type,
                has_battery_backed_ram,
                has_trainer,
                mapper_number,
            },
        )
    }

    /// Reads the mirroring mode out of the first control byte.
    pub fn get_mirroring_type(control_byte_one: u8) -> (r: ppu::MirroringType)
        ensures
            r == spec_mirroring_type(control_byte_one),
    {
        proof {
            assert((((control_byte_one & 0x08) >> 3 == 1) <==> control_byte_one & 0x08 != 0) && ((
            control_byte_one & 0x01 == 1) <==> control_byte_one & 0x01 != 0)) by (bit_vector);
        }
        match (control_byte_one & 0b1000) >> 3 == 1 {
            true => ppu::MirroringType::Both,
            _ => {
                match control_byte_one & 1 == 1 {
                    false => ppu::MirroringType::Horizontal,
                    _ => ppu::MirroringType::Vertical,
                }
            },
        }
    }

    /// Packs the mapper identifier: the high nibble of control byte two over
    /// the high nibble of control byte one.
    pub fn get_maper_number(control_byte_one: u8, control_byte_two: u8) -> (r: u8)
        ensures
            r == ((control_byte_two & 0xf0) | ((control_byte_one >> 4) & 0x0f)),
    {
        bits::overlay(control_byte_two, control_byte_one)
    }
}

} // verus!

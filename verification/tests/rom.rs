use nes_core::bits::overlay;
use nes_core::fault::Fault;
use nes_core::ppu::MirroringType;
use nes_core::rom::NesRom;

fn build_image(num_prg_banks: u8, control_byte_one: u8, control_byte_two: u8) -> Vec<u8> {
    let mut image = vec![0x4e, 0x45, 0x53, 0x1a];
    image.push(num_prg_banks);
    image.push(2); // character banks
    image.push(control_byte_one);
    image.push(control_byte_two);
    image.push(1); // RAM banks
    image.extend_from_slice(&[0, 0, 0, 0, 0, 0, 0]);
    for i in 0..(num_prg_banks as usize) * 0x4000 {
        image.push((i % 251) as u8);
    }
    image
}

#[test]
fn test_parse_valid_image() {
    let image = build_image(1, 0b0000_0001, 0b0101_0000);
    let rom = NesRom::from_bytes(&image).unwrap();

    assert_eq!(rom.identifier, vec![0x4e, 0x45, 0x53]);
    assert_eq!(rom.format, 0x1a);
    assert_eq!(rom.num_prg_banks, 1);
    assert_eq!(rom.num_chr_banks, 2);
    assert_eq!(rom.num_ram_banks, 1);
    assert_eq!(rom.mirroring_type, MirroringType::Vertical);
    assert_eq!(rom.has_battery_backed_ram, false);
    assert_eq!(rom.has_trainer, false);
    assert_eq!(rom.mapper_number, 0x50);
    assert_eq!(rom.prg_rom.len(), 0x4000);
    assert_eq!(rom.prg_rom[0], 0);
    assert_eq!(rom.prg_rom[5], 5);
}

#[test]
fn test_parse_control_flags() {
    let image = build_image(1, 0b0000_0110, 0b0010_0000);
    let rom = NesRom::from_bytes(&image).unwrap();

    assert_eq!(rom.has_battery_backed_ram, true);
    assert_eq!(rom.has_trainer, true);
    assert_eq!(rom.mirroring_type, MirroringType::Horizontal);
    assert_eq!(rom.mapper_number, 0x20);
}

#[test]
fn test_parse_four_screen_override() {
    let image = build_image(1, 0b0000_1001, 0);
    let rom = NesRom::from_bytes(&image).unwrap();

    assert_eq!(rom.mirroring_type, MirroringType::Both);
}

#[test]
fn test_parse_bad_signature() {
    let mut image = build_image(1, 0, 0);
    image[0] = 0x4f;

    assert_eq!(NesRom::from_bytes(&image).err(), Some(Fault::MalformedCartridge));
}

#[test]
fn test_parse_bad_format_tag() {
    let mut image = build_image(1, 0, 0);
    image[3] = 0x1b;

    assert_eq!(NesRom::from_bytes(&image).err(), Some(Fault::MalformedCartridge));
}

#[test]
fn test_parse_truncated_header() {
    let image = vec![0x4e, 0x45, 0x53, 0x1a, 1];

    assert_eq!(NesRom::from_bytes(&image).err(), Some(Fault::MalformedCartridge));
}

#[test]
fn test_parse_truncated_program_data() {
    let mut image = build_image(1, 0, 0);
    image.truncate(16 + 0x4000 - 1);

    assert_eq!(NesRom::from_bytes(&image).err(), Some(Fault::MalformedCartridge));
}

#[test]
fn test_parse_zero_program_banks() {
    let image = build_image(0, 0, 0);

    assert_eq!(NesRom::from_bytes(&image).err(), Some(Fault::MalformedCartridge));
}

#[test]
fn test_parse_reserved_bytes_must_be_zero() {
    let mut image = build_image(1, 0, 0);
    image[12] = 1;

    assert_eq!(NesRom::from_bytes(&image).err(), Some(Fault::MalformedCartridge));
}

#[test]
fn test_get_mirroring_type() {
    assert_eq!(NesRom::get_mirroring_type(0b0000_0000), MirroringType::Horizontal);
    assert_eq!(NesRom::get_mirroring_type(0b0000_0001), MirroringType::Vertical);
    assert_eq!(NesRom::get_mirroring_type(0b0000_1000), MirroringType::Both);
    assert_eq!(NesRom::get_mirroring_type(0b0000_1001), MirroringType::Both);
}

#[test]
fn test_get_maper_number() {
    assert_eq!(NesRom::get_maper_number(0b1100_0000, 0b0101_0000), 0x5c);
}

#[test]
fn test_overlay_combines_nibbles() {
    assert_eq!(overlay(0xab, 0xcd), 0xac);
    assert_eq!(overlay(0x00, 0xf0), 0x0f);
    assert_eq!(overlay(0xf0, 0x00), 0xf0);
}

#[test]
fn test_mirroring_type_default_is_unknown() {
    assert_eq!(MirroringType::default(), MirroringType::Unknown);
}

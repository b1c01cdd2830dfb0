use nes_core::memory_map;
use nes_core::memory_map::crosses_page_boundary;
use nes_core::memory_map::MemoryMap;
use nes_core::memory_map::MemoryMapper;
use nes_core::memory_map::NROMMemoryMap;
use nes_core::ppu::MirroringType;
use nes_core::system::SystemConfiguration;

#[test]
fn memory_map_test_mirrored_region_one_writes() {
    let mut map = MemoryMap::default();

    map.write_to_mirrored_region_one(0x0000, 1);

    // test we wrote to the right places
    assert_eq!(&map.read(0x0000), &1);
    assert_eq!(&map.read(0x0800), &1);
    assert_eq!(&map.read(0x1000), &1);
    assert_eq!(&map.read(0x1800), &1);

    // test we stayed within our limits
    assert_eq!(&map.read(0x2000), &0);
}

#[test]
fn memory_map_test_mirrored_region_two_writes() {
    let mut map = MemoryMap::default();

    map.write_to_mirrored_region_two(0x2009, 1);

    // test we wrote to the right places
    assert_eq!(&map.read(0x2001), &1);
    assert_eq!(&map.read(0x2009), &1);
    assert_eq!(&map.read(0x3ff9), &1);

    // test we stayed within our limits
    assert_eq!(&map.read(0x4000), &0);
}

#[test]
fn nrom_test_mirrored_region_one_writes() {
    let mut map = NROMMemoryMap::default();

    map.write_to_mirrored_region_one(0x0000, 1);

    // test we wrote to the right places
    assert_eq!(&map.read(0x0000), &1);
    assert_eq!(&map.read(0x0800), &1);
    assert_eq!(&map.read(0x1000), &1);
    assert_eq!(&map.read(0x1800), &1);

    // test we stayed within our limits
    assert_eq!(&map.read(0x2000), &0);
}

#[test]
fn nrom_test_mirrored_region_two_writes() {
    let mut map = NROMMemoryMap::default();

    map.write_to_mirrored_region_two(0x2009, 1);

    // test we wrote to the right places
    assert_eq!(&map.read(0x2001), &1);
    assert_eq!(&map.read(0x2009), &1);
    assert_eq!(&map.read(0x3ff9), &1);

    // test we stayed within our limits
    assert_eq!(&map.read(0x4000), &0);
}

#[test]
fn test_test_mirrored_region_one_writes() {
    let mut map = MemoryMap::default();

    map.write_to_mirrored_region_one(0x0000, 1);

    // test we wrote to the right places
    assert_eq!(&map.read(0x0000), &1);
    assert_eq!(&map.read(0x0800), &1);
    assert_eq!(&map.read(0x1000), &1);
    assert_eq!(&map.read(0x1800), &1);

    // test we stayed within our limits
    assert_eq!(&map.read(0x2000), &0);
}

#[test]
fn test_test_mirrored_region_two_writes() {
    let mut map = MemoryMap::default();

    map.write_to_mirrored_region_two(0x2009, 1);

    // test we wrote to the right places
    assert_eq!(&map.read(0x2001), &1);
    assert_eq!(&map.read(0x2009), &1);
    assert_eq!(&map.read(0x3ff9), &1);

    // test we stayed within our limits
    assert_eq!(&map.read(0x4000), &0);
}

#[test]
fn test_plain_write_resolves_mirrors() {
    // an ordinary write through the bus resolves exactly like the
    // region-specific entry points
    let mut map = NROMMemoryMap::default();

    map.write(0x1800, 7);
    assert_eq!(map.read(0x0000), 7);

    map.write(0x3ff9, 9);
    assert_eq!(map.read(0x2001), 9);

    map.write(0x4000, 5);
    assert_eq!(map.read(0x4000), 5);
    assert_eq!(map.read(0x0000), 7);
}

#[test]
fn test_write_u16_little_endian() {
    let mut map = NROMMemoryMap::default();

    map.write_u16(0x0010, 0x1234);

    assert_eq!(map.read(0x0010), 0x34);
    assert_eq!(map.read(0x0011), 0x12);
    assert_eq!(map.read_u16(0x0010), 0x1234);
}

#[test]
fn test_crosses_page_boundary() {
    assert!(!crosses_page_boundary(0x80f0, 0x80ff));
    assert!(crosses_page_boundary(0x80f0, 0x8100));
    assert!(crosses_page_boundary(0x01ff, 0x0200));
    assert!(!crosses_page_boundary(0x0000, 0x00ff));
}

#[test]
fn test_resolve_mirrored_address() {
    assert_eq!(memory_map::resolve_mirrored_address(0x1801, 0x0000, 0x0800), 0x0001);
    assert_eq!(memory_map::resolve_mirrored_address(0x2009, 0x2000, 0x0008), 0x2001);
}

#[test]
fn test_configure_leaves_bus_unchanged() {
    let mut map = MemoryMap::default();
    map.write(0x0000, 3);

    map.configure(
        SystemConfiguration {
            num_prg_banks: 1,
            num_chr_banks: 2,
            num_ram_banks: 3,
            mirroring_type: MirroringType::Vertical,
        },
    );

    assert_eq!(map.read(0x0000), 3);
    assert_eq!(map.read(0x4000), 0);
}

#[test]
fn test_write_memory_overlays_bytes() {
    let mut memory = vec![0u8; 16];
    let buf = [1u8, 2, 3, 4];

    memory_map::write_memory(&mut memory, 4, 3, &buf);

    assert_eq!(memory[3], 0);
    assert_eq!(memory[4], 1);
    assert_eq!(memory[5], 2);
    assert_eq!(memory[6], 3);
    assert_eq!(memory[7], 0);
}

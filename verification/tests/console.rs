use nes_core::console::Nes;
use nes_core::fault::Fault;
use nes_core::memory_map::NROMMemoryMap;
use nes_core::rom::NesRom;

fn build_image(bank: &[u8]) -> Vec<u8> {
    assert_eq!(bank.len(), 0x4000);
    let mut image = vec![0x4e, 0x45, 0x53, 0x1a, 1, 0, 0, 0, 0, 0, 0, 0, 0, 0, 0, 0];
    image.extend_from_slice(bank);
    image
}

fn bank_with_program(program: &[u8], reset_vector: u16) -> Vec<u8> {
    let mut bank = vec![0u8; 0x4000];
    for (i, b) in program.iter().enumerate() {
        bank[i] = *b;
    }
    // the reset vector lives at 0xfffc, offset 0x3ffc within the upper
    // window
    bank[0x3ffc] = (reset_vector & 0xff) as u8;
    bank[0x3ffd] = (reset_vector >> 8) as u8;
    bank
}

#[test]
fn test_load_mirrors_single_bank_into_both_windows() {
    let bank = bank_with_program(&[0xea, 0x42, 0x77], 0x8000);
    let rom = NesRom::from_bytes(&build_image(&bank)).unwrap();

    let mut nes: Nes<NROMMemoryMap> = Nes::default();
    nes.load_rom(&rom).unwrap();

    assert_eq!(nes.cpu.read(0x8000), 0xea);
    assert_eq!(nes.cpu.read(0xc000), 0xea);
    assert_eq!(nes.cpu.read(0x8001), 0x42);
    assert_eq!(nes.cpu.read(0xc001), 0x42);
    assert_eq!(nes.cpu.read(0x8002), 0x77);
    assert_eq!(nes.cpu.read(0xc002), 0x77);
}

#[test]
fn test_load_positions_pc_at_reset_vector() {
    let bank = bank_with_program(&[0xea], 0x9234);
    let rom = NesRom::from_bytes(&build_image(&bank)).unwrap();

    let mut nes: Nes<NROMMemoryMap> = Nes::default();
    nes.load_rom(&rom).unwrap();

    assert_eq!(nes.cpu.reg_program_counter, 0x9234);
    assert_eq!(nes.cpu.reg_stack_pointer, 0xff);
}

#[test]
fn test_load_rejects_multi_bank_cartridge() {
    let mut image = vec![0x4e, 0x45, 0x53, 0x1a, 2, 0, 0, 0, 0, 0, 0, 0, 0, 0, 0, 0];
    image.extend_from_slice(&vec![0u8; 2 * 0x4000]);
    let rom = NesRom::from_bytes(&image).unwrap();

    let mut nes: Nes<NROMMemoryMap> = Nes::default();
    let result = nes.load_rom(&rom);

    assert_eq!(result, Err(Fault::MalformedCartridge));
    // nothing was installed
    assert_eq!(nes.cpu.read(0x8000), 0);
}

#[test]
fn test_run_for_executes_program_and_reports_fault() {
    // lda #$42, then an opcode the core does not implement
    let bank = bank_with_program(&[0xa9, 0x42, 0x02], 0x8000);
    let rom = NesRom::from_bytes(&build_image(&bank)).unwrap();

    let mut nes: Nes<NROMMemoryMap> = Nes::default();
    nes.load_rom(&rom).unwrap();

    let result = nes.cpu.run_for(10);

    assert_eq!(result, Err(Fault::UnimplementedOpcode(0x02, 0x8002)));
    assert_eq!(nes.cpu.reg_accumulator, 0x42);
    assert_eq!(nes.cpu.reg_program_counter, 0x8002);
}

#[test]
fn test_run_for_counts_cycles() {
    // nop costs 2 cycles; after three cycles the second nop is mid-flight
    let bank = bank_with_program(&[0xea, 0xea, 0xea], 0x8000);
    let rom = NesRom::from_bytes(&build_image(&bank)).unwrap();

    let mut nes: Nes<NROMMemoryMap> = Nes::default();
    nes.load_rom(&rom).unwrap();

    nes.cpu.run_for(3).unwrap();

    assert_eq!(nes.cpu.reg_program_counter, 0x8002);
    assert_eq!(nes.cpu.pending_cycles, 1);
}

#[test]
fn test_nes_run_stops_at_fault() {
    // run performs the reset, so execution starts at the vector target,
    // where the first opcode is unimplemented
    let mut bank = bank_with_program(&[0xea], 0x9000);
    bank[0x1000] = 0x02;
    let rom = NesRom::from_bytes(&build_image(&bank)).unwrap();

    let mut nes: Nes<NROMMemoryMap> = Nes::default();
    nes.load_rom(&rom).unwrap();
    nes.power_on();

    let result = nes.run();

    assert_eq!(result, Err(Fault::UnimplementedOpcode(0x02, 0x9000)));
}

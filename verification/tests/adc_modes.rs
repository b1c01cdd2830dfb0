use nes_core::cpu::instructions::adc;
use nes_core::cpu::Cpu;
use nes_core::memory_map::NROMMemoryMap;

fn fresh_cpu() -> Cpu<NROMMemoryMap> {
    let mut cpu: Cpu<NROMMemoryMap> = Cpu::default();
    cpu.init_registers();
    cpu.reg_program_counter = 0x8000;
    cpu
}

#[test]
fn test_adc_immediate_mode() {
    let mut cpu = fresh_cpu();
    cpu.reg_accumulator = 0x20;
    cpu.write(0x8000, 0x13);

    adc::immediate(&mut cpu);

    assert_eq!(cpu.reg_accumulator, 0x33);
    assert_eq!(cpu.pending_cycles, 2);
    assert_eq!(cpu.reg_program_counter, 0x8001);
}

#[test]
fn test_adc_zero_page_mode() {
    let mut cpu = fresh_cpu();
    cpu.reg_accumulator = 0x01;
    cpu.write(0x8000, 0x42);
    cpu.write(0x0042, 0x05);

    adc::zero_page(&mut cpu);

    assert_eq!(cpu.reg_accumulator, 0x06);
    assert_eq!(cpu.pending_cycles, 3);
}

#[test]
fn test_adc_zero_page_x_mode() {
    let mut cpu = fresh_cpu();
    cpu.reg_accumulator = 0x01;
    cpu.reg_index_x = 0x04;
    cpu.write(0x8000, 0x40);
    cpu.write(0x0044, 0x07);

    adc::zero_page_x(&mut cpu);

    assert_eq!(cpu.reg_accumulator, 0x08);
    assert_eq!(cpu.pending_cycles, 4);
}

#[test]
fn test_adc_abs_mode() {
    let mut cpu = fresh_cpu();
    cpu.reg_accumulator = 0x01;
    cpu.write(0x8000, 0x00);
    cpu.write(0x8001, 0x45);
    cpu.write(0x4500, 0x09);

    adc::abs(&mut cpu);

    assert_eq!(cpu.reg_accumulator, 0x0a);
    assert_eq!(cpu.pending_cycles, 4);
    assert_eq!(cpu.reg_program_counter, 0x8002);
}

#[test]
fn test_adc_abs_x_same_page_costs_four_cycles() {
    let mut cpu = fresh_cpu();
    cpu.reg_accumulator = 0x01;
    cpu.reg_index_x = 0x20;
    cpu.write(0x8000, 0x00);
    cpu.write(0x8001, 0x45);
    cpu.write(0x4520, 0x02);

    adc::abs_x(&mut cpu);

    assert_eq!(cpu.reg_accumulator, 0x03);
    assert_eq!(cpu.pending_cycles, 4);
}

#[test]
fn test_adc_abs_x_page_cross_costs_five_cycles() {
    let mut cpu = fresh_cpu();
    cpu.reg_accumulator = 0x01;
    cpu.reg_index_x = 0x20;
    cpu.write(0x8000, 0xf0);
    cpu.write(0x8001, 0x45);
    cpu.write(0x4610, 0x02);

    adc::abs_x(&mut cpu);

    assert_eq!(cpu.reg_accumulator, 0x03);
    assert_eq!(cpu.pending_cycles, 5);
}

#[test]
fn test_adc_abs_y_page_cross_costs_five_cycles() {
    let mut cpu = fresh_cpu();
    cpu.reg_accumulator = 0x01;
    cpu.reg_index_y = 0x11;
    cpu.write(0x8000, 0xf0);
    cpu.write(0x8001, 0x45);
    cpu.write(0x4601, 0x04);

    adc::abs_y(&mut cpu);

    assert_eq!(cpu.reg_accumulator, 0x05);
    assert_eq!(cpu.pending_cycles, 5);
}

#[test]
fn test_adc_indirect_x_mode() {
    let mut cpu = fresh_cpu();
    cpu.reg_accumulator = 0x01;
    cpu.reg_index_x = 0x04;
    cpu.write(0x8000, 0x20);
    cpu.write(0x0024, 0x74);
    cpu.write(0x0074, 0x0b);

    adc::indirect_x(&mut cpu);

    assert_eq!(cpu.reg_accumulator, 0x0c);
    assert_eq!(cpu.pending_cycles, 6);
}

#[test]
fn test_adc_indirect_y_same_page_costs_five_cycles() {
    let mut cpu = fresh_cpu();
    cpu.reg_accumulator = 0x01;
    cpu.reg_index_y = 0x05;
    cpu.write(0x8000, 0x20);
    cpu.write(0x0020, 0x10);
    cpu.write(0x0015, 0x0d);

    adc::indirect_y(&mut cpu);

    assert_eq!(cpu.reg_accumulator, 0x0e);
    assert_eq!(cpu.pending_cycles, 5);
}

#[test]
fn test_adc_indirect_y_page_cross_costs_six_cycles() {
    let mut cpu = fresh_cpu();
    cpu.reg_accumulator = 0x01;
    cpu.reg_index_y = 0x20;
    cpu.write(0x8000, 0x20);
    cpu.write(0x0020, 0xf0);
    cpu.write(0x0110, 0x0d);

    adc::indirect_y(&mut cpu);

    assert_eq!(cpu.reg_accumulator, 0x0e);
    assert_eq!(cpu.pending_cycles, 6);
}

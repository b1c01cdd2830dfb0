use nes_core::cpu::Cpu;
use nes_core::memory_map;
use nes_core::memory_map::NROMMemoryMap;

fn drain(cpu: &mut Cpu<NROMMemoryMap>) {
    while cpu.pending_cycles > 0 {
        cpu.step_instruction().unwrap();
    }
}

#[test]
fn test_push_pop() {
    let mut cpu: Cpu<NROMMemoryMap> = Cpu::default();
    cpu.init_registers();

    assert_eq!(&cpu.resolve_stack_pointer(), &memory_map::STACK_END);

    cpu.push(42);
    assert_eq!(&cpu.resolve_stack_pointer(), &(memory_map::STACK_END - 1));

    assert_eq!(&cpu.pop(), &42);
    assert_eq!(&cpu.resolve_stack_pointer(), &memory_map::STACK_END);
}

#[test]
fn test_push_pop_u16() {
    let mut cpu: Cpu<NROMMemoryMap> = Cpu::default();
    cpu.init_registers();

    assert_eq!(&cpu.resolve_stack_pointer(), &memory_map::STACK_END);

    cpu.push_u16(42);
    assert_eq!(&cpu.resolve_stack_pointer(), &(memory_map::STACK_END - 2));

    assert_eq!(&cpu.pop_u16(), &42);
    assert_eq!(&cpu.resolve_stack_pointer(), &memory_map::STACK_END);
}

#[test]
fn test_push_pop_mixed() {
    let mut cpu: Cpu<NROMMemoryMap> = Cpu::default();
    cpu.init_registers();

    assert_eq!(&cpu.resolve_stack_pointer(), &memory_map::STACK_END);

    cpu.push_u16(42);
    assert_eq!(&cpu.resolve_stack_pointer(), &(memory_map::STACK_END - 2));

    cpu.push(23);
    assert_eq!(&cpu.resolve_stack_pointer(), &(memory_map::STACK_END - 3));

    cpu.push_u16(1991);
    assert_eq!(&cpu.resolve_stack_pointer(), &(memory_map::STACK_END - 5));

    assert_eq!(&cpu.pop_u16(), &1991);
    assert_eq!(&cpu.resolve_stack_pointer(), &(memory_map::STACK_END - 3));

    assert_eq!(&cpu.pop(), &23);
    assert_eq!(&cpu.resolve_stack_pointer(), &(memory_map::STACK_END - 2));

    assert_eq!(&cpu.pop_u16(), &42);
    assert_eq!(&cpu.resolve_stack_pointer(), &memory_map::STACK_END);
}

#[test]
fn test_exec_instr() {
    let mut cpu: Cpu<NROMMemoryMap> = Cpu::default();
    cpu.init_registers();

    // lda #$fe
    cpu.exec_instr(&vec![0xa9, 0xfe]).unwrap();
    assert_eq!(cpu.reg_accumulator, 0xfe);

    // wait for cpu to finish executing
    cpu.step_instruction().unwrap();

    // sta $05
    cpu.exec_instr(&vec![0x85, 0x05]).unwrap();
    assert_eq!(cpu.read(0x05), 0xfe);
}

#[test]
fn test_ldx_immediate_sets_x_and_costs_two_cycles() {
    let mut cpu: Cpu<NROMMemoryMap> = Cpu::default();
    cpu.init_registers();

    cpu.exec_instr(&[0xa2, 0x05]).unwrap();

    assert_eq!(cpu.reg_index_x, 0x05);
    // a 2-cycle instruction leaves one pending cycle after the fetch step
    assert_eq!(cpu.pending_cycles, 1);
}

#[test]
fn test_stx_zero_page_writes_x_and_costs_three_cycles() {
    let mut cpu: Cpu<NROMMemoryMap> = Cpu::default();
    cpu.init_registers();

    cpu.exec_instr(&[0xa2, 0x05]).unwrap();
    drain(&mut cpu);

    cpu.exec_instr(&[0x86, 0x10]).unwrap();

    assert_eq!(cpu.read(0x0010), 0x05);
    assert_eq!(cpu.pending_cycles, 2);
}

#[test]
fn test_adc_no_carry_no_overflow() {
    let mut cpu: Cpu<NROMMemoryMap> = Cpu::default();
    cpu.init_registers();

    cpu.exec_instr(&[0xa9, 0x50]).unwrap();
    drain(&mut cpu);

    cpu.exec_instr(&[0x69, 0x10]).unwrap();

    assert_eq!(cpu.reg_accumulator, 0x60);
    assert_eq!(cpu.processor_status.carry_flag, false);
    assert_eq!(cpu.processor_status.overflow_flag, false);
    assert_eq!(cpu.processor_status.zero, false);
    assert_eq!(cpu.processor_status.negative, false);
}

#[test]
fn test_adc_signed_overflow() {
    let mut cpu: Cpu<NROMMemoryMap> = Cpu::default();
    cpu.init_registers();

    cpu.exec_instr(&[0xa9, 0x50]).unwrap();
    drain(&mut cpu);

    cpu.exec_instr(&[0x69, 0x50]).unwrap();

    assert_eq!(cpu.reg_accumulator, 0xa0);
    assert_eq!(cpu.processor_status.overflow_flag, true);
    assert_eq!(cpu.processor_status.carry_flag, false);
    assert_eq!(cpu.processor_status.negative, true);
}

#[test]
fn test_adc_unsigned_carry_and_zero() {
    let mut cpu: Cpu<NROMMemoryMap> = Cpu::default();
    cpu.init_registers();

    cpu.exec_instr(&[0xa9, 0xff]).unwrap();
    drain(&mut cpu);

    cpu.exec_instr(&[0x69, 0x01]).unwrap();

    assert_eq!(cpu.reg_accumulator, 0x00);
    assert_eq!(cpu.processor_status.carry_flag, true);
    assert_eq!(cpu.processor_status.zero, true);
    assert_eq!(cpu.processor_status.overflow_flag, false);
}

#[test]
fn test_adc_uses_carry_in() {
    let mut cpu: Cpu<NROMMemoryMap> = Cpu::default();
    cpu.init_registers();

    // sec, then 0x10 + 0x10 + carry
    cpu.exec_instr(&[0x38]).unwrap();
    drain(&mut cpu);
    cpu.exec_instr(&[0xa9, 0x10]).unwrap();
    drain(&mut cpu);
    // lda leaves the carry untouched, but set it again to be explicit
    cpu.processor_status.carry_flag = true;

    cpu.exec_instr(&[0x69, 0x10]).unwrap();

    assert_eq!(cpu.reg_accumulator, 0x21);
}

#[test]
fn test_branch_not_taken_costs_two_cycles() {
    let mut cpu: Cpu<NROMMemoryMap> = Cpu::default();
    cpu.init_registers();
    cpu.reg_program_counter = 0x8000;
    cpu.processor_status.carry_flag = false;

    // bcs with carry clear: fall through
    cpu.exec_instr(&[0xb0, 0x05]).unwrap();

    assert_eq!(cpu.reg_program_counter, 0x8002);
    assert_eq!(cpu.pending_cycles, 1);
}

#[test]
fn test_branch_taken_same_page_costs_three_cycles() {
    let mut cpu: Cpu<NROMMemoryMap> = Cpu::default();
    cpu.init_registers();
    cpu.reg_program_counter = 0x8000;
    cpu.processor_status.carry_flag = true;

    cpu.exec_instr(&[0xb0, 0x05]).unwrap();

    assert_eq!(cpu.reg_program_counter, 0x8007);
    assert_eq!(cpu.pending_cycles, 2);
}

#[test]
fn test_branch_taken_page_cross_costs_four_cycles() {
    let mut cpu: Cpu<NROMMemoryMap> = Cpu::default();
    cpu.init_registers();
    cpu.reg_program_counter = 0x80f0;
    cpu.processor_status.carry_flag = true;

    cpu.exec_instr(&[0xb0, 0x20]).unwrap();

    assert_eq!(cpu.reg_program_counter, 0x8112);
    assert_eq!(cpu.pending_cycles, 3);
}

#[test]
fn test_branch_backward_displacement() {
    let mut cpu: Cpu<NROMMemoryMap> = Cpu::default();
    cpu.init_registers();
    cpu.reg_program_counter = 0x8010;
    cpu.processor_status.zero = true;

    // beq with displacement -4 from the byte after the operand
    cpu.exec_instr(&[0xf0, 0xfc]).unwrap();

    assert_eq!(cpu.reg_program_counter, 0x800e);
}

#[test]
fn test_jsr_and_rts_round_trip() {
    let mut cpu: Cpu<NROMMemoryMap> = Cpu::default();
    cpu.init_registers();
    cpu.reg_program_counter = 0x8000;

    // jsr $9000 pushes the address of its own last byte, 0x8002
    cpu.exec_instr(&[0x20, 0x00, 0x90]).unwrap();
    assert_eq!(cpu.reg_program_counter, 0x9000);
    assert_eq!(cpu.pending_cycles, 5);
    drain(&mut cpu);

    // rts pops it and resumes one byte later
    cpu.exec_instr(&[0x60]).unwrap();
    assert_eq!(cpu.reg_program_counter, 0x8003);
    assert_eq!(cpu.resolve_stack_pointer(), memory_map::STACK_END);
}

#[test]
fn test_php_plp_round_trip() {
    let mut cpu: Cpu<NROMMemoryMap> = Cpu::default();
    cpu.init_registers();
    cpu.processor_status.carry_flag = true;
    cpu.processor_status.negative = true;

    cpu.exec_instr(&[0x08]).unwrap();
    drain(&mut cpu);

    cpu.processor_status.carry_flag = false;
    cpu.processor_status.negative = false;
    cpu.processor_status.zero = true;

    cpu.exec_instr(&[0x28]).unwrap();

    assert_eq!(cpu.processor_status.carry_flag, true);
    assert_eq!(cpu.processor_status.negative, true);
    assert_eq!(cpu.processor_status.zero, false);
    // a software push forces the packed byte's bit four high
    assert_eq!(cpu.processor_status.bit_four, true);
}

#[test]
fn test_bit_zero_page_flags_follow_memory_operand() {
    let mut cpu: Cpu<NROMMemoryMap> = Cpu::default();
    cpu.init_registers();

    // operand 0xc0: bits 7 and 6 set, but the AND with A == 0x01 is zero
    cpu.write(0x0020, 0xc0);
    cpu.exec_instr(&[0xa9, 0x01]).unwrap();
    drain(&mut cpu);

    cpu.exec_instr(&[0x24, 0x20]).unwrap();

    assert_eq!(cpu.processor_status.zero, true);
    assert_eq!(cpu.processor_status.negative, true);
    assert_eq!(cpu.processor_status.overflow_flag, true);
}

#[test]
fn test_cmp_immediate_flags() {
    let mut cpu: Cpu<NROMMemoryMap> = Cpu::default();
    cpu.init_registers();

    cpu.exec_instr(&[0xa9, 0x50]).unwrap();
    drain(&mut cpu);

    cpu.exec_instr(&[0xc9, 0x50]).unwrap();
    assert_eq!(cpu.processor_status.zero, true);
    assert_eq!(cpu.processor_status.carry_flag, true);
    assert_eq!(cpu.processor_status.negative, false);
    drain(&mut cpu);

    cpu.exec_instr(&[0xc9, 0x60]).unwrap();
    assert_eq!(cpu.processor_status.zero, false);
    assert_eq!(cpu.processor_status.carry_flag, false);
    assert_eq!(cpu.processor_status.negative, true);
}

#[test]
fn test_unknown_opcode_faults_with_context() {
    let mut cpu: Cpu<NROMMemoryMap> = Cpu::default();
    cpu.init_registers();
    cpu.reg_program_counter = 0x8000;

    let result = cpu.exec_instr(&[0x02]);

    assert_eq!(result, Err(nes_core::fault::Fault::UnimplementedOpcode(0x02, 0x8000)));
    // the fault leaves the machine where it was
    assert_eq!(cpu.reg_program_counter, 0x8000);
    assert_eq!(cpu.pending_cycles, 0);
}

#[test]
fn test_lsr_absolute_halves_memory() {
    let mut cpu: Cpu<NROMMemoryMap> = Cpu::default();
    cpu.init_registers();

    cpu.write(0x0040, 0x22);
    cpu.exec_instr(&[0x4e, 0x40, 0x00]).unwrap();

    assert_eq!(cpu.read(0x0040), 0x11);
    assert_eq!(cpu.pending_cycles, 2);
    assert_eq!(cpu.processor_status.carry_flag, false);
    assert_eq!(cpu.processor_status.zero, false);
    assert_eq!(cpu.processor_status.negative, false);
}

#[test]
fn test_lsr_shifts_bit_zero_into_carry() {
    let mut cpu: Cpu<NROMMemoryMap> = Cpu::default();
    cpu.init_registers();

    cpu.write(0x0040, 0x01);
    cpu.exec_instr(&[0x4e, 0x40, 0x00]).unwrap();

    assert_eq!(cpu.read(0x0040), 0x00);
    assert_eq!(cpu.processor_status.carry_flag, true);
    assert_eq!(cpu.processor_status.zero, true);
    assert_eq!(cpu.processor_status.negative, false);
}

#[test]
fn test_push_pop_u16_wraps_within_stack_page() {
    let mut cpu: Cpu<NROMMemoryMap> = Cpu::default();
    cpu.init_registers();
    cpu.reg_stack_pointer = 1;

    cpu.push_u16(0xabcd);
    assert_eq!(cpu.reg_stack_pointer, 0xff);
    // both bytes stay inside the fixed stack page
    assert_eq!(cpu.read(0x0100), 0xcd);
    assert_eq!(cpu.read(0x0101), 0xab);

    assert_eq!(cpu.pop_u16(), 0xabcd);
    assert_eq!(cpu.reg_stack_pointer, 1);
}

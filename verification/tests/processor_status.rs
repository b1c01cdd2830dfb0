use nes_core::cpu::ProcessorStatus;

#[test]
pub fn test_from_u8() {
    let result: ProcessorStatus = ProcessorStatus::from_u8(0b1010_1111);

    assert_eq!(result.negative, true);
    assert_eq!(result.overflow_flag, false);
    assert_eq!(result.bit_four, false);
    assert_eq!(result.decimal_mode, true);
    assert_eq!(result.interrupts_disabled, true);
    assert_eq!(result.zero, true);
    assert_eq!(result.carry_flag, true);
}

#[test]
pub fn test_symmetry() {
    let status = 0b1010_1111;
    assert_eq!(ProcessorStatus::to_u8(&ProcessorStatus::from_u8(status)), status);
}

#[test]
fn test_round_trip_every_byte() {
    // Packing after unpacking reproduces every byte on the seven defined
    // flag positions; the forced bit (bit 5) always reads back high.
    for b in 0..=255u8 {
        let packed = ProcessorStatus::to_u8(&ProcessorStatus::from_u8(b));
        assert_eq!(packed & 0xdf, b & 0xdf);
        assert_eq!(packed & 0x20, 0x20);
    }
}

#[test]
fn test_to_u8_forces_bit_five() {
    let status = ProcessorStatus::default();
    assert_eq!(ProcessorStatus::to_u8(&status), 0b0010_0000);
}

#[test]
fn test_unpack_pack_preserves_flags() {
    let mut status = ProcessorStatus::default();
    status.carry_flag = true;
    status.negative = true;
    status.bit_four = true;

    let back = ProcessorStatus::from_u8(ProcessorStatus::to_u8(&status));
    assert_eq!(back.carry_flag, true);
    assert_eq!(back.negative, true);
    assert_eq!(back.bit_four, true);
    assert_eq!(back.zero, false);
    assert_eq!(back.overflow_flag, false);
    assert_eq!(back.decimal_mode, false);
    assert_eq!(back.interrupts_disabled, false);
}

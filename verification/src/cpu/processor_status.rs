//! The processor status register: seven independent condition flags plus one
//! normally-unused bit, packed to and from an 8-bit value with
//! hardware-accurate bit positions.
//!
//! Bit layout, bit 7 down to bit 0: Negative, Overflow, forced bit, bit four
//! (the position a software push forces high on the real part), Decimal,
//! Interrupt-Disable, Zero, Carry. The forced bit (bit 5) always reads as
//! one out of `to_u8`.

use vstd::prelude::*;

verus! {

/// The packed set of condition flags controlling and reflecting
/// arithmetic/logic outcomes.
#[derive(Debug, Clone, Copy, PartialEq, Eq, Structural)]
pub struct ProcessorStatus {
    /// Carry Flag (C)
    pub carry_flag: bool,

    /// Zero Flag (Z)
    pub zero: bool,

    /// Interrupt Disable (I)
    pub interrupts_disabled: bool,

    /// Decimal Mode (D)
    pub decimal_mode: bool,

    /// Bit 4 of the packed byte; a software status push forces it high.
    pub bit_four: bool,

    /// Break Command (B); not part of the packed byte.
    pub break_instruction_executed: bool,

    /// Overflow Flag (V)
    pub overflow_flag: bool,

    /// Negative Flag (N)
    pub negative: bool,
}

/// Whether bit `i` of `v` is set.
pub open spec fn bit_set(v: u8, i: u8) -> bool
    recommends
        i < 8,
{
    v & (1u8 << i) != 0
}

/// The packed byte for a flag set: each flag at its hardware position, with
/// the forced bit (bit 5) always high.
pub open spec fn spec_to_u8(s: ProcessorStatus) -> u8 {
    0x20u8
        | (if s.negative { 0x80u8 } else { 0u8 })
        | (if s.overflow_flag { 0x40u8 } else { 0u8 })
        | (if s.bit_four { 0x10u8 } else { 0u8 })
        | (if s.decimal_mode { 0x08u8 } else { 0u8 })
        | (if s.interrupts_disabled { 0x04u8 } else { 0u8 })
        | (if s.zero { 0x02u8 } else { 0u8 })
        | (if s.carry_flag { 0x01u8 } else { 0u8 })
}

/// The flag set read back from a packed byte: each defined position becomes
/// its flag; the Break command flag is not represented in the byte and
/// comes back cleared.
pub open spec fn spec_from_u8(b: u8) -> ProcessorStatus {
    ProcessorStatus {
        carry_flag: bit_set(b, 0),
        zero: bit_set(b, 1),
        interrupts_disabled: bit_set(b, 2),
        decimal_mode: bit_set(b, 3),
        bit_four: bit_set(b, 4),
        break_instruction_executed: false,
        overflow_flag: bit_set(b, 6),
        negative: bit_set(b, 7),
    }
}

impl Default for ProcessorStatus {
    /// All flags start cleared at power-on.
    fn default() -> (r: ProcessorStatus)
        ensures
            r == (ProcessorStatus {
                carry_flag: false,
                zero: false,
                interrupts_disabled: false,
                decimal_mode: false,
                bit_four: false,
                break_instruction_executed: false,
                overflow_flag: false,
                negative: false,
            }),
    {
        ProcessorStatus {
            carry_flag: false,
            zero: false,
            interrupts_disabled: false,
            decimal_mode: false,
            bit_four: false,
            break_instruction_executed: false,
            overflow_flag: false,
            negative: false,
        }
    }
}

impl ProcessorStatus {
    /// Packs the flags into one byte, the forced bit high.
    pub fn to_u8(status: &ProcessorStatus) -> (r: u8)
        ensures
            r == spec_to_u8(*status),
    {
        let b7: u8 = if status.negative { 0x80 } else { 0 };
        let b6: u8 = if status.overflow_flag { 0x40 } else { 0 };
        let b4: u8 = if status.bit_four { 0x10 } else { 0 };
        let b3: u8 = if status.decimal_mode { 0x08 } else { 0 };
        let b2: u8 = if status.interrupts_disabled { 0x04 } else { 0 };
        let b1: u8 = if status.zero { 0x02 } else { 0 };
        let b0: u8 = if status.carry_flag { 0x01 } else { 0 };

        0x20 | b7 | b6 | b4 | b3 | b2 | b1 | b0
    }

    /// Whether bit `test` of `val` is set.
    pub fn test_bit(val: u8, test: u8) -> (r: bool)
        requires
            test < 8,
        ensures
            r == bit_set(val, test),
    {
        val & (1 << test) > 0
    }

    /// Unpacks a byte into a flag set, every defined position verbatim.
    pub fn from_u8(status: u8) -> (r: Self)
        ensures
            r == spec_from_u8(status),
    {
        let mut result = ProcessorStatus::default();

        result.negative = ProcessorStatus::test_bit(status, 7);
        result.overflow_flag = ProcessorStatus::test_bit(status, 6);
        result.bit_four = ProcessorStatus::test_bit(status, 4);
        result.decimal_mode = ProcessorStatus::test_bit(status, 3);
        result.interrupts_disabled = ProcessorStatus::test_bit(status, 2);
        result.zero = ProcessorStatus::test_bit(status, 1);
        result.carry_flag = ProcessorStatus::test_bit(status, 0);

        result
    }
}

/// Packing a flag set and unpacking the byte again reproduces every flag
/// except the Break command flag, which the byte does not carry and which
/// comes back cleared.
pub proof fn lemma_status_unpack_pack(s: ProcessorStatus)
    ensures
        spec_from_u8(spec_to_u8(s)) == (ProcessorStatus { break_instruction_executed: false, ..s }),
{
    let n: u8 = if s.negative { 0x80u8 } else { 0u8 };
    let v: u8 = if s.overflow_flag { 0x40u8 } else { 0u8 };
    let f4: u8 = if s.bit_four { 0x10u8 } else { 0u8 };
    let d: u8 = if s.decimal_mode { 0x08u8 } else { 0u8 };
    let i: u8 = if s.interrupts_disabled { 0x04u8 } else { 0u8 };
    let z: u8 = if s.zero { 0x02u8 } else { 0u8 };
    let c: u8 = if s.carry_flag { 0x01u8 } else { 0u8 };
    let b = 0x20u8 | n | v | f4 | d | i | z | c;
    assert((b & (1u8 << 7) != 0 <==> n == 0x80) && (b & (1u8 << 6) != 0 <==> v == 0x40) && (b & (
    1u8 << 4) != 0 <==> f4 == 0x10) && (b & (1u8 << 3) != 0 <==> d == 0x08) && (b & (1u8 << 2) != 0
        <==> i == 0x04) && (b & (1u8 << 1) != 0 <==> z == 0x02) && (b & (1u8 << 0) != 0 <==> c
        == 0x01)) by (bit_vector)
        requires
            b == 0x20u8 | n | v | f4 | d | i | z | c,
            n == 0x80 || n == 0,
            v == 0x40 || v == 0,
            f4 == 0x10 || f4 == 0,
            d == 0x08 || d == 0,
            i == 0x04 || i == 0,
            z == 0x02 || z == 0,
            c == 0x01 || c == 0,
    ;
    assert(spec_to_u8(s) == b);
}

/// Unpacking a byte and packing the flags again reproduces the byte on the
/// seven defined flag positions (mask `0xdf`); only the forced bit (bit 5)
/// may differ, and it always comes back high.
pub proof fn lemma_status_pack_unpack(b: u8)
    ensures
        spec_to_u8(spec_from_u8(b)) & 0xdf == b & 0xdf,
        bit_set(spec_to_u8(spec_from_u8(b)), 5),
{
    let n: u8 = if bit_set(b, 7) { 0x80u8 } else { 0u8 };
    let v: u8 = if bit_set(b, 6) { 0x40u8 } else { 0u8 };
    let f4: u8 = if bit_set(b, 4) { 0x10u8 } else { 0u8 };
    let d: u8 = if bit_set(b, 3) { 0x08u8 } else { 0u8 };
    let i: u8 = if bit_set(b, 2) { 0x04u8 } else { 0u8 };
    let z: u8 = if bit_set(b, 1) { 0x02u8 } else { 0u8 };
    let c: u8 = if bit_set(b, 0) { 0x01u8 } else { 0u8 };
    assert((0x20u8 | n | v | f4 | d | i | z | c) & 0xdf == b & 0xdf && (0x20u8 | n | v | f4 | d | i
        | z | c) & (1u8 << 5) != 0) by (bit_vector)
        requires
            n == (if b & (1u8 << 7) != 0 { 0x80u8 } else { 0u8 }),
            v == (if b & (1u8 << 6) != 0 { 0x40u8 } else { 0u8 }),
            f4 == (if b & (1u8 << 4) != 0 { 0x10u8 } else { 0u8 }),
            d == (if b & (1u8 << 3) != 0 { 0x08u8 } else { 0u8 }),
            i == (if b & (1u8 << 2) != 0 { 0x04u8 } else { 0u8 }),
            z == (if b & (1u8 << 1) != 0 { 0x02u8 } else { 0u8 }),
            c == (if b & (1u8 << 0) != 0 { 0x01u8 } else { 0u8 }),
    ;
    assert(spec_to_u8(spec_from_u8(b)) == (0x20u8 | n | v | f4 | d | i | z | c));
}

} // verus!

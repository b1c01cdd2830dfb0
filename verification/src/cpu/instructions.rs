//! One routine per (opcode, addressing-mode) pair. Each routine fetches its
//! own operand bytes (advancing the program counter), computes its semantic
//! effect, updates the flag register, and reports its cycle cost, including
//! conditional page-cross penalties.

pub mod adc;
pub mod bit;
pub mod branch;

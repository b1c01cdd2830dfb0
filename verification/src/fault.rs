//! The fault taxonomy of the core.
//!
//! Every failure surfaces to the immediate caller as a typed value: no
//! silent recovery, no unchecked abort. Correctness of the interpreter is
//! defined by exact reproduction, so unexpected states are reported,
//! never patched over.

use vstd::prelude::*;

verus! {

/// A fault raised by the core.
#[derive(Debug, Clone, Copy, PartialEq, Eq, Structural)]
pub enum Fault {
    /// The cartridge image is unusable: bad signature, truncated header or
    /// data, or a bank count the bus cannot place. Detected before any
    /// instruction executes; loading is all-or-nothing.
    MalformedCartridge,
    /// The fetched opcode has no implementation. Carries the opcode byte and
    /// the address it was fetched from, so a host can log context and halt
    /// cleanly. Fatal to the run loop, but a recoverable, typed condition.
    UnimplementedOpcode(u8, u16),
}

} // verus!

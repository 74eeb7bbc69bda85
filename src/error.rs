//! Failures reported at the core's boundary.
use vstd::prelude::*;

verus! {

/// Why a fetch, decode or execute step did not complete.
#[derive(Clone, Copy, Debug, PartialEq, Eq, Structural)]
pub enum RiscvCpuError {
    /// The program counter leaves fewer than four bytes of memory to read.
    FetchError,
    /// The word is not a 32-bit-format instruction, or encodes an opcode /
    /// function combination that this core does not implement.
    DecodeError,
    /// A fault while executing a decoded instruction; no implemented
    /// instruction raises one.
    ExecuteError,
}

} // verus!

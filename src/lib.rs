//! Execution core of an RV64I instruction-level simulator: bitfield and
//! sign-extension primitives, instruction decoding, and a single hart's
//! architectural state with its fetch / execute step.
pub mod bits;
pub mod cpu;
pub mod decode;
pub mod error;

pub use bits::{extract_field, signext12to64, signext20to64, signext_nto64};
pub use cpu::RiscvCpu;
pub use decode::{decode, is_valid_32bit, Instruction};
pub use error::RiscvCpuError;

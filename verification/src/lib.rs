//! A direct-to-machine-code emitter for a small subset of the x86-64
//! instruction set.
//!
//! The crate builds a flat byte buffer of executable instructions without
//! going through an assembly-text stage: a caller constructs registers and
//! operands (`operand`), appends instructions one call at a time through an
//! [`assembler::Assembler`], and finally retrieves the finished instruction
//! stream. The exact bytes every call appends are stated by the spec
//! functions in `encoding`.

pub mod assembler;
pub mod encoding;
pub mod operand;

//! The register and operand model: the sixteen general-purpose 64-bit
//! registers with their hardware identifiers, and the tagged description of
//! what an instruction may operate on.

use vstd::prelude::*;

verus! {

/// Numeric identifier of a general-purpose register, matching the 4-bit
/// hardware encoding (0 for the accumulator up to 15).
pub type RegisterId = u8;

/// The sixteen general-purpose 64-bit registers.
#[derive(Clone, Copy, PartialEq, Eq, Structural, Debug)]
pub enum Registers {
    Rax,
    Rcx,
    Rdx,
    Rbx,
    Rsp,
    Rbp,
    Rsi,
    Rdi,
    R8,
    R9,
    R10,
    R11,
    R12,
    R13,
    R14,
    R15,
}

impl Registers {
    /// The hardware identifier of this register.
    pub open spec fn id_spec(self) -> RegisterId {
        match self {
            Registers::Rax => 0,
            Registers::Rcx => 1,
            Registers::Rdx => 2,
            Registers::Rbx => 3,
            Registers::Rsp => 4,
            Registers::Rbp => 5,
            Registers::Rsi => 6,
            Registers::Rdi => 7,
            Registers::R8 => 8,
            Registers::R9 => 9,
            Registers::R10 => 10,
            Registers::R11 => 11,
            Registers::R12 => 12,
            Registers::R13 => 13,
            Registers::R14 => 14,
            Registers::R15 => 15,
        }
    }

    /// Converts this register into its hardware identifier.
    pub fn id(self) -> (r: RegisterId)
        ensures
            r == self.id_spec(),
    {
        match self {
            Registers::Rax => 0,
            Registers::Rcx => 1,
            Registers::Rdx => 2,
            Registers::Rbx => 3,
            Registers::Rsp => 4,
            Registers::Rbp => 5,
            Registers::Rsi => 6,
            Registers::Rdi => 7,
            Registers::R8 => 8,
            Registers::R9 => 9,
            Registers::R10 => 10,
            Registers::R11 => 11,
            Registers::R12 => 12,
            Registers::R13 => 13,
            Registers::R14 => 14,
            Registers::R15 => 15,
        }
    }
}

/// What an instruction reads from or writes to: a register, a memory
/// location `[base + offset]`, or an immediate of a fixed width. The width
/// of an immediate is part of the tag, never inferred, so a caller picks the
/// constructor matching the instruction form it intends to use.
#[derive(Clone, Copy, PartialEq, Eq, Structural, Debug)]
pub enum Operand {
    /// A register operand.
    Register(RegisterId),
    /// A memory operand at `[base + offset]`; the offset is always encoded
    /// as a 4-byte displacement.
    MemoryAndOffset(RegisterId, u32),
    /// A 64-bit immediate operand.
    Imm64(u64),
    /// A 32-bit immediate operand.
    Imm32(u32),
    /// An 8-bit immediate operand.
    Imm8(u8),
}

impl Operand {
    /// Creates a register operand from a named register.
    pub fn register(reg: Registers) -> (r: Operand)
        ensures
            r == Operand::Register(reg.id_spec()),
    {
        Operand::Register(reg.id())
    }

    /// Creates a memory operand at `[reg + offset]`.
    pub fn memory_and_offset(reg: Registers, offset: u32) -> (r: Operand)
        ensures
            r == Operand::MemoryAndOffset(reg.id_spec(), offset),
    {
        Operand::MemoryAndOffset(reg.id(), offset)
    }

    /// Creates a 64-bit immediate operand.
    pub fn imm64(imm64: u64) -> (r: Operand)
        ensures
            r == Operand::Imm64(imm64),
    {
        Operand::Imm64(imm64)
    }

    /// Creates a 32-bit immediate operand.
    pub fn imm32(imm32: u32) -> (r: Operand)
        ensures
            r == Operand::Imm32(imm32),
    {
        Operand::Imm32(imm32)
    }
}

} // verus!

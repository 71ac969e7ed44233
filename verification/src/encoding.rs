//! The mathematical model of the emitted machine code: for every supported
//! instruction form, a spec function gives the exact byte sequence the
//! encoder appends (or the error it reports), built from the REX-prefix,
//! ModRM and little-endian helpers below.

use vstd::prelude::*;

use crate::operand::{Operand, RegisterId};

verus! {

/// The single class of failure the encoder knows: an operand combination
/// that has no supported encoding. The offending operand is carried along,
/// and the encoder guarantees that no byte of the refused instruction was
/// appended.
#[derive(Clone, Copy, PartialEq, Eq, Structural, Debug)]
pub enum EncodeError {
    /// The destination operand kind is not accepted by the instruction.
    InvalidDestination(Operand),
    /// The destination kind is accepted, but not together with this source.
    InvalidSource(Operand),
}

/// The REX prefix `0b0100_WRXB` with W = 1 (all operations are 64-bit) and
/// X = 0 (no index-scaled addressing): R extends the ModRM `reg` field and
/// B extends the ModRM `r/m`/base field.
pub open spec fn rex_byte(rm: RegisterId, reg: RegisterId) -> u8 {
    0x48u8 | (if reg >= 8 { 0x04u8 } else { 0x00u8 }) | (if rm >= 8 { 0x01u8 } else { 0x00u8 })
}

/// The ModRM byte: mode bits, the `reg` field in bits 5..3, and the `r/m`
/// field in bits 2..0. Only the low three bits of each register id appear
/// here; the high bit travels in the REX prefix.
pub open spec fn modrm_byte(mode: u8, reg: RegisterId, rm: RegisterId) -> u8 {
    mode | ((reg & 0x7) << 3) | (rm & 0x7)
}

/// The four bytes of `v` in little-endian order.
pub open spec fn le_bytes32(v: u32) -> Seq<u8> {
    seq![
        (v & 0xFF) as u8,
        ((v >> 8) & 0xFF) as u8,
        ((v >> 16) & 0xFF) as u8,
        ((v >> 24) & 0xFF) as u8,
    ]
}

/// The eight bytes of `v` in little-endian order.
pub open spec fn le_bytes64(v: u64) -> Seq<u8> {
    seq![
        (v & 0xFF) as u8,
        ((v >> 8) & 0xFF) as u8,
        ((v >> 16) & 0xFF) as u8,
        ((v >> 24) & 0xFF) as u8,
        ((v >> 32) & 0xFF) as u8,
        ((v >> 40) & 0xFF) as u8,
        ((v >> 48) & 0xFF) as u8,
        ((v >> 56) & 0xFF) as u8,
    ]
}

/// `size` rounded up to the next multiple of 16, the stack alignment.
pub open spec fn align16(size: u32) -> int {
    ((size + 15) / 16) * 16
}

/// The bytes of `mov dst, src`, or the error it is refused with.
///
/// A move from a register to the same register is a no-op and encodes to
/// no bytes at all. Otherwise the supported forms are
/// register <- register, register <- memory, register <- 64-bit immediate,
/// and memory <- register; anything else, in particular memory <- memory
/// and memory <- immediate, is refused — also when the two operands are
/// equal: only the register pair earns the no-op.
pub open spec fn mov_bytes(dst: Operand, src: Operand) -> Result<Seq<u8>, EncodeError> {
    match (dst, src) {
        (Operand::Register(dst_reg), Operand::Register(src_reg)) => if dst_reg == src_reg {
            Ok(Seq::<u8>::empty())
        } else {
            Ok(seq![rex_byte(dst_reg, src_reg), 0x89u8, modrm_byte(0xC0, src_reg, dst_reg)])
        },
        (Operand::Register(dst_reg), Operand::MemoryAndOffset(src_reg, src_offset)) => Ok(
            seq![rex_byte(src_reg, dst_reg), 0x8Bu8, modrm_byte(0x80, dst_reg, src_reg)]
                + le_bytes32(src_offset),
        ),
        (Operand::Register(dst_reg), Operand::Imm64(imm64)) => Ok(
            seq![rex_byte(dst_reg, 0), 0xB8u8 | (dst_reg & 0x7)] + le_bytes64(imm64),
        ),
        (Operand::Register(_), _) => Err(EncodeError::InvalidSource(src)),
        (Operand::MemoryAndOffset(dst_reg, dst_offset), Operand::Register(src_reg)) => Ok(
            seq![rex_byte(dst_reg, src_reg), 0x89u8, modrm_byte(0x80, src_reg, dst_reg)]
                + le_bytes32(dst_offset),
        ),
        (Operand::MemoryAndOffset(_, _), _) => Err(EncodeError::InvalidSource(src)),
        _ => Err(EncodeError::InvalidDestination(dst)),
    }
}

/// The bytes of `add dst, src`, or the error it is refused with. Supported
/// forms: register <- register, register <- memory, register <- 32-bit
/// immediate (opcode 0x81 with the add sub-opcode 0xC0 in the ModRM byte).
pub open spec fn add_bytes(dst: Operand, src: Operand) -> Result<Seq<u8>, EncodeError> {
    match (dst, src) {
        (Operand::Register(dst_reg), Operand::Register(src_reg)) => Ok(
            seq![rex_byte(dst_reg, src_reg), 0x01u8, modrm_byte(0xC0, src_reg, dst_reg)],
        ),
        (Operand::Register(dst_reg), Operand::MemoryAndOffset(src_reg, src_offset)) => Ok(
            seq![rex_byte(src_reg, dst_reg), 0x03u8, modrm_byte(0x80, dst_reg, src_reg)]
                + le_bytes32(src_offset),
        ),
        (Operand::Register(dst_reg), Operand::Imm32(imm32)) => Ok(
            seq![rex_byte(dst_reg, 0), 0x81u8, 0xC0u8 | (dst_reg & 0x7)] + le_bytes32(imm32),
        ),
        (Operand::Register(_), _) => Err(EncodeError::InvalidSource(src)),
        _ => Err(EncodeError::InvalidDestination(dst)),
    }
}

/// The bytes of `sub dst, src`, or the error it is refused with. Supported
/// forms: register <- register, register <- memory, register <- 32-bit
/// immediate (opcode 0x81 with the sub sub-opcode 0xE8 in the ModRM byte).
pub open spec fn sub_bytes(dst: Operand, src: Operand) -> Result<Seq<u8>, EncodeError> {
    match (dst, src) {
        (Operand::Register(dst_reg), Operand::Register(src_reg)) => Ok(
            seq![rex_byte(dst_reg, src_reg), 0x29u8, modrm_byte(0xC0, src_reg, dst_reg)],
        ),
        (Operand::Register(dst_reg), Operand::MemoryAndOffset(src_reg, src_offset)) => Ok(
            seq![rex_byte(src_reg, dst_reg), 0x2Bu8, modrm_byte(0x80, dst_reg, src_reg)]
                + le_bytes32(src_offset),
        ),
        (Operand::Register(dst_reg), Operand::Imm32(imm32)) => Ok(
            seq![rex_byte(dst_reg, 0), 0x81u8, 0xE8u8 | (dst_reg & 0x7)] + le_bytes32(imm32),
        ),
        (Operand::Register(_), _) => Err(EncodeError::InvalidSource(src)),
        _ => Err(EncodeError::InvalidDestination(dst)),
    }
}

/// The bytes of an unconditional near jump, or the error it is refused
/// with. An 8-bit immediate selects the short form (opcode 0xEB, one
/// displacement byte); a 32-bit immediate selects the near form (opcode
/// 0xE9, four displacement bytes). The immediate is a placeholder for the
/// displacement, to be back-patched by the caller.
pub open spec fn jump_near_bytes(dst: Operand) -> Result<Seq<u8>, EncodeError> {
    match dst {
        Operand::Imm8(imm8) => Ok(seq![0xEBu8, imm8]),
        Operand::Imm32(imm32) => Ok(seq![0xE9u8] + le_bytes32(imm32)),
        _ => Err(EncodeError::InvalidDestination(dst)),
    }
}

/// The bytes of `push src`, or the error it is refused with. A register
/// pushes as a REX prefix and opcode 0x50 with the low register bits folded
/// in; a 32-bit immediate pushes as opcode 0x68 (a full-width push, wider
/// than the operand suggests; see `Assembler::push`).
pub open spec fn push_bytes(src: Operand) -> Result<Seq<u8>, EncodeError> {
    match src {
        Operand::Register(reg) => Ok(seq![rex_byte(reg, 0), 0x50u8 | (reg & 0x7)]),
        Operand::Imm32(imm32) => Ok(seq![0x68u8] + le_bytes32(imm32)),
        _ => Err(EncodeError::InvalidSource(src)),
    }
}

/// The bytes of `pop dst`, or the error it is refused with. Only a register
/// destination is supported.
pub open spec fn pop_bytes(dst: Operand) -> Result<Seq<u8>, EncodeError> {
    match dst {
        Operand::Register(reg) => Ok(seq![rex_byte(reg, 0), 0x58u8 | (reg & 0x7)]),
        _ => Err(EncodeError::InvalidDestination(dst)),
    }
}

/// The bytes of the stack-frame prologue: push the frame-base register,
/// copy the stack pointer into it, and, for a non-zero request, reserve
/// `align16(stack_size)` bytes of stack space.
pub open spec fn enter_bytes(stack_size: u32) -> Seq<u8> {
    let prologue = seq![0x48u8, 0x55u8, 0x48u8, 0x89u8, 0xE5u8];
    if stack_size == 0 {
        prologue
    } else {
        prologue + seq![0x48u8, 0x81u8, 0xECu8] + le_bytes32(align16(stack_size) as u32)
    }
}

/// Law: a `mov` from a register to the same register encodes to the empty
/// byte sequence.
pub proof fn lemma_mov_same_register_is_empty(reg: RegisterId)
    ensures
        mov_bytes(Operand::Register(reg), Operand::Register(reg)) == Ok::<
            Seq<u8>,
            EncodeError,
        >(Seq::<u8>::empty()),
{
}

/// Law: the no-op is owed to register pairs alone — a `mov` between two
/// equal operands of any other kind is still refused, a memory pair with
/// the invalid-source error and an immediate destination with the
/// invalid-destination error.
pub proof fn lemma_mov_equal_non_register_refused(dst: Operand, src: Operand)
    requires
        dst == src,
        !(dst is Register),
    ensures
        mov_bytes(dst, src) is Err,
        dst is MemoryAndOffset ==> mov_bytes(dst, src) == Err::<
            Seq<u8>,
            EncodeError,
        >(EncodeError::InvalidSource(src)),
        dst is Imm64 || dst is Imm32 || dst is Imm8 ==> mov_bytes(dst, src) == Err::<
            Seq<u8>,
            EncodeError,
        >(EncodeError::InvalidDestination(dst)),
{
}

/// Law: the REX prefix takes exactly four values, fixed by the two role
/// tests alone — 0x48 plus the R bit (0x04) when the `reg`-role register
/// is extended and the B bit (0x01) when the `r/m`-role register is.
pub proof fn lemma_rex_byte_cases(rm: RegisterId, reg: RegisterId)
    ensures
        rex_byte(rm, reg) == if rm >= 8 && reg >= 8 {
            0x4Du8
        } else if reg >= 8 {
            0x4Cu8
        } else if rm >= 8 {
            0x49u8
        } else {
            0x48u8
        },
{
    assert(rex_byte(rm, reg) == if rm >= 8 && reg >= 8 {
        0x4Du8
    } else if reg >= 8 {
        0x4Cu8
    } else if rm >= 8 {
        0x49u8
    } else {
        0x48u8
    }) by (bit_vector);
}

/// Law: for all register ids, the REX prefix byte equals
/// `0x48 | (0x04 if the reg-role register id >= 8) | (0x01 if the
/// r/m-role register id >= 8)`, and every instruction form emits it as its
/// first byte with the role assignment that form uses: the destination
/// register takes the r/m role except when loading from memory, where the
/// memory base register takes it and the destination moves to the reg
/// role; immediate, push and pop forms leave the reg role empty.
pub proof fn lemma_rex_roles_per_instruction(
    r1: RegisterId,
    r2: RegisterId,
    offset: u32,
    imm64: u64,
    imm32: u32,
)
    ensures
        rex_byte(r1, r2) == (0x48u8 | (if r2 >= 8 {
            0x04u8
        } else {
            0x00u8
        }) | (if r1 >= 8 {
            0x01u8
        } else {
            0x00u8
        })),
        r1 != r2 ==> (mov_bytes(Operand::Register(r1), Operand::Register(r2)) matches Ok(b)
            && b[0] == rex_byte(r1, r2)),
        mov_bytes(Operand::Register(r1), Operand::MemoryAndOffset(r2, offset)) matches Ok(b)
            && b[0] == rex_byte(r2, r1),
        mov_bytes(Operand::Register(r1), Operand::Imm64(imm64)) matches Ok(b) && b[0]
            == rex_byte(r1, 0),
        mov_bytes(Operand::MemoryAndOffset(r1, offset), Operand::Register(r2)) matches Ok(b)
            && b[0] == rex_byte(r1, r2),
        add_bytes(Operand::Register(r1), Operand::Register(r2)) matches Ok(b) && b[0]
            == rex_byte(r1, r2),
        add_bytes(Operand::Register(r1), Operand::MemoryAndOffset(r2, offset)) matches Ok(b)
            && b[0] == rex_byte(r2, r1),
        add_bytes(Operand::Register(r1), Operand::Imm32(imm32)) matches Ok(b) && b[0]
            == rex_byte(r1, 0),
        sub_bytes(Operand::Register(r1), Operand::Register(r2)) matches Ok(b) && b[0]
            == rex_byte(r1, r2),
        sub_bytes(Operand::Register(r1), Operand::MemoryAndOffset(r2, offset)) matches Ok(b)
            && b[0] == rex_byte(r2, r1),
        sub_bytes(Operand::Register(r1), Operand::Imm32(imm32)) matches Ok(b) && b[0]
            == rex_byte(r1, 0),
        push_bytes(Operand::Register(r1)) matches Ok(b) && b[0] == rex_byte(r1, 0),
        pop_bytes(Operand::Register(r1)) matches Ok(b) && b[0] == rex_byte(r1, 0),
{
}

/// Law: the four little-endian bytes of a doubleword reassemble to the
/// doubleword, so a value written by a 4-byte patch reads back unchanged.
pub proof fn lemma_le_bytes32_recompose(v: u32)
    ensures
        (le_bytes32(v)[0] as u32) | ((le_bytes32(v)[1] as u32) << 8) | ((le_bytes32(v)[2]
            as u32) << 16) | ((le_bytes32(v)[3] as u32) << 24) == v,
{
    let b0 = le_bytes32(v)[0];
    let b1 = le_bytes32(v)[1];
    let b2 = le_bytes32(v)[2];
    let b3 = le_bytes32(v)[3];
    assert((b0 as u32) | ((b1 as u32) << 8) | ((b2 as u32) << 16) | ((b3 as u32) << 24) == v)
        by (bit_vector)
        requires
            b0 == (v & 0xFF) as u8,
            b1 == ((v >> 8) & 0xFF) as u8,
            b2 == ((v >> 16) & 0xFF) as u8,
            b3 == ((v >> 24) & 0xFF) as u8,
    ;
}

/// Law: `align16` rounds up to the nearest 16-byte boundary — the result
/// is a multiple of 16, at least the requested size, and less than one
/// full alignment step beyond it (so a size already aligned is kept).
pub proof fn lemma_align16_rounds_up(size: u32)
    ensures
        align16(size) % 16 == 0,
        size <= align16(size),
        align16(size) < size + 16,
{
    let s = size as int;
    assert((((s + 15) / 16) * 16) % 16 == 0 && s <= ((s + 15) / 16) * 16 < s + 16)
        by (nonlinear_arith)
        requires
            0 <= s,
    ;
}

} // verus!

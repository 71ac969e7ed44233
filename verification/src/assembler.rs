//! The instruction encoder: an owner of a growable byte buffer with one
//! method per supported mnemonic. Each method either appends exactly the
//! bytes given by the matching spec function in `encoding` or, for an
//! unsupported operand combination, reports the error and leaves the buffer
//! untouched — no instruction is ever emitted partially.

use vstd::pervasive::VecAdditionalExecFns;
use vstd::prelude::*;

use crate::encoding::{
    add_bytes, enter_bytes, jump_near_bytes, le_bytes32, le_bytes64, modrm_byte, mov_bytes,
    pop_bytes, push_bytes, rex_byte, sub_bytes, EncodeError,
};
use crate::operand::{Operand, RegisterId, Registers};

verus! {

/// A helper to generate x86-64 machine code. Bytes are only ever appended
/// (or overwritten in place by `patch32`), so a byte's position never
/// shifts and offsets captured earlier stay valid forever.
pub struct Assembler {
    /// The generated code.
    pub code: Vec<u8>,
}

impl Assembler {
    /// Creates a new assembler with an empty code buffer.
    pub fn new() -> (r: Assembler)
        ensures
            r.code@ == Seq::<u8>::empty(),
    {
        Assembler { code: Vec::new() }
    }

    /// Consumes the assembler and returns the generated code.
    pub fn finalize(self) -> (r: Vec<u8>)
        ensures
            r@ == self.code@,
    {
        self.code
    }

    /// Generates a move instruction from the source to the destination.
    ///
    /// A move from a register to the same register appends nothing.
    /// Otherwise the supported forms are register <- register,
    /// register <- memory, register <- 64-bit immediate, and
    /// memory <- register; every other combination — in particular
    /// memory <- memory and immediate into memory, also between two equal
    /// operands — is refused with the offending operand and the buffer is
    /// left untouched.
    pub fn mov(&mut self, dst: Operand, src: Operand) -> (r: Result<(), EncodeError>)
        ensures
            match mov_bytes(dst, src) {
                Ok(bytes) => r is Ok && final(self).code@ == old(self).code@ + bytes,
                Err(e) => r == Err::<(), EncodeError>(e) && final(self).code@ == old(self).code@,
            },
    {
        match dst {
            Operand::Register(dst_reg) => match src {
                // mov dst, src
                Operand::Register(src_reg) => {
                    if dst_reg == src_reg {
                        return Ok(());
                    }
                    self.emit_rex_prefix(dst_reg, src_reg);
                    self.emit8(0x89);
                    self.emit8(0xC0 | ((src_reg & 0x7) << 3) | (dst_reg & 0x7));
                    proof {
                        assert(self.code@ =~= old(self).code@ + seq![
                            rex_byte(dst_reg, src_reg),
                            0x89u8,
                            modrm_byte(0xC0, src_reg, dst_reg),
                        ]);
                    }
                    Ok(())
                },
                // mov dst, [src+offset]
                Operand::MemoryAndOffset(src_reg, src_offset) => {
                    self.emit_rex_prefix(src_reg, dst_reg);
                    self.emit8(0x8B);
                    self.emit8(0x80 | ((dst_reg & 0x7) << 3) | (src_reg & 0x7));
                    self.emit32(src_offset);
                    proof {
                        assert(self.code@ =~= old(self).code@ + (seq![
                            rex_byte(src_reg, dst_reg),
                            0x8Bu8,
                            modrm_byte(0x80, dst_reg, src_reg),
                        ] + le_bytes32(src_offset)));
                    }
                    Ok(())
                },
                // mov dst, imm64
                Operand::Imm64(imm64) => {
                    self.emit_rex_prefix(dst_reg, 0);
                    self.emit8(0xB8 | (dst_reg & 0x7));
                    self.emit64(imm64);
                    proof {
                        assert(self.code@ =~= old(self).code@ + (seq![
                            rex_byte(dst_reg, 0),
                            0xB8u8 | (dst_reg & 0x7),
                        ] + le_bytes64(imm64)));
                    }
                    Ok(())
                },
                _ => Err(EncodeError::InvalidSource(src)),
            },
            Operand::MemoryAndOffset(dst_reg, dst_offset) => match src {
                // mov [dst+offset], src
                Operand::Register(src_reg) => {
                    self.emit_rex_prefix(dst_reg, src_reg);
                    self.emit8(0x89);
                    self.emit8(0x80 | ((src_reg & 0x7) << 3) | (dst_reg & 0x7));
                    self.emit32(dst_offset);
                    proof {
                        assert(self.code@ =~= old(self).code@ + (seq![
                            rex_byte(dst_reg, src_reg),
                            0x89u8,
                            modrm_byte(0x80, src_reg, dst_reg),
                        ] + le_bytes32(dst_offset)));
                    }
                    Ok(())
                },
                _ => Err(EncodeError::InvalidSource(src)),
            },
            _ => Err(EncodeError::InvalidDestination(dst)),
        }
    }

    /// Generates an add instruction that adds the source to the
    /// destination. Supported forms: register <- register,
    /// register <- memory, register <- 32-bit immediate; every other
    /// combination is refused with the offending operand and the buffer is
    /// left untouched.
    pub fn add(&mut self, dst: Operand, src: Operand) -> (r: Result<(), EncodeError>)
        ensures
            match add_bytes(dst, src) {
                Ok(bytes) => r is Ok && final(self).code@ == old(self).code@ + bytes,
                Err(e) => r == Err::<(), EncodeError>(e) && final(self).code@ == old(self).code@,
            },
    {
        match dst {
            Operand::Register(dst_reg) => match src {
                // add dst, src
                Operand::Register(src_reg) => {
                    self.emit_rex_prefix(dst_reg, src_reg);
                    self.emit8(0x01);
                    self.emit8(0xC0 | ((src_reg & 0x7) << 3) | (dst_reg & 0x7));
                    proof {
                        assert(self.code@ =~= old(self).code@ + seq![
                            rex_byte(dst_reg, src_reg),
                            0x01u8,
                            modrm_byte(0xC0, src_reg, dst_reg),
                        ]);
                    }
                    Ok(())
                },
                // add dst, [src+offset]
                Operand::MemoryAndOffset(src_reg, src_offset) => {
                    self.emit_rex_prefix(src_reg, dst_reg);
                    self.emit8(0x03);
                    self.emit8(0x80 | ((dst_reg & 0x7) << 3) | (src_reg & 0x7));
                    self.emit32(src_offset);
                    proof {
                        assert(self.code@ =~= old(self).code@ + (seq![
                            rex_byte(src_reg, dst_reg),
                            0x03u8,
                            modrm_byte(0x80, dst_reg, src_reg),
                        ] + le_bytes32(src_offset)));
                    }
                    Ok(())
                },
                // add dst, imm32
                Operand::Imm32(imm32) => {
                    self.emit_rex_prefix(dst_reg, 0);
                    self.emit8(0x81);
                    self.emit8(0xC0 | (dst_reg & 0x7));
                    self.emit32(imm32);
                    proof {
                        assert(self.code@ =~= old(self).code@ + (seq![
                            rex_byte(dst_reg, 0),
                            0x81u8,
                            0xC0u8 | (dst_reg & 0x7),
                        ] + le_bytes32(imm32)));
                    }
                    Ok(())
                },
                _ => Err(EncodeError::InvalidSource(src)),
            },
            _ => Err(EncodeError::InvalidDestination(dst)),
        }
    }

    /// Generates a sub instruction that subtracts the source from the
    /// destination. Supported forms: register <- register,
    /// register <- memory, register <- 32-bit immediate; every other
    /// combination is refused with the offending operand and the buffer is
    /// left untouched.
    pub fn sub(&mut self, dst: Operand, src: Operand) -> (r: Result<(), EncodeError>)
        ensures
            match sub_bytes(dst, src) {
                Ok(bytes) => r is Ok && final(self).code@ == old(self).code@ + bytes,
                Err(e) => r == Err::<(), EncodeError>(e) && final(self).code@ == old(self).code@,
            },
    {
        match dst {
            Operand::Register(dst_reg) => match src {
                // sub dst, src
                Operand::Register(src_reg) => {
                    self.emit_rex_prefix(dst_reg, src_reg);
                    self.emit8(0x29);
                    self.emit8(0xC0 | ((src_reg & 0x7) << 3) | (dst_reg & 0x7));
                    proof {
                        assert(self.code@ =~= old(self).code@ + seq![
                            rex_byte(dst_reg, src_reg),
                            0x29u8,
                            modrm_byte(0xC0, src_reg, dst_reg),
                        ]);
                    }
                    Ok(())
                },
                // sub dst, [src+offset]
                Operand::MemoryAndOffset(src_reg, src_offset) => {
                    self.emit_rex_prefix(src_reg, dst_reg);
                    self.emit8(0x2B);
                    self.emit8(0x80 | ((dst_reg & 0x7) << 3) | (src_reg & 0x7));
                    self.emit32(src_offset);
                    proof {
                        assert(self.code@ =~= old(self).code@ + (seq![
                            rex_byte(src_reg, dst_reg),
                            0x2Bu8,
                            modrm_byte(0x80, dst_reg, src_reg),
                        ] + le_bytes32(src_offset)));
                    }
                    Ok(())
                },
                // sub dst, imm32
                Operand::Imm32(imm32) => {
                    self.emit_rex_prefix(dst_reg, 0);
                    self.emit8(0x81);
                    self.emit8(0xE8 | (dst_reg & 0x7));
                    self.emit32(imm32);
                    proof {
                        assert(self.code@ =~= old(self).code@ + (seq![
                            rex_byte(dst_reg, 0),
                            0x81u8,
                            0xE8u8 | (dst_reg & 0x7),
                        ] + le_bytes32(imm32)));
                    }
                    Ok(())
                },
                _ => Err(EncodeError::InvalidSource(src)),
            },
            _ => Err(EncodeError::InvalidDestination(dst)),
        }
    }

    /// Generates an unconditional near jump and returns the byte offset at
    /// which its displacement was written, so the caller can patch the
    /// displacement once the jump target is known. An 8-bit immediate
    /// placeholder selects the short form (opcode 0xEB, the returned offset
    /// names a single displacement byte); a 32-bit one selects the near
    /// form (opcode 0xE9, the returned offset names four displacement
    /// bytes). Any other operand is refused and the buffer is left
    /// untouched.
    pub fn jump_near(&mut self, dst: Operand) -> (r: Result<usize, EncodeError>)
        ensures
            match jump_near_bytes(dst) {
                Ok(bytes) => {
                    &&& final(self).code@ == old(self).code@ + bytes
                    &&& r matches Ok(pos) && pos == old(self).code@.len() + 1
                },
                Err(e) => {
                    &&& r == Err::<usize, EncodeError>(e)
                    &&& final(self).code@ == old(self).code@
                },
            },
    {
        match dst {
            Operand::Imm8(imm8) => {
                self.emit8(0xEB);
                let pos = self.code.len();
                self.emit8(imm8);
                Ok(pos)
            },
            Operand::Imm32(imm32) => {
                self.emit8(0xE9);
                let pos = self.code.len();
                self.emit32(imm32);
                proof {
                    assert(self.code@ =~= old(self).code@ + (seq![0xE9u8] + le_bytes32(imm32)));
                }
                Ok(pos)
            },
            _ => Err(EncodeError::InvalidDestination(dst)),
        }
    }

    /// Emits a stack-frame prologue: push the frame-base register, copy the
    /// stack pointer into it, and, for a non-zero `stack_size`, reserve
    /// that much stack space rounded up to the next 16-byte boundary. The
    /// hardware enter instruction is deliberately spelled out as cheaper
    /// instructions to keep control over the alignment.
    pub fn enter(&mut self, stack_size: u32)
        requires
            stack_size + 15 <= u32::MAX,
        ensures
            final(self).code@ == old(self).code@ + enter_bytes(stack_size),
    {
        proof {
            assert(rex_byte(5, 0) == 0x48u8) by (bit_vector);
            assert((0x50u8 | (5u8 & 0x7)) == 0x55u8) by (bit_vector);
            assert(rex_byte(5, 4) == 0x48u8) by (bit_vector);
            assert(modrm_byte(0xC0, 4, 5) == 0xE5u8) by (bit_vector);
            assert(rex_byte(4, 0) == 0x48u8) by (bit_vector);
            assert((0xE8u8 | (4u8 & 0x7)) == 0xECu8) by (bit_vector);
        }
        let _ = self.push(Operand::register(Registers::Rbp));
        let _ = self.mov(Operand::register(Registers::Rbp), Operand::register(Registers::Rsp));
        if stack_size > 0 {
            proof {
                let s = stack_size as int;
                assert(0 <= ((s + 15) / 16) * 16 <= s + 15) by (nonlinear_arith)
                    requires
                        0 <= s,
                ;
            }
            // align stack_size to 16 bytes
            let aligned: u32 = ((stack_size + 15) / 16) * 16;
            let _ = self.sub(Operand::register(Registers::Rsp), Operand::imm32(aligned));
            proof {
                assert(self.code@ =~= old(self).code@ + enter_bytes(stack_size));
            }
        } else {
            proof {
                assert(self.code@ =~= old(self).code@ + enter_bytes(stack_size));
            }
        }
    }

    /// Emits a leave instruction.
    pub fn leave(&mut self)
        ensures
            final(self).code@ == old(self).code@.push(0xC9u8),
    {
        self.emit8(0xC9);
    }

    /// Overwrites the four bytes at `offset` with `value` in little-endian
    /// order, leaving every other byte and the buffer's length unchanged.
    /// This back-fills a previously emitted placeholder, typically a
    /// near-jump displacement once the target offset is known; the offset
    /// must lie within the code emitted so far.
    pub fn patch32(&mut self, value: u32, offset: usize)
        requires
            offset + 4 <= old(self).code@.len(),
        ensures
            final(self).code@.len() == old(self).code@.len(),
            final(self).code@.subrange(offset as int, offset + 4) == le_bytes32(value),
            forall|i: int|
                0 <= i < old(self).code@.len() && !(offset <= i < offset + 4)
                    ==> final(self).code@[i] == old(self).code@[i],
    {
        let _len: usize = self.code.len();
        self.code.set(offset, (value & 0xFF) as u8);
        self.code.set(offset + 1, ((value >> 8) & 0xFF) as u8);
        self.code.set(offset + 2, ((value >> 16) & 0xFF) as u8);
        self.code.set(offset + 3, ((value >> 24) & 0xFF) as u8);
        proof {
            assert(self.code@.subrange(offset as int, offset + 4) =~= le_bytes32(value));
        }
    }

    /// Generates a return instruction.
    pub fn ret(&mut self)
        ensures
            final(self).code@ == old(self).code@.push(0xC3u8),
    {
        self.emit8(0xC3);
    }

    /// Generates a push instruction. A register or a 32-bit immediate can
    /// be pushed; any other operand is refused with the offending operand
    /// and the buffer is left untouched. The immediate form emits opcode
    /// 0x68, a full-width push — wider than the 32-bit operand suggests, a
    /// known deviation kept as it is.
    pub fn push(&mut self, src: Operand) -> (r: Result<(), EncodeError>)
        ensures
            match push_bytes(src) {
                Ok(bytes) => r is Ok && final(self).code@ == old(self).code@ + bytes,
                Err(e) => r == Err::<(), EncodeError>(e) && final(self).code@ == old(self).code@,
            },
    {
        match src {
            Operand::Register(reg) => {
                self.emit_rex_prefix(reg, 0);
                self.emit8(0x50 | (reg & 0x7));
                proof {
                    assert(self.code@ =~= old(self).code@ + seq![
                        rex_byte(reg, 0),
                        0x50u8 | (reg & 0x7),
                    ]);
                }
                Ok(())
            },
            Operand::Imm32(imm32) => {
                self.emit8(0x68);
                self.emit32(imm32);
                proof {
                    assert(self.code@ =~= old(self).code@ + (seq![0x68u8] + le_bytes32(imm32)));
                }
                Ok(())
            },
            _ => Err(EncodeError::InvalidSource(src)),
        }
    }

    /// Generates a pop instruction. Only a register destination is
    /// supported; any other operand is refused with the offending operand
    /// and the buffer is left untouched.
    pub fn pop(&mut self, dst: Operand) -> (r: Result<(), EncodeError>)
        ensures
            match pop_bytes(dst) {
                Ok(bytes) => r is Ok && final(self).code@ == old(self).code@ + bytes,
                Err(e) => r == Err::<(), EncodeError>(e) && final(self).code@ == old(self).code@,
            },
    {
        match dst {
            Operand::Register(reg) => {
                self.emit_rex_prefix(reg, 0);
                self.emit8(0x58 | (reg & 0x7));
                proof {
                    assert(self.code@ =~= old(self).code@ + seq![
                        rex_byte(reg, 0),
                        0x58u8 | (reg & 0x7),
                    ]);
                }
                Ok(())
            },
            _ => Err(EncodeError::InvalidDestination(dst)),
        }
    }

    /// Appends one byte to the code.
    fn emit8(&mut self, byte: u8)
        ensures
            final(self).code@ == old(self).code@.push(byte),
    {
        self.code.push(byte);
    }

    /// Appends a doubleword to the code in little-endian order.
    fn emit32(&mut self, dword: u32)
        ensures
            final(self).code@ == old(self).code@ + le_bytes32(dword),
    {
        self.code.push((dword & 0xFF) as u8);
        self.code.push(((dword >> 8) & 0xFF) as u8);
        self.code.push(((dword >> 16) & 0xFF) as u8);
        self.code.push(((dword >> 24) & 0xFF) as u8);
        proof {
            assert(self.code@ =~= old(self).code@ + le_bytes32(dword));
        }
    }

    /// Appends a quadword to the code in little-endian order.
    fn emit64(&mut self, qword: u64)
        ensures
            final(self).code@ == old(self).code@ + le_bytes64(qword),
    {
        self.code.push((qword & 0xFF) as u8);
        self.code.push(((qword >> 8) & 0xFF) as u8);
        self.code.push(((qword >> 16) & 0xFF) as u8);
        self.code.push(((qword >> 24) & 0xFF) as u8);
        self.code.push(((qword >> 32) & 0xFF) as u8);
        self.code.push(((qword >> 40) & 0xFF) as u8);
        self.code.push(((qword >> 48) & 0xFF) as u8);
        self.code.push(((qword >> 56) & 0xFF) as u8);
        proof {
            assert(self.code@ =~= old(self).code@ + le_bytes64(qword));
        }
    }

    /// Appends the REX prefix for one instruction: `rm` is the register in
    /// the ModRM `r/m`/base role (its high bit becomes REX.B) and `reg` the
    /// one in the ModRM `reg` role (its high bit becomes REX.R).
    fn emit_rex_prefix(&mut self, rm: RegisterId, reg: RegisterId)
        ensures
            final(self).code@ == old(self).code@.push(rex_byte(rm, reg)),
    {
        self.emit8(
            0x48 | (if reg >= 8 { 0x04u8 } else { 0x00u8 }) | (if rm >= 8 { 0x01u8 } else { 0x00u8 }),
        );
    }
}

} // verus!

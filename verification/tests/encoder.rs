use x64_emitter::assembler::Assembler;
use x64_emitter::encoding::EncodeError;
use x64_emitter::operand::{Operand, Registers};

const ALL_REGISTERS: [Registers; 16] = [
    Registers::Rax,
    Registers::Rcx,
    Registers::Rdx,
    Registers::Rbx,
    Registers::Rsp,
    Registers::Rbp,
    Registers::Rsi,
    Registers::Rdi,
    Registers::R8,
    Registers::R9,
    Registers::R10,
    Registers::R11,
    Registers::R12,
    Registers::R13,
    Registers::R14,
    Registers::R15,
];

#[test]
fn register_ids_match_hardware_encoding() {
    for (expected, reg) in ALL_REGISTERS.iter().enumerate() {
        assert_eq!(reg.id() as usize, expected);
    }
}

#[test]
fn operand_constructors_build_the_tagged_variants() {
    assert_eq!(Operand::register(Registers::Rdx), Operand::Register(2));
    assert_eq!(Operand::register(Registers::R15), Operand::Register(15));
    assert_eq!(
        Operand::memory_and_offset(Registers::Rbx, 0x1234),
        Operand::MemoryAndOffset(3, 0x1234)
    );
    assert_eq!(Operand::imm64(0xDEAD_BEEF_u64), Operand::Imm64(0xDEAD_BEEF));
    assert_eq!(Operand::imm32(0xBEEF_u32), Operand::Imm32(0xBEEF));
}

#[test]
fn new_assembler_finalizes_to_empty_code() {
    let enc = Assembler::new();
    assert_eq!(enc.finalize(), Vec::<u8>::new());
}

#[test]
fn mov_register_to_register_low_registers() {
    let mut enc = Assembler::new();
    enc.mov(
        Operand::register(Registers::Rax),
        Operand::register(Registers::Rcx),
    )
    .unwrap();
    assert_eq!(enc.finalize(), vec![0x48, 0x89, 0xC8]);
}

#[test]
fn mov_same_register_appends_nothing() {
    for reg in ALL_REGISTERS.iter() {
        let mut enc = Assembler::new();
        enc.mov(Operand::register(*reg), Operand::register(*reg))
            .unwrap();
        assert_eq!(enc.finalize(), Vec::<u8>::new());
    }
}

#[test]
fn mov_equal_non_register_operands_are_still_refused() {
    // Only the register pair earns the no-op: an equal memory pair or an
    // equal immediate pair is an invalid combination like any other.
    let mem = Operand::memory_and_offset(Registers::Rax, 4);
    let mut enc = Assembler::new();
    assert_eq!(enc.mov(mem, mem), Err(EncodeError::InvalidSource(mem)));
    assert_eq!(
        enc.mov(Operand::imm32(7), Operand::imm32(7)),
        Err(EncodeError::InvalidDestination(Operand::Imm32(7)))
    );
    assert_eq!(
        enc.mov(Operand::imm64(7), Operand::imm64(7)),
        Err(EncodeError::InvalidDestination(Operand::Imm64(7)))
    );
    assert_eq!(enc.finalize(), Vec::<u8>::new());
}

#[test]
fn mov_register_register_rex_covers_both_roles() {
    // REX = 0x48, plus 0x04 when the register in the ModRM reg role (the
    // source here) is extended, plus 0x01 when the one in the r/m role
    // (the destination here) is.
    for dst in ALL_REGISTERS.iter() {
        for src in ALL_REGISTERS.iter() {
            if dst.id() == src.id() {
                continue;
            }
            let mut enc = Assembler::new();
            enc.mov(Operand::register(*dst), Operand::register(*src))
                .unwrap();
            let rex: u8 = 0x48
                | (if src.id() >= 8 { 0x04 } else { 0 })
                | (if dst.id() >= 8 { 0x01 } else { 0 });
            let modrm: u8 = 0xC0 | ((src.id() & 0x7) << 3) | (dst.id() & 0x7);
            assert_eq!(enc.finalize(), vec![rex, 0x89, modrm]);
        }
    }
}

#[test]
fn mov_memory_source_swaps_rex_roles() {
    // Loading from memory puts the destination in the ModRM reg role and
    // the base register in the r/m role, so the REX bits swap with it.
    let cases: [(Registers, Registers); 4] = [
        (Registers::Rax, Registers::Rcx),
        (Registers::Rax, Registers::R8),
        (Registers::R9, Registers::Rcx),
        (Registers::R9, Registers::R8),
    ];
    for (dst, base) in cases.iter() {
        let mut enc = Assembler::new();
        enc.mov(
            Operand::register(*dst),
            Operand::memory_and_offset(*base, 0xBEEF),
        )
        .unwrap();
        let rex: u8 = 0x48
            | (if dst.id() >= 8 { 0x04 } else { 0 })
            | (if base.id() >= 8 { 0x01 } else { 0 });
        let modrm: u8 = 0x80 | ((dst.id() & 0x7) << 3) | (base.id() & 0x7);
        assert_eq!(
            enc.finalize(),
            vec![rex, 0x8B, modrm, 0xEF, 0xBE, 0x00, 0x00]
        );
    }
}

#[test]
fn mov_memory_destination_reverses_roles_again() {
    let mut enc = Assembler::new();
    enc.mov(
        Operand::memory_and_offset(Registers::Rax, 0x10),
        Operand::register(Registers::Rcx),
    )
    .unwrap();
    assert_eq!(enc.finalize(), vec![0x48, 0x89, 0x88, 0x10, 0x00, 0x00, 0x00]);

    let mut enc = Assembler::new();
    enc.mov(
        Operand::memory_and_offset(Registers::R8, 0xBEEF),
        Operand::register(Registers::R9),
    )
    .unwrap();
    assert_eq!(enc.finalize(), vec![0x4D, 0x89, 0x88, 0xEF, 0xBE, 0x00, 0x00]);
}

#[test]
fn mov_imm64_folds_register_into_low_opcode_bits() {
    let mut enc = Assembler::new();
    enc.mov(
        Operand::register(Registers::Rax),
        Operand::imm64(0x1122_3344_5566_7788),
    )
    .unwrap();
    assert_eq!(
        enc.finalize(),
        vec![0x48, 0xB8, 0x88, 0x77, 0x66, 0x55, 0x44, 0x33, 0x22, 0x11]
    );

    let mut enc = Assembler::new();
    enc.mov(Operand::register(Registers::Rcx), Operand::imm64(5))
        .unwrap();
    assert_eq!(
        enc.finalize(),
        vec![0x48, 0xB9, 0x05, 0x00, 0x00, 0x00, 0x00, 0x00, 0x00, 0x00]
    );

    let mut enc = Assembler::new();
    enc.mov(Operand::register(Registers::R10), Operand::imm64(5))
        .unwrap();
    assert_eq!(
        enc.finalize(),
        vec![0x49, 0xBA, 0x05, 0x00, 0x00, 0x00, 0x00, 0x00, 0x00, 0x00]
    );
}

#[test]
fn mov_invalid_combinations_are_refused() {
    let mem_a = Operand::memory_and_offset(Registers::Rax, 1);
    let mem_b = Operand::memory_and_offset(Registers::Rcx, 2);
    let mut enc = Assembler::new();
    assert_eq!(
        enc.mov(mem_a, mem_b),
        Err(EncodeError::InvalidSource(mem_b))
    );
    assert_eq!(
        enc.mov(mem_a, Operand::imm64(1)),
        Err(EncodeError::InvalidSource(Operand::Imm64(1)))
    );
    assert_eq!(
        enc.mov(mem_a, Operand::imm32(1)),
        Err(EncodeError::InvalidSource(Operand::Imm32(1)))
    );
    assert_eq!(
        enc.mov(Operand::register(Registers::Rax), Operand::Imm8(1)),
        Err(EncodeError::InvalidSource(Operand::Imm8(1)))
    );
    assert_eq!(
        enc.mov(Operand::imm32(1), Operand::register(Registers::Rax)),
        Err(EncodeError::InvalidDestination(Operand::Imm32(1)))
    );
    // none of the refused calls emitted a byte
    assert_eq!(enc.finalize(), Vec::<u8>::new());
}

#[test]
fn add_register_memory_and_immediate_forms() {
    let mut enc = Assembler::new();
    enc.add(
        Operand::register(Registers::Rax),
        Operand::register(Registers::Rcx),
    )
    .unwrap();
    assert_eq!(enc.finalize(), vec![0x48, 0x01, 0xC8]);

    let mut enc = Assembler::new();
    enc.add(
        Operand::register(Registers::Rax),
        Operand::memory_and_offset(Registers::Rcx, 0xBEEF),
    )
    .unwrap();
    assert_eq!(enc.finalize(), vec![0x48, 0x03, 0x81, 0xEF, 0xBE, 0x00, 0x00]);

    let mut enc = Assembler::new();
    enc.add(Operand::register(Registers::R9), Operand::imm32(0xBEEF))
        .unwrap();
    assert_eq!(enc.finalize(), vec![0x49, 0x81, 0xC1, 0xEF, 0xBE, 0x00, 0x00]);
}

#[test]
fn add_extended_registers_set_rex_bits() {
    let mut enc = Assembler::new();
    enc.add(
        Operand::register(Registers::R9),
        Operand::register(Registers::R8),
    )
    .unwrap();
    assert_eq!(enc.finalize(), vec![0x4D, 0x01, 0xC1]);

    let mut enc = Assembler::new();
    enc.add(
        Operand::register(Registers::R11),
        Operand::memory_and_offset(Registers::R8, 0xBEEF),
    )
    .unwrap();
    assert_eq!(enc.finalize(), vec![0x4D, 0x03, 0x98, 0xEF, 0xBE, 0x00, 0x00]);
}

#[test]
fn add_invalid_combinations_are_refused() {
    let mut enc = Assembler::new();
    assert_eq!(
        enc.add(Operand::register(Registers::Rax), Operand::imm64(1)),
        Err(EncodeError::InvalidSource(Operand::Imm64(1)))
    );
    assert_eq!(
        enc.add(Operand::register(Registers::Rax), Operand::Imm8(1)),
        Err(EncodeError::InvalidSource(Operand::Imm8(1)))
    );
    assert_eq!(
        enc.add(Operand::imm32(1), Operand::imm32(2)),
        Err(EncodeError::InvalidDestination(Operand::Imm32(1)))
    );
    assert_eq!(
        enc.add(
            Operand::memory_and_offset(Registers::Rax, 0),
            Operand::register(Registers::Rcx)
        ),
        Err(EncodeError::InvalidDestination(Operand::MemoryAndOffset(
            0, 0
        )))
    );
    assert_eq!(enc.finalize(), Vec::<u8>::new());
}

#[test]
fn sub_register_memory_and_immediate_forms() {
    let mut enc = Assembler::new();
    enc.sub(
        Operand::register(Registers::Rax),
        Operand::register(Registers::Rcx),
    )
    .unwrap();
    assert_eq!(enc.finalize(), vec![0x48, 0x29, 0xC8]);

    let mut enc = Assembler::new();
    enc.sub(
        Operand::register(Registers::Rax),
        Operand::memory_and_offset(Registers::R8, 2),
    )
    .unwrap();
    assert_eq!(enc.finalize(), vec![0x49, 0x2B, 0x80, 0x02, 0x00, 0x00, 0x00]);

    let mut enc = Assembler::new();
    enc.sub(Operand::register(Registers::Rsp), Operand::imm32(16))
        .unwrap();
    assert_eq!(enc.finalize(), vec![0x48, 0x81, 0xEC, 0x10, 0x00, 0x00, 0x00]);
}

#[test]
fn sub_invalid_combinations_are_refused() {
    let mut enc = Assembler::new();
    assert_eq!(
        enc.sub(Operand::register(Registers::Rax), Operand::imm64(9)),
        Err(EncodeError::InvalidSource(Operand::Imm64(9)))
    );
    assert_eq!(
        enc.sub(Operand::imm64(9), Operand::register(Registers::Rax)),
        Err(EncodeError::InvalidDestination(Operand::Imm64(9)))
    );
    assert_eq!(enc.finalize(), Vec::<u8>::new());
}

#[test]
fn jump_near_short_form_offset_names_one_byte_after_opcode() {
    let mut enc = Assembler::new();
    enc.ret();
    let pos = enc.jump_near(Operand::Imm8(0x7F)).unwrap();
    assert_eq!(pos, 2);
    let code = enc.finalize();
    assert_eq!(code, vec![0xC3, 0xEB, 0x7F]);
    assert_eq!(code[pos - 1], 0xEB);
    assert_eq!(code.len(), pos + 1);
}

#[test]
fn jump_near_near_form_offset_names_four_bytes_after_opcode() {
    let mut enc = Assembler::new();
    let pos = enc.jump_near(Operand::imm32(0x11223344)).unwrap();
    assert_eq!(pos, 1);
    let code = enc.finalize();
    assert_eq!(code, vec![0xE9, 0x44, 0x33, 0x22, 0x11]);
    assert_eq!(code[pos - 1], 0xE9);
    assert_eq!(code.len(), pos + 4);
}

#[test]
fn jump_near_refuses_non_immediate_operands() {
    let mut enc = Assembler::new();
    assert_eq!(
        enc.jump_near(Operand::register(Registers::Rax)),
        Err(EncodeError::InvalidDestination(Operand::Register(0)))
    );
    assert_eq!(
        enc.jump_near(Operand::memory_and_offset(Registers::Rax, 0)),
        Err(EncodeError::InvalidDestination(Operand::MemoryAndOffset(
            0, 0
        )))
    );
    assert_eq!(
        enc.jump_near(Operand::imm64(0)),
        Err(EncodeError::InvalidDestination(Operand::Imm64(0)))
    );
    assert_eq!(enc.finalize(), Vec::<u8>::new());
}

#[test]
fn patch32_round_trips_through_the_buffer() {
    let mut enc = Assembler::new();
    let pos = enc.jump_near(Operand::imm32(0)).unwrap();
    enc.patch32(0xDEADBEEF, pos);
    let code = enc.finalize();
    assert_eq!(code, vec![0xE9, 0xEF, 0xBE, 0xAD, 0xDE]);
    let read_back: u32 = (code[pos] as u32)
        | ((code[pos + 1] as u32) << 8)
        | ((code[pos + 2] as u32) << 16)
        | ((code[pos + 3] as u32) << 24);
    assert_eq!(read_back, 0xDEADBEEF);
}

#[test]
fn patch32_leaves_surrounding_bytes_alone() {
    let mut enc = Assembler::new();
    enc.ret();
    let pos = enc.jump_near(Operand::imm32(0)).unwrap();
    enc.leave();
    enc.patch32(0x01020304, pos);
    assert_eq!(
        enc.finalize(),
        vec![0xC3, 0xE9, 0x04, 0x03, 0x02, 0x01, 0xC9]
    );
}

#[test]
fn enter_zero_emits_only_the_bare_prologue() {
    let mut enc = Assembler::new();
    enc.enter(0);
    assert_eq!(enc.finalize(), vec![0x48, 0x55, 0x48, 0x89, 0xE5]);
}

#[test]
fn enter_rounds_the_stack_size_up_to_sixteen_bytes() {
    let cases: [(u32, u8); 6] = [(1, 0x10), (15, 0x10), (16, 0x10), (17, 0x20), (31, 0x20), (32, 0x20)];
    for (requested, rounded) in cases.iter() {
        let mut enc = Assembler::new();
        enc.enter(*requested);
        assert_eq!(
            enc.finalize(),
            vec![
                0x48, 0x55, 0x48, 0x89, 0xE5, 0x48, 0x81, 0xEC, *rounded, 0x00, 0x00, 0x00
            ]
        );
    }
}

#[test]
fn enter_keeps_a_large_aligned_size() {
    let mut enc = Assembler::new();
    enc.enter(0x100);
    assert_eq!(
        enc.finalize(),
        vec![0x48, 0x55, 0x48, 0x89, 0xE5, 0x48, 0x81, 0xEC, 0x00, 0x01, 0x00, 0x00]
    );
}

#[test]
fn leave_and_ret_are_single_fixed_opcodes() {
    let mut enc = Assembler::new();
    enc.leave();
    enc.ret();
    assert_eq!(enc.finalize(), vec![0xC9, 0xC3]);
}

#[test]
fn push_register_and_immediate_forms() {
    let mut enc = Assembler::new();
    enc.push(Operand::register(Registers::Rcx)).unwrap();
    enc.push(Operand::register(Registers::R8)).unwrap();
    enc.push(Operand::imm32(0xBEEF)).unwrap();
    assert_eq!(
        enc.finalize(),
        vec![0x48, 0x51, 0x49, 0x50, 0x68, 0xEF, 0xBE, 0x00, 0x00]
    );
}

#[test]
fn push_refuses_memory_and_other_immediates() {
    let mut enc = Assembler::new();
    assert_eq!(
        enc.push(Operand::memory_and_offset(Registers::Rax, 8)),
        Err(EncodeError::InvalidSource(Operand::MemoryAndOffset(0, 8)))
    );
    assert_eq!(
        enc.push(Operand::imm64(1)),
        Err(EncodeError::InvalidSource(Operand::Imm64(1)))
    );
    assert_eq!(
        enc.push(Operand::Imm8(1)),
        Err(EncodeError::InvalidSource(Operand::Imm8(1)))
    );
    assert_eq!(enc.finalize(), Vec::<u8>::new());
}

#[test]
fn pop_register_form() {
    let mut enc = Assembler::new();
    enc.pop(Operand::register(Registers::Rax)).unwrap();
    enc.pop(Operand::register(Registers::R9)).unwrap();
    assert_eq!(enc.finalize(), vec![0x48, 0x58, 0x49, 0x59]);
}

#[test]
fn pop_refuses_memory_and_immediates() {
    let mut enc = Assembler::new();
    assert_eq!(
        enc.pop(Operand::memory_and_offset(Registers::Rax, 8)),
        Err(EncodeError::InvalidDestination(Operand::MemoryAndOffset(
            0, 8
        )))
    );
    assert_eq!(
        enc.pop(Operand::imm32(3)),
        Err(EncodeError::InvalidDestination(Operand::Imm32(3)))
    );
    assert_eq!(enc.finalize(), Vec::<u8>::new());
}

#[test]
fn golden_scenario_matches_the_opcode_table() {
    let mut enc = Assembler::new();
    enc.mov(
        Operand::register(Registers::Rax),
        Operand::register(Registers::Rcx),
    )
    .unwrap();
    enc.mov(
        Operand::register(Registers::Rax),
        Operand::register(Registers::R8),
    )
    .unwrap();
    enc.add(Operand::register(Registers::Rax), Operand::imm32(0xBEEF))
        .unwrap();
    assert_eq!(
        enc.finalize(),
        vec![
            0x48, 0x89, 0xC8, // mov rax <- rcx
            0x4C, 0x89, 0xC0, // mov rax <- r8: the extended source sets REX.R
            0x48, 0x81, 0xC0, 0xEF, 0xBE, 0x00, 0x00, // add rax, 0xBEEF
        ]
    );
}

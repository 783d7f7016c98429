//! Execution-level tests: single instructions through `step`, the fault
//! and halt paths, the BIOS and port layer, and end-to-end programs.

use px86::emulator::{Emulator, Fault, HaltReason, Register32, Register8};
use px86::instruction::{Action, StepOutcome};

/// Builds an emulator with the given bytes at address 0 and `eip` 0; the
/// stack pointer starts at the middle of a 1024-byte memory.
fn with_program(bytes: &[u8]) -> Emulator {
    let mut emu = Emulator::new(1024, 0, 512);
    emu.load_image(bytes, 0);
    emu
}

/// Runs until the machine halts, with a step bound so a broken loop fails
/// the test instead of hanging.
fn run(emu: &mut Emulator) -> HaltReason {
    for _ in 0..1000 {
        if emu.eip as usize >= emu.memory.len() {
            panic!("eip left memory");
        }
        match emu.step() {
            StepOutcome::Running(_) => {},
            StepOutcome::Halted(h) => return h,
        }
    }
    panic!("no halt within the step bound");
}

#[test]
fn scenario_mov_mov_add_ends_with_sum() {
    // MOV EAX, 5; MOV ECX, 3; ADD EAX, ECX (01 C8); then an unmapped byte.
    let mut emu = with_program(&[
        0xB8, 0x05, 0x00, 0x00, 0x00, 0xB9, 0x03, 0x00, 0x00, 0x00, 0x01, 0xC8, 0xF4,
    ]);
    let halt = run(&mut emu);
    assert!(matches!(halt, HaltReason::UnimplementedOpcode(0xF4)));
    assert_eq!(emu.get_register32(Register32::EAX.index()), 8);
    assert_eq!(emu.get_register32(Register32::ECX.index()), 3);
}

#[test]
fn scenario_push_imm8_pop_restores_esp() {
    // PUSH 0x2A; POP EAX; halt.
    let mut emu = with_program(&[0x6A, 0x2A, 0x58, 0xF4]);
    let esp_before = emu.get_register32(Register32::ESP.index());
    let halt = run(&mut emu);
    assert!(matches!(halt, HaltReason::UnimplementedOpcode(0xF4)));
    assert_eq!(emu.get_register32(Register32::EAX.index()), 0x2A);
    assert_eq!(emu.get_register32(Register32::ESP.index()), esp_before);
}

#[test]
fn scenario_cmp_eax_equal_sets_zero_clears_carry_overflow() {
    // CMP EAX, 10 with EAX preset to 10.
    let mut emu = with_program(&[0x3D, 0x0A, 0x00, 0x00, 0x00, 0xF4]);
    emu.set_register32(Register32::EAX.index(), 10);
    assert!(matches!(emu.step(), StepOutcome::Running(Action::Proceed)));
    assert!(emu.is_zero());
    assert!(!emu.is_carry());
    assert!(!emu.is_overflow());
}

#[test]
fn arbitrary_boot_sector_image_does_not_crash_the_core() {
    // A 512-byte image whose first bytes are no valid jump encoding: the
    // core simply halts on the first unmapped opcode.
    let image = [0u8; 512];
    let mut emu = Emulator::new(0x8000, 0x7C00, 0x7C00);
    emu.load_image(&image, 0x7C00);
    let halt = run(&mut emu);
    assert!(matches!(halt, HaltReason::UnimplementedOpcode(0x00)));
}

#[test]
fn unknown_opcode_halts_immediately_and_preserves_state() {
    let mut emu = with_program(&[0xF4]);
    emu.set_register32(Register32::EAX.index(), 0x1234);
    emu.set_register32(Register32::EDI.index(), 0x5678);
    let halt = run(&mut emu);
    assert!(matches!(halt, HaltReason::UnimplementedOpcode(0xF4)));
    assert_eq!(emu.get_register32(Register32::EAX.index()), 0x1234);
    assert_eq!(emu.get_register32(Register32::EDI.index()), 0x5678);
    assert_eq!(emu.eip, 0);
}

#[test]
fn inc_r32_increments_named_register() {
    // INC EDX (0x42) twice.
    let mut emu = with_program(&[0x42, 0x42, 0xF4]);
    run(&mut emu);
    assert_eq!(emu.get_register32(Register32::EDX.index()), 2);
}

#[test]
fn add_rm32_r32_memory_form_adds_into_memory() {
    // ADD [EAX], ECX (01 08).
    let mut emu = with_program(&[0x01, 0x08, 0xF4]);
    emu.set_register32(Register32::EAX.index(), 0x100);
    emu.set_register32(Register32::ECX.index(), 5);
    emu.set_memory32(0x100, 7);
    run(&mut emu);
    assert_eq!(emu.get_memory32(0x100), 12);
}

#[test]
fn mov_rm32_imm32_absolute_form_stores_immediate() {
    // MOV [0x00000200], 0xCAFEBABE (C7 05 addr imm).
    let mut emu = with_program(&[
        0xC7, 0x05, 0x00, 0x02, 0x00, 0x00, 0xBE, 0xBA, 0xFE, 0xCA, 0xF4,
    ]);
    run(&mut emu);
    assert_eq!(emu.get_memory32(0x200), 0xCAFEBABE);
}

#[test]
fn mov_r32_rm32_disp8_form_reads_memory() {
    // MOV ECX, [EBP + 0x10] (8B 4D 10).
    let mut emu = with_program(&[0x8B, 0x4D, 0x10, 0xF4]);
    emu.set_register32(Register32::EBP.index(), 0x1F0);
    emu.set_memory32(0x200, 0x31323334);
    run(&mut emu);
    assert_eq!(emu.get_register32(Register32::ECX.index()), 0x31323334);
}

#[test]
fn mov_rm8_r8_stores_the_byte_register() {
    // MOV AL, CL (88 C8) -- the byte store, not an increment.
    let mut emu = with_program(&[0x88, 0xC8, 0xF4]);
    emu.set_register32(Register32::EAX.index(), 0xAAAAAAAA);
    emu.set_register8(Register8::CL.index(), 0x7F);
    run(&mut emu);
    assert_eq!(emu.get_register8(Register8::AL.index()), 0x7F);
    assert_eq!(emu.get_register32(Register32::EAX.index()), 0xAAAAAA7F);
    // EIP moved past opcode and ModRM byte only, to the halt byte.
    assert_eq!(emu.eip, 2);
}

#[test]
fn mov_rm8_r8_memory_form_stores_one_byte_only() {
    // MOV [EAX], CL (88 08): only the addressed byte changes.
    let mut emu = with_program(&[0x88, 0x08, 0xF4]);
    emu.set_register32(px86::emulator::Register32::EAX.index(), 0x180);
    emu.set_register8(Register8::CL.index(), 0x66);
    emu.set_memory32(0x180, 0x11223344);
    run(&mut emu);
    assert_eq!(emu.get_memory32(0x180), 0x11223366);
}

#[test]
fn mov_r8_rm8_memory_form_loads_the_byte() {
    // MOV DL, [EAX] (8A 10).
    let mut emu = with_program(&[0x8A, 0x10, 0xF4]);
    emu.set_register32(Register32::EAX.index(), 0x180);
    emu.set_memory8(0x180, 0x5A);
    run(&mut emu);
    assert_eq!(emu.get_register8(Register8::DL.index()), 0x5A);
}

#[test]
fn mov_r8_imm8_writes_alias_only() {
    // MOV BH, 0x42 (B7 42).
    let mut emu = with_program(&[0xB7, 0x42, 0xF4]);
    emu.set_register32(Register32::EBX.index(), 0x11223344);
    run(&mut emu);
    assert_eq!(emu.get_register32(Register32::EBX.index()), 0x11224244);
}

#[test]
fn push_imm8_sign_extends() {
    // PUSH 0xFF pushes 0xFFFFFFFF; POP EAX recovers it.
    let mut emu = with_program(&[0x6A, 0xFF, 0x58, 0xF4]);
    run(&mut emu);
    assert_eq!(emu.get_register32(Register32::EAX.index()), 0xFFFF_FFFF);
}

#[test]
fn push_imm32_then_pop() {
    let mut emu = with_program(&[0x68, 0x78, 0x56, 0x34, 0x12, 0x5F, 0xF4]);
    run(&mut emu);
    assert_eq!(emu.get_register32(Register32::EDI.index()), 0x12345678);
}

#[test]
fn push_r32_writes_below_esp() {
    // PUSH EBX.
    let mut emu = with_program(&[0x53, 0xF4]);
    emu.set_register32(Register32::EBX.index(), 0xABCD);
    run(&mut emu);
    assert_eq!(emu.get_register32(Register32::ESP.index()), 508);
    assert_eq!(emu.get_memory32(508), 0xABCD);
}

#[test]
fn group_83_add_and_sub_immediates() {
    // ADD EAX, 5 (83 C0 05); SUB EAX, 3 (83 E8 03).
    let mut emu = with_program(&[0x83, 0xC0, 0x05, 0x83, 0xE8, 0x03, 0xF4]);
    run(&mut emu);
    assert_eq!(emu.get_register32(Register32::EAX.index()), 2);
}

#[test]
fn group_83_negative_immediate_sign_extends() {
    // ADD EAX, -1 (83 C0 FF).
    let mut emu = with_program(&[0x83, 0xC0, 0xFF, 0xF4]);
    emu.set_register32(Register32::EAX.index(), 10);
    run(&mut emu);
    assert_eq!(emu.get_register32(Register32::EAX.index()), 9);
}

#[test]
fn group_83_unknown_extension_halts() {
    // 83 /2 (ADC) is not mapped: 83 D0 01.
    let mut emu = with_program(&[0x83, 0xD0, 0x01]);
    let halt = run(&mut emu);
    assert!(matches!(
        halt,
        HaltReason::UnimplementedGroupExtension(0x83, 2)
    ));
    assert_eq!(emu.eip, 0);
}

#[test]
fn group_ff_increments_memory_operand() {
    // INC dword [EAX] (FF 00).
    let mut emu = with_program(&[0xFF, 0x00, 0xF4]);
    emu.set_register32(Register32::EAX.index(), 0x140);
    emu.set_memory32(0x140, 41);
    run(&mut emu);
    assert_eq!(emu.get_memory32(0x140), 42);
}

#[test]
fn group_ff_unknown_extension_halts() {
    // FF /1 (DEC) is not mapped: FF C8.
    let mut emu = with_program(&[0xFF, 0xC8]);
    let halt = run(&mut emu);
    assert!(matches!(
        halt,
        HaltReason::UnimplementedGroupExtension(0xFF, 1)
    ));
}

#[test]
fn sib_addressing_faults() {
    // ADD [SIB...], EAX: 01 04 00 -- mod 0, rm 4 asks for a SIB byte.
    let mut emu = with_program(&[0x01, 0x04, 0x00]);
    let halt = run(&mut emu);
    assert!(matches!(
        halt,
        HaltReason::Fault(Fault::SibAddressing(0))
    ));
    assert_eq!(emu.eip, 0);
}

#[test]
fn memory_operand_out_of_bounds_faults() {
    // MOV [EAX], ECX with EAX at the end of memory.
    let mut emu = with_program(&[0x89, 0x08]);
    emu.set_register32(Register32::EAX.index(), 1024);
    let halt = run(&mut emu);
    assert!(matches!(
        halt,
        HaltReason::Fault(Fault::MemoryOutOfBounds(1024))
    ));
}

#[test]
fn truncated_immediate_faults_code_out_of_bounds() {
    // A MOV r32, imm32 whose immediate runs past the end of memory.
    let mut emu = Emulator::new(3, 0, 0);
    emu.set_memory8(0, 0xB8);
    let halt = run(&mut emu);
    assert!(matches!(halt, HaltReason::Fault(Fault::CodeOutOfBounds)));
}

#[test]
fn conditional_jumps_follow_the_flags() {
    // JZ +2 over an INC EAX, then halt: taken when Zero is set.
    let mut emu = with_program(&[0x74, 0x01, 0x40, 0xF4]);
    emu.set_zero(true);
    run(&mut emu);
    assert_eq!(emu.get_register32(Register32::EAX.index()), 0);

    let mut emu2 = with_program(&[0x74, 0x01, 0x40, 0xF4]);
    emu2.set_zero(false);
    run(&mut emu2);
    assert_eq!(emu2.get_register32(Register32::EAX.index()), 1);
}

#[test]
fn jns_jumps_when_sign_clear() {
    let mut emu = with_program(&[0x79, 0x01, 0x40, 0xF4]);
    emu.set_sign(false);
    run(&mut emu);
    assert_eq!(emu.get_register32(Register32::EAX.index()), 0);

    let mut emu2 = with_program(&[0x79, 0x01, 0x40, 0xF4]);
    emu2.set_sign(true);
    run(&mut emu2);
    assert_eq!(emu2.get_register32(Register32::EAX.index()), 1);
}

#[test]
fn jl_jumps_when_sign_differs_from_overflow() {
    let mut emu = with_program(&[0x7C, 0x01, 0x40, 0xF4]);
    emu.set_sign(true);
    emu.set_overflow(false);
    run(&mut emu);
    assert_eq!(emu.get_register32(Register32::EAX.index()), 0);

    let mut emu2 = with_program(&[0x7C, 0x01, 0x40, 0xF4]);
    emu2.set_sign(true);
    emu2.set_overflow(true);
    run(&mut emu2);
    assert_eq!(emu2.get_register32(Register32::EAX.index()), 1);
}

#[test]
fn jle_jumps_on_zero_too() {
    let mut emu = with_program(&[0x7E, 0x01, 0x40, 0xF4]);
    emu.set_zero(true);
    run(&mut emu);
    assert_eq!(emu.get_register32(Register32::EAX.index()), 0);
}

#[test]
fn short_jump_with_negative_displacement() {
    // At 0: JMP +2 to 4; at 4: JMP -3 back to 3; at 3: halt.
    let mut emu = with_program(&[0xEB, 0x02, 0x00, 0xF4, 0xEB, 0xFD]);
    let halt = run(&mut emu);
    assert!(matches!(halt, HaltReason::UnimplementedOpcode(0xF4)));
    assert_eq!(emu.eip, 3);
}

#[test]
fn near_jump_moves_by_dword_displacement() {
    // JMP +3: lands at 8.
    let mut emu = with_program(&[0xE9, 0x03, 0x00, 0x00, 0x00, 0x00, 0x00, 0x00, 0xF4]);
    let halt = run(&mut emu);
    assert!(matches!(halt, HaltReason::UnimplementedOpcode(0xF4)));
    assert_eq!(emu.eip, 8);
}

#[test]
fn call_pushes_return_address_and_ret_comes_back() {
    // At 0: CALL +3 (to 8); at 5: halt; at 8: RET.
    let mut emu = with_program(&[0xE8, 0x03, 0x00, 0x00, 0x00, 0xF4, 0x00, 0x00, 0xC3]);
    let esp_before = emu.get_register32(Register32::ESP.index());
    let halt = run(&mut emu);
    assert!(matches!(halt, HaltReason::UnimplementedOpcode(0xF4)));
    assert_eq!(emu.eip, 5);
    assert_eq!(emu.get_register32(Register32::ESP.index()), esp_before);
}

#[test]
fn leave_restores_frame() {
    let mut emu = with_program(&[0xC9, 0xF4]);
    emu.set_register32(Register32::EBP.index(), 0x40);
    emu.set_memory32(0x40, 0x1234);
    run(&mut emu);
    assert_eq!(emu.get_register32(Register32::ESP.index()), 0x44);
    assert_eq!(emu.get_register32(Register32::EBP.index()), 0x1234);
}

#[test]
fn ret_to_zero_is_the_normal_end() {
    // RET with a zero return address on the stack: the sentinel halt.
    let mut emu = with_program(&[0xC3]);
    emu.push32(0);
    match emu.step() {
        StepOutcome::Halted(HaltReason::NormalEnd) => {},
        other => panic!("expected the normal end, got {:?}", other),
    }
    assert_eq!(emu.eip, 0);
}

#[test]
fn bios_teletype_yields_the_escape_sequence() {
    // INT 0x10 with AH = 0x0E, AL = 'A', BL = green (2).
    let mut emu = with_program(&[0xCD, 0x10, 0xF4]);
    emu.set_register8(Register8::AH.index(), 0x0E);
    emu.set_register8(Register8::AL.index(), 0x41);
    emu.set_register8(Register8::BL.index(), 0x02);
    match emu.step() {
        StepOutcome::Running(Action::Teletype(bytes)) => {
            assert_eq!(
                bytes,
                vec![0x1B, 0x5B, 0x30, 0x3B, 0x33, 0x32, 0x6D, 0x41, 0x1B, 0x5B, 0x30, 0x6D]
            );
        },
        other => panic!("expected a teletype action, got {:?}", other),
    }
    assert_eq!(emu.eip, 2);
}

#[test]
fn bios_teletype_bright_color_and_high_byte() {
    // Bright white (0x0F) and a character above 0x7F, which the sink
    // encodes as two bytes.
    let mut emu = with_program(&[0xCD, 0x10, 0xF4]);
    emu.set_register8(Register8::AH.index(), 0x0E);
    emu.set_register8(Register8::AL.index(), 0xE9);
    emu.set_register8(Register8::BL.index(), 0x0F);
    match emu.step() {
        StepOutcome::Running(Action::Teletype(bytes)) => {
            assert_eq!(
                bytes,
                vec![0x1B, 0x5B, 0x31, 0x3B, 0x33, 0x37, 0x6D, 0xC3, 0xA9, 0x1B, 0x5B, 0x30, 0x6D]
            );
        },
        other => panic!("expected a teletype action, got {:?}", other),
    }
}

#[test]
fn unknown_interrupt_is_reported_and_execution_continues() {
    let mut emu = with_program(&[0xCD, 0x21, 0xF4]);
    assert!(matches!(
        emu.step(),
        StepOutcome::Running(Action::UnknownInterrupt(0x21))
    ));
    let halt = run(&mut emu);
    assert!(matches!(halt, HaltReason::UnimplementedOpcode(0xF4)));
}

#[test]
fn unknown_video_function_is_reported() {
    let mut emu = with_program(&[0xCD, 0x10, 0xF4]);
    emu.set_register8(Register8::AH.index(), 0x13);
    assert!(matches!(
        emu.step(),
        StepOutcome::Running(Action::UnknownVideoFunction(0x13))
    ));
}

#[test]
fn out_hands_back_port_and_byte() {
    let mut emu = with_program(&[0xEE, 0xF4]);
    emu.set_register32(Register32::EDX.index(), 0x000003F8);
    emu.set_register8(Register8::AL.index(), 0x58);
    assert!(matches!(
        emu.step(),
        StepOutcome::Running(Action::Output(0x03F8, 0x58))
    ));
    assert_eq!(emu.eip, 1);
}

#[test]
fn in_requests_a_byte_then_stores_it_in_al() {
    let mut emu = with_program(&[0xEC, 0xF4]);
    emu.set_register32(Register32::EDX.index(), 0x03F8);
    assert!(matches!(
        emu.step(),
        StepOutcome::Running(Action::InputRequest(0x03F8))
    ));
    // The instruction has not completed yet.
    assert_eq!(emu.eip, 0);
    emu.in_al_dx(0x31);
    assert_eq!(emu.get_register8(Register8::AL.index()), 0x31);
    assert_eq!(emu.eip, 1);
}

#[test]
fn in_from_an_unknown_port_is_fatal() {
    let mut emu = with_program(&[0xEC]);
    emu.set_register32(Register32::EDX.index(), 0x123);
    assert!(matches!(
        emu.step(),
        StepOutcome::Halted(HaltReason::Fault(Fault::PortReadUnsupported(0x123)))
    ));
}

#[test]
fn cmp_r32_rm32_compares_register_pair() {
    // CMP ECX, EAX (3B C8).
    let mut emu = with_program(&[0x3B, 0xC8, 0xF4]);
    emu.set_register32(Register32::ECX.index(), 3);
    emu.set_register32(Register32::EAX.index(), 7);
    emu.step();
    assert!(emu.is_carry());
    assert!(!emu.is_zero());
}

#[test]
fn cmp_al_imm8_compares_the_byte_register() {
    // CMP AL, 0x20 (3C 20).
    let mut emu = with_program(&[0x3C, 0x20, 0xF4]);
    emu.set_register8(Register8::AL.index(), 0x20);
    emu.step();
    assert!(emu.is_zero());
    assert!(!emu.is_carry());
    assert_eq!(emu.eip, 2);
}

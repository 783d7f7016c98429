//! Decoder-level tests: ModRM parsing, effective addresses, and the
//! dispatch table.

use px86::emulator::{Emulator, Fault, Register32};
use px86::instruction::{decode_opcode, Opcode};
use px86::modrm::Displacement;

#[test]
fn modrm_register_only_advances_one_byte() {
    // 0xC0: mod = 3, reg = 0, rm = 0 -- register operand, no displacement.
    let mut emu = Emulator::new(16, 0, 8);
    emu.set_memory8(0, 0xC0);
    let m = emu.parse_modrm().unwrap();
    assert_eq!(m.m, 3);
    assert_eq!(m.opereg, 0);
    assert_eq!(m.rm, 0);
    assert!(matches!(m.disp, Displacement::Absent));
    assert_eq!(emu.eip, 1);
}

#[test]
fn modrm_disp8_yields_base_plus_displacement() {
    // 0x45 0x10: mod = 1, reg = 0, rm = 5 -- EBP + 0x10, eip advances by 2.
    let mut emu = Emulator::new(16, 0, 8);
    emu.set_memory8(0, 0x45);
    emu.set_memory8(1, 0x10);
    emu.set_register32(Register32::EBP.index(), 0x200);
    let m = emu.parse_modrm().unwrap();
    assert_eq!(m.m, 1);
    assert_eq!(m.rm, 5);
    assert!(matches!(m.disp, Displacement::Byte(0x10)));
    assert_eq!(emu.eip, 2);
    assert_eq!(emu.calc_memory_address(&m), Ok(0x210));
}

#[test]
fn modrm_negative_disp8_subtracts() {
    // 0x48 0xFC: mod = 1, reg = 1, rm = 0 -- EAX - 4.
    let mut emu = Emulator::new(16, 0, 8);
    emu.set_memory8(0, 0x48);
    emu.set_memory8(1, 0xFC);
    emu.set_register32(Register32::EAX.index(), 0x100);
    let m = emu.parse_modrm().unwrap();
    assert!(matches!(m.disp, Displacement::Byte(-4)));
    assert_eq!(emu.calc_memory_address(&m), Ok(0xFC));
}

#[test]
fn modrm_disp32_advances_five_bytes() {
    // 0x80 ...: mod = 2, reg = 0, rm = 0 -- EAX + disp32.
    let mut emu = Emulator::new(16, 0, 8);
    emu.set_memory8(0, 0x80);
    emu.set_memory8(1, 0x10);
    emu.set_memory8(2, 0x20);
    emu.set_memory8(3, 0x00);
    emu.set_memory8(4, 0x00);
    emu.set_register32(Register32::EAX.index(), 1);
    let m = emu.parse_modrm().unwrap();
    assert_eq!(m.m, 2);
    assert!(matches!(m.disp, Displacement::Dword(0x2010)));
    assert_eq!(emu.eip, 5);
    assert_eq!(emu.calc_memory_address(&m), Ok(0x2011));
}

#[test]
fn modrm_absolute_form_uses_raw_displacement() {
    // 0x05 ...: mod = 0, reg = 0, rm = 5 -- absolute 32-bit address.
    let mut emu = Emulator::new(16, 0, 8);
    emu.set_memory8(0, 0x05);
    emu.set_memory8(1, 0x44);
    emu.set_memory8(2, 0x33);
    emu.set_memory8(3, 0x22);
    emu.set_memory8(4, 0x11);
    let m = emu.parse_modrm().unwrap();
    assert_eq!(emu.eip, 5);
    assert_eq!(emu.calc_memory_address(&m), Ok(0x11223344));
}

#[test]
fn modrm_sib_form_fails_loudly() {
    // 0x04: mod = 0, rm = 4 -- needs a SIB byte, which is unimplemented.
    let mut emu = Emulator::new(16, 0, 8);
    emu.set_memory8(0, 0x04);
    emu.set_memory8(1, 0x00);
    let m = emu.parse_modrm().unwrap();
    // The SIB byte was consumed by the decoder ...
    assert_eq!(emu.eip, 2);
    // ... but computing an address through it fails.
    assert_eq!(emu.calc_memory_address(&m), Err(Fault::SibAddressing(0)));
}

#[test]
fn modrm_register_operand_has_no_address() {
    let mut emu = Emulator::new(16, 0, 8);
    emu.set_memory8(0, 0xC1);
    let m = emu.parse_modrm().unwrap();
    assert_eq!(emu.calc_memory_address(&m), Err(Fault::RegisterAddressing));
}

#[test]
fn modrm_truncated_sequence_is_code_out_of_bounds() {
    // mod = 1 asks for a displacement byte that is past the end of memory.
    let mut emu = Emulator::new(2, 1, 0);
    emu.set_memory8(1, 0x45);
    assert_eq!(emu.parse_modrm(), Err(Fault::CodeOutOfBounds));
    assert_eq!(emu.eip, 1);
}

#[test]
fn dispatch_table_maps_the_documented_opcodes() {
    assert_eq!(decode_opcode(0x01), Some(Opcode::AddRm32R32));
    assert_eq!(decode_opcode(0x3B), Some(Opcode::CmpR32Rm32));
    assert_eq!(decode_opcode(0x3C), Some(Opcode::CmpAlImm8));
    assert_eq!(decode_opcode(0x3D), Some(Opcode::CmpEaxImm32));
    for b in 0x40..=0x47 {
        assert_eq!(decode_opcode(b), Some(Opcode::IncR32));
    }
    for b in 0x50..=0x57 {
        assert_eq!(decode_opcode(b), Some(Opcode::PushR32));
    }
    for b in 0x58..=0x5F {
        assert_eq!(decode_opcode(b), Some(Opcode::PopR32));
    }
    assert_eq!(decode_opcode(0x68), Some(Opcode::PushImm32));
    assert_eq!(decode_opcode(0x6A), Some(Opcode::PushImm8));
    assert_eq!(decode_opcode(0x74), Some(Opcode::Jz));
    assert_eq!(decode_opcode(0x79), Some(Opcode::Jns));
    assert_eq!(decode_opcode(0x83), Some(Opcode::Code83));
    assert_eq!(decode_opcode(0x88), Some(Opcode::MovRm8R8));
    for b in 0xB0..=0xB7 {
        assert_eq!(decode_opcode(b), Some(Opcode::MovR8Imm8));
    }
    for b in 0xB8..=0xBF {
        assert_eq!(decode_opcode(b), Some(Opcode::MovR32Imm32));
    }
    assert_eq!(decode_opcode(0xC3), Some(Opcode::Ret));
    assert_eq!(decode_opcode(0xC7), Some(Opcode::MovRm32Imm32));
    assert_eq!(decode_opcode(0xC9), Some(Opcode::Leave));
    assert_eq!(decode_opcode(0xCD), Some(Opcode::Swi));
    assert_eq!(decode_opcode(0xE8), Some(Opcode::CallRel32));
    assert_eq!(decode_opcode(0xE9), Some(Opcode::NearJump));
    assert_eq!(decode_opcode(0xEB), Some(Opcode::ShortJump));
    assert_eq!(decode_opcode(0xEC), Some(Opcode::InAlDx));
    assert_eq!(decode_opcode(0xEE), Some(Opcode::OutDxAl));
    assert_eq!(decode_opcode(0xFF), Some(Opcode::CodeFf));
    // A few bytes with no entry.
    assert_eq!(decode_opcode(0x00), None);
    assert_eq!(decode_opcode(0xF4), None);
    assert_eq!(decode_opcode(0x90), None);
}

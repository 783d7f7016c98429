//! State-level tests: construction, memory and code access, register
//! aliasing, flags, and the stack.

use px86::emulator::{Emulator, Register32, Register8};
use px86::emulator_function::Eflag;

#[test]
fn new_emulator_is_zeroed_with_esp_set() {
    let emu = Emulator::new(1024, 0x7C00, 0x7C00);
    for i in 0..8 {
        if i == 4 {
            assert_eq!(emu.get_register32(i), 0x7C00);
        } else {
            assert_eq!(emu.get_register32(i), 0);
        }
    }
    assert_eq!(emu.eip, 0x7C00);
    assert_eq!(emu.eflags, 0);
    assert_eq!(emu.memory.len(), 1024);
    assert!(emu.memory.iter().all(|&b| b == 0));
}

#[test]
fn register32_indices_follow_encoding_order() {
    assert_eq!(Register32::EAX.index(), 0);
    assert_eq!(Register32::ECX.index(), 1);
    assert_eq!(Register32::EDX.index(), 2);
    assert_eq!(Register32::EBX.index(), 3);
    assert_eq!(Register32::ESP.index(), 4);
    assert_eq!(Register32::EBP.index(), 5);
    assert_eq!(Register32::ESI.index(), 6);
    assert_eq!(Register32::EDI.index(), 7);
    assert_eq!(Register8::AL.index(), 0);
    assert_eq!(Register8::BL.index(), 3);
    assert_eq!(Register8::AH.index(), 4);
    assert_eq!(Register8::BH.index(), 7);
}

#[test]
fn load_image_copies_bytes_verbatim() {
    let mut emu = Emulator::new(0x8000, 0x7C00, 0x7C00);
    let image = vec![0xB8, 0x05, 0x00, 0x00, 0x00, 0xF4];
    emu.load_image(&image, 0x7C00);
    assert_eq!(emu.get_memory8(0x7C00), 0xB8);
    assert_eq!(emu.get_memory8(0x7C05), 0xF4);
    assert_eq!(emu.get_memory8(0x7BFF), 0);
    assert_eq!(emu.get_memory8(0x7C06), 0);
}

#[test]
fn memory32_is_little_endian() {
    let mut emu = Emulator::new(64, 0, 32);
    emu.set_memory32(10, 0x11223344);
    assert_eq!(emu.get_memory8(10), 0x44);
    assert_eq!(emu.get_memory8(11), 0x33);
    assert_eq!(emu.get_memory8(12), 0x22);
    assert_eq!(emu.get_memory8(13), 0x11);
    assert_eq!(emu.get_memory32(10), 0x11223344);
}

#[test]
fn code_readers_are_relative_to_eip() {
    let mut emu = Emulator::new(64, 4, 32);
    emu.set_memory8(4, 0xB8);
    emu.set_memory8(5, 0x78);
    emu.set_memory8(6, 0x56);
    emu.set_memory8(7, 0x34);
    emu.set_memory8(8, 0x12);
    assert_eq!(emu.get_code8(0), 0xB8);
    assert_eq!(emu.get_code32(1), 0x12345678);
    assert_eq!(emu.get_sign_code32(1), 0x12345678);
    // Reading never advances eip.
    assert_eq!(emu.eip, 4);
}

#[test]
fn sign_code8_reads_twos_complement() {
    let mut emu = Emulator::new(16, 0, 8);
    emu.set_memory8(0, 0xFF);
    emu.set_memory8(1, 0x7F);
    assert_eq!(emu.get_sign_code8(0), -1);
    assert_eq!(emu.get_sign_code8(1), 127);
}

#[test]
fn register8_aliasing_writes_only_its_slice() {
    let mut emu = Emulator::new(16, 0, 8);
    emu.set_register32(Register32::EAX.index(), 0x11223344);
    emu.set_register8(Register8::AL.index(), 0xAB);
    assert_eq!(emu.get_register32(Register32::EAX.index()) & 0xFF, 0xAB);
    assert_eq!(emu.get_register32(Register32::EAX.index()), 0x112233AB);
    emu.set_register8(Register8::AH.index(), 0xCD);
    assert_eq!(emu.get_register32(Register32::EAX.index()), 0x1122CDAB);
    assert_eq!(emu.get_register8(Register8::AL.index()), 0xAB);
    assert_eq!(emu.get_register8(Register8::AH.index()), 0xCD);
}

#[test]
fn register8_high_aliases_share_storage_with_low() {
    let mut emu = Emulator::new(16, 0, 8);
    emu.set_register32(Register32::EBX.index(), 0xAABBCCDD);
    assert_eq!(emu.get_register8(Register8::BL.index()), 0xDD);
    assert_eq!(emu.get_register8(Register8::BH.index()), 0xCC);
    emu.set_register8(Register8::BH.index(), 0x99);
    assert_eq!(emu.get_register32(Register32::EBX.index()), 0xAABB99DD);
}

#[test]
fn push_pop_round_trip_preserves_esp() {
    let mut emu = Emulator::new(256, 0, 128);
    emu.push32(0xDEADBEEF);
    assert_eq!(emu.get_register32(Register32::ESP.index()), 124);
    assert_eq!(emu.pop32(), 0xDEADBEEF);
    assert_eq!(emu.get_register32(Register32::ESP.index()), 128);
}

#[test]
fn flag_masks_match_eflags_bits() {
    assert_eq!(Eflag::Carry.map_to_u16(), 0x1);
    assert_eq!(Eflag::Zero.map_to_u16(), 0x40);
    assert_eq!(Eflag::Sign.map_to_u16(), 0x80);
    assert_eq!(Eflag::Overflow.map_to_u16(), 0x800);
}

#[test]
fn flag_setters_touch_one_flag_each() {
    let mut emu = Emulator::new(16, 0, 8);
    emu.set_carry(true);
    emu.set_zero(true);
    emu.set_sign(true);
    emu.set_overflow(true);
    assert_eq!(emu.eflags, 0x8C1);
    emu.set_zero(false);
    assert!(emu.is_carry());
    assert!(!emu.is_zero());
    assert!(emu.is_sign());
    assert!(emu.is_overflow());
    assert_eq!(emu.eflags, 0x881);
}

#[test]
fn update_eflags_sub_equal_operands_sets_zero_only_of_czo() {
    let mut emu = Emulator::new(16, 0, 8);
    let result = (10u64).wrapping_sub(10u64);
    emu.update_eflags_sub(10, 10, result);
    assert!(emu.is_zero());
    assert!(!emu.is_carry());
    assert!(!emu.is_overflow());
    // Sign is defined as the negation of result bit 31 in this core.
    assert!(emu.is_sign());
}

#[test]
fn update_eflags_sub_borrow_sets_carry() {
    let mut emu = Emulator::new(16, 0, 8);
    let result = (5u64).wrapping_sub(10u64);
    emu.update_eflags_sub(5, 10, result);
    assert!(emu.is_carry());
    assert!(!emu.is_zero());
    assert!(!emu.is_overflow());
    // Result bit 31 is set, so the (negated) Sign flag is clear.
    assert!(!emu.is_sign());
}

#[test]
fn update_eflags_sub_signed_overflow() {
    let mut emu = Emulator::new(16, 0, 8);
    // i32::MIN - 1 leaves the signed 32-bit range.
    let result = (0x8000_0000u64).wrapping_sub(1);
    emu.update_eflags_sub(0x8000_0000, 1, result);
    assert!(emu.is_overflow());
    assert!(!emu.is_carry());
    assert!(!emu.is_zero());
}

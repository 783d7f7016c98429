//! Core state of the emulated processor: the eight 32-bit general-purpose
//! registers, the modeled EFLAGS bits, the linear byte memory and the
//! instruction pointer, together with the mathematical view (`Machine`) that
//! every contract in the crate is stated over.

use vstd::prelude::*;

verus! {

/// Symbolic names of the eight 32-bit general-purpose registers, in x86
/// encoding order.
#[derive(Clone, Copy, Debug, PartialEq, Eq, Structural)]
pub enum Register32 {
    EAX,
    ECX,
    EDX,
    EBX,
    ESP,
    EBP,
    ESI,
    EDI,
}

/// Symbolic names of the eight 8-bit register aliases.  AL/CL/DL/BL alias the
/// low byte of EAX/ECX/EDX/EBX; AH/CH/DH/BH alias bits 8..=15 of the same four
/// registers.  There is no separate 8-bit storage.
#[derive(Clone, Copy, Debug, PartialEq, Eq, Structural)]
pub enum Register8 {
    AL,
    CL,
    DL,
    BL,
    AH,
    CH,
    DH,
    BH,
}

impl Register32 {
    /// Encoding index of the register, 0 through 7.
    pub open spec fn as_index(self) -> int {
        match self {
            Register32::EAX => 0,
            Register32::ECX => 1,
            Register32::EDX => 2,
            Register32::EBX => 3,
            Register32::ESP => 4,
            Register32::EBP => 5,
            Register32::ESI => 6,
            Register32::EDI => 7,
        }
    }

    /// Encoding index of the register as an executable value.
    pub fn index(self) -> (r: i32)
        ensures
            r as int == self.as_index(),
    {
        match self {
            Register32::EAX => 0,
            Register32::ECX => 1,
            Register32::EDX => 2,
            Register32::EBX => 3,
            Register32::ESP => 4,
            Register32::EBP => 5,
            Register32::ESI => 6,
            Register32::EDI => 7,
        }
    }
}

impl Register8 {
    /// Encoding index of the 8-bit register, 0 through 7.
    pub open spec fn as_index(self) -> int {
        match self {
            Register8::AL => 0,
            Register8::CL => 1,
            Register8::DL => 2,
            Register8::BL => 3,
            Register8::AH => 4,
            Register8::CH => 5,
            Register8::DH => 6,
            Register8::BH => 7,
        }
    }

    /// Encoding index of the 8-bit register as an executable value.
    pub fn index(self) -> (r: i32)
        ensures
            r as int == self.as_index(),
    {
        match self {
            Register8::AL => 0,
            Register8::CL => 1,
            Register8::DL => 2,
            Register8::BL => 3,
            Register8::AH => 4,
            Register8::CH => 5,
            Register8::DH => 6,
            Register8::BH => 7,
        }
    }
}

/// A run-ending condition detected while decoding or executing one
/// instruction.  The processor state is left as it was before the faulting
/// instruction started.
#[derive(Clone, Copy, Debug, PartialEq, Eq, Structural)]
pub enum Fault {
    /// An instruction needed code bytes at or beyond the end of memory.
    CodeOutOfBounds,
    /// A data access at the given address would reach past the end of memory.
    MemoryOutOfBounds(u32),
    /// The addressing form requires a SIB byte (`mod != 3`, `rm == 4`), which
    /// this design does not decode; the payload is the `mod` field.
    SibAddressing(u8),
    /// An effective memory address was requested for a register operand
    /// (`mod == 3`).
    RegisterAddressing,
    /// An `IN` instruction read from a port with no defined behavior.
    PortReadUnsupported(u16),
}

/// Why the execution loop stopped.
#[derive(Clone, Copy, Debug, PartialEq, Eq, Structural)]
pub enum HaltReason {
    /// The byte at `eip` is not a mapped opcode.
    UnimplementedOpcode(u8),
    /// A group opcode carried an unmapped extension field; the payload is the
    /// leading opcode byte and the extension value.
    UnimplementedGroupExtension(u8, u8),
    /// `eip` reached the zero sentinel: the program is finished.
    NormalEnd,
    /// A fault surfaced while executing an instruction.
    Fault(Fault),
}

/// The mathematical value of a processor state: the contracts of this crate
/// speak about this view.  `regs[4]` is ESP, following the encoding order of
/// [`Register32`].
#[verifier::ext_equal]
pub ghost struct Machine {
    pub regs: Seq<u32>,
    pub eflags: u16,
    pub mem: Seq<u8>,
    pub eip: u32,
}

/// The emulated processor: register file, flags, linear memory and
/// instruction pointer.  Created once with a memory size, an initial `eip`
/// and an initial ESP.
#[derive(Debug)]
pub struct Emulator {
    pub registers: Vec<u32>,
    pub eflags: u16,
    pub memory: Vec<u8>,
    pub eip: u32,
}

impl View for Emulator {
    type V = Machine;

    open spec fn view(&self) -> Machine {
        Machine {
            regs: self.registers@,
            eflags: self.eflags,
            mem: self.memory@,
            eip: self.eip,
        }
    }
}

impl Emulator {
    /// Well-formedness: eight registers, a memory whose addresses fit in 32
    /// bits, and no flag bit outside the four modeled ones.
    pub open spec fn wf(self) -> bool {
        &&& self@.regs.len() == 8
        &&& self@.mem.len() <= 0xFFFF_FFFF
        &&& flags_wf(self@.eflags)
    }
}

impl Machine {
    /// The code byte `off` bytes past the instruction pointer.
    pub open spec fn code8(self, off: int) -> u8 {
        self.mem[self.eip + off]
    }

    /// The little-endian 32-bit code word `off` bytes past the instruction
    /// pointer.
    pub open spec fn code32(self, off: int) -> u32 {
        read32(self.mem, self.eip + off)
    }
}

/// Little-endian assembly of four bytes into a 32-bit word.
pub open spec fn le32(b0: u8, b1: u8, b2: u8, b3: u8) -> u32 {
    (b0 as u32) | ((b1 as u32) << 8) | ((b2 as u32) << 16) | ((b3 as u32) << 24)
}

/// Byte `k` (little-endian, 0 through 3) of a 32-bit word.
pub open spec fn byte_of(v: u32, k: int) -> u8 {
    if k == 0 {
        (v & 0xFF) as u8
    } else if k == 1 {
        ((v >> 8) & 0xFF) as u8
    } else if k == 2 {
        ((v >> 16) & 0xFF) as u8
    } else {
        ((v >> 24) & 0xFF) as u8
    }
}

/// The little-endian 32-bit word at address `a` of a byte memory.
pub open spec fn read32(mem: Seq<u8>, a: int) -> u32 {
    le32(mem[a], mem[a + 1], mem[a + 2], mem[a + 3])
}

/// The byte memory after storing `v` little-endian at address `a`.
pub open spec fn write32(mem: Seq<u8>, a: int, v: u32) -> Seq<u8> {
    mem.update(a, byte_of(v, 0)).update(a + 1, byte_of(v, 1)).update(a + 2, byte_of(v, 2)).update(
        a + 3,
        byte_of(v, 3),
    )
}

/// The 8-bit register `i` (0 through 7) read under the aliasing rule: indices
/// 0..=3 are the low byte of registers 0..=3, indices 4..=7 are bits 8..=15
/// of the same registers.
pub open spec fn reg8_of(regs: Seq<u32>, i: int) -> u8 {
    if i < 4 {
        (regs[i] & 0xFF) as u8
    } else {
        ((regs[i - 4] >> 8) & 0xFF) as u8
    }
}

/// The index of the 32-bit register that 8-bit register `i` aliases.
pub open spec fn reg8_parent(i: int) -> int {
    if i < 4 {
        i
    } else {
        i - 4
    }
}

/// The register file after writing `v` to 8-bit register `i` under the
/// aliasing rule; only the aliased 8-bit slice of the parent register
/// changes.
pub open spec fn set_reg8(regs: Seq<u32>, i: int, v: u8) -> Seq<u32> {
    if i < 4 {
        regs.update(i, (regs[i] & 0xFFFF_FF00) | (v as u32))
    } else {
        regs.update(i - 4, (regs[i - 4] & 0xFFFF_00FF) | ((v as u32) << 8))
    }
}

/// The value of a code byte reinterpreted as a two's-complement signed
/// 8-bit integer.
pub open spec fn signed8(b: u8) -> int {
    if b < 0x80 {
        b as int
    } else {
        b - 256
    }
}

/// A code byte sign-extended to 32 bits.
pub open spec fn sext8(b: u8) -> u32 {
    if b < 0x80 {
        b as u32
    } else {
        (b + 0xFFFF_FF00) as u32
    }
}

/// The value of a 32-bit word reinterpreted as a two's-complement signed
/// integer.
pub open spec fn signed(v: u32) -> int {
    if v < 0x8000_0000 {
        v as int
    } else {
        v - 0x1_0000_0000
    }
}

/// Carry flag: bit 0 of the flags word.
pub open spec fn carry(e: u16) -> bool {
    e & 0x1 == 0x1
}

/// Zero flag: bit 6 of the flags word.
pub open spec fn zero(e: u16) -> bool {
    e & 0x40 == 0x40
}

/// Sign flag: bit 7 of the flags word.
pub open spec fn sign(e: u16) -> bool {
    e & 0x80 == 0x80
}

/// Overflow flag: bit 11 of the flags word.
pub open spec fn overflow(e: u16) -> bool {
    e & 0x800 == 0x800
}

/// Every flag bit other than Carry, Zero, Sign and Overflow is zero.
pub open spec fn flags_wf(e: u16) -> bool {
    e & 0xF73E == 0
}

/// The flags word with the bits of `m` set when `v` is true and cleared when
/// `v` is false.
pub open spec fn set_bits(e: u16, m: u16, v: bool) -> u16 {
    if v {
        e | m
    } else {
        e & !m
    }
}

} // verus!

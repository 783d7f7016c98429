//! Construction of the processor state and its elementary operations:
//! code-stream reads, register and memory access (8- and 32-bit), the stack,
//! and the flag word updated by subtraction-class instructions.

use vstd::pervasive::VecAdditionalExecFns;
use vstd::prelude::*;

use crate::emulator::{
    byte_of, carry, flags_wf, le32, overflow, read32, reg8_of, reg8_parent, set_bits, set_reg8,
    sign, signed, signed8, write32, zero, Emulator, Machine, Register32,
};

verus! {

/// The four modeled bits of the EFLAGS word.
#[derive(Clone, Copy, Debug, PartialEq, Eq, Structural)]
pub enum Eflag {
    Carry,
    Zero,
    Sign,
    Overflow,
}

impl Eflag {
    /// The single-bit mask of the flag inside the 16-bit flags word.
    pub open spec fn flag_mask(self) -> u16 {
        match self {
            Eflag::Carry => 0x1,
            Eflag::Zero => 0x40,
            Eflag::Sign => 0x80,
            Eflag::Overflow => 0x800,
        }
    }

    /// The single-bit mask of the flag as an executable value.
    pub fn map_to_u16(&self) -> (r: u16)
        ensures
            r == self.flag_mask(),
    {
        match self {
            Eflag::Carry => 0x1,
            Eflag::Zero => 0x40,
            Eflag::Sign => 0x80,
            Eflag::Overflow => 0x800,
        }
    }
}

/// Setting or clearing one modeled flag bit changes that flag alone and
/// keeps the unmodeled bits zero.
proof fn lemma_set_flag(e: u16, m: u16, v: bool)
    by (bit_vector)
    requires
        m == 0x1 || m == 0x40 || m == 0x80 || m == 0x800,
    ensures
        carry(set_bits(e, m, v)) == (if m == 0x1 {
            v
        } else {
            carry(e)
        }),
        zero(set_bits(e, m, v)) == (if m == 0x40 {
            v
        } else {
            zero(e)
        }),
        sign(set_bits(e, m, v)) == (if m == 0x80 {
            v
        } else {
            sign(e)
        }),
        overflow(set_bits(e, m, v)) == (if m == 0x800 {
            v
        } else {
            overflow(e)
        }),
        flags_wf(e) ==> flags_wf(set_bits(e, m, v)),
{
}

/// A cleared flags word is well formed and has every flag unset.
proof fn lemma_flags_zero()
    by (bit_vector)
    ensures
        flags_wf(0u16),
        !carry(0u16),
        !zero(0u16),
        !sign(0u16),
        !overflow(0u16),
{
}

/// Each byte extracted from a 32-bit word fits in eight bits.
proof fn lemma_mask_byte(v: u32)
    by (bit_vector)
    ensures
        v & 0xFF < 0x100,
        (v >> 8) & 0xFF < 0x100,
        (v >> 16) & 0xFF < 0x100,
        (v >> 24) & 0xFF < 0x100,
{
}

/// Reassembling the four little-endian bytes of a word gives the word back.
proof fn lemma_le32_bytes(v: u32)
    by (bit_vector)
    ensures
        le32(byte_of(v, 0), byte_of(v, 1), byte_of(v, 2), byte_of(v, 3)) == v,
{
}

/// Reading a `u8` as a two's-complement `i8`.
proof fn lemma_u8_to_i8(b: u8)
    by (bit_vector)
    ensures
        b < 0x80 ==> b as i8 == b,
        b >= 0x80 ==> b as i8 == b - 256,
{
}

/// Reading a `u32` as a two's-complement `i32`.
proof fn lemma_u32_to_i32(v: u32)
    by (bit_vector)
    ensures
        v < 0x8000_0000 ==> v as i32 == v,
        v >= 0x8000_0000 ==> v as i32 == v - 0x1_0000_0000,
{
}

impl Emulator {
    /// A fresh processor: zeroed registers except ESP, zeroed memory of the
    /// given size, cleared flags, and the given instruction pointer.
    pub fn new(size: usize, eip: u32, esp: u32) -> (r: Emulator)
        requires
            size <= 0xFFFF_FFFF,
        ensures
            r.wf(),
            r@.regs.len() == 8,
            forall|i: int| 0 <= i < 8 && i != 4 ==> r@.regs[i] == 0,
            r@.regs[4] == esp,
            r@.eflags == 0,
            r@.mem.len() == size,
            forall|i: int| 0 <= i < size ==> r@.mem[i] == 0,
            r@.eip == eip,
    {
        let mut registers: Vec<u32> = Vec::new();
        let mut k: usize = 0;
        while k < 8
            invariant
                registers@.len() == k,
                k <= 8,
                forall|i: int| 0 <= i < k ==> registers@[i] == 0,
            decreases 8 - k,
        {
            registers.push(0);
            k = k + 1;
        }
        registers.set(4, esp);

        let mut memory: Vec<u8> = Vec::new();
        let mut j: usize = 0;
        while j < size
            invariant
                memory@.len() == j,
                j <= size,
                forall|i: int| 0 <= i < j ==> memory@[i] == 0,
            decreases size - j,
        {
            memory.push(0);
            j = j + 1;
        }

        proof {
            lemma_flags_zero();
        }
        Emulator { registers, eflags: 0, memory, eip }
    }

    /// Copies a program image verbatim into memory at the given load
    /// address, leaving everything else as it was.
    pub fn load_image(&mut self, image: &[u8], address: u32)
        requires
            old(self).wf(),
            address + image@.len() <= old(self)@.mem.len(),
        ensures
            final(self).wf(),
            final(self)@.mem.len() == old(self)@.mem.len(),
            forall|i: int|
                0 <= i < image@.len() ==> final(self)@.mem[address + i] == image@[i],
            forall|i: int|
                0 <= i < old(self)@.mem.len() && !(address <= i < address + image@.len())
                    ==> final(self)@.mem[i] == old(self)@.mem[i],
            final(self)@.regs == old(self)@.regs,
            final(self)@.eflags == old(self)@.eflags,
            final(self)@.eip == old(self)@.eip,
    {
        let n = image.len();
        let mut k: usize = 0;
        while k < n
            invariant
                0 <= k <= n,
                n == image@.len(),
                self.wf(),
                address + n <= self@.mem.len(),
                self@.mem.len() == old(self)@.mem.len(),
                forall|i: int| 0 <= i < k ==> self@.mem[address + i] == image@[i],
                forall|i: int|
                    0 <= i < old(self)@.mem.len() && !(address <= i < address + k)
                        ==> self@.mem[i] == old(self)@.mem[i],
                self@.regs == old(self)@.regs,
                self@.eflags == old(self)@.eflags,
                self@.eip == old(self)@.eip,
            decreases n - k,
        {
            let b = image[k];
            self.memory.set(address as usize + k, b);
            k = k + 1;
        }
    }

    /// The code byte `index` bytes past the instruction pointer.
    pub fn get_code8(&self, index: i32) -> (r: u8)
        requires
            self.wf(),
            0 <= index,
            self@.eip + index < self@.mem.len(),
        ensures
            r == self@.code8(index as int),
    {
        self.memory[(self.eip + index as u32) as usize]
    }

    /// The code byte `index` bytes past the instruction pointer, read as a
    /// signed 8-bit value.
    pub fn get_sign_code8(&self, index: i32) -> (r: i8)
        requires
            self.wf(),
            0 <= index,
            self@.eip + index < self@.mem.len(),
        ensures
            r as int == signed8(self@.code8(index as int)),
    {
        let b = self.get_code8(index);
        proof {
            lemma_u8_to_i8(b);
        }
        #[verifier::truncate] (b as i8)
    }

    /// The little-endian 32-bit code word `index` bytes past the instruction
    /// pointer.
    pub fn get_code32(&self, index: i32) -> (r: u32)
        requires
            self.wf(),
            0 <= index,
            self@.eip + index + 4 <= self@.mem.len(),
        ensures
            r == self@.code32(index as int),
    {
        let a = self.eip + index as u32;
        let b0 = self.memory[a as usize];
        let b1 = self.memory[(a + 1) as usize];
        let b2 = self.memory[(a + 2) as usize];
        let b3 = self.memory[(a + 3) as usize];
        (b0 as u32) | ((b1 as u32) << 8) | ((b2 as u32) << 16) | ((b3 as u32) << 24)
    }

    /// The little-endian 32-bit code word `index` bytes past the instruction
    /// pointer, read as a signed value.
    pub fn get_sign_code32(&self, index: i32) -> (r: i32)
        requires
            self.wf(),
            0 <= index,
            self@.eip + index + 4 <= self@.mem.len(),
        ensures
            r as int == signed(self@.code32(index as int)),
    {
        let v = self.get_code32(index);
        proof {
            lemma_u32_to_i32(v);
        }
        #[verifier::truncate] (v as i32)
    }

    /// The 32-bit register with the given encoding index.
    pub fn get_register32(&self, index: i32) -> (r: u32)
        requires
            self.wf(),
            0 <= index < 8,
        ensures
            r == self@.regs[index as int],
    {
        self.registers[index as usize]
    }

    /// Writes the 32-bit register with the given encoding index.
    pub fn set_register32(&mut self, index: i32, value: u32)
        requires
            old(self).wf(),
            0 <= index < 8,
        ensures
            final(self).wf(),
            final(self)@.regs == old(self)@.regs.update(index as int, value),
            final(self)@.eflags == old(self)@.eflags,
            final(self)@.mem == old(self)@.mem,
            final(self)@.eip == old(self)@.eip,
    {
        self.registers.set(index as usize, value);
    }

    /// The 8-bit register with the given encoding index, read under the
    /// aliasing rule.
    pub fn get_register8(&self, index: i32) -> (r: u8)
        requires
            self.wf(),
            0 <= index < 8,
        ensures
            r == reg8_of(self@.regs, index as int),
    {
        if index < 4 {
            let v = self.registers[index as usize];
            proof {
                lemma_mask_byte(v);
            }
            (v & 0xFF) as u8
        } else {
            let v = self.registers[(index - 4) as usize];
            proof {
                lemma_mask_byte(v);
            }
            ((v >> 8) & 0xFF) as u8
        }
    }

    /// Writes the 8-bit register with the given encoding index; only the
    /// aliased 8-bit slice of the parent 32-bit register changes.
    pub fn set_register8(&mut self, index: i32, value: u8)
        requires
            old(self).wf(),
            0 <= index < 8,
        ensures
            final(self).wf(),
            final(self)@.regs == set_reg8(old(self)@.regs, index as int, value),
            final(self)@.eflags == old(self)@.eflags,
            final(self)@.mem == old(self)@.mem,
            final(self)@.eip == old(self)@.eip,
    {
        if index < 4 {
            let r = self.registers[index as usize] & 0xFFFF_FF00;
            self.registers.set(index as usize, r | (value as u32));
        } else {
            let r = self.registers[(index - 4) as usize] & 0xFFFF_00FF;
            self.registers.set((index - 4) as usize, r | ((value as u32) << 8));
        }
    }

    /// The memory byte at the given address.
    pub fn get_memory8(&self, address: u32) -> (r: u8)
        requires
            self.wf(),
            address < self@.mem.len(),
        ensures
            r == self@.mem[address as int],
    {
        self.memory[address as usize]
    }

    /// The little-endian 32-bit word at the given address.
    pub fn get_memory32(&self, address: u32) -> (r: u32)
        requires
            self.wf(),
            address + 4 <= self@.mem.len(),
        ensures
            r == read32(self@.mem, address as int),
    {
        let b0 = self.memory[address as usize];
        let b1 = self.memory[(address + 1) as usize];
        let b2 = self.memory[(address + 2) as usize];
        let b3 = self.memory[(address + 3) as usize];
        (b0 as u32) | ((b1 as u32) << 8) | ((b2 as u32) << 16) | ((b3 as u32) << 24)
    }

    /// Writes one memory byte.
    pub fn set_memory8(&mut self, address: u32, value: u8)
        requires
            old(self).wf(),
            address < old(self)@.mem.len(),
        ensures
            final(self).wf(),
            final(self)@.mem == old(self)@.mem.update(address as int, value),
            final(self)@.regs == old(self)@.regs,
            final(self)@.eflags == old(self)@.eflags,
            final(self)@.eip == old(self)@.eip,
    {
        self.memory.set(address as usize, value);
    }

    /// Stores a 32-bit word little-endian at the given address.
    pub fn set_memory32(&mut self, address: u32, value: u32)
        requires
            old(self).wf(),
            address + 4 <= old(self)@.mem.len(),
        ensures
            final(self).wf(),
            final(self)@.mem == write32(old(self)@.mem, address as int, value),
            final(self)@.regs == old(self)@.regs,
            final(self)@.eflags == old(self)@.eflags,
            final(self)@.eip == old(self)@.eip,
    {
        proof {
            lemma_mask_byte(value);
        }
        self.set_memory8(address, (value & 0xFF) as u8);
        self.set_memory8(address + 1, ((value >> 8) & 0xFF) as u8);
        self.set_memory8(address + 2, ((value >> 16) & 0xFF) as u8);
        self.set_memory8(address + 3, ((value >> 24) & 0xFF) as u8);
    }

    /// Pushes a 32-bit value: ESP moves down by four and the value is stored
    /// at the new ESP.
    pub fn push32(&mut self, value: u32)
        requires
            old(self).wf(),
            4 <= old(self)@.regs[4],
            old(self)@.regs[4] <= old(self)@.mem.len(),
        ensures
            final(self).wf(),
            final(self)@ == spec_push32(old(self)@, value),
    {
        let address = self.get_register32(Register32::ESP.index()) - 4;
        self.set_register32(Register32::ESP.index(), address);
        self.set_memory32(address, value);
        proof {
            assert(self@ =~= spec_push32(old(self)@, value));
        }
    }

    /// Pops a 32-bit value: the word at ESP is returned and ESP moves up by
    /// four.
    pub fn pop32(&mut self) -> (r: u32)
        requires
            old(self).wf(),
            old(self)@.regs[4] + 4 <= old(self)@.mem.len(),
        ensures
            final(self).wf(),
            final(self)@ == spec_pop32(old(self)@),
            r == read32(old(self)@.mem, old(self)@.regs[4] as int),
    {
        let address = self.get_register32(Register32::ESP.index());
        let ret = self.get_memory32(address);
        self.set_register32(Register32::ESP.index(), address + 4);
        proof {
            assert(self@ =~= spec_pop32(old(self)@));
        }
        ret
    }

    /// Sets or clears the Carry flag, leaving every other flag as it was.
    pub fn set_carry(&mut self, is_carry: bool)
        requires
            old(self).wf(),
        ensures
            final(self).wf(),
            final(self)@.eflags == set_bits(old(self)@.eflags, 0x1, is_carry),
            carry(final(self)@.eflags) == is_carry,
            zero(final(self)@.eflags) == zero(old(self)@.eflags),
            sign(final(self)@.eflags) == sign(old(self)@.eflags),
            overflow(final(self)@.eflags) == overflow(old(self)@.eflags),
            final(self)@.regs == old(self)@.regs,
            final(self)@.mem == old(self)@.mem,
            final(self)@.eip == old(self)@.eip,
    {
        proof {
            lemma_set_flag(self.eflags, 0x1, is_carry);
        }
        let m = Eflag::Carry.map_to_u16();
        if is_carry {
            self.eflags = self.eflags | m;
        } else {
            self.eflags = self.eflags & !m;
        }
    }

    /// Sets or clears the Zero flag, leaving every other flag as it was.
    pub fn set_zero(&mut self, is_zero: bool)
        requires
            old(self).wf(),
        ensures
            final(self).wf(),
            final(self)@.eflags == set_bits(old(self)@.eflags, 0x40, is_zero),
            zero(final(self)@.eflags) == is_zero,
            carry(final(self)@.eflags) == carry(old(self)@.eflags),
            sign(final(self)@.eflags) == sign(old(self)@.eflags),
            overflow(final(self)@.eflags) == overflow(old(self)@.eflags),
            final(self)@.regs == old(self)@.regs,
            final(self)@.mem == old(self)@.mem,
            final(self)@.eip == old(self)@.eip,
    {
        proof {
            lemma_set_flag(self.eflags, 0x40, is_zero);
        }
        let m = Eflag::Zero.map_to_u16();
        if is_zero {
            self.eflags = self.eflags | m;
        } else {
            self.eflags = self.eflags & !m;
        }
    }

    /// Sets or clears the Sign flag, leaving every other flag as it was.
    pub fn set_sign(&mut self, is_sign: bool)
        requires
            old(self).wf(),
        ensures
            final(self).wf(),
            final(self)@.eflags == set_bits(old(self)@.eflags, 0x80, is_sign),
            sign(final(self)@.eflags) == is_sign,
            carry(final(self)@.eflags) == carry(old(self)@.eflags),
            zero(final(self)@.eflags) == zero(old(self)@.eflags),
            overflow(final(self)@.eflags) == overflow(old(self)@.eflags),
            final(self)@.regs == old(self)@.regs,
            final(self)@.mem == old(self)@.mem,
            final(self)@.eip == old(self)@.eip,
    {
        proof {
            lemma_set_flag(self.eflags, 0x80, is_sign);
        }
        let m = Eflag::Sign.map_to_u16();
        if is_sign {
            self.eflags = self.eflags | m;
        } else {
            self.eflags = self.eflags & !m;
        }
    }

    /// Sets or clears the Overflow flag, leaving every other flag as it was.
    pub fn set_overflow(&mut self, is_overflow: bool)
        requires
            old(self).wf(),
        ensures
            final(self).wf(),
            final(self)@.eflags == set_bits(old(self)@.eflags, 0x800, is_overflow),
            overflow(final(self)@.eflags) == is_overflow,
            carry(final(self)@.eflags) == carry(old(self)@.eflags),
            zero(final(self)@.eflags) == zero(old(self)@.eflags),
            sign(final(self)@.eflags) == sign(old(self)@.eflags),
            final(self)@.regs == old(self)@.regs,
            final(self)@.mem == old(self)@.mem,
            final(self)@.eip == old(self)@.eip,
    {
        proof {
            lemma_set_flag(self.eflags, 0x800, is_overflow);
        }
        let m = Eflag::Overflow.map_to_u16();
        if is_overflow {
            self.eflags = self.eflags | m;
        } else {
            self.eflags = self.eflags & !m;
        }
    }

    /// Whether the Carry flag is set.
    pub fn is_carry(&self) -> (r: bool)
        ensures
            r == carry(self@.eflags),
    {
        let m = Eflag::Carry.map_to_u16();
        (self.eflags & m) == m
    }

    /// Whether the Zero flag is set.
    pub fn is_zero(&self) -> (r: bool)
        ensures
            r == zero(self@.eflags),
    {
        let m = Eflag::Zero.map_to_u16();
        (self.eflags & m) == m
    }

    /// Whether the Sign flag is set.
    pub fn is_sign(&self) -> (r: bool)
        ensures
            r == sign(self@.eflags),
    {
        let m = Eflag::Sign.map_to_u16();
        (self.eflags & m) == m
    }

    /// Whether the Overflow flag is set.
    pub fn is_overflow(&self) -> (r: bool)
        ensures
            r == overflow(self@.eflags),
    {
        let m = Eflag::Overflow.map_to_u16();
        (self.eflags & m) == m
    }

    /// Updates all four flags from a subtraction of `v2` from `v1` whose
    /// 64-bit result (borrow bit preserved) is `result`.  Sign is defined
    /// in this core as the negation of result bit 31, where real x86
    /// hardware uses the bit itself.
    pub fn update_eflags_sub(&mut self, v1: u32, v2: u32, result: u64)
        requires
            old(self).wf(),
        ensures
            final(self).wf(),
            final(self)@.eflags == flags_after_sub(old(self)@.eflags, v1, v2, result),
            carry(final(self)@.eflags) == sub_carry(result),
            zero(final(self)@.eflags) == sub_zero(result),
            sign(final(self)@.eflags) == sub_sign(result),
            overflow(final(self)@.eflags) == sub_overflow(v1, v2, result),
            final(self)@.regs == old(self)@.regs,
            final(self)@.mem == old(self)@.mem,
            final(self)@.eip == old(self)@.eip,
    {
        let sign1 = (v1 >> 31) != 0;
        let sign2 = (v2 >> 31) != 0;
        let signr = ((result >> 31) & 1) != 0;

        self.set_carry((result >> 32) != 0);
        self.set_zero(result == 0);
        self.set_sign(!signr);
        self.set_overflow((sign1 != sign2) && (sign1 != signr));
    }
}

/// The sign bit of a 32-bit operand.
pub open spec fn sign_bit32(v: u32) -> bool {
    v >> 31 != 0
}

/// Carry after a subtraction: the 64-bit result has bits above bit 31.
pub open spec fn sub_carry(result: u64) -> bool {
    result >> 32 != 0
}

/// Zero after a subtraction: the 64-bit result is zero.
pub open spec fn sub_zero(result: u64) -> bool {
    result == 0
}

/// Sign after a subtraction: the negation of result bit 31.  Real x86
/// hardware uses the bit itself; this core deliberately negates it.
pub open spec fn sub_sign(result: u64) -> bool {
    (result >> 31) & 1 == 0
}

/// Overflow after a subtraction: the operands have different sign bits and
/// the result's bit 31 differs from the first operand's sign bit.
pub open spec fn sub_overflow(v1: u32, v2: u32, result: u64) -> bool {
    sign_bit32(v1) != sign_bit32(v2) && sign_bit32(v1) != ((result >> 31) & 1 != 0)
}

/// The whole flags word after [`Emulator::update_eflags_sub`]: the four
/// modeled bits written in order from the subtraction result, every other
/// bit kept.
pub open spec fn flags_after_sub(e0: u16, v1: u32, v2: u32, result: u64) -> u16 {
    set_bits(
        set_bits(
            set_bits(set_bits(e0, 0x1, sub_carry(result)), 0x40, sub_zero(result)),
            0x80,
            sub_sign(result),
        ),
        0x800,
        sub_overflow(v1, v2, result),
    )
}

/// The 64-bit result of `a - b` with the borrow preserved: the subtraction
/// carried out modulo two to the sixty-fourth.
pub open spec fn sub64(a: u32, b: u32) -> u64 {
    if a >= b {
        (a - b) as u64
    } else {
        (a - b + 0x1_0000_0000_0000_0000) as u64
    }
}

/// The state after pushing a 32-bit value: ESP lowered by four, the value
/// stored little-endian at the new ESP.
pub open spec fn spec_push32(m: Machine, value: u32) -> Machine {
    Machine {
        regs: m.regs.update(4, (m.regs[4] - 4) as u32),
        mem: write32(m.mem, m.regs[4] - 4, value),
        ..m
    }
}

/// The state after popping a 32-bit value: ESP raised by four.
pub open spec fn spec_pop32(m: Machine) -> Machine {
    Machine { regs: m.regs.update(4, (m.regs[4] + 4) as u32), ..m }
}

/// A push immediately followed by a pop hands back the pushed value and
/// leaves ESP exactly where it started.
pub proof fn lemma_push_pop_round_trip(m: Machine, value: u32)
    requires
        m.regs.len() == 8,
        4 <= m.regs[4],
        m.regs[4] <= m.mem.len(),
        m.mem.len() <= 0xFFFF_FFFF,
    ensures
        read32(spec_push32(m, value).mem, spec_push32(m, value).regs[4] as int) == value,
        spec_pop32(spec_push32(m, value)).regs[4] == m.regs[4],
    {
        lemma_le32_bytes(value);
        assert(spec_push32(m, value).regs[4] == m.regs[4] - 4);
    }

/// Writing an 8-bit register alias stores exactly that byte and nothing
/// else: reading the alias back gives the value, the other 24 bits of the
/// parent 32-bit register keep their old contents, and every other
/// register is untouched.
pub proof fn lemma_register8_aliasing(regs: Seq<u32>, i: int, v: u8)
    requires
        regs.len() == 8,
        0 <= i < 8,
    ensures
        reg8_of(set_reg8(regs, i, v), i) == v,
        i < 4 ==> set_reg8(regs, i, v)[i] & 0xFFFF_FF00 == regs[i] & 0xFFFF_FF00,
        4 <= i ==> set_reg8(regs, i, v)[i - 4] & 0xFFFF_00FF == regs[i - 4] & 0xFFFF_00FF,
        forall|j: int| 0 <= j < 8 && j != reg8_parent(i) ==> set_reg8(regs, i, v)[j] == regs[j],
    {
        let x = regs[reg8_parent(i)];
        assert((((x & 0xFFFF_FF00) | (v as u32)) & 0xFF) == v as u32 && (((x & 0xFFFF_FF00) | (
        v as u32)) & 0xFFFF_FF00) == (x & 0xFFFF_FF00) && ((((x & 0xFFFF_00FF) | ((v as u32) << 8))
            >> 8) & 0xFF) == v as u32 && (((x & 0xFFFF_00FF) | ((v as u32) << 8)) & 0xFFFF_00FF) == (
        x & 0xFFFF_00FF)) by (bit_vector);
    }

/// The flags produced for the 64-bit-widened result of `a - b` match the
/// comparison they encode: Zero exactly when the operands are equal, Carry
/// exactly when the subtraction borrows (unsigned `a < b`), and Overflow
/// exactly when the subtraction leaves the signed 32-bit range.
pub proof fn lemma_sub_flags(a: u32, b: u32)
    ensures
        sub_zero(sub64(a, b)) <==> a == b,
        sub_carry(sub64(a, b)) <==> a < b,
        sub_overflow(a, b, sub64(a, b)) <==> (signed(a) - signed(b) > 0x7FFF_FFFF || signed(a)
            - signed(b) < -0x8000_0000),
    {
        let r = sub64(a, b);
        assert((r >> 32 != 0) == (r >= 0x1_0000_0000)) by (bit_vector);
        assert((a >> 31 != 0) == (a >= 0x8000_0000) && (b >> 31 != 0) == (b >= 0x8000_0000))
            by (bit_vector);
        if a >= b {
            assert(((r >> 31) & 1 != 0) == (r >= 0x8000_0000)) by (bit_vector)
                requires
                    r <= 0xFFFF_FFFFu64,
            ;
        } else {
            assert(((r >> 31) & 1 != 0) == (r >= 0xFFFF_FFFF_8000_0000)) by (bit_vector)
                requires
                    r >= 0xFFFF_FFFF_0000_0001u64,
            ;
        }
    }

} // verus!

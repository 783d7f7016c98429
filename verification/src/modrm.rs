//! The ModRM addressing byte: decoding `mod`/`reg`/`rm` with an optional SIB
//! byte and an optional signed displacement, computing effective memory
//! addresses, and the register-or-memory operand accessors built on top.

use vstd::prelude::*;

use crate::emulator::{read32, reg8_of, set_reg8, write32, Emulator, Fault};

verus! {

/// A decoded displacement, carrying its own width.
#[derive(Clone, Copy, Debug, PartialEq, Eq, Structural)]
pub enum Displacement {
    /// The addressing form has no displacement.
    Absent,
    /// An 8-bit signed displacement (`mod == 1`).
    Byte(i8),
    /// A 32-bit signed displacement (`mod == 2`, or the absolute form
    /// `mod == 0 && rm == 5`).
    Dword(i32),
}

/// One decoded ModRM byte sequence.  `opereg` is the middle three bits: a
/// register number for most instructions, an opcode-group extension for
/// group opcodes; never both at once.
#[derive(Clone, Copy, Debug, PartialEq, Eq, Structural)]
pub struct ModRM {
    pub m: u8,
    pub opereg: u8,
    pub rm: u8,
    pub sib: u8,
    pub disp: Displacement,
}

impl ModRM {
    /// Field ranges forced by the decoding: two, three and three bits.
    pub open spec fn wf(self) -> bool {
        self.m <= 3 && self.opereg <= 7 && self.rm <= 7
    }
}

/// The `mod` field: the top two bits of the ModRM byte.
pub open spec fn mod_of(b: u8) -> u8 {
    (b & 0xC0) >> 6
}

/// The `reg`/opcode-extension field: bits 3 through 5 of the ModRM byte.
pub open spec fn reg_of(b: u8) -> u8 {
    (b & 0x38) >> 3
}

/// The `rm` field: the low three bits of the ModRM byte.
pub open spec fn rm_of(b: u8) -> u8 {
    b & 0x07
}

/// Whether a SIB byte follows the ModRM byte.
pub open spec fn has_sib(b: u8) -> bool {
    mod_of(b) != 3 && rm_of(b) == 4
}

/// How many displacement bytes follow: four for `mod == 2` and for the
/// absolute form `mod == 0 && rm == 5`, one for `mod == 1`, none otherwise.
pub open spec fn disp_size(b: u8) -> int {
    if (mod_of(b) == 0 && rm_of(b) == 5) || mod_of(b) == 2 {
        4
    } else if mod_of(b) == 1 {
        1
    } else {
        0
    }
}

/// Total length in bytes of the ModRM byte sequence starting with byte `b`.
pub open spec fn modrm_size(b: u8) -> int {
    1 + (if has_sib(b) {
        1int
    } else {
        0
    }) + disp_size(b)
}

/// Whether a whole ModRM byte sequence lies inside memory at position `pos`.
pub open spec fn modrm_ok(mem: Seq<u8>, pos: int) -> bool {
    0 <= pos && pos + modrm_size(mem[pos]) <= mem.len()
}

/// The value of a 32-bit word reinterpreted as a signed 32-bit integer.
pub open spec fn as_i32(v: u32) -> i32 {
    if v < 0x8000_0000 {
        v as i32
    } else {
        (v - 0x1_0000_0000) as i32
    }
}

/// The value of a byte reinterpreted as a signed 8-bit integer.
pub open spec fn as_i8(b: u8) -> i8 {
    if b < 0x80 {
        b as i8
    } else {
        (b - 0x100) as i8
    }
}

/// The ModRM value decoded from memory at position `pos`.
pub open spec fn modrm_at(mem: Seq<u8>, pos: int) -> ModRM {
    let b = mem[pos];
    let dpos = pos + 1 + (if has_sib(b) {
        1int
    } else {
        0
    });
    ModRM {
        m: mod_of(b),
        opereg: reg_of(b),
        rm: rm_of(b),
        sib: if has_sib(b) {
            mem[pos + 1]
        } else {
            0
        },
        disp: if disp_size(b) == 4 {
            Displacement::Dword(as_i32(read32(mem, dpos)))
        } else if disp_size(b) == 1 {
            Displacement::Byte(as_i8(mem[dpos]))
        } else {
            Displacement::Absent
        },
    }
}

/// The displacement as a 32-bit value, sign-extended.
pub open spec fn disp_val(d: Displacement) -> u32 {
    match d {
        Displacement::Absent => 0,
        Displacement::Byte(b) => if b >= 0 {
            b as u32
        } else {
            (b + 0x1_0000_0000) as u32
        },
        Displacement::Dword(w) => if w >= 0 {
            w as u32
        } else {
            (w + 0x1_0000_0000) as u32
        },
    }
}

/// The effective memory address of a ModRM memory operand: the raw
/// displacement for the absolute form `mod == 0 && rm == 5`, otherwise the
/// `rm`-selected register plus the displacement, modulo two to the
/// thirty-second.
pub open spec fn ea(regs: Seq<u32>, x: ModRM) -> u32 {
    if x.m == 0 && x.rm == 5 {
        disp_val(x.disp)
    } else {
        regs[x.rm as int].wrapping_add(disp_val(x.disp))
    }
}

/// Whether the `rm`-selected 32-bit operand can be read or written: always
/// for a register operand, and for a memory operand when the form is not a
/// SIB form and the whole word lies inside memory.
pub open spec fn rm32_ok(regs: Seq<u32>, mem: Seq<u8>, x: ModRM) -> bool {
    x.m == 3 || (x.rm != 4 && ea(regs, x) + 4 <= mem.len())
}

/// The fault raised when a ModRM memory operand cannot be accessed: the SIB
/// form, or an address out of bounds.
pub open spec fn rm_fault(regs: Seq<u32>, x: ModRM) -> Fault {
    if x.rm == 4 {
        Fault::SibAddressing(x.m)
    } else {
        Fault::MemoryOutOfBounds(ea(regs, x))
    }
}

/// The value of the `rm`-selected 32-bit operand.
pub open spec fn rm32_of(regs: Seq<u32>, mem: Seq<u8>, x: ModRM) -> u32 {
    if x.m == 3 {
        regs[x.rm as int]
    } else {
        read32(mem, ea(regs, x) as int)
    }
}

/// The register file after writing the `rm`-selected 32-bit operand.
pub open spec fn set_rm32_regs(regs: Seq<u32>, x: ModRM, v: u32) -> Seq<u32> {
    if x.m == 3 {
        regs.update(x.rm as int, v)
    } else {
        regs
    }
}

/// The memory after writing the `rm`-selected 32-bit operand.
pub open spec fn set_rm32_mem(regs: Seq<u32>, mem: Seq<u8>, x: ModRM, v: u32) -> Seq<u8> {
    if x.m == 3 {
        mem
    } else {
        write32(mem, ea(regs, x) as int, v)
    }
}

/// Whether the `rm`-selected 8-bit operand can be read or written.
pub open spec fn rm8_ok(regs: Seq<u32>, mem: Seq<u8>, x: ModRM) -> bool {
    x.m == 3 || (x.rm != 4 && ea(regs, x) < mem.len())
}

/// The value of the `rm`-selected 8-bit operand: a register alias for
/// `mod == 3`, a memory byte otherwise.
pub open spec fn rm8_of(regs: Seq<u32>, mem: Seq<u8>, x: ModRM) -> u8 {
    if x.m == 3 {
        reg8_of(regs, x.rm as int)
    } else {
        mem[ea(regs, x) as int]
    }
}

/// The register file after writing the `rm`-selected 8-bit operand.
pub open spec fn set_rm8_regs(regs: Seq<u32>, x: ModRM, v: u8) -> Seq<u32> {
    if x.m == 3 {
        set_reg8(regs, x.rm as int, v)
    } else {
        regs
    }
}

/// The memory after writing the `rm`-selected 8-bit operand.
pub open spec fn set_rm8_mem(regs: Seq<u32>, mem: Seq<u8>, x: ModRM, v: u8) -> Seq<u8> {
    if x.m == 3 {
        mem
    } else {
        mem.update(ea(regs, x) as int, v)
    }
}

/// The three bit fields of a ModRM byte stay inside their widths.
proof fn lemma_modrm_bounds(b: u8)
    by (bit_vector)
    ensures
        mod_of(b) <= 3,
        reg_of(b) <= 7,
        rm_of(b) <= 7,
{
}

/// Sign extension of an `i8` to 32 bits as a bit pattern.
proof fn lemma_i8_to_u32(b: i8)
    by (bit_vector)
    ensures
        b >= 0 ==> b as u32 == b,
        b < 0 ==> b as u32 == b + 0x1_0000_0000,
{
}

/// An `i32` reinterpreted as a 32-bit pattern.
proof fn lemma_i32_to_u32(w: i32)
    by (bit_vector)
    ensures
        w >= 0 ==> w as u32 == w,
        w < 0 ==> w as u32 == w + 0x1_0000_0000,
{
}

/// The 32-bit displacement or immediate as the raw pattern it was read
/// from.
pub fn disp_to_u32(d: &Displacement) -> (r: u32)
    ensures
        r == disp_val(*d),
{
    match d {
        Displacement::Absent => 0,
        Displacement::Byte(b) => {
            proof {
                lemma_i8_to_u32(*b);
            }
            #[verifier::truncate] (*b as u32)
        },
        Displacement::Dword(w) => {
            proof {
                lemma_i32_to_u32(*w);
            }
            #[verifier::truncate] (*w as u32)
        },
    }
}

impl Emulator {
    /// Decodes the ModRM byte sequence at `eip` and advances `eip` past it
    /// (past the SIB byte when present, and past the displacement).  When
    /// the sequence would run past the end of memory, nothing changes and
    /// the code-out-of-bounds fault is returned.
    pub fn parse_modrm(&mut self) -> (r: Result<ModRM, Fault>)
        requires
            old(self).wf(),
        ensures
            final(self).wf(),
            final(self)@.regs == old(self)@.regs,
            final(self)@.mem == old(self)@.mem,
            final(self)@.eflags == old(self)@.eflags,
            modrm_ok(old(self)@.mem, old(self)@.eip as int) ==> {
                &&& r == Ok::<ModRM, Fault>(modrm_at(old(self)@.mem, old(self)@.eip as int))
                &&& final(self)@.eip == old(self)@.eip + modrm_size(
                    old(self)@.mem[old(self)@.eip as int],
                )
                &&& r.unwrap().wf()
            },
            !modrm_ok(old(self)@.mem, old(self)@.eip as int) ==> {
                &&& r == Err::<ModRM, Fault>(Fault::CodeOutOfBounds)
                &&& final(self)@.eip == old(self)@.eip
            },
    {
        let len = self.memory.len();
        if (self.eip as usize) >= len {
            return Err(Fault::CodeOutOfBounds);
        }
        let code = self.get_code8(0);
        proof {
            lemma_modrm_bounds(code);
        }
        let m = (code & 0xC0) >> 6;
        let opereg = (code & 0x38) >> 3;
        let rm = code & 0x07;

        let sib_len: u32 = if m != 3 && rm == 4 {
            1
        } else {
            0
        };
        let dsize: u32 = if (m == 0 && rm == 5) || m == 2 {
            4
        } else if m == 1 {
            1
        } else {
            0
        };
        let total: u32 = 1 + sib_len + dsize;
        if (len as u64) - (self.eip as u64) < total as u64 {
            return Err(Fault::CodeOutOfBounds);
        }

        let sib = if m != 3 && rm == 4 {
            self.get_code8(1)
        } else {
            0
        };
        let doff: i32 = if m != 3 && rm == 4 {
            2
        } else {
            1
        };
        let disp = if dsize == 4 {
            Displacement::Dword(self.get_sign_code32(doff))
        } else if dsize == 1 {
            Displacement::Byte(self.get_sign_code8(doff))
        } else {
            Displacement::Absent
        };

        self.eip = self.eip + total;
        Ok(ModRM { m, opereg, rm, sib, disp })
    }

    /// The effective memory address of a ModRM memory operand.  Register
    /// operands (`mod == 3`) have no address, and SIB forms (`rm == 4`) are
    /// not decoded: both fail loudly.
    pub fn calc_memory_address(&self, modrm: &ModRM) -> (r: Result<u32, Fault>)
        requires
            self.wf(),
            modrm.wf(),
        ensures
            modrm.m == 3 ==> r == Err::<u32, Fault>(Fault::RegisterAddressing),
            modrm.m != 3 && modrm.rm == 4 ==> r == Err::<u32, Fault>(
                Fault::SibAddressing(modrm.m),
            ),
            modrm.m != 3 && modrm.rm != 4 ==> r == Ok::<u32, Fault>(ea(self@.regs, *modrm)),
    {
        if modrm.m == 3 {
            Err(Fault::RegisterAddressing)
        } else if modrm.rm == 4 {
            Err(Fault::SibAddressing(modrm.m))
        } else if modrm.m == 0 && modrm.rm == 5 {
            Ok(disp_to_u32(&modrm.disp))
        } else {
            let base = self.get_register32(modrm.rm as i32);
            Ok(base.wrapping_add(disp_to_u32(&modrm.disp)))
        }
    }

    /// Reads the `rm`-selected 32-bit operand: a register for `mod == 3`,
    /// the word at the effective address otherwise.
    pub fn get_rm32(&self, modrm: &ModRM) -> (r: Result<u32, Fault>)
        requires
            self.wf(),
            modrm.wf(),
        ensures
            rm32_ok(self@.regs, self@.mem, *modrm) ==> r == Ok::<u32, Fault>(
                rm32_of(self@.regs, self@.mem, *modrm),
            ),
            modrm.m != 3 && modrm.rm == 4 ==> r == Err::<u32, Fault>(
                Fault::SibAddressing(modrm.m),
            ),
            modrm.m != 3 && modrm.rm != 4 && ea(self@.regs, *modrm) + 4 > self@.mem.len() ==> r
                == Err::<u32, Fault>(Fault::MemoryOutOfBounds(ea(self@.regs, *modrm))),
    {
        if modrm.m == 3 {
            Ok(self.get_register32(modrm.rm as i32))
        } else {
            match self.calc_memory_address(modrm) {
                Err(f) => Err(f),
                Ok(a) => {
                    if (a as u64) + 4 <= self.memory.len() as u64 {
                        Ok(self.get_memory32(a))
                    } else {
                        Err(Fault::MemoryOutOfBounds(a))
                    }
                },
            }
        }
    }

    /// Writes the `rm`-selected 32-bit operand: a register for `mod == 3`,
    /// the word at the effective address otherwise.  On a fault nothing
    /// changes.
    pub fn set_rm32(&mut self, modrm: &ModRM, value: u32) -> (r: Result<(), Fault>)
        requires
            old(self).wf(),
            modrm.wf(),
        ensures
            final(self).wf(),
            final(self)@.eflags == old(self)@.eflags,
            final(self)@.eip == old(self)@.eip,
            rm32_ok(old(self)@.regs, old(self)@.mem, *modrm) ==> {
                &&& r == Ok::<(), Fault>(())
                &&& final(self)@.regs == set_rm32_regs(old(self)@.regs, *modrm, value)
                &&& final(self)@.mem == set_rm32_mem(
                    old(self)@.regs,
                    old(self)@.mem,
                    *modrm,
                    value,
                )
            },
            !rm32_ok(old(self)@.regs, old(self)@.mem, *modrm) ==> {
                &&& final(self)@.regs == old(self)@.regs
                &&& final(self)@.mem == old(self)@.mem
            },
            modrm.m != 3 && modrm.rm == 4 ==> r == Err::<(), Fault>(Fault::SibAddressing(modrm.m)),
            modrm.m != 3 && modrm.rm != 4 && ea(old(self)@.regs, *modrm) + 4 > old(
                self,
            )@.mem.len() ==> r == Err::<(), Fault>(
                Fault::MemoryOutOfBounds(ea(old(self)@.regs, *modrm)),
            ),
    {
        if modrm.m == 3 {
            self.set_register32(modrm.rm as i32, value);
            Ok(())
        } else {
            match self.calc_memory_address(modrm) {
                Err(f) => Err(f),
                Ok(a) => {
                    if (a as u64) + 4 <= self.memory.len() as u64 {
                        self.set_memory32(a, value);
                        Ok(())
                    } else {
                        Err(Fault::MemoryOutOfBounds(a))
                    }
                },
            }
        }
    }

    /// The register selected by the `reg` field.
    pub fn get_r32(&self, modrm: &ModRM) -> (r: u32)
        requires
            self.wf(),
            modrm.wf(),
        ensures
            r == self@.regs[modrm.opereg as int],
    {
        self.get_register32(modrm.opereg as i32)
    }

    /// Writes the register selected by the `reg` field.
    pub fn set_r32(&mut self, modrm: &ModRM, value: u32)
        requires
            old(self).wf(),
            modrm.wf(),
        ensures
            final(self).wf(),
            final(self)@.regs == old(self)@.regs.update(modrm.opereg as int, value),
            final(self)@.mem == old(self)@.mem,
            final(self)@.eflags == old(self)@.eflags,
            final(self)@.eip == old(self)@.eip,
    {
        self.set_register32(modrm.opereg as i32, value);
    }

    /// Reads the `rm`-selected 8-bit operand: a register alias for
    /// `mod == 3`, the byte at the effective address otherwise.
    pub fn get_rm8(&self, modrm: &ModRM) -> (r: Result<u8, Fault>)
        requires
            self.wf(),
            modrm.wf(),
        ensures
            rm8_ok(self@.regs, self@.mem, *modrm) ==> r == Ok::<u8, Fault>(
                rm8_of(self@.regs, self@.mem, *modrm),
            ),
            modrm.m != 3 && modrm.rm == 4 ==> r == Err::<u8, Fault>(Fault::SibAddressing(modrm.m)),
            modrm.m != 3 && modrm.rm != 4 && ea(self@.regs, *modrm) >= self@.mem.len() ==> r
                == Err::<u8, Fault>(Fault::MemoryOutOfBounds(ea(self@.regs, *modrm))),
    {
        if modrm.m == 3 {
            Ok(self.get_register8(modrm.rm as i32))
        } else {
            match self.calc_memory_address(modrm) {
                Err(f) => Err(f),
                Ok(a) => {
                    if (a as u64) < self.memory.len() as u64 {
                        Ok(self.get_memory8(a))
                    } else {
                        Err(Fault::MemoryOutOfBounds(a))
                    }
                },
            }
        }
    }

    /// Writes the `rm`-selected 8-bit operand: a register alias for
    /// `mod == 3`, the byte at the effective address otherwise.  On a fault
    /// nothing changes.
    pub fn set_rm8(&mut self, modrm: &ModRM, value: u8) -> (r: Result<(), Fault>)
        requires
            old(self).wf(),
            modrm.wf(),
        ensures
            final(self).wf(),
            final(self)@.eflags == old(self)@.eflags,
            final(self)@.eip == old(self)@.eip,
            rm8_ok(old(self)@.regs, old(self)@.mem, *modrm) ==> {
                &&& r == Ok::<(), Fault>(())
                &&& final(self)@.regs == set_rm8_regs(old(self)@.regs, *modrm, value)
                &&& final(self)@.mem == set_rm8_mem(old(self)@.regs, old(self)@.mem, *modrm, value)
            },
            !rm8_ok(old(self)@.regs, old(self)@.mem, *modrm) ==> {
                &&& final(self)@.regs == old(self)@.regs
                &&& final(self)@.mem == old(self)@.mem
            },
            modrm.m != 3 && modrm.rm == 4 ==> r == Err::<(), Fault>(Fault::SibAddressing(modrm.m)),
            modrm.m != 3 && modrm.rm != 4 && ea(old(self)@.regs, *modrm) >= old(
                self,
            )@.mem.len() ==> r == Err::<(), Fault>(
                Fault::MemoryOutOfBounds(ea(old(self)@.regs, *modrm)),
            ),
    {
        if modrm.m == 3 {
            self.set_register8(modrm.rm as i32, value);
            Ok(())
        } else {
            match self.calc_memory_address(modrm) {
                Err(f) => Err(f),
                Ok(a) => {
                    if (a as u64) < self.memory.len() as u64 {
                        self.set_memory8(a, value);
                        Ok(())
                    } else {
                        Err(Fault::MemoryOutOfBounds(a))
                    }
                },
            }
        }
    }

    /// The 8-bit register alias selected by the `reg` field.
    pub fn get_r8(&self, modrm: &ModRM) -> (r: u8)
        requires
            self.wf(),
            modrm.wf(),
        ensures
            r == reg8_of(self@.regs, modrm.opereg as int),
    {
        self.get_register8(modrm.opereg as i32)
    }

    /// Writes the 8-bit register alias selected by the `reg` field.
    pub fn set_r8(&mut self, modrm: &ModRM, value: u8)
        requires
            old(self).wf(),
            modrm.wf(),
        ensures
            final(self).wf(),
            final(self)@.regs == set_reg8(old(self)@.regs, modrm.opereg as int, value),
            final(self)@.mem == old(self)@.mem,
            final(self)@.eflags == old(self)@.eflags,
            final(self)@.eip == old(self)@.eip,
    {
        self.set_register8(modrm.opereg as i32, value);
    }
}

} // verus!

//! The instruction set: one handler per opcode (or opcode group), each with
//! an exact transition predicate, the dispatch table as a decode function,
//! and the single-step function that drives them.
//!
//! Every handler leaves the processor untouched when it returns a fault, and
//! otherwise performs exactly the register, memory, flag and `eip` changes
//! its predicate states.

use vstd::prelude::*;

use crate::bios::teletype_bytes;
use crate::emulator::{
    carry, overflow, read32, reg8_of, set_reg8, sext8, sign, zero, Emulator, Fault, HaltReason,
    Machine, Register32, Register8,
};
use crate::emulator_function::{
    flags_after_sub, spec_pop32, spec_push32, sub64, sub_carry, sub_overflow, sub_sign, sub_zero,
};
use crate::modrm::{
    modrm_at, modrm_ok, modrm_size, rm8_of, rm8_ok, rm_fault, rm32_of, rm32_ok, set_rm8_mem,
    set_rm8_regs, set_rm32_mem, set_rm32_regs, ModRM,
};

verus! {

/// What one successfully executed instruction asks of the outside world.
#[derive(Debug, Clone)]
pub enum Action {
    /// Nothing: the instruction only changed processor state.
    Proceed,
    /// `OUT` wrote this byte to this port.
    Output(u16, u8),
    /// A BIOS teletype call produced these bytes for the output sink.
    Teletype(Vec<u8>),
    /// A software interrupt named a vector this design does not serve; it
    /// is reported and execution continues.
    UnknownInterrupt(u8),
    /// A BIOS video call named a function this design does not serve; it
    /// is reported and execution continues.
    UnknownVideoFunction(u8),
    /// `IN` wants a byte from this port; the caller reads one and hands it
    /// to [`Emulator::in_al_dx`].
    InputRequest(u16),
}

/// Neither registers, memory, flags nor the instruction pointer changed.
pub open spec fn same_state(pre: Machine, post: Machine) -> bool {
    &&& post.regs == pre.regs
    &&& post.mem == pre.mem
    &&& post.eflags == pre.eflags
    &&& post.eip == pre.eip
}

/// The instruction's ModRM byte sequence (which starts one byte past the
/// opcode) lies inside memory.
pub open spec fn modrm_instr_ok(pre: Machine) -> bool {
    modrm_ok(pre.mem, pre.eip + 1)
}

/// The instruction's decoded ModRM value.
pub open spec fn instr_modrm(pre: Machine) -> crate::modrm::ModRM {
    modrm_at(pre.mem, pre.eip + 1)
}

/// The position just past the opcode byte and its ModRM byte sequence,
/// where any immediate operand starts.
pub open spec fn modrm_next_eip(pre: Machine) -> int {
    pre.eip + 1 + modrm_size(pre.mem[pre.eip + 1])
}

/// `ADD r/m32, r32`: the destination operand becomes its sum with the
/// `reg`-selected register, modulo two to the thirty-second; flags are not
/// updated.
pub open spec fn add_rm32_r32_spec(pre: Machine, post: Machine, r: Result<(), Fault>) -> bool {
    if !modrm_instr_ok(pre) {
        r == Err::<(), Fault>(Fault::CodeOutOfBounds) && same_state(pre, post)
    } else {
        let x = instr_modrm(pre);
        if rm32_ok(pre.regs, pre.mem, x) {
            let v = rm32_of(pre.regs, pre.mem, x).wrapping_add(pre.regs[x.opereg as int]);
            &&& r == Ok::<(), Fault>(())
            &&& post.regs == set_rm32_regs(pre.regs, x, v)
            &&& post.mem == set_rm32_mem(pre.regs, pre.mem, x, v)
            &&& post.eflags == pre.eflags
            &&& post.eip == modrm_next_eip(pre)
        } else {
            r == Err::<(), Fault>(rm_fault(pre.regs, x)) && same_state(pre, post)
        }
    }
}

/// `MOV r/m32, r32`: the destination operand becomes the `reg`-selected
/// register.
pub open spec fn mov_rm32_r32_spec(pre: Machine, post: Machine, r: Result<(), Fault>) -> bool {
    if !modrm_instr_ok(pre) {
        r == Err::<(), Fault>(Fault::CodeOutOfBounds) && same_state(pre, post)
    } else {
        let x = instr_modrm(pre);
        if rm32_ok(pre.regs, pre.mem, x) {
            let v = pre.regs[x.opereg as int];
            &&& r == Ok::<(), Fault>(())
            &&& post.regs == set_rm32_regs(pre.regs, x, v)
            &&& post.mem == set_rm32_mem(pre.regs, pre.mem, x, v)
            &&& post.eflags == pre.eflags
            &&& post.eip == modrm_next_eip(pre)
        } else {
            r == Err::<(), Fault>(rm_fault(pre.regs, x)) && same_state(pre, post)
        }
    }
}

/// `MOV r32, r/m32`: the `reg`-selected register becomes the source
/// operand.
pub open spec fn mov_r32_rm32_spec(pre: Machine, post: Machine, r: Result<(), Fault>) -> bool {
    if !modrm_instr_ok(pre) {
        r == Err::<(), Fault>(Fault::CodeOutOfBounds) && same_state(pre, post)
    } else {
        let x = instr_modrm(pre);
        if rm32_ok(pre.regs, pre.mem, x) {
            &&& r == Ok::<(), Fault>(())
            &&& post.regs == pre.regs.update(
                x.opereg as int,
                rm32_of(pre.regs, pre.mem, x),
            )
            &&& post.mem == pre.mem
            &&& post.eflags == pre.eflags
            &&& post.eip == modrm_next_eip(pre)
        } else {
            r == Err::<(), Fault>(rm_fault(pre.regs, x)) && same_state(pre, post)
        }
    }
}

/// `MOV r/m32, imm32`: the destination operand becomes the 32-bit immediate
/// that follows the ModRM byte sequence.
pub open spec fn mov_rm32_imm32_spec(pre: Machine, post: Machine, r: Result<(), Fault>) -> bool {
    if !modrm_instr_ok(pre) {
        r == Err::<(), Fault>(Fault::CodeOutOfBounds) && same_state(pre, post)
    } else {
        let x = instr_modrm(pre);
        let vpos = modrm_next_eip(pre);
        if vpos + 4 > pre.mem.len() {
            r == Err::<(), Fault>(Fault::CodeOutOfBounds) && same_state(pre, post)
        } else if rm32_ok(pre.regs, pre.mem, x) {
            let v = crate::emulator::read32(pre.mem, vpos);
            &&& r == Ok::<(), Fault>(())
            &&& post.regs == set_rm32_regs(pre.regs, x, v)
            &&& post.mem == set_rm32_mem(pre.regs, pre.mem, x, v)
            &&& post.eflags == pre.eflags
            &&& post.eip == vpos + 4
        } else {
            r == Err::<(), Fault>(rm_fault(pre.regs, x)) && same_state(pre, post)
        }
    }
}

/// `INC r32` (opcodes 0x40 through 0x47): the register named by the low
/// three opcode bits is incremented modulo two to the thirty-second; flags
/// are not updated.
pub open spec fn inc_r32_spec(pre: Machine, post: Machine) -> bool {
    let reg = pre.code8(0) - 0x40;
    &&& post.regs == pre.regs.update(reg, pre.regs[reg].wrapping_add(1))
    &&& post.mem == pre.mem
    &&& post.eflags == pre.eflags
    &&& post.eip == pre.eip + 1
}

/// `MOV r32, imm32` (opcodes 0xB8 through 0xBF): the register named by the
/// low three opcode bits becomes the 32-bit immediate.
pub open spec fn mov_r32_imm32_spec(pre: Machine, post: Machine, r: Result<(), Fault>) -> bool {
    if pre.eip + 5 <= pre.mem.len() {
        let reg = pre.code8(0) - 0xB8;
        &&& r == Ok::<(), Fault>(())
        &&& post.regs == pre.regs.update(reg, pre.code32(1))
        &&& post.mem == pre.mem
        &&& post.eflags == pre.eflags
        &&& post.eip == pre.eip + 5
    } else {
        r == Err::<(), Fault>(Fault::CodeOutOfBounds) && same_state(pre, post)
    }
}

/// `JMP rel32`: `eip` moves by the signed 32-bit displacement plus the
/// five-byte instruction length, modulo two to the thirty-second.
pub open spec fn near_jump_spec(pre: Machine, post: Machine, r: Result<(), Fault>) -> bool {
    if pre.eip + 5 <= pre.mem.len() {
        &&& r == Ok::<(), Fault>(())
        &&& post.regs == pre.regs
        &&& post.mem == pre.mem
        &&& post.eflags == pre.eflags
        &&& post.eip == pre.eip.wrapping_add(pre.code32(1)).wrapping_add(5)
    } else {
        r == Err::<(), Fault>(Fault::CodeOutOfBounds) && same_state(pre, post)
    }
}

/// `JMP rel8`: `eip` moves by the sign-extended 8-bit displacement plus the
/// two-byte instruction length, modulo two to the thirty-second.
pub open spec fn short_jump_spec(pre: Machine, post: Machine, r: Result<(), Fault>) -> bool {
    if pre.eip + 2 <= pre.mem.len() {
        &&& r == Ok::<(), Fault>(())
        &&& post.regs == pre.regs
        &&& post.mem == pre.mem
        &&& post.eflags == pre.eflags
        &&& post.eip == pre.eip.wrapping_add(sext8(pre.code8(1))).wrapping_add(2)
    } else {
        r == Err::<(), Fault>(Fault::CodeOutOfBounds) && same_state(pre, post)
    }
}

/// The stack can take one more 32-bit push: ESP has room to move down by
/// four and the written word stays inside memory.
pub open spec fn push_ok(pre: Machine) -> bool {
    4 <= pre.regs[4] && pre.regs[4] <= pre.mem.len()
}

/// The fault raised when a push cannot be performed: the intended store
/// address, ESP lowered by four modulo two to the thirty-second.
pub open spec fn push_fault(pre: Machine) -> Fault {
    Fault::MemoryOutOfBounds(pre.regs[4].wrapping_sub(4))
}

/// The stack holds a 32-bit word to pop: the word at ESP lies inside
/// memory.
pub open spec fn pop_ok(pre: Machine) -> bool {
    pre.regs[4] + 4 <= pre.mem.len()
}

/// The fault raised when a pop cannot be performed: the read address, ESP.
pub open spec fn pop_fault(pre: Machine) -> Fault {
    Fault::MemoryOutOfBounds(pre.regs[4])
}

/// The flags word `e` is exactly the old word `e0` with its four modeled
/// bits rewritten to describe the subtraction `v1 - v2` widened to 64
/// bits; nothing outside those four bits is set.
pub open spec fn flags_spec_sub(e0: u16, e: u16, v1: u32, v2: u32) -> bool {
    let res = sub64(v1, v2);
    &&& e == flags_after_sub(e0, v1, v2, res)
    &&& carry(e) == sub_carry(res)
    &&& zero(e) == sub_zero(res)
    &&& sign(e) == sub_sign(res)
    &&& overflow(e) == sub_overflow(v1, v2, res)
    &&& crate::emulator::flags_wf(e)
}

/// `CMP r32, r/m32`: the flags describe `r32 - rm32`; no operand changes.
pub open spec fn cmp_r32_rm32_spec(pre: Machine, post: Machine, r: Result<(), Fault>) -> bool {
    if !modrm_instr_ok(pre) {
        r == Err::<(), Fault>(Fault::CodeOutOfBounds) && same_state(pre, post)
    } else {
        let x = instr_modrm(pre);
        if rm32_ok(pre.regs, pre.mem, x) {
            &&& r == Ok::<(), Fault>(())
            &&& post.regs == pre.regs
            &&& post.mem == pre.mem
            &&& flags_spec_sub(
                pre.eflags,
                post.eflags,
                pre.regs[x.opereg as int],
                rm32_of(pre.regs, pre.mem, x),
            )
            &&& post.eip == modrm_next_eip(pre)
        } else {
            r == Err::<(), Fault>(rm_fault(pre.regs, x)) && same_state(pre, post)
        }
    }
}

/// `CMP AL, imm8`: the flags describe `AL - imm8`.
pub open spec fn cmp_al_imm8_spec(pre: Machine, post: Machine, r: Result<(), Fault>) -> bool {
    if pre.eip + 2 <= pre.mem.len() {
        &&& r == Ok::<(), Fault>(())
        &&& post.regs == pre.regs
        &&& post.mem == pre.mem
        &&& flags_spec_sub(pre.eflags, post.eflags, reg8_of(pre.regs, 0) as u32, pre.code8(1) as u32)
        &&& post.eip == pre.eip + 2
    } else {
        r == Err::<(), Fault>(Fault::CodeOutOfBounds) && same_state(pre, post)
    }
}

/// `CMP EAX, imm32`: the flags describe `EAX - imm32`.
pub open spec fn cmp_eax_imm32_spec(pre: Machine, post: Machine, r: Result<(), Fault>) -> bool {
    if pre.eip + 5 <= pre.mem.len() {
        &&& r == Ok::<(), Fault>(())
        &&& post.regs == pre.regs
        &&& post.mem == pre.mem
        &&& flags_spec_sub(pre.eflags, post.eflags, pre.regs[0], pre.code32(1))
        &&& post.eip == pre.eip + 5
    } else {
        r == Err::<(), Fault>(Fault::CodeOutOfBounds) && same_state(pre, post)
    }
}

/// A conditional short jump: when the condition holds, `eip` moves by the
/// sign-extended 8-bit displacement plus the two-byte length; when it does
/// not, `eip` just moves past the instruction.  The displacement byte is
/// only read when the jump is taken.
pub open spec fn jcc_spec(pre: Machine, post: Machine, r: Result<(), Fault>, cond: bool) -> bool {
    if cond {
        if pre.eip + 2 <= pre.mem.len() {
            &&& r == Ok::<(), Fault>(())
            &&& post.regs == pre.regs
            &&& post.mem == pre.mem
            &&& post.eflags == pre.eflags
            &&& post.eip == pre.eip.wrapping_add(2).wrapping_add(sext8(pre.code8(1)))
        } else {
            r == Err::<(), Fault>(Fault::CodeOutOfBounds) && same_state(pre, post)
        }
    } else {
        &&& r == Ok::<(), Fault>(())
        &&& post.regs == pre.regs
        &&& post.mem == pre.mem
        &&& post.eflags == pre.eflags
        &&& post.eip == pre.eip.wrapping_add(2)
    }
}

/// `PUSH r32` (opcodes 0x50 through 0x57): the register named by the low
/// three opcode bits is pushed.
pub open spec fn push_r32_spec(pre: Machine, post: Machine, r: Result<(), Fault>) -> bool {
    let reg = pre.code8(0) - 0x50;
    if push_ok(pre) {
        &&& r == Ok::<(), Fault>(())
        &&& post.regs == spec_push32(pre, pre.regs[reg]).regs
        &&& post.mem == spec_push32(pre, pre.regs[reg]).mem
        &&& post.eflags == pre.eflags
        &&& post.eip == pre.eip + 1
    } else {
        r == Err::<(), Fault>(push_fault(pre)) && same_state(pre, post)
    }
}

/// `POP r32` (opcodes 0x58 through 0x5F): the word at ESP lands in the
/// register named by the low three opcode bits; ESP moves up first, so
/// `POP ESP` keeps the popped value.
pub open spec fn pop_r32_spec(pre: Machine, post: Machine, r: Result<(), Fault>) -> bool {
    let reg = pre.code8(0) - 0x58;
    if pop_ok(pre) {
        &&& r == Ok::<(), Fault>(())
        &&& post.regs == pre.regs.update(4, (pre.regs[4] + 4) as u32).update(
            reg,
            read32(pre.mem, pre.regs[4] as int),
        )
        &&& post.mem == pre.mem
        &&& post.eflags == pre.eflags
        &&& post.eip == pre.eip + 1
    } else {
        r == Err::<(), Fault>(pop_fault(pre)) && same_state(pre, post)
    }
}

/// `PUSH imm32`: the 32-bit immediate is pushed.
pub open spec fn push_imm32_spec(pre: Machine, post: Machine, r: Result<(), Fault>) -> bool {
    if pre.eip + 5 > pre.mem.len() {
        r == Err::<(), Fault>(Fault::CodeOutOfBounds) && same_state(pre, post)
    } else if push_ok(pre) {
        &&& r == Ok::<(), Fault>(())
        &&& post.regs == spec_push32(pre, pre.code32(1)).regs
        &&& post.mem == spec_push32(pre, pre.code32(1)).mem
        &&& post.eflags == pre.eflags
        &&& post.eip == pre.eip + 5
    } else {
        r == Err::<(), Fault>(push_fault(pre)) && same_state(pre, post)
    }
}

/// `PUSH imm8`: the 8-bit immediate is sign-extended to 32 bits and
/// pushed.
pub open spec fn push_imm8_spec(pre: Machine, post: Machine, r: Result<(), Fault>) -> bool {
    if pre.eip + 2 > pre.mem.len() {
        r == Err::<(), Fault>(Fault::CodeOutOfBounds) && same_state(pre, post)
    } else if push_ok(pre) {
        &&& r == Ok::<(), Fault>(())
        &&& post.regs == spec_push32(pre, sext8(pre.code8(1))).regs
        &&& post.mem == spec_push32(pre, sext8(pre.code8(1))).mem
        &&& post.eflags == pre.eflags
        &&& post.eip == pre.eip + 2
    } else {
        r == Err::<(), Fault>(push_fault(pre)) && same_state(pre, post)
    }
}

/// `CALL rel32`: the address of the next instruction is pushed and `eip`
/// moves by the signed displacement plus the five-byte length.
pub open spec fn call_ref32_spec(pre: Machine, post: Machine, r: Result<(), Fault>) -> bool {
    if pre.eip + 5 > pre.mem.len() {
        r == Err::<(), Fault>(Fault::CodeOutOfBounds) && same_state(pre, post)
    } else if push_ok(pre) {
        &&& r == Ok::<(), Fault>(())
        &&& post.regs == spec_push32(pre, (pre.eip + 5) as u32).regs
        &&& post.mem == spec_push32(pre, (pre.eip + 5) as u32).mem
        &&& post.eflags == pre.eflags
        &&& post.eip == pre.eip.wrapping_add(pre.code32(1)).wrapping_add(5)
    } else {
        r == Err::<(), Fault>(push_fault(pre)) && same_state(pre, post)
    }
}

/// `RET`: `eip` becomes the word popped from the stack.
pub open spec fn ret_spec(pre: Machine, post: Machine, r: Result<(), Fault>) -> bool {
    if pop_ok(pre) {
        &&& r == Ok::<(), Fault>(())
        &&& post.regs == spec_pop32(pre).regs
        &&& post.mem == pre.mem
        &&& post.eflags == pre.eflags
        &&& post.eip == read32(pre.mem, pre.regs[4] as int)
    } else {
        r == Err::<(), Fault>(pop_fault(pre)) && same_state(pre, post)
    }
}

/// `LEAVE`: ESP becomes EBP plus four and EBP becomes the word that EBP
/// pointed at (the saved frame pointer is popped).
pub open spec fn leave_spec(pre: Machine, post: Machine, r: Result<(), Fault>) -> bool {
    let ebp = pre.regs[5];
    if ebp + 4 <= pre.mem.len() {
        &&& r == Ok::<(), Fault>(())
        &&& post.regs == pre.regs.update(4, (ebp + 4) as u32).update(
            5,
            read32(pre.mem, ebp as int),
        )
        &&& post.mem == pre.mem
        &&& post.eflags == pre.eflags
        &&& post.eip == pre.eip + 1
    } else {
        r == Err::<(), Fault>(Fault::MemoryOutOfBounds(ebp)) && same_state(pre, post)
    }
}

/// `MOV r/m8, r8`: the destination byte operand becomes the `reg`-selected
/// 8-bit register alias.
pub open spec fn mov_rm8_r8_spec(pre: Machine, post: Machine, r: Result<(), Fault>) -> bool {
    if !modrm_instr_ok(pre) {
        r == Err::<(), Fault>(Fault::CodeOutOfBounds) && same_state(pre, post)
    } else {
        let x = instr_modrm(pre);
        if rm8_ok(pre.regs, pre.mem, x) {
            let v = reg8_of(pre.regs, x.opereg as int);
            &&& r == Ok::<(), Fault>(())
            &&& post.regs == set_rm8_regs(pre.regs, x, v)
            &&& post.mem == set_rm8_mem(pre.regs, pre.mem, x, v)
            &&& post.eflags == pre.eflags
            &&& post.eip == modrm_next_eip(pre)
        } else {
            r == Err::<(), Fault>(rm_fault(pre.regs, x)) && same_state(pre, post)
        }
    }
}

/// `MOV r8, r/m8`: the `reg`-selected 8-bit register alias becomes the
/// source byte operand.
pub open spec fn mov_r8_rm8_spec(pre: Machine, post: Machine, r: Result<(), Fault>) -> bool {
    if !modrm_instr_ok(pre) {
        r == Err::<(), Fault>(Fault::CodeOutOfBounds) && same_state(pre, post)
    } else {
        let x = instr_modrm(pre);
        if rm8_ok(pre.regs, pre.mem, x) {
            &&& r == Ok::<(), Fault>(())
            &&& post.regs == set_reg8(pre.regs, x.opereg as int, rm8_of(pre.regs, pre.mem, x))
            &&& post.mem == pre.mem
            &&& post.eflags == pre.eflags
            &&& post.eip == modrm_next_eip(pre)
        } else {
            r == Err::<(), Fault>(rm_fault(pre.regs, x)) && same_state(pre, post)
        }
    }
}

/// `MOV r8, imm8` (opcodes 0xB0 through 0xB7): the 8-bit register alias
/// named by the low three opcode bits becomes the immediate byte.
pub open spec fn mov_r8_imm8_spec(pre: Machine, post: Machine, r: Result<(), Fault>) -> bool {
    if pre.eip + 2 <= pre.mem.len() {
        let reg = pre.code8(0) - 0xB0;
        &&& r == Ok::<(), Fault>(())
        &&& post.regs == set_reg8(pre.regs, reg, pre.code8(1))
        &&& post.mem == pre.mem
        &&& post.eflags == pre.eflags
        &&& post.eip == pre.eip + 2
    } else {
        r == Err::<(), Fault>(Fault::CodeOutOfBounds) && same_state(pre, post)
    }
}

/// `ADD r/m32, imm8` (group 0x83, extension 0): the destination operand
/// grows by the sign-extended immediate, modulo two to the thirty-second.
/// The handler runs with `eip` at the immediate byte, just past the ModRM
/// byte sequence.
pub open spec fn add_rm32_imm8_spec(
    pre: Machine,
    post: Machine,
    x: ModRM,
    r: Result<(), Fault>,
) -> bool {
    if !rm32_ok(pre.regs, pre.mem, x) {
        r == Err::<(), Fault>(rm_fault(pre.regs, x)) && same_state(pre, post)
    } else if pre.eip >= pre.mem.len() {
        r == Err::<(), Fault>(Fault::CodeOutOfBounds) && same_state(pre, post)
    } else {
        let v = rm32_of(pre.regs, pre.mem, x).wrapping_add(sext8(pre.code8(0)));
        &&& r == Ok::<(), Fault>(())
        &&& post.regs == set_rm32_regs(pre.regs, x, v)
        &&& post.mem == set_rm32_mem(pre.regs, pre.mem, x, v)
        &&& post.eflags == pre.eflags
        &&& post.eip == pre.eip + 1
    }
}

/// `SUB r/m32, imm8` (group 0x83, extension 5): the destination operand
/// shrinks by the sign-extended immediate, modulo two to the
/// thirty-second.  The handler runs with `eip` at the immediate byte.
pub open spec fn sub_rm32_imm8_spec(
    pre: Machine,
    post: Machine,
    x: ModRM,
    r: Result<(), Fault>,
) -> bool {
    if !rm32_ok(pre.regs, pre.mem, x) {
        r == Err::<(), Fault>(rm_fault(pre.regs, x)) && same_state(pre, post)
    } else if pre.eip >= pre.mem.len() {
        r == Err::<(), Fault>(Fault::CodeOutOfBounds) && same_state(pre, post)
    } else {
        let v = rm32_of(pre.regs, pre.mem, x).wrapping_sub(sext8(pre.code8(0)));
        &&& r == Ok::<(), Fault>(())
        &&& post.regs == set_rm32_regs(pre.regs, x, v)
        &&& post.mem == set_rm32_mem(pre.regs, pre.mem, x, v)
        &&& post.eflags == pre.eflags
        &&& post.eip == pre.eip + 1
    }
}

/// The 0x83 group: the ModRM extension field selects add-immediate (0) or
/// subtract-immediate (5) on a 32-bit operand; any other extension halts
/// with the unimplemented-group-extension reason.
pub open spec fn code_83_spec(pre: Machine, post: Machine, r: Result<(), HaltReason>) -> bool {
    if !modrm_instr_ok(pre) {
        r == Err::<(), HaltReason>(HaltReason::Fault(Fault::CodeOutOfBounds)) && same_state(
            pre,
            post,
        )
    } else {
        let x = instr_modrm(pre);
        let ipos = modrm_next_eip(pre);
        if x.opereg == 0 || x.opereg == 5 {
            if !rm32_ok(pre.regs, pre.mem, x) {
                r == Err::<(), HaltReason>(HaltReason::Fault(rm_fault(pre.regs, x))) && same_state(
                    pre,
                    post,
                )
            } else if ipos >= pre.mem.len() {
                r == Err::<(), HaltReason>(HaltReason::Fault(Fault::CodeOutOfBounds)) && same_state(
                    pre,
                    post,
                )
            } else {
                let imm = sext8(pre.mem[ipos]);
                let v = if x.opereg == 0 {
                    rm32_of(pre.regs, pre.mem, x).wrapping_add(imm)
                } else {
                    rm32_of(pre.regs, pre.mem, x).wrapping_sub(imm)
                };
                &&& r == Ok::<(), HaltReason>(())
                &&& post.regs == set_rm32_regs(pre.regs, x, v)
                &&& post.mem == set_rm32_mem(pre.regs, pre.mem, x, v)
                &&& post.eflags == pre.eflags
                &&& post.eip == ipos + 1
            }
        } else {
            r == Err::<(), HaltReason>(HaltReason::UnimplementedGroupExtension(0x83, x.opereg))
                && same_state(pre, post)
        }
    }
}

/// `INC r/m32` (group 0xFF, extension 0): the operand is incremented
/// modulo two to the thirty-second; `eip` does not move (the group handler
/// has already advanced it past the ModRM byte sequence).
pub open spec fn inc_rm32_spec(pre: Machine, post: Machine, x: ModRM, r: Result<(), Fault>) -> bool {
    if rm32_ok(pre.regs, pre.mem, x) {
        let v = rm32_of(pre.regs, pre.mem, x).wrapping_add(1);
        &&& r == Ok::<(), Fault>(())
        &&& post.regs == set_rm32_regs(pre.regs, x, v)
        &&& post.mem == set_rm32_mem(pre.regs, pre.mem, x, v)
        &&& post.eflags == pre.eflags
        &&& post.eip == pre.eip
    } else {
        r == Err::<(), Fault>(rm_fault(pre.regs, x)) && same_state(pre, post)
    }
}

/// The 0xFF group: only extension 0, `INC r/m32`, is mapped; any other
/// extension halts with the unimplemented-group-extension reason.
pub open spec fn code_ff_spec(pre: Machine, post: Machine, r: Result<(), HaltReason>) -> bool {
    if !modrm_instr_ok(pre) {
        r == Err::<(), HaltReason>(HaltReason::Fault(Fault::CodeOutOfBounds)) && same_state(
            pre,
            post,
        )
    } else {
        let x = instr_modrm(pre);
        if x.opereg == 0 {
            if rm32_ok(pre.regs, pre.mem, x) {
                let v = rm32_of(pre.regs, pre.mem, x).wrapping_add(1);
                &&& r == Ok::<(), HaltReason>(())
                &&& post.regs == set_rm32_regs(pre.regs, x, v)
                &&& post.mem == set_rm32_mem(pre.regs, pre.mem, x, v)
                &&& post.eflags == pre.eflags
                &&& post.eip == modrm_next_eip(pre)
            } else {
                r == Err::<(), HaltReason>(HaltReason::Fault(rm_fault(pre.regs, x))) && same_state(
                    pre,
                    post,
                )
            }
        } else {
            r == Err::<(), HaltReason>(HaltReason::UnimplementedGroupExtension(0xFF, x.opereg))
                && same_state(pre, post)
        }
    }
}

/// `INT imm8`: `eip` moves past the instruction, then vector 0x10
/// dispatches into the BIOS video service; any other vector is reported
/// back as unknown and execution continues.
pub open spec fn swi_spec(pre: Machine, post: Machine, r: Result<Action, Fault>) -> bool {
    if pre.eip + 2 <= pre.mem.len() {
        &&& post.regs == pre.regs
        &&& post.mem == pre.mem
        &&& post.eflags == pre.eflags
        &&& post.eip == pre.eip + 2
        &&& {
            let idx = pre.code8(1);
            if idx == 0x10 {
                let func = reg8_of(pre.regs, 4);
                if func == 0x0E {
                    r matches Ok(Action::Teletype(b)) && b@ == teletype_bytes(
                        reg8_of(pre.regs, 3),
                        reg8_of(pre.regs, 0),
                    )
                } else {
                    r == Ok::<Action, Fault>(Action::UnknownVideoFunction(func))
                }
            } else {
                r == Ok::<Action, Fault>(Action::UnknownInterrupt(idx))
            }
        }
    } else {
        r == Err::<Action, Fault>(Fault::CodeOutOfBounds) && same_state(pre, post)
    }
}

/// The low 16 bits of a register, as an I/O port number.
pub open spec fn port_of(v: u32) -> u16 {
    (v & 0xFFFF) as u16
}

/// Completion of `IN AL, DX` once the caller has read a byte from the
/// port: AL becomes that byte and `eip` moves past the instruction.
pub open spec fn in_al_dx_spec(pre: Machine, post: Machine, value: u8) -> bool {
    &&& post.regs == set_reg8(pre.regs, 0, value)
    &&& post.mem == pre.mem
    &&& post.eflags == pre.eflags
    &&& post.eip == pre.eip + 1
}

/// `OUT DX, AL`: the port is the low 16 bits of EDX, the byte is AL, and
/// `eip` moves past the instruction; processor state is otherwise
/// untouched.
pub open spec fn out_dx_al_spec(pre: Machine, post: Machine, port: u16, value: u8) -> bool {
    &&& port == port_of(pre.regs[2])
    &&& value == reg8_of(pre.regs, 0)
    &&& post.regs == pre.regs
    &&& post.mem == pre.mem
    &&& post.eflags == pre.eflags
    &&& post.eip == pre.eip + 1
}

/// A masked register value fits in 16 bits.
proof fn lemma_mask_u16(v: u32)
    by (bit_vector)
    ensures
        v & 0xFFFF < 0x1_0000,
{
}

/// The instructions this core implements; one variant per dispatch-table
/// entry (a range of opcode bytes that shares a handler shares a variant).
#[derive(Clone, Copy, Debug, PartialEq, Eq, Structural)]
pub enum Opcode {
    AddRm32R32,
    CmpR32Rm32,
    CmpAlImm8,
    CmpEaxImm32,
    IncR32,
    PushR32,
    PopR32,
    PushImm32,
    PushImm8,
    Jo,
    Jno,
    Jc,
    Jnc,
    Jz,
    Jnz,
    Js,
    Jns,
    Jl,
    Jle,
    Code83,
    MovRm8R8,
    MovRm32R32,
    MovR8Rm8,
    MovR32Rm32,
    MovR8Imm8,
    MovR32Imm32,
    Ret,
    MovRm32Imm32,
    Leave,
    Swi,
    CallRel32,
    NearJump,
    ShortJump,
    InAlDx,
    OutDxAl,
    CodeFf,
}

/// The dispatch table: which instruction, if any, a leading opcode byte
/// maps to.  An unmapped byte halts execution.
pub open spec fn spec_decode(code: u8) -> Option<Opcode> {
    if code == 0x01 {
        Some(Opcode::AddRm32R32)
    } else if code == 0x3B {
        Some(Opcode::CmpR32Rm32)
    } else if code == 0x3C {
        Some(Opcode::CmpAlImm8)
    } else if code == 0x3D {
        Some(Opcode::CmpEaxImm32)
    } else if 0x40 <= code && code <= 0x47 {
        Some(Opcode::IncR32)
    } else if 0x50 <= code && code <= 0x57 {
        Some(Opcode::PushR32)
    } else if 0x58 <= code && code <= 0x5F {
        Some(Opcode::PopR32)
    } else if code == 0x68 {
        Some(Opcode::PushImm32)
    } else if code == 0x6A {
        Some(Opcode::PushImm8)
    } else if code == 0x70 {
        Some(Opcode::Jo)
    } else if code == 0x71 {
        Some(Opcode::Jno)
    } else if code == 0x72 {
        Some(Opcode::Jc)
    } else if code == 0x73 {
        Some(Opcode::Jnc)
    } else if code == 0x74 {
        Some(Opcode::Jz)
    } else if code == 0x75 {
        Some(Opcode::Jnz)
    } else if code == 0x78 {
        Some(Opcode::Js)
    } else if code == 0x79 {
        Some(Opcode::Jns)
    } else if code == 0x7C {
        Some(Opcode::Jl)
    } else if code == 0x7E {
        Some(Opcode::Jle)
    } else if code == 0x83 {
        Some(Opcode::Code83)
    } else if code == 0x88 {
        Some(Opcode::MovRm8R8)
    } else if code == 0x89 {
        Some(Opcode::MovRm32R32)
    } else if code == 0x8A {
        Some(Opcode::MovR8Rm8)
    } else if code == 0x8B {
        Some(Opcode::MovR32Rm32)
    } else if 0xB0 <= code && code <= 0xB7 {
        Some(Opcode::MovR8Imm8)
    } else if 0xB8 <= code && code <= 0xBF {
        Some(Opcode::MovR32Imm32)
    } else if code == 0xC3 {
        Some(Opcode::Ret)
    } else if code == 0xC7 {
        Some(Opcode::MovRm32Imm32)
    } else if code == 0xC9 {
        Some(Opcode::Leave)
    } else if code == 0xCD {
        Some(Opcode::Swi)
    } else if code == 0xE8 {
        Some(Opcode::CallRel32)
    } else if code == 0xE9 {
        Some(Opcode::NearJump)
    } else if code == 0xEB {
        Some(Opcode::ShortJump)
    } else if code == 0xEC {
        Some(Opcode::InAlDx)
    } else if code == 0xEE {
        Some(Opcode::OutDxAl)
    } else if code == 0xFF {
        Some(Opcode::CodeFf)
    } else {
        None
    }
}

/// The dispatch table as an executable lookup.
pub fn decode_opcode(code: u8) -> (r: Option<Opcode>)
    ensures
        r == spec_decode(code),
{
    if code == 0x01 {
        Some(Opcode::AddRm32R32)
    } else if code == 0x3B {
        Some(Opcode::CmpR32Rm32)
    } else if code == 0x3C {
        Some(Opcode::CmpAlImm8)
    } else if code == 0x3D {
        Some(Opcode::CmpEaxImm32)
    } else if 0x40 <= code && code <= 0x47 {
        Some(Opcode::IncR32)
    } else if 0x50 <= code && code <= 0x57 {
        Some(Opcode::PushR32)
    } else if 0x58 <= code && code <= 0x5F {
        Some(Opcode::PopR32)
    } else if code == 0x68 {
        Some(Opcode::PushImm32)
    } else if code == 0x6A {
        Some(Opcode::PushImm8)
    } else if code == 0x70 {
        Some(Opcode::Jo)
    } else if code == 0x71 {
        Some(Opcode::Jno)
    } else if code == 0x72 {
        Some(Opcode::Jc)
    } else if code == 0x73 {
        Some(Opcode::Jnc)
    } else if code == 0x74 {
        Some(Opcode::Jz)
    } else if code == 0x75 {
        Some(Opcode::Jnz)
    } else if code == 0x78 {
        Some(Opcode::Js)
    } else if code == 0x79 {
        Some(Opcode::Jns)
    } else if code == 0x7C {
        Some(Opcode::Jl)
    } else if code == 0x7E {
        Some(Opcode::Jle)
    } else if code == 0x83 {
        Some(Opcode::Code83)
    } else if code == 0x88 {
        Some(Opcode::MovRm8R8)
    } else if code == 0x89 {
        Some(Opcode::MovRm32R32)
    } else if code == 0x8A {
        Some(Opcode::MovR8Rm8)
    } else if code == 0x8B {
        Some(Opcode::MovR32Rm32)
    } else if 0xB0 <= code && code <= 0xB7 {
        Some(Opcode::MovR8Imm8)
    } else if 0xB8 <= code && code <= 0xBF {
        Some(Opcode::MovR32Imm32)
    } else if code == 0xC3 {
        Some(Opcode::Ret)
    } else if code == 0xC7 {
        Some(Opcode::MovRm32Imm32)
    } else if code == 0xC9 {
        Some(Opcode::Leave)
    } else if code == 0xCD {
        Some(Opcode::Swi)
    } else if code == 0xE8 {
        Some(Opcode::CallRel32)
    } else if code == 0xE9 {
        Some(Opcode::NearJump)
    } else if code == 0xEB {
        Some(Opcode::ShortJump)
    } else if code == 0xEC {
        Some(Opcode::InAlDx)
    } else if code == 0xEE {
        Some(Opcode::OutDxAl)
    } else if code == 0xFF {
        Some(Opcode::CodeFf)
    } else {
        None
    }
}

/// What one call of [`Emulator::step`] produced: either the machine is
/// still running (with whatever the instruction asked of the outside
/// world) or it halted.
#[derive(Debug, Clone)]
pub enum StepOutcome {
    Running(Action),
    Halted(HaltReason),
}

/// The handler-level result a step outcome stands for: faults come back as
/// errors, everything else as success.
pub open spec fn step_res(r: StepOutcome) -> Result<(), Fault> {
    match r {
        StepOutcome::Running(_) => Ok(()),
        StepOutcome::Halted(h) => match h {
            HaltReason::Fault(f) => Err(f),
            _ => Ok(()),
        },
    }
}

/// The group-handler-level result a step outcome stands for.
pub open spec fn step_res_group(r: StepOutcome) -> Result<(), HaltReason> {
    match r {
        StepOutcome::Running(_) => Ok(()),
        StepOutcome::Halted(h) => match h {
            HaltReason::NormalEnd => Ok(()),
            _ => Err(h),
        },
    }
}

/// The shape a step outcome takes for an instruction without side
/// requests: it proceeds, reports the zero-`eip` sentinel as a normal end,
/// or surfaces a fault.
pub open spec fn plain_shape(r: StepOutcome, post: Machine) -> bool {
    match r {
        StepOutcome::Running(a) => a == Action::Proceed && post.eip != 0,
        StepOutcome::Halted(h) => match h {
            HaltReason::NormalEnd => post.eip == 0,
            HaltReason::Fault(_) => true,
            _ => false,
        },
    }
}

/// The shape a step outcome takes for a group opcode: as the plain shape,
/// plus the unimplemented-group-extension halt.
pub open spec fn group_shape(r: StepOutcome, post: Machine) -> bool {
    match r {
        StepOutcome::Running(a) => a == Action::Proceed && post.eip != 0,
        StepOutcome::Halted(h) => match h {
            HaltReason::NormalEnd => post.eip == 0,
            HaltReason::Fault(_) => true,
            HaltReason::UnimplementedGroupExtension(_, _) => true,
            HaltReason::UnimplementedOpcode(_) => false,
        },
    }
}

/// A code byte sign-extended to 32 bits, as an executable value.
fn sign_extend8(b: u8) -> (r: u32)
    ensures
        r == sext8(b),
{
    if b < 0x80 {
        b as u32
    } else {
        (b as u32) + 0xFFFF_FF00
    }
}

impl Emulator {
    /// Handler for opcode 0x01, `ADD r/m32, r32`.
    pub fn add_rm32_r32(&mut self) -> (r: Result<(), Fault>)
        requires
            old(self).wf(),
            old(self)@.eip < old(self)@.mem.len(),
        ensures
            final(self).wf(),
            add_rm32_r32_spec(old(self)@, final(self)@, r),
    {
        let orig_eip = self.eip;
        self.eip = self.eip + 1;
        let modrm = match self.parse_modrm() {
            Ok(x) => x,
            Err(f) => {
                self.eip = orig_eip;
                return Err(f);
            },
        };
        let r32 = self.get_r32(&modrm);
        let rm32 = match self.get_rm32(&modrm) {
            Ok(v) => v,
            Err(f) => {
                self.eip = orig_eip;
                return Err(f);
            },
        };
        match self.set_rm32(&modrm, rm32.wrapping_add(r32)) {
            Ok(()) => Ok(()),
            Err(f) => {
                self.eip = orig_eip;
                Err(f)
            },
        }
    }

    /// Handler for opcode 0x89, `MOV r/m32, r32`.
    pub fn mov_rm32_r32(&mut self) -> (r: Result<(), Fault>)
        requires
            old(self).wf(),
            old(self)@.eip < old(self)@.mem.len(),
        ensures
            final(self).wf(),
            mov_rm32_r32_spec(old(self)@, final(self)@, r),
    {
        let orig_eip = self.eip;
        self.eip = self.eip + 1;
        let modrm = match self.parse_modrm() {
            Ok(x) => x,
            Err(f) => {
                self.eip = orig_eip;
                return Err(f);
            },
        };
        let r32 = self.get_r32(&modrm);
        match self.set_rm32(&modrm, r32) {
            Ok(()) => Ok(()),
            Err(f) => {
                self.eip = orig_eip;
                Err(f)
            },
        }
    }

    /// Handler for opcode 0x8B, `MOV r32, r/m32`.
    pub fn mov_r32_rm32(&mut self) -> (r: Result<(), Fault>)
        requires
            old(self).wf(),
            old(self)@.eip < old(self)@.mem.len(),
        ensures
            final(self).wf(),
            mov_r32_rm32_spec(old(self)@, final(self)@, r),
    {
        let orig_eip = self.eip;
        self.eip = self.eip + 1;
        let modrm = match self.parse_modrm() {
            Ok(x) => x,
            Err(f) => {
                self.eip = orig_eip;
                return Err(f);
            },
        };
        let rm32 = match self.get_rm32(&modrm) {
            Ok(v) => v,
            Err(f) => {
                self.eip = orig_eip;
                return Err(f);
            },
        };
        self.set_r32(&modrm, rm32);
        Ok(())
    }

    /// Handler for opcode 0xC7, `MOV r/m32, imm32`.
    pub fn mov_rm32_imm32(&mut self) -> (r: Result<(), Fault>)
        requires
            old(self).wf(),
            old(self)@.eip < old(self)@.mem.len(),
        ensures
            final(self).wf(),
            mov_rm32_imm32_spec(old(self)@, final(self)@, r),
    {
        let orig_eip = self.eip;
        self.eip = self.eip + 1;
        let modrm = match self.parse_modrm() {
            Ok(x) => x,
            Err(f) => {
                self.eip = orig_eip;
                return Err(f);
            },
        };
        if (self.memory.len() as u64) - (self.eip as u64) < 4 {
            self.eip = orig_eip;
            return Err(Fault::CodeOutOfBounds);
        }
        let value = self.get_code32(0);
        self.eip = self.eip + 4;
        match self.set_rm32(&modrm, value) {
            Ok(()) => Ok(()),
            Err(f) => {
                self.eip = orig_eip;
                Err(f)
            },
        }
    }

    /// Handler for opcodes 0x40 through 0x47, `INC r32`.
    pub fn inc_r32(&mut self)
        requires
            old(self).wf(),
            old(self)@.eip < old(self)@.mem.len(),
            0x40 <= old(self)@.code8(0) <= 0x47,
        ensures
            final(self).wf(),
            inc_r32_spec(old(self)@, final(self)@),
    {
        let reg = self.get_code8(0) - 0x40;
        let v = self.get_register32(reg as i32);
        self.set_register32(reg as i32, v.wrapping_add(1));
        self.eip = self.eip + 1;
    }

    /// Handler for opcodes 0xB8 through 0xBF, `MOV r32, imm32`.
    pub fn mov_r32_imm32(&mut self) -> (r: Result<(), Fault>)
        requires
            old(self).wf(),
            old(self)@.eip < old(self)@.mem.len(),
            0xB8 <= old(self)@.code8(0) <= 0xBF,
        ensures
            final(self).wf(),
            mov_r32_imm32_spec(old(self)@, final(self)@, r),
    {
        if (self.memory.len() as u64) - (self.eip as u64) < 5 {
            return Err(Fault::CodeOutOfBounds);
        }
        let reg = self.get_code8(0) - 0xB8;
        let value = self.get_code32(1);
        self.set_register32(reg as i32, value);
        self.eip = self.eip + 5;
        Ok(())
    }

    /// Handler for opcode 0xE9, `JMP rel32`.
    pub fn near_jump(&mut self) -> (r: Result<(), Fault>)
        requires
            old(self).wf(),
            old(self)@.eip < old(self)@.mem.len(),
        ensures
            final(self).wf(),
            near_jump_spec(old(self)@, final(self)@, r),
    {
        if (self.memory.len() as u64) - (self.eip as u64) < 5 {
            return Err(Fault::CodeOutOfBounds);
        }
        let diff = self.get_code32(1);
        self.eip = self.eip.wrapping_add(diff).wrapping_add(5);
        Ok(())
    }

    /// Handler for opcode 0xEB, `JMP rel8`.
    pub fn short_jump(&mut self) -> (r: Result<(), Fault>)
        requires
            old(self).wf(),
            old(self)@.eip < old(self)@.mem.len(),
        ensures
            final(self).wf(),
            short_jump_spec(old(self)@, final(self)@, r),
    {
        if (self.memory.len() as u64) - (self.eip as u64) < 2 {
            return Err(Fault::CodeOutOfBounds);
        }
        let diff = sign_extend8(self.get_code8(1));
        self.eip = self.eip.wrapping_add(diff).wrapping_add(2);
        Ok(())
    }

    /// Handler for opcode 0x3B, `CMP r32, r/m32`.
    pub fn cmp_r32_rm32(&mut self) -> (r: Result<(), Fault>)
        requires
            old(self).wf(),
            old(self)@.eip < old(self)@.mem.len(),
        ensures
            final(self).wf(),
            cmp_r32_rm32_spec(old(self)@, final(self)@, r),
    {
        let orig_eip = self.eip;
        self.eip = self.eip + 1;
        let modrm = match self.parse_modrm() {
            Ok(x) => x,
            Err(f) => {
                self.eip = orig_eip;
                return Err(f);
            },
        };
        let r32 = self.get_r32(&modrm);
        let rm32 = match self.get_rm32(&modrm) {
            Ok(v) => v,
            Err(f) => {
                self.eip = orig_eip;
                return Err(f);
            },
        };
        let result = (r32 as u64).wrapping_sub(rm32 as u64);
        self.update_eflags_sub(r32, rm32, result);
        Ok(())
    }

    /// Handler for opcode 0x3C, `CMP AL, imm8`.
    pub fn cmp_al_imm8(&mut self) -> (r: Result<(), Fault>)
        requires
            old(self).wf(),
            old(self)@.eip < old(self)@.mem.len(),
        ensures
            final(self).wf(),
            cmp_al_imm8_spec(old(self)@, final(self)@, r),
    {
        if (self.memory.len() as u64) - (self.eip as u64) < 2 {
            return Err(Fault::CodeOutOfBounds);
        }
        let value = self.get_code8(1);
        let al = self.get_register8(Register8::AL.index());
        let result = (al as u64).wrapping_sub(value as u64);
        self.update_eflags_sub(al as u32, value as u32, result);
        self.eip = self.eip + 2;
        Ok(())
    }

    /// Handler for opcode 0x3D, `CMP EAX, imm32`.
    pub fn cmp_eax_imm32(&mut self) -> (r: Result<(), Fault>)
        requires
            old(self).wf(),
            old(self)@.eip < old(self)@.mem.len(),
        ensures
            final(self).wf(),
            cmp_eax_imm32_spec(old(self)@, final(self)@, r),
    {
        if (self.memory.len() as u64) - (self.eip as u64) < 5 {
            return Err(Fault::CodeOutOfBounds);
        }
        let value = self.get_code32(1);
        let eax = self.get_register32(Register32::EAX.index());
        let result = (eax as u64).wrapping_sub(value as u64);
        self.update_eflags_sub(eax, value, result);
        self.eip = self.eip + 5;
        Ok(())
    }

    /// Takes or skips a conditional short jump; the displacement byte is
    /// read only when the jump is taken.
    fn jump_short_if(&mut self, cond: bool) -> (r: Result<(), Fault>)
        requires
            old(self).wf(),
            old(self)@.eip < old(self)@.mem.len(),
        ensures
            final(self).wf(),
            jcc_spec(old(self)@, final(self)@, r, cond),
    {
        if cond {
            if (self.memory.len() as u64) - (self.eip as u64) < 2 {
                return Err(Fault::CodeOutOfBounds);
            }
            let diff = sign_extend8(self.get_code8(1));
            self.eip = self.eip.wrapping_add(2).wrapping_add(diff);
        } else {
            self.eip = self.eip.wrapping_add(2);
        }
        Ok(())
    }

    /// Handler for opcode 0x70, `JO rel8`: jump when Overflow is set.
    pub fn jo(&mut self) -> (r: Result<(), Fault>)
        requires
            old(self).wf(),
            old(self)@.eip < old(self)@.mem.len(),
        ensures
            final(self).wf(),
            jcc_spec(old(self)@, final(self)@, r, overflow(old(self)@.eflags)),
    {
        let cond = self.is_overflow();
        self.jump_short_if(cond)
    }

    /// Handler for opcode 0x71, `JNO rel8`: jump when Overflow is clear.
    pub fn jno(&mut self) -> (r: Result<(), Fault>)
        requires
            old(self).wf(),
            old(self)@.eip < old(self)@.mem.len(),
        ensures
            final(self).wf(),
            jcc_spec(old(self)@, final(self)@, r, !overflow(old(self)@.eflags)),
    {
        let cond = self.is_overflow();
        self.jump_short_if(!cond)
    }

    /// Handler for opcode 0x72, `JC rel8`: jump when Carry is set.
    pub fn jc(&mut self) -> (r: Result<(), Fault>)
        requires
            old(self).wf(),
            old(self)@.eip < old(self)@.mem.len(),
        ensures
            final(self).wf(),
            jcc_spec(old(self)@, final(self)@, r, carry(old(self)@.eflags)),
    {
        let cond = self.is_carry();
        self.jump_short_if(cond)
    }

    /// Handler for opcode 0x73, `JNC rel8`: jump when Carry is clear.
    pub fn jnc(&mut self) -> (r: Result<(), Fault>)
        requires
            old(self).wf(),
            old(self)@.eip < old(self)@.mem.len(),
        ensures
            final(self).wf(),
            jcc_spec(old(self)@, final(self)@, r, !carry(old(self)@.eflags)),
    {
        let cond = self.is_carry();
        self.jump_short_if(!cond)
    }

    /// Handler for opcode 0x74, `JZ rel8`: jump when Zero is set.
    pub fn jz(&mut self) -> (r: Result<(), Fault>)
        requires
            old(self).wf(),
            old(self)@.eip < old(self)@.mem.len(),
        ensures
            final(self).wf(),
            jcc_spec(old(self)@, final(self)@, r, zero(old(self)@.eflags)),
    {
        let cond = self.is_zero();
        self.jump_short_if(cond)
    }

    /// Handler for opcode 0x75, `JNZ rel8`: jump when Zero is clear.
    pub fn jnz(&mut self) -> (r: Result<(), Fault>)
        requires
            old(self).wf(),
            old(self)@.eip < old(self)@.mem.len(),
        ensures
            final(self).wf(),
            jcc_spec(old(self)@, final(self)@, r, !zero(old(self)@.eflags)),
    {
        let cond = self.is_zero();
        self.jump_short_if(!cond)
    }

    /// Handler for opcode 0x78, `JS rel8`: jump when Sign is set.
    pub fn js(&mut self) -> (r: Result<(), Fault>)
        requires
            old(self).wf(),
            old(self)@.eip < old(self)@.mem.len(),
        ensures
            final(self).wf(),
            jcc_spec(old(self)@, final(self)@, r, sign(old(self)@.eflags)),
    {
        let cond = self.is_sign();
        self.jump_short_if(cond)
    }

    /// Handler for opcode 0x79, `JNS rel8`: jump when Sign is clear.
    pub fn jns(&mut self) -> (r: Result<(), Fault>)
        requires
            old(self).wf(),
            old(self)@.eip < old(self)@.mem.len(),
        ensures
            final(self).wf(),
            jcc_spec(old(self)@, final(self)@, r, !sign(old(self)@.eflags)),
    {
        let cond = self.is_sign();
        self.jump_short_if(!cond)
    }

    /// Handler for opcode 0x7C, `JL rel8`: jump when Sign differs from
    /// Overflow.
    pub fn jl(&mut self) -> (r: Result<(), Fault>)
        requires
            old(self).wf(),
            old(self)@.eip < old(self)@.mem.len(),
        ensures
            final(self).wf(),
            jcc_spec(
                old(self)@,
                final(self)@,
                r,
                sign(old(self)@.eflags) != overflow(old(self)@.eflags),
            ),
    {
        let s = self.is_sign();
        let o = self.is_overflow();
        self.jump_short_if(s != o)
    }

    /// Handler for opcode 0x7E, `JLE rel8`: jump when Zero is set or Sign
    /// differs from Overflow.
    pub fn jle(&mut self) -> (r: Result<(), Fault>)
        requires
            old(self).wf(),
            old(self)@.eip < old(self)@.mem.len(),
        ensures
            final(self).wf(),
            jcc_spec(
                old(self)@,
                final(self)@,
                r,
                zero(old(self)@.eflags) || sign(old(self)@.eflags) != overflow(old(self)@.eflags),
            ),
    {
        let z = self.is_zero();
        let s = self.is_sign();
        let o = self.is_overflow();
        self.jump_short_if(z || s != o)
    }

    /// Handler for opcodes 0x50 through 0x57, `PUSH r32`.
    pub fn push_r32(&mut self) -> (r: Result<(), Fault>)
        requires
            old(self).wf(),
            old(self)@.eip < old(self)@.mem.len(),
            0x50 <= old(self)@.code8(0) <= 0x57,
        ensures
            final(self).wf(),
            push_r32_spec(old(self)@, final(self)@, r),
    {
        let reg = self.get_code8(0) - 0x50;
        let esp = self.get_register32(Register32::ESP.index());
        if esp < 4 || (esp as u64) > self.memory.len() as u64 {
            return Err(Fault::MemoryOutOfBounds(esp.wrapping_sub(4)));
        }
        let v = self.get_register32(reg as i32);
        self.push32(v);
        self.eip = self.eip + 1;
        Ok(())
    }

    /// Handler for opcodes 0x58 through 0x5F, `POP r32`.
    pub fn pop_r32(&mut self) -> (r: Result<(), Fault>)
        requires
            old(self).wf(),
            old(self)@.eip < old(self)@.mem.len(),
            0x58 <= old(self)@.code8(0) <= 0x5F,
        ensures
            final(self).wf(),
            pop_r32_spec(old(self)@, final(self)@, r),
    {
        let reg = self.get_code8(0) - 0x58;
        let esp = self.get_register32(Register32::ESP.index());
        if (esp as u64) + 4 > self.memory.len() as u64 {
            return Err(Fault::MemoryOutOfBounds(esp));
        }
        let value = self.pop32();
        self.set_register32(reg as i32, value);
        self.eip = self.eip + 1;
        Ok(())
    }

    /// Handler for opcode 0x68, `PUSH imm32`.
    pub fn push_imm32(&mut self) -> (r: Result<(), Fault>)
        requires
            old(self).wf(),
            old(self)@.eip < old(self)@.mem.len(),
        ensures
            final(self).wf(),
            push_imm32_spec(old(self)@, final(self)@, r),
    {
        if (self.memory.len() as u64) - (self.eip as u64) < 5 {
            return Err(Fault::CodeOutOfBounds);
        }
        let value = self.get_code32(1);
        let esp = self.get_register32(Register32::ESP.index());
        if esp < 4 || (esp as u64) > self.memory.len() as u64 {
            return Err(Fault::MemoryOutOfBounds(esp.wrapping_sub(4)));
        }
        self.push32(value);
        self.eip = self.eip + 5;
        Ok(())
    }

    /// Handler for opcode 0x6A, `PUSH imm8` (sign-extended).
    pub fn push_imm8(&mut self) -> (r: Result<(), Fault>)
        requires
            old(self).wf(),
            old(self)@.eip < old(self)@.mem.len(),
        ensures
            final(self).wf(),
            push_imm8_spec(old(self)@, final(self)@, r),
    {
        if (self.memory.len() as u64) - (self.eip as u64) < 2 {
            return Err(Fault::CodeOutOfBounds);
        }
        let value = sign_extend8(self.get_code8(1));
        let esp = self.get_register32(Register32::ESP.index());
        if esp < 4 || (esp as u64) > self.memory.len() as u64 {
            return Err(Fault::MemoryOutOfBounds(esp.wrapping_sub(4)));
        }
        self.push32(value);
        self.eip = self.eip + 2;
        Ok(())
    }

    /// Handler for opcode 0xE8, `CALL rel32`.
    pub fn call_ref32(&mut self) -> (r: Result<(), Fault>)
        requires
            old(self).wf(),
            old(self)@.eip < old(self)@.mem.len(),
        ensures
            final(self).wf(),
            call_ref32_spec(old(self)@, final(self)@, r),
    {
        if (self.memory.len() as u64) - (self.eip as u64) < 5 {
            return Err(Fault::CodeOutOfBounds);
        }
        let diff = self.get_code32(1);
        let esp = self.get_register32(Register32::ESP.index());
        if esp < 4 || (esp as u64) > self.memory.len() as u64 {
            return Err(Fault::MemoryOutOfBounds(esp.wrapping_sub(4)));
        }
        self.push32(self.eip + 5);
        self.eip = self.eip.wrapping_add(diff).wrapping_add(5);
        Ok(())
    }

    /// Handler for opcode 0xC3, `RET`.
    pub fn ret(&mut self) -> (r: Result<(), Fault>)
        requires
            old(self).wf(),
            old(self)@.eip < old(self)@.mem.len(),
        ensures
            final(self).wf(),
            ret_spec(old(self)@, final(self)@, r),
    {
        let esp = self.get_register32(Register32::ESP.index());
        if (esp as u64) + 4 > self.memory.len() as u64 {
            return Err(Fault::MemoryOutOfBounds(esp));
        }
        let value = self.pop32();
        self.eip = value;
        Ok(())
    }

    /// Handler for opcode 0xC9, `LEAVE`.
    pub fn leave(&mut self) -> (r: Result<(), Fault>)
        requires
            old(self).wf(),
            old(self)@.eip < old(self)@.mem.len(),
        ensures
            final(self).wf(),
            leave_spec(old(self)@, final(self)@, r),
    {
        let ebp = self.get_register32(Register32::EBP.index());
        if (ebp as u64) + 4 > self.memory.len() as u64 {
            return Err(Fault::MemoryOutOfBounds(ebp));
        }
        self.set_register32(Register32::ESP.index(), ebp);
        let value = self.pop32();
        self.set_register32(Register32::EBP.index(), value);
        self.eip = self.eip + 1;
        proof {
            assert(self@.regs =~= old(self)@.regs.update(4, (old(self)@.regs[5] + 4) as u32).update(
                5,
                read32(old(self)@.mem, old(self)@.regs[5] as int),
            ));
        }
        Ok(())
    }

    /// Handler for opcode 0x88, `MOV r/m8, r8`.
    pub fn mov_rm8_r8(&mut self) -> (r: Result<(), Fault>)
        requires
            old(self).wf(),
            old(self)@.eip < old(self)@.mem.len(),
        ensures
            final(self).wf(),
            mov_rm8_r8_spec(old(self)@, final(self)@, r),
    {
        let orig_eip = self.eip;
        self.eip = self.eip + 1;
        let modrm = match self.parse_modrm() {
            Ok(x) => x,
            Err(f) => {
                self.eip = orig_eip;
                return Err(f);
            },
        };
        let r8 = self.get_r8(&modrm);
        match self.set_rm8(&modrm, r8) {
            Ok(()) => Ok(()),
            Err(f) => {
                self.eip = orig_eip;
                Err(f)
            },
        }
    }

    /// Handler for opcode 0x8A, `MOV r8, r/m8`.
    pub fn mov_r8_rm8(&mut self) -> (r: Result<(), Fault>)
        requires
            old(self).wf(),
            old(self)@.eip < old(self)@.mem.len(),
        ensures
            final(self).wf(),
            mov_r8_rm8_spec(old(self)@, final(self)@, r),
    {
        let orig_eip = self.eip;
        self.eip = self.eip + 1;
        let modrm = match self.parse_modrm() {
            Ok(x) => x,
            Err(f) => {
                self.eip = orig_eip;
                return Err(f);
            },
        };
        let rm8 = match self.get_rm8(&modrm) {
            Ok(v) => v,
            Err(f) => {
                self.eip = orig_eip;
                return Err(f);
            },
        };
        self.set_r8(&modrm, rm8);
        Ok(())
    }

    /// Handler for opcodes 0xB0 through 0xB7, `MOV r8, imm8`.
    pub fn mov_r8_imm8(&mut self) -> (r: Result<(), Fault>)
        requires
            old(self).wf(),
            old(self)@.eip < old(self)@.mem.len(),
            0xB0 <= old(self)@.code8(0) <= 0xB7,
        ensures
            final(self).wf(),
            mov_r8_imm8_spec(old(self)@, final(self)@, r),
    {
        if (self.memory.len() as u64) - (self.eip as u64) < 2 {
            return Err(Fault::CodeOutOfBounds);
        }
        let reg = self.get_code8(0) - 0xB0;
        let value = self.get_code8(1);
        self.set_register8(reg as i32, value);
        self.eip = self.eip + 2;
        Ok(())
    }

    /// Handler for extension 0 of the 0x83 group, `ADD r/m32, imm8`; runs
    /// with `eip` at the immediate byte.
    pub fn add_rm32_imm8(&mut self, modrm: &ModRM) -> (r: Result<(), Fault>)
        requires
            old(self).wf(),
            modrm.wf(),
        ensures
            final(self).wf(),
            add_rm32_imm8_spec(old(self)@, final(self)@, *modrm, r),
    {
        let rm32 = match self.get_rm32(modrm) {
            Ok(v) => v,
            Err(f) => return Err(f),
        };
        if (self.eip as u64) >= self.memory.len() as u64 {
            return Err(Fault::CodeOutOfBounds);
        }
        let imm8 = sign_extend8(self.get_code8(0));
        self.eip = self.eip + 1;
        match self.set_rm32(modrm, rm32.wrapping_add(imm8)) {
            Ok(()) => Ok(()),
            Err(f) => {
                proof {
                    assert(false);
                }
                Err(f)
            },
        }
    }

    /// Handler for extension 5 of the 0x83 group, `SUB r/m32, imm8`; runs
    /// with `eip` at the immediate byte.
    pub fn sub_rm32_imm8(&mut self, modrm: &ModRM) -> (r: Result<(), Fault>)
        requires
            old(self).wf(),
            modrm.wf(),
        ensures
            final(self).wf(),
            sub_rm32_imm8_spec(old(self)@, final(self)@, *modrm, r),
    {
        let rm32 = match self.get_rm32(modrm) {
            Ok(v) => v,
            Err(f) => return Err(f),
        };
        if (self.eip as u64) >= self.memory.len() as u64 {
            return Err(Fault::CodeOutOfBounds);
        }
        let imm8 = sign_extend8(self.get_code8(0));
        self.eip = self.eip + 1;
        match self.set_rm32(modrm, rm32.wrapping_sub(imm8)) {
            Ok(()) => Ok(()),
            Err(f) => {
                proof {
                    assert(false);
                }
                Err(f)
            },
        }
    }

    /// Handler for opcode 0x83, the add/subtract-immediate group; the
    /// ModRM extension field selects the operation.
    pub fn code_83(&mut self) -> (r: Result<(), HaltReason>)
        requires
            old(self).wf(),
            old(self)@.eip < old(self)@.mem.len(),
        ensures
            final(self).wf(),
            code_83_spec(old(self)@, final(self)@, r),
    {
        let orig_eip = self.eip;
        self.eip = self.eip + 1;
        let modrm = match self.parse_modrm() {
            Ok(x) => x,
            Err(f) => {
                self.eip = orig_eip;
                return Err(HaltReason::Fault(f));
            },
        };
        if modrm.opereg == 0 {
            match self.add_rm32_imm8(&modrm) {
                Ok(()) => Ok(()),
                Err(f) => {
                    self.eip = orig_eip;
                    Err(HaltReason::Fault(f))
                },
            }
        } else if modrm.opereg == 5 {
            match self.sub_rm32_imm8(&modrm) {
                Ok(()) => Ok(()),
                Err(f) => {
                    self.eip = orig_eip;
                    Err(HaltReason::Fault(f))
                },
            }
        } else {
            let ext = modrm.opereg;
            self.eip = orig_eip;
            Err(HaltReason::UnimplementedGroupExtension(0x83, ext))
        }
    }

    /// Handler for extension 0 of the 0xFF group, `INC r/m32`; the group
    /// handler has already moved `eip` past the ModRM byte sequence.
    pub fn inc_rm32(&mut self, modrm: &ModRM) -> (r: Result<(), Fault>)
        requires
            old(self).wf(),
            modrm.wf(),
        ensures
            final(self).wf(),
            inc_rm32_spec(old(self)@, final(self)@, *modrm, r),
    {
        let value = match self.get_rm32(modrm) {
            Ok(v) => v,
            Err(f) => return Err(f),
        };
        match self.set_rm32(modrm, value.wrapping_add(1)) {
            Ok(()) => Ok(()),
            Err(f) => {
                proof {
                    assert(false);
                }
                Err(f)
            },
        }
    }

    /// Handler for opcode 0xFF, the increment group; only extension 0 is
    /// mapped.
    pub fn code_ff(&mut self) -> (r: Result<(), HaltReason>)
        requires
            old(self).wf(),
            old(self)@.eip < old(self)@.mem.len(),
        ensures
            final(self).wf(),
            code_ff_spec(old(self)@, final(self)@, r),
    {
        let orig_eip = self.eip;
        self.eip = self.eip + 1;
        let modrm = match self.parse_modrm() {
            Ok(x) => x,
            Err(f) => {
                self.eip = orig_eip;
                return Err(HaltReason::Fault(f));
            },
        };
        if modrm.opereg == 0 {
            match self.inc_rm32(&modrm) {
                Ok(()) => Ok(()),
                Err(f) => {
                    self.eip = orig_eip;
                    Err(HaltReason::Fault(f))
                },
            }
        } else {
            let ext = modrm.opereg;
            self.eip = orig_eip;
            Err(HaltReason::UnimplementedGroupExtension(0xFF, ext))
        }
    }

    /// Handler for opcode 0xCD, `INT imm8`: software interrupt dispatch.
    pub fn swi(&mut self) -> (r: Result<Action, Fault>)
        requires
            old(self).wf(),
            old(self)@.eip < old(self)@.mem.len(),
        ensures
            final(self).wf(),
            swi_spec(old(self)@, final(self)@, r),
    {
        if (self.memory.len() as u64) - (self.eip as u64) < 2 {
            return Err(Fault::CodeOutOfBounds);
        }
        let int_index = self.get_code8(1);
        self.eip = self.eip + 2;

        if int_index == 0x10 {
            Ok(self.bios_video())
        } else {
            Ok(Action::UnknownInterrupt(int_index))
        }
    }

    /// Completes `IN AL, DX` (opcode 0xEC) with the byte the caller read
    /// from the port.
    pub fn in_al_dx(&mut self, value: u8)
        requires
            old(self).wf(),
            old(self)@.eip < old(self)@.mem.len(),
        ensures
            final(self).wf(),
            in_al_dx_spec(old(self)@, final(self)@, value),
    {
        self.set_register8(Register8::AL.index(), value);
        self.eip = self.eip + 1;
    }

    /// Handler for opcode 0xEE, `OUT DX, AL`: hands back the port and the
    /// byte for the caller to write.
    pub fn out_dx_al(&mut self) -> (r: (u16, u8))
        requires
            old(self).wf(),
            old(self)@.eip < old(self)@.mem.len(),
        ensures
            final(self).wf(),
            out_dx_al_spec(old(self)@, final(self)@, r.0, r.1),
    {
        let edx = self.get_register32(Register32::EDX.index());
        proof {
            lemma_mask_u16(edx);
        }
        let port = (edx & 0xFFFF) as u16;
        let value = self.get_register8(Register8::AL.index());
        self.eip = self.eip + 1;
        (port, value)
    }

    /// Turns a plain handler result into a step outcome: a fault halts,
    /// and the zero-`eip` sentinel reached after a successful instruction
    /// is the normal end of the program.
    fn outcome_plain(&self, h: Result<(), Fault>) -> (o: StepOutcome)
        ensures
            h matches Ok(()) && self@.eip != 0 ==> o == StepOutcome::Running(Action::Proceed),
            h matches Ok(()) && self@.eip == 0 ==> o == StepOutcome::Halted(HaltReason::NormalEnd),
            h matches Err(f) ==> o == StepOutcome::Halted(HaltReason::Fault(f)),
    {
        match h {
            Ok(()) => {
                if self.eip == 0 {
                    StepOutcome::Halted(HaltReason::NormalEnd)
                } else {
                    StepOutcome::Running(Action::Proceed)
                }
            },
            Err(f) => StepOutcome::Halted(HaltReason::Fault(f)),
        }
    }

    /// Turns a group handler result into a step outcome.
    fn outcome_group(&self, h: Result<(), HaltReason>) -> (o: StepOutcome)
        ensures
            h matches Ok(()) && self@.eip != 0 ==> o == StepOutcome::Running(Action::Proceed),
            h matches Ok(()) && self@.eip == 0 ==> o == StepOutcome::Halted(HaltReason::NormalEnd),
            h matches Err(reason) ==> o == StepOutcome::Halted(reason),
    {
        match h {
            Ok(()) => {
                if self.eip == 0 {
                    StepOutcome::Halted(HaltReason::NormalEnd)
                } else {
                    StepOutcome::Running(Action::Proceed)
                }
            },
            Err(reason) => StepOutcome::Halted(reason),
        }
    }

    /// One step of the execution loop: reads the byte at `eip`, looks it
    /// up in the dispatch table, and runs the handler.  An unmapped byte
    /// halts immediately with the unimplemented-opcode reason and changes
    /// nothing; after a successful instruction, `eip == 0` is the sentinel
    /// for the normal end of the program.
    pub fn step(&mut self) -> (r: StepOutcome)
        requires
            old(self).wf(),
            old(self)@.eip < old(self)@.mem.len(),
        ensures
            final(self).wf(),
            ({
                let pre = old(self)@;
                let post = final(self)@;
                let code = pre.code8(0);
                match spec_decode(code) {
                    Option::None => same_state(pre, post) && r == StepOutcome::Halted(
                        HaltReason::UnimplementedOpcode(code),
                    ),
                    Option::Some(op) => match op {
                        Opcode::AddRm32R32 => add_rm32_r32_spec(pre, post, step_res(r))
                            && plain_shape(r, post),
                        Opcode::CmpR32Rm32 => cmp_r32_rm32_spec(pre, post, step_res(r))
                            && plain_shape(r, post),
                        Opcode::CmpAlImm8 => cmp_al_imm8_spec(pre, post, step_res(r))
                            && plain_shape(r, post),
                        Opcode::CmpEaxImm32 => cmp_eax_imm32_spec(pre, post, step_res(r))
                            && plain_shape(r, post),
                        Opcode::IncR32 => inc_r32_spec(pre, post) && plain_shape(r, post)
                            && step_res(r) == Ok::<(), Fault>(()),
                        Opcode::PushR32 => push_r32_spec(pre, post, step_res(r)) && plain_shape(
                            r,
                            post,
                        ),
                        Opcode::PopR32 => pop_r32_spec(pre, post, step_res(r)) && plain_shape(
                            r,
                            post,
                        ),
                        Opcode::PushImm32 => push_imm32_spec(pre, post, step_res(r))
                            && plain_shape(r, post),
                        Opcode::PushImm8 => push_imm8_spec(pre, post, step_res(r)) && plain_shape(
                            r,
                            post,
                        ),
                        Opcode::Jo => jcc_spec(pre, post, step_res(r), overflow(pre.eflags))
                            && plain_shape(r, post),
                        Opcode::Jno => jcc_spec(pre, post, step_res(r), !overflow(pre.eflags))
                            && plain_shape(r, post),
                        Opcode::Jc => jcc_spec(pre, post, step_res(r), carry(pre.eflags))
                            && plain_shape(r, post),
                        Opcode::Jnc => jcc_spec(pre, post, step_res(r), !carry(pre.eflags))
                            && plain_shape(r, post),
                        Opcode::Jz => jcc_spec(pre, post, step_res(r), zero(pre.eflags))
                            && plain_shape(r, post),
                        Opcode::Jnz => jcc_spec(pre, post, step_res(r), !zero(pre.eflags))
                            && plain_shape(r, post),
                        Opcode::Js => jcc_spec(pre, post, step_res(r), sign(pre.eflags))
                            && plain_shape(r, post),
                        Opcode::Jns => jcc_spec(pre, post, step_res(r), !sign(pre.eflags))
                            && plain_shape(r, post),
                        Opcode::Jl => jcc_spec(
                            pre,
                            post,
                            step_res(r),
                            sign(pre.eflags) != overflow(pre.eflags),
                        ) && plain_shape(r, post),
                        Opcode::Jle => jcc_spec(
                            pre,
                            post,
                            step_res(r),
                            zero(pre.eflags) || sign(pre.eflags) != overflow(pre.eflags),
                        ) && plain_shape(r, post),
                        Opcode::Code83 => code_83_spec(pre, post, step_res_group(r))
                            && group_shape(r, post),
                        Opcode::MovRm8R8 => mov_rm8_r8_spec(pre, post, step_res(r))
                            && plain_shape(r, post),
                        Opcode::MovRm32R32 => mov_rm32_r32_spec(pre, post, step_res(r))
                            && plain_shape(r, post),
                        Opcode::MovR8Rm8 => mov_r8_rm8_spec(pre, post, step_res(r))
                            && plain_shape(r, post),
                        Opcode::MovR32Rm32 => mov_r32_rm32_spec(pre, post, step_res(r))
                            && plain_shape(r, post),
                        Opcode::MovR8Imm8 => mov_r8_imm8_spec(pre, post, step_res(r))
                            && plain_shape(r, post),
                        Opcode::MovR32Imm32 => mov_r32_imm32_spec(pre, post, step_res(r))
                            && plain_shape(r, post),
                        Opcode::Ret => ret_spec(pre, post, step_res(r)) && plain_shape(r, post),
                        Opcode::MovRm32Imm32 => mov_rm32_imm32_spec(pre, post, step_res(r))
                            && plain_shape(r, post),
                        Opcode::Leave => leave_spec(pre, post, step_res(r)) && plain_shape(
                            r,
                            post,
                        ),
                        Opcode::Swi => match r {
                            StepOutcome::Running(a) => swi_spec(pre, post, Ok(a)),
                            StepOutcome::Halted(h) => h matches HaltReason::Fault(f) && swi_spec(
                                pre,
                                post,
                                Err(f),
                            ),
                        },
                        Opcode::CallRel32 => call_ref32_spec(pre, post, step_res(r))
                            && plain_shape(r, post),
                        Opcode::NearJump => near_jump_spec(pre, post, step_res(r)) && plain_shape(
                            r,
                            post,
                        ),
                        Opcode::ShortJump => short_jump_spec(pre, post, step_res(r))
                            && plain_shape(r, post),
                        Opcode::InAlDx => same_state(pre, post) && (if port_of(pre.regs[2])
                            == 0x03F8 {
                            r == StepOutcome::Running(Action::InputRequest(0x03F8))
                        } else {
                            r == StepOutcome::Halted(
                                HaltReason::Fault(
                                    Fault::PortReadUnsupported(port_of(pre.regs[2])),
                                ),
                            )
                        }),
                        Opcode::OutDxAl => out_dx_al_spec(
                            pre,
                            post,
                            port_of(pre.regs[2]),
                            reg8_of(pre.regs, 0),
                        ) && r == StepOutcome::Running(
                            Action::Output(port_of(pre.regs[2]), reg8_of(pre.regs, 0)),
                        ),
                        Opcode::CodeFf => code_ff_spec(pre, post, step_res_group(r))
                            && group_shape(r, post),
                    },
                }
            }),
    {
        let code = self.get_code8(0);
        let op = match decode_opcode(code) {
            Some(op) => op,
            None => {
                return StepOutcome::Halted(HaltReason::UnimplementedOpcode(code));
            },
        };
        match op {
            Opcode::AddRm32R32 => {
                let h = self.add_rm32_r32();
                self.outcome_plain(h)
            },
            Opcode::CmpR32Rm32 => {
                let h = self.cmp_r32_rm32();
                self.outcome_plain(h)
            },
            Opcode::CmpAlImm8 => {
                let h = self.cmp_al_imm8();
                self.outcome_plain(h)
            },
            Opcode::CmpEaxImm32 => {
                let h = self.cmp_eax_imm32();
                self.outcome_plain(h)
            },
            Opcode::IncR32 => {
                self.inc_r32();
                self.outcome_plain(Ok(()))
            },
            Opcode::PushR32 => {
                let h = self.push_r32();
                self.outcome_plain(h)
            },
            Opcode::PopR32 => {
                let h = self.pop_r32();
                self.outcome_plain(h)
            },
            Opcode::PushImm32 => {
                let h = self.push_imm32();
                self.outcome_plain(h)
            },
            Opcode::PushImm8 => {
                let h = self.push_imm8();
                self.outcome_plain(h)
            },
            Opcode::Jo => {
                let h = self.jo();
                self.outcome_plain(h)
            },
            Opcode::Jno => {
                let h = self.jno();
                self.outcome_plain(h)
            },
            Opcode::Jc => {
                let h = self.jc();
                self.outcome_plain(h)
            },
            Opcode::Jnc => {
                let h = self.jnc();
                self.outcome_plain(h)
            },
            Opcode::Jz => {
                let h = self.jz();
                self.outcome_plain(h)
            },
            Opcode::Jnz => {
                let h = self.jnz();
                self.outcome_plain(h)
            },
            Opcode::Js => {
                let h = self.js();
                self.outcome_plain(h)
            },
            Opcode::Jns => {
                let h = self.jns();
                self.outcome_plain(h)
            },
            Opcode::Jl => {
                let h = self.jl();
                self.outcome_plain(h)
            },
            Opcode::Jle => {
                let h = self.jle();
                self.outcome_plain(h)
            },
            Opcode::Code83 => {
                let h = self.code_83();
                self.outcome_group(h)
            },
            Opcode::MovRm8R8 => {
                let h = self.mov_rm8_r8();
                self.outcome_plain(h)
            },
            Opcode::MovRm32R32 => {
                let h = self.mov_rm32_r32();
                self.outcome_plain(h)
            },
            Opcode::MovR8Rm8 => {
                let h = self.mov_r8_rm8();
                self.outcome_plain(h)
            },
            Opcode::MovR32Rm32 => {
                let h = self.mov_r32_rm32();
                self.outcome_plain(h)
            },
            Opcode::MovR8Imm8 => {
                let h = self.mov_r8_imm8();
                self.outcome_plain(h)
            },
            Opcode::MovR32Imm32 => {
                let h = self.mov_r32_imm32();
                self.outcome_plain(h)
            },
            Opcode::Ret => {
                let h = self.ret();
                self.outcome_plain(h)
            },
            Opcode::MovRm32Imm32 => {
                let h = self.mov_rm32_imm32();
                self.outcome_plain(h)
            },
            Opcode::Leave => {
                let h = self.leave();
                self.outcome_plain(h)
            },
            Opcode::Swi => {
                match self.swi() {
                    Ok(a) => StepOutcome::Running(a),
                    Err(f) => StepOutcome::Halted(HaltReason::Fault(f)),
                }
            },
            Opcode::CallRel32 => {
                let h = self.call_ref32();
                self.outcome_plain(h)
            },
            Opcode::NearJump => {
                let h = self.near_jump();
                self.outcome_plain(h)
            },
            Opcode::ShortJump => {
                let h = self.short_jump();
                self.outcome_plain(h)
            },
            Opcode::InAlDx => {
                let edx = self.get_register32(Register32::EDX.index());
                proof {
                    lemma_mask_u16(edx);
                }
                let port = (edx & 0xFFFF) as u16;
                if port == 0x03F8 {
                    StepOutcome::Running(Action::InputRequest(port))
                } else {
                    StepOutcome::Halted(HaltReason::Fault(Fault::PortReadUnsupported(port)))
                }
            },
            Opcode::OutDxAl => {
                let out = self.out_dx_al();
                StepOutcome::Running(Action::Output(out.0, out.1))
            },
            Opcode::CodeFf => {
                let h = self.code_ff();
                self.outcome_group(h)
            },
        }
    }
}

} // verus!

//! The single emulated BIOS service: video interrupt function 0x0E
//! (teletype output).  The low nibble of BL selects a foreground color,
//! mapped through an 8-entry table to an ANSI escape sequence wrapped
//! around the character in AL.  The byte sequence to emit is returned to
//! the caller; this module performs no output itself.

use vstd::prelude::*;

use crate::emulator::{reg8_of, Emulator};
use crate::instruction::Action;

verus! {

/// The terminal color code for a 3-bit BIOS foreground color: the BIOS
/// order black, blue, green, cyan, red, magenta, yellow, white mapped to
/// the ANSI codes 30 through 37.
pub open spec fn terminal_color_of(c: u8) -> u8 {
    if c == 0 {
        30
    } else if c == 1 {
        34
    } else if c == 2 {
        32
    } else if c == 3 {
        36
    } else if c == 4 {
        31
    } else if c == 5 {
        35
    } else if c == 6 {
        33
    } else {
        37
    }
}

/// The byte as the character it names, encoded as the output sink writes
/// characters (UTF-8): one byte below 0x80, two bytes otherwise.
pub open spec fn char_bytes(b: u8) -> Seq<u8> {
    if b < 0x80 {
        seq![b]
    } else {
        seq![0xC0 | (b >> 6), 0x80 | (b & 0x3F)]
    }
}

/// The full teletype escape sequence for color byte `bl` and character
/// `al`: escape, bracket, the brightness digit, a semicolon, the two color
/// digits, the letter m, the character, and the reset sequence.
pub open spec fn teletype_bytes(bl: u8, al: u8) -> Seq<u8> {
    let color = bl & 0x0F;
    let bright: u8 = if color & 0x08 == 0x08 {
        0x31
    } else {
        0x30
    };
    let tc = terminal_color_of(color & 0x07);
    seq![0x1Bu8, 0x5B, bright, 0x3B, 0x33, (0x30 + (tc - 30)) as u8, 0x6D] + char_bytes(al)
        + seq![0x1Bu8, 0x5B, 0x30, 0x6D]
}

/// The terminal color code for a 3-bit BIOS foreground color, as an
/// executable value.
fn terminal_color(c: u8) -> (r: u8)
    ensures
        r == terminal_color_of(c),
{
    match c {
        0 => 30,
        1 => 34,
        2 => 32,
        3 => 36,
        4 => 31,
        5 => 35,
        6 => 33,
        _ => 37,
    }
}

impl Emulator {
    /// The bytes that BIOS video function 0x0E (teletype output) emits for
    /// the current BL and AL.
    pub fn bios_video_teletype(&self) -> (r: Vec<u8>)
        requires
            self.wf(),
        ensures
            r@ == teletype_bytes(reg8_of(self@.regs, 3), reg8_of(self@.regs, 0)),
    {
        let color = self.get_register8(crate::emulator::Register8::BL.index()) & 0x0F;
        let ch = self.get_register8(crate::emulator::Register8::AL.index());

        let tc = terminal_color(color & 0x07);
        let bright: u8 = if (color & 0x08) == 0x08 {
            0x31
        } else {
            0x30
        };

        let mut out: Vec<u8> = Vec::new();
        out.push(0x1B);
        out.push(0x5B);
        out.push(bright);
        out.push(0x3B);
        out.push(0x33);
        out.push(0x30 + (tc - 30));
        out.push(0x6D);
        if ch < 0x80 {
            out.push(ch);
        } else {
            out.push(0xC0 | (ch >> 6));
            out.push(0x80 | (ch & 0x3F));
        }
        out.push(0x1B);
        out.push(0x5B);
        out.push(0x30);
        out.push(0x6D);
        proof {
            assert(out@ =~= teletype_bytes(reg8_of(self@.regs, 3), reg8_of(self@.regs, 0)));
        }
        out
    }

    /// Dispatches a BIOS video interrupt on the function number in AH:
    /// function 0x0E yields the teletype byte sequence, any other function
    /// is reported back as unknown and otherwise ignored.
    pub fn bios_video(&self) -> (r: Action)
        requires
            self.wf(),
        ensures
            reg8_of(self@.regs, 4) == 0x0E ==> (r matches Action::Teletype(b) && b@
                == teletype_bytes(reg8_of(self@.regs, 3), reg8_of(self@.regs, 0))),
            reg8_of(self@.regs, 4) != 0x0E ==> r == Action::UnknownVideoFunction(
                reg8_of(self@.regs, 4),
            ),
    {
        let func = self.get_register8(crate::emulator::Register8::AH.index());
        match func {
            0x0E => Action::Teletype(self.bios_video_teletype()),
            _ => Action::UnknownVideoFunction(func),
        }
    }
}

} // verus!

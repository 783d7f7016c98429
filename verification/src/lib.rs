//! A small 32-bit x86 machine-code interpreter.
//!
//! The crate models a linear byte memory, the eight general-purpose 32-bit
//! registers with their 8-bit aliases, a four-bit subset of EFLAGS, and an
//! instruction pointer.  Instructions are fetched at `eip`, decoded (including
//! the ModRM addressing byte) and executed one at a time; every state change
//! is specified and verified.  Input and output at the port and BIOS level are
//! returned to the caller as values rather than performed here.

pub mod bios;
pub mod emulator;
pub mod emulator_function;
pub mod instruction;
pub mod modrm;

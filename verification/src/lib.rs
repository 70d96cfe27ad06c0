//! Fetch-decode-execute core of an 8-bit CPU emulator with a Z80-derived
//! instruction set: a packed flags register, an eight-register file with
//! 16-bit pair accessors, a flat 64 KiB memory bus, a pure instruction
//! decoder over the unprefixed and 0xCB-prefixed opcode spaces, and a CPU
//! that steps through fetch, decode, execute and program-counter update.

pub mod cpu;
pub mod flags;
pub mod instruction;
pub mod memory;
pub mod registers;

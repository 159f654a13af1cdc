//! A verified instruction-execution core for the DMG-01 (Game Boy) CPU:
//! the register file with its packed flags register, a flat 64 KiB address
//! space, a decoder for the unprefixed and CB-prefixed opcode tables, and
//! the fetch-decode-execute engine with bit-exact ALU flag semantics.

pub mod flags;
pub mod registers;
pub mod memory;
pub mod instruction;
pub mod cpu;

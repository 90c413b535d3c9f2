//! Core of a Game-Boy style 8-bit CPU emulator: register file, flag unit,
//! memory bus with a read-only cartridge region, and the fetch-decode-execute
//! dispatcher. Every step of the interpreter is specified against a
//! mathematical model of one instruction step and verified with Verus.

pub mod cpu;
pub mod errors;
pub mod flags;
pub mod laws;
pub mod memory;
pub mod step;
pub mod words;

//! An 8080-class processor core: register file, condition flags, 64KB memory,
//! instruction decoder and execution engine, with a single-step interface.

pub mod registers;
pub mod flags;
pub mod cpu;
pub mod opcodes;
pub mod instructions;
pub mod laws;

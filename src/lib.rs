pub mod flags;
pub mod opcodes;
pub mod cpu;

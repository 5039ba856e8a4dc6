//! A verified instruction-set emulator for an 8-bit 6502-family
//! microprocessor: register and flag state, the addressing-mode resolver,
//! the opcode table, the per-instruction semantics, and the
//! fetch-decode-execute engine.

pub mod addressing_modes;
pub mod cpu;
pub mod instructions;
pub mod memory;
pub mod opcodes;
pub mod status;

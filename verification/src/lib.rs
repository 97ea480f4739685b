//! Execution core of a simplified 8-bit microprocessor: a flat 64 KiB
//! memory bus, a seven-flag status register, an opcode decode table, an
//! addressing-mode operand resolver, and a fetch-decode-execute loop.

pub mod address_mode;
pub mod cpu;
pub mod instructions;
pub mod memory;

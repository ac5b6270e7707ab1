//! A cycle-accurate emulator of the MOS 6502 8-bit microprocessor.
//!
//! The crate models the CPU's architectural state (registers, status byte,
//! page-1 stack), a 64 KiB memory-mapped bus split into RAM, I/O and ROM
//! regions, and a 256-entry fetch/decode/execute engine with cycle
//! accounting.  Every exec function is specified against a mathematical
//! model of the machine state (`model::CpuView`) and verified.

pub mod bits;
pub mod bus;
pub mod hex;
pub mod isa;
pub mod laws;
pub mod memory;
pub mod model;
pub mod processor;
pub mod rom;

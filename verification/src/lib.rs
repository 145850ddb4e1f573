//! Instruction-processing core of a MOS 6502-derived microprocessor, together
//! with the memory-mapped bus and the iNES cartridge loader that feed it a
//! program image.
//!
//! The crate is organised leaves-first: the cartridge loader parses a raw byte
//! image into a [`cartridge::Cartridge`]; a [`bus::Bus`] owns that cartridge
//! plus 2KB of internal RAM and decodes every 16-bit address; the
//! [`cpu::CPU`] drives the fetch-decode-execute loop, reaching memory only
//! through the bus.

pub mod addressing_mode;
pub mod bus;
pub mod cartridge;
pub mod cpu;
pub mod fault;
pub mod memory;
pub mod opcodes;
pub mod registers;
pub mod status_flags;
pub mod trace;
pub mod word;

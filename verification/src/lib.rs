//! A verified core of a Nintendo Entertainment System emulator: the 6502
//! instruction engine, the mirrored memory bus, and the PPU timing and
//! register state machine.
//!
//! Cartridge file parsing, pixel rendering and host windowing are external
//! collaborators and live outside this library.

pub mod cartridge;
pub mod errors;
pub mod registers;
pub mod ppu;
pub mod bus;
pub mod opcodes;
pub mod cpu;
pub mod instructions;
pub mod engine;
pub mod laws;

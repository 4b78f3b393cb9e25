//! Cycle-level core of a Nintendo Entertainment System emulator:
//! the 6502-family CPU with its decode table, the cartridge mappers,
//! and the integer logic of the audio processing unit.

pub mod apu;
pub mod cpu;
pub mod mapper;
pub mod memory;
pub mod opcodes;
pub mod status;

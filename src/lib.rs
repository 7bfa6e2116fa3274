//! A cycle-stepped emulation core for an 8-bit home console: cartridge
//! decoding, the memory bus, the 6502 CPU, the picture and sound units, the
//! console that clocks them together, and its save states.
pub mod apu;
pub mod apu_tables;
pub mod bits;
pub mod bus;
pub mod cartridge;
pub mod cpu;
pub mod emulator;
pub mod genesis;
pub mod input_state;
pub mod library;
pub mod mapper;
pub mod nes;
pub mod opcodes;
pub mod palette;
pub mod ppu;
pub mod snes;
pub mod state;

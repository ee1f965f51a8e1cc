//! A cycle-stepped emulator core for an 8-bit console: a 6502-family CPU,
//! a picture processor, an audio processor, cartridge bank switching and the
//! bus that ties them together. Every function here is verified against a
//! functional model of the hardware.

pub mod bits;
pub mod memory;
pub mod cpu;
pub mod ppu;
pub mod apu;
pub mod controller;
pub mod mappers;
pub mod cartridge;
pub mod bus;
pub mod system;
pub mod emulator;

//! A verified model of the Nintendo Entertainment System.
//!
//! The crate holds the machine itself (CPU, PPU, APU, mappers, cartridge
//! images) together with the pure decisions of its front end (command line,
//! menus, audio pacing, probing). Every operation states its effect as a
//! function from the old machine state to the new one.

pub mod text;
pub mod region;
pub mod cartridge;
pub mod mapper;
pub mod apu;
pub mod joypad;
pub mod audio;
pub mod pump;
pub mod bits;
pub mod bus;
pub mod cpu;
pub mod header;
pub mod menu;
pub mod opcodes;
pub mod options;
pub mod ppu;
pub mod probe;
pub mod render;
pub mod session;
pub mod test_rom;

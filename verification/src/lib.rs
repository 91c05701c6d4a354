//! Core of an early-stage original Game Boy (DMG) emulator: cartridge header
//! parsing and the CPU-visible memory bus.
pub mod bus;
pub mod cartridge;

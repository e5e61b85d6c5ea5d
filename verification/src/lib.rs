//! Core of a cycle-accurate emulator for a 6502-based 8-bit console:
//! CPU interpreter, PPU pixel pipeline, and the bus / memory-map fabric
//! that ties them together. Everything here is verified; presentation
//! (window, events, file loading) lives outside the library.

pub mod bits;
pub mod registers;
pub mod mapper000;
pub mod memorymap;
pub mod ppu;
pub mod cartridge;
pub mod clock;
pub mod bus;
pub mod cpu;
pub mod laws;

//! Core of a Sinclair ZX81 emulator: the Z80 interpreter, the memory bus,
//! the keyboard/EAR port and the cassette model, each with a machine-checked
//! contract.

pub mod cpu;
pub mod emulator;
pub mod io;
pub mod memory;
pub mod tape;
pub mod video;

pub use emulator::Emulator;

//! A 6502-family processor and the memory-mapped bus it drives, with every
//! operation stated against a mathematical model of the machine.

pub mod emulator;
pub mod helpers;
pub mod player;

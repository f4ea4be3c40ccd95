//! The machine itself: processor, bus and the peripherals' register blocks.

pub mod addressing_modes;
pub mod bus;
pub mod cpu;
pub mod flags;
pub mod instructions;
pub mod interrupts;
pub mod joypad;
pub mod memory;
pub mod opcodes;
pub mod ppu;
pub mod rom;

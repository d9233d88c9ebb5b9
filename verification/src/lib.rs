//! Core of a Game Boy (DMG) emulator: register file, memory bus with its
//! peripherals, and the SM83 instruction interpreter.

pub mod alu;
pub mod buttons;
pub mod cpu;
pub mod graphics;
pub mod isa;
pub mod memory;
pub mod prefixed;
pub mod primary;
pub mod register;
pub mod sound;
pub mod timer;

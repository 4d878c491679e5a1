//! A CHIP-8 virtual machine: memory, registers, keypad, framebuffer and the
//! interpreter that ties them together, with every operation carrying a
//! machine-checked contract.

pub mod cpu;
pub mod disassembler;
pub mod display;
pub mod font;
pub mod instruction;
pub mod keyboard;
pub mod laws;
pub mod machine;
pub mod memory;
pub mod outcome;
pub mod register;

pub use cpu::Cpu;
pub use disassembler::disassemble;
pub use display::Display;
pub use keyboard::{Keyboard, BINDINGS};

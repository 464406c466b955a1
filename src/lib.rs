//! Core of a handheld game console emulator: the processor, the memory bus,
//! timers and interrupts, and the cartridge bank controllers.

pub mod bit_functions;
pub mod cpu;
pub mod cart;
pub mod input;
pub mod palette;
pub mod memory;
pub mod gameboy;
pub mod bus;
pub mod stack;
pub mod interrupts;
pub mod cb_ops;
pub mod ops;

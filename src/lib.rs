//! A monochrome handheld console core: CPU, memory bus, GPU, timer and
//! interrupt controller, each with a contract stated over plain values.

pub mod memory;
pub mod alu;
pub mod instructions;
pub mod interrupts;
pub mod timer;
pub mod buttons;
pub mod lcd_registers;
pub mod gpu;
pub mod cartridge;
pub mod bus;
pub mod cpu;
pub mod execute;
pub mod step;
pub mod frontend;
pub mod disassembler;

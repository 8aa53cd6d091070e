//! A cycle-stepped core of an 8-bit handheld console: the LR35902 processor,
//! its memory map with cartridge banking, the timer, the interrupt controller
//! and the pixel-processing unit. Every function carries a contract over a
//! mathematical model of the machine, and the contracts are machine-checked.
//!
//! The parts, from the leaves to the root:
//!
//! - [`registers`] and [`alu`]: the register file and what the arithmetic
//!   and logic unit computes;
//! - [`interrupts`], [`timer`], [`joypad`], [`cartridge`], [`ppu`]: the
//!   units behind the memory map;
//! - [`mmu`]: the address space;
//! - [`machine`]: what every instruction and every step of the processor
//!   does, as a function on the state of the machine;
//! - [`cpu`]: the execution engine that computes it;
//! - [`gameboy`]: the console as one value, with the clock that runs a
//!   frame;
//! - [`screen`]: what a front end needs of the console.

pub mod alu;
pub mod cartridge;
pub mod cpu;
pub mod gameboy;
pub mod interrupts;
pub mod joypad;
pub mod machine;
pub mod mmu;
pub mod ppu;
pub mod registers;
pub mod screen;
pub mod timer;

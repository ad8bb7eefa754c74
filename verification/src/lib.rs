//! A full-system emulator for 64-bit RISC-V (RV64GC with RV32 compatibility):
//! processor core, control and status registers, Sv32/Sv39 address translation,
//! a memory-mapped bus and a small set of peripherals.

pub mod bus;
pub mod console;
pub mod cpu;
pub mod elf_loader;
pub mod emulator;
pub mod machine;
pub mod peripherals;

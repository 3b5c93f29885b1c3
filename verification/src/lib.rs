//! A real-mode x86 machine model: registers and flags, an instruction
//! decoder and encoder, memory, BIOS data tables and debugger breakpoints.

pub mod bios;
pub mod breakpoints;
pub mod cmos;
pub mod cpu;
pub mod memory;


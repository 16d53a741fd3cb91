//! A small 32-bit x86 interpreter: register file, status flags, linear
//! memory, ModRM operand resolution and one handler per supported opcode.

pub mod bits;
pub mod errors;
pub mod register;
pub mod flags;
pub mod memory;
pub mod io;
pub mod emulator;
pub mod modrm;
pub mod bios;
pub mod instruction;
pub mod execute;
pub mod laws;

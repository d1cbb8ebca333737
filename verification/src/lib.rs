//! An Intel 8080 emulator core, with the memory maps and I/O ports of the
//! Space Invaders and Balloon Bombers arcade machines.

pub mod balloon_memory;
pub mod condition_codes;
pub mod cpu;
pub mod display;
pub mod instruction;
pub mod invaders_io;
pub mod invaders_memory;
pub mod laws;
pub mod machine;
pub mod memory_bus;
pub mod model;
pub mod registers;
pub mod test_memory;

pub use cpu::Cpu;
pub use registers::Registers;

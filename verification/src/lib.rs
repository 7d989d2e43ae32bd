pub mod alu;
pub mod apu;
pub mod bus;
pub mod cartridge;
pub mod cpu;
mod flags;
pub mod joypad;
pub mod laws;
pub mod opcodes;
pub mod ppu;
pub mod render;
pub mod timer;

pub use flags::CpuFlag;

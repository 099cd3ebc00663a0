//! Emulation core for an 8-bit handheld console: CPU, memory bus with
//! cartridge mappers, scanline PPU, timer, joypad and the scheduler that
//! drives them.
pub mod alu;
pub mod breakpoint;
pub mod bus;
pub mod cartridge;
pub mod cpu;
pub mod execute;
pub mod instruction;
pub mod joypad;
pub mod machine;
pub mod operand;
pub mod ppu;
pub mod register;
pub mod sprite;
pub mod timer;

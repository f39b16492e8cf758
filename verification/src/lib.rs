//! A cycle-aware emulator core for the original handheld "DMG" console:
//! an 8-bit LR35902-class CPU, a flat 16-bit memory bus, a scanline-based
//! picture processing unit, and a cartridge serving ROM reads.
//!
//! Every register write, flag update, program-counter move and cycle count
//! of the interpreter is stated in contracts and proved.

pub mod alu;
pub mod bus;
pub mod cartridge;
pub mod cartridge_type;
pub mod cb;
pub mod cpu;
pub mod destination;
pub mod effect;
pub mod errors;
pub mod exec;
pub mod exec_high;
pub mod exec_low;
pub mod flags;
pub mod framebuffer;
pub mod machine;
pub mod ppu;
pub mod step;

//! Core of a handheld-console emulator for the original Game Boy (DMG):
//! a Sharp SM83 CPU interpreter, a memory-mapped address space, and a
//! scanline picture processing unit, all with verified contracts.
//! The host window, file loading and frame pacing live outside this crate.

pub mod arith;
pub mod cpu;
pub mod gb;
pub mod memory;
pub mod ppu;
pub mod timer;

//! A Game Boy emulator core: CPU, memory map, cartridge controllers, video,
//! sound registers, timer and joypad, with the behaviour of each part stated
//! in its contracts.
use vstd::prelude::*;

pub mod api;
pub mod apu;
pub mod bits;
pub mod bootrom;
pub mod cpu;
pub mod emulator;
pub mod cartridge;
pub mod joypad;
pub mod mbc;
pub mod mmu;
pub mod ppu;
pub mod timer;

verus! {

} // verus!

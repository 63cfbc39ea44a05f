//! A cycle-driven emulator core for an 8-bit handheld game console.
//!
//! The crate models the five tightly coupled subsystems of the machine —
//! the instruction decoder, the execution engine (CPU), the memory-mapped
//! address bus, the pixel-processing unit and the programmable timer —
//! together with cartridge bank-switching and interrupt arbitration.
//! Every state transition is specified and verified: flag semantics are
//! bit-exact, cycle counts match the hardware tables, and no verified
//! function panics.

use vstd::prelude::*;

pub mod cartrage;
pub mod cpu;
pub mod decode;
pub mod disassemble;
pub mod gb;
pub mod gbp;
pub mod mem;
pub mod oam;
pub mod ppu;
pub mod render;
pub mod timer;

verus! {

/// Bit weights below 256: the value of bit `i` of a byte.
pub open spec fn spec_pow2(i: u8) -> u8 {
    if i == 0 {
        1
    } else if i == 1 {
        2
    } else if i == 2 {
        4
    } else if i == 3 {
        8
    } else if i == 4 {
        16
    } else if i == 5 {
        32
    } else if i == 6 {
        64
    } else {
        128
    }
}

/// The bit weight as a run-time value.
pub fn pow2(i: u8) -> (r: u8)
    requires
        i < 8,
    ensures
        r == spec_pow2(i),
{
    if i == 0 {
        1
    } else if i == 1 {
        2
    } else if i == 2 {
        4
    } else if i == 3 {
        8
    } else if i == 4 {
        16
    } else if i == 5 {
        32
    } else if i == 6 {
        64
    } else {
        128
    }
}

/// Width of the visible screen in pixels.
pub const GAMEBOY_WIDTH: usize = 160;

/// Height of the visible screen in pixels.
pub const GAMEBOY_HEIGHT: usize = 144;

} // verus!

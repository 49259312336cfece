//! A verified CHIP-8 interpreter core: the 4096-byte memory, the register
//! file, the bounded call stack, the monochrome frame buffer, the keypad
//! state and the fetch-decode-execute state machine, together with a
//! fixed-timestep clock driver. Rendering, audio and input capture are left
//! to the host.

use vstd::prelude::*;

pub mod clock;
pub mod decode;
pub mod display;
pub mod input;
pub mod interp;
pub mod laws;
pub mod mem;
pub mod regs;
pub mod stack;
pub mod util;

verus! {

/// Builds a 16-bit instruction word from two bytes, high byte first.
pub fn construct_u16(first: u8, second: u8) -> (r: u16)
    ensures
        r == first as u16 * 256 + second as u16,
{
    (first as u16) * 256 + (second as u16)
}

} // verus!

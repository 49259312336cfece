use vstd::prelude::*;

verus! {

/// Sixteen 8-bit general registers, the 16-bit index register, the program
/// counter (12-bit effective) and the two 8-bit timers.
///
/// Register 0xF is dual purpose: an ordinary register that arithmetic, shift
/// and draw instructions also overwrite as their flag output.
pub struct RegisterFile {
    pub v: Vec<u8>,
    pub i: u16,
    pub pc: u16,
    pub delay: u8,
    pub sound: u8,
}

impl RegisterFile {
    pub open spec fn wf(self) -> bool {
        self.v@.len() == 16 && self.pc < 4096
    }

    pub fn new() -> (r: RegisterFile)
        ensures
            r.wf(),
            r.v@ == Seq::new(16, |k: int| 0u8),
            r.i == 0,
            r.pc == 0x200,
            r.delay == 0,
            r.sound == 0,
    {
        RegisterFile { v: crate::util::zero_bytes(16), i: 0, pc: 0x200, delay: 0, sound: 0 }
    }

    pub fn get_v(&self, x: u8) -> (r: u8)
        requires
            self.wf(),
            x < 16,
        ensures
            r == self.v@[x as int],
    {
        self.v[x as usize]
    }
}

} // verus!

use vstd::prelude::*;
use crate::buffer::SampleBuffer;

verus! {

/// The delta-modulation channel: a register target that plays nothing.
#[derive(Clone, Copy, Debug)]
pub struct DMC {
    /// The four registers as last written.
    pub regs: (u8, u8, u8, u8),
}

impl DMC {
    pub open spec fn fresh() -> DMC {
        DMC { regs: (0, 0, 0, 0) }
    }

    pub open spec fn written(self, idx: u16, val: u8) -> DMC {
        let reg = idx % 4;
        if reg == 0 {
            DMC { regs: (val, self.regs.1, self.regs.2, self.regs.3) }
        } else if reg == 1 {
            DMC { regs: (self.regs.0, val, self.regs.2, self.regs.3) }
        } else if reg == 2 {
            DMC { regs: (self.regs.0, self.regs.1, val, self.regs.3) }
        } else {
            DMC { regs: (self.regs.0, self.regs.1, self.regs.2, val) }
        }
    }

    pub fn new() -> (r: DMC)
        ensures
            r == DMC::fresh(),
    {
        DMC { regs: (0, 0, 0, 0) }
    }

    /// Latches a register; nothing reads it back into sound.
    pub fn write(&mut self, idx: u16, val: u8)
        ensures
            *final(self) == old(self).written(idx, val),
    {
        let reg: u16 = idx % 4;
        if reg == 0 {
            self.regs.0 = val;
        } else if reg == 1 {
            self.regs.1 = val;
        } else if reg == 2 {
            self.regs.2 = val;
        } else {
            self.regs.3 = val;
        }
    }

    /// Leaves the channel and the buffer as they are.
    pub fn play(&mut self, from: u64, to: u64, buffer: &mut SampleBuffer)
        ensures
            *final(self) == *old(self),
            final(buffer)@ == old(buffer)@,
    {
    }
}

} // verus!

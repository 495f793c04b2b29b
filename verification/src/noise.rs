use vstd::prelude::*;
use crate::buffer::{MixerState, SampleBuffer};
use crate::components::{Envelope, Length};

verus! {

/// Cycles between two steps of the shift register, by the four-bit code of
/// the period register.
pub open spec fn noise_period(code: u8) -> u16 {
    let k = code % 16;
    if k == 0 {
        4
    } else if k == 1 {
        8
    } else if k == 2 {
        16
    } else if k == 3 {
        32
    } else if k == 4 {
        64
    } else if k == 5 {
        96
    } else if k == 6 {
        128
    } else if k == 7 {
        160
    } else if k == 8 {
        202
    } else if k == 9 {
        254
    } else if k == 10 {
        380
    } else if k == 11 {
        508
    } else if k == 12 {
        762
    } else if k == 13 {
        1016
    } else if k == 14 {
        2034
    } else {
        4068
    }
}

fn period_lookup(code: u8) -> (r: u16)
    ensures
        r == noise_period(code),
{
    let k: u8 = code % 16;
    if k == 0 {
        4
    } else if k == 1 {
        8
    } else if k == 2 {
        16
    } else if k == 3 {
        32
    } else if k == 4 {
        64
    } else if k == 5 {
        96
    } else if k == 6 {
        128
    } else if k == 7 {
        160
    } else if k == 8 {
        202
    } else if k == 9 {
        254
    } else if k == 10 {
        380
    } else if k == 11 {
        508
    } else if k == 12 {
        762
    } else if k == 13 {
        1016
    } else if k == 14 {
        2034
    } else {
        4068
    }
}

/// The 15-bit register after one step: bit 0 is combined with bit 6 (short
/// mode) or bit 1 (long mode), the register moves right, and the result
/// enters at bit 14.
pub open spec fn shift_step(reg: u16, short: bool) -> u16 {
    let r = reg % 32768;
    let tap = if short { (r / 64) % 2 } else { (r / 2) % 2 };
    let feedback = (r % 2) != tap;
    (r / 2 + if feedback { 16384int } else { 0 }) as u16
}

/// The noise channel.
#[derive(Clone, Copy, Debug)]
pub struct Noise {
    pub short: bool,
    pub period: u8,
    pub timer: u16,
    pub register: u16,
    pub envelope: Envelope,
    pub length: Length,
    /// The amplitude last handed to the buffer.
    pub level: u8,
}

impl Noise {
    pub open spec fn fresh() -> Noise {
        Noise {
            short: false,
            period: 0,
            timer: 0,
            register: 1,
            envelope: Envelope::fresh(),
            length: Length::fresh(),
            level: 0,
        }
    }

    pub open spec fn written(self, idx: u16, val: u8) -> Noise {
        let reg = idx % 4;
        if reg == 0 {
            Noise {
                length: self.length.with_halt((val / 32) % 2 == 1),
                envelope: self.envelope.written(val),
                ..self
            }
        } else if reg == 1 {
            self
        } else if reg == 2 {
            Noise { short: val >= 128, period: val % 16, ..self }
        } else {
            Noise {
                length: self.length.loaded(val / 8),
                envelope: self.envelope.restarted(),
                ..self
            }
        }
    }

    pub open spec fn envelope_ticked(self) -> Noise {
        Noise { envelope: self.envelope.ticked(), ..self }
    }

    pub open spec fn length_ticked(self) -> Noise {
        Noise { length: self.length.ticked(), ..self }
    }

    /// The amplitude that the channel drives, 0 to 15.
    pub open spec fn output(self) -> u8 {
        if self.length.is_active() && self.register % 2 == 0 {
            self.envelope.level()
        } else {
            0
        }
    }

    /// One CPU cycle, at `time` cycles into the buffer's frame.
    pub open spec fn clocked(self, m: MixerState, time: u64) -> (Noise, MixerState) {
        let stepped = if self.timer > 0 {
            Noise { timer: (self.timer - 1) as u16, ..self }
        } else {
            Noise {
                timer: noise_period(self.period),
                register: shift_step(self.register, self.short),
                ..self
            }
        };
        let amp = stepped.output();
        if amp != self.level {
            (Noise { level: amp, ..stepped }, m.with_delta(time, (amp - self.level) as i32))
        } else {
            (stepped, m)
        }
    }

    /// The cycles of the window from `from` up to, not including, `to`.
    pub open spec fn played(self, m: MixerState, from: u64, to: u64) -> (Noise, MixerState)
        decreases to - from,
    {
        if to <= from {
            (self, m)
        } else {
            let (s, m1) = self.played(m, from, (to - 1) as u64);
            s.clocked(m1, (to - 1) as u64)
        }
    }

    /// Playing keeps a sound buffer sound.
    pub proof fn lemma_played_wf(self, m: MixerState, from: u64, to: u64)
        requires
            m.wf(),
        ensures
            self.played(m, from, to).1.wf(),
        decreases to - from,
    {
        if to > from {
            self.lemma_played_wf(m, from, (to - 1) as u64);
        }
    }

    pub fn new() -> (r: Noise)
        ensures
            r == Noise::fresh(),
    {
        Noise {
            short: false,
            period: 0,
            timer: 0,
            register: 1,
            envelope: Envelope::new(),
            length: Length::new(),
            level: 0,
        }
    }

    pub fn write(&mut self, idx: u16, val: u8)
        ensures
            *final(self) == old(self).written(idx, val),
    {
        let reg: u16 = idx % 4;
        if reg == 0 {
            self.length.set_halt((val / 32) % 2 == 1);
            self.envelope.write(val);
        } else if reg == 1 {
        } else if reg == 2 {
            self.short = val >= 128;
            self.period = val % 16;
        } else {
            self.length.load(val / 8);
            self.envelope.restart();
        }
    }

    pub fn envelope_tick(&mut self)
        ensures
            *final(self) == old(self).envelope_ticked(),
    {
        self.envelope.tick();
    }

    pub fn length_tick(&mut self)
        ensures
            *final(self) == old(self).length_ticked(),
    {
        self.length.tick();
    }

    fn amplitude(&self) -> (r: u8)
        ensures
            r == self.output(),
            r <= 15,
    {
        if self.length.active() == 1 && self.register % 2 == 0 {
            self.envelope.volume()
        } else {
            0
        }
    }

    fn clock(&mut self, time: u64, buffer: &mut SampleBuffer)
        requires
            old(buffer)@.wf(),
        ensures
            (*final(self), final(buffer)@) == old(self).clocked(old(buffer)@, time),
            final(buffer)@.wf(),
    {
        let was: u8 = self.level;
        if self.timer > 0 {
            self.timer = self.timer - 1;
        } else {
            self.timer = period_lookup(self.period);
            let r: u16 = self.register % 32768;
            let tap: u16 = if self.short { (r / 64) % 2 } else { (r / 2) % 2 };
            let feedback: bool = (r % 2) != tap;
            self.register = r / 2 + if feedback { 16384 } else { 0 };
        }
        let amp: u8 = self.amplitude();
        if amp != was {
            buffer.add_delta(time, amp as i32 - was as i32);
            self.level = amp;
        }
    }

    /// Adds the channel's output over a window of cycles, counted from the
    /// start of the buffer's frame, to the buffer.
    pub fn play(&mut self, from: u64, to: u64, buffer: &mut SampleBuffer)
        requires
            old(buffer)@.wf(),
        ensures
            (*final(self), final(buffer)@) == old(self).played(old(buffer)@, from, to),
            final(buffer)@.wf(),
    {
        let mut c: u64 = from;
        while c < to
            invariant
                from <= c <= to || (c == from && to < from),
                buffer@.wf(),
                (*self, buffer@) == old(self).played(old(buffer)@, from, c),
            decreases to - c,
        {
            self.clock(c, buffer);
            c = c + 1;
        }
    }
}

} // verus!

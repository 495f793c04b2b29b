use vstd::prelude::*;
use crate::buffer::{MixerState, SampleBuffer};
use crate::components::Length;

verus! {

/// The staircase of the triangle wave: down from 15 to 0, then up again.
pub open spec fn stair(step: u8) -> u8 {
    let s = step % 32;
    if s < 16 { (15 - s) as u8 } else { (s - 16) as u8 }
}

/// The triangle channel.
#[derive(Clone, Copy, Debug)]
pub struct Triangle {
    /// Halts the length counter and keeps the linear counter reloading.
    pub control: bool,
    pub reload_value: u8,
    pub reload: bool,
    pub linear: u8,
    pub timer_period: u16,
    pub timer: u16,
    pub step: u8,
    pub length: Length,
    /// The amplitude last handed to the buffer.
    pub level: u8,
}

impl Triangle {
    pub open spec fn fresh() -> Triangle {
        Triangle {
            control: false,
            reload_value: 0,
            reload: false,
            linear: 0,
            timer_period: 0,
            timer: 0,
            step: 0,
            length: Length::fresh(),
            level: 0,
        }
    }

    pub open spec fn written(self, idx: u16, val: u8) -> Triangle {
        let reg = idx % 4;
        if reg == 0 {
            Triangle {
                control: val >= 128,
                reload_value: val % 128,
                length: self.length.with_halt(val >= 128),
                ..self
            }
        } else if reg == 1 {
            self
        } else if reg == 2 {
            Triangle { timer_period: ((self.timer_period / 256) % 8 * 256 + val) as u16, ..self }
        } else {
            Triangle {
                timer_period: ((val % 8) * 256 + self.timer_period % 256) as u16,
                length: self.length.loaded(val / 8),
                reload: true,
                ..self
            }
        }
    }

    /// The envelope clock drives the linear counter.
    pub open spec fn envelope_ticked(self) -> Triangle {
        Triangle {
            linear: if self.reload {
                self.reload_value
            } else if self.linear > 0 {
                (self.linear - 1) as u8
            } else {
                0
            },
            reload: self.reload && self.control,
            ..self
        }
    }

    pub open spec fn length_ticked(self) -> Triangle {
        Triangle { length: self.length.ticked(), ..self }
    }

    pub open spec fn output(self) -> u8 {
        stair(self.step)
    }

    /// One CPU cycle, at `time` cycles into the buffer's frame.
    pub open spec fn clocked(self, m: MixerState, time: u64) -> (Triangle, MixerState) {
        let stepped = if self.timer > 0 {
            Triangle { timer: (self.timer - 1) as u16, ..self }
        } else if self.length.is_active() && self.linear > 0 {
            Triangle { timer: self.timer_period, step: ((self.step % 32 + 1) % 32) as u8, ..self }
        } else {
            Triangle { timer: self.timer_period, ..self }
        };
        let amp = stepped.output();
        if amp != self.level {
            (Triangle { level: amp, ..stepped }, m.with_delta(time, (amp - self.level) as i32))
        } else {
            (stepped, m)
        }
    }

    /// The cycles of the window from `from` up to, not including, `to`.
    pub open spec fn played(self, m: MixerState, from: u64, to: u64) -> (Triangle, MixerState)
        decreases to - from,
    {
        if to <= from {
            (self, m)
        } else {
            let (s, m1) = self.played(m, from, (to - 1) as u64);
            s.clocked(m1, (to - 1) as u64)
        }
    }

    /// Playing keeps a sound buffer sound.
    pub proof fn lemma_played_wf(self, m: MixerState, from: u64, to: u64)
        requires
            m.wf(),
        ensures
            self.played(m, from, to).1.wf(),
        decreases to - from,
    {
        if to > from {
            self.lemma_played_wf(m, from, (to - 1) as u64);
        }
    }

    pub fn new() -> (r: Triangle)
        ensures
            r == Triangle::fresh(),
    {
        Triangle {
            control: false,
            reload_value: 0,
            reload: false,
            linear: 0,
            timer_period: 0,
            timer: 0,
            step: 0,
            length: Length::new(),
            level: 0,
        }
    }

    pub fn write(&mut self, idx: u16, val: u8)
        ensures
            *final(self) == old(self).written(idx, val),
    {
        let reg: u16 = idx % 4;
        if reg == 0 {
            self.control = val >= 128;
            self.reload_value = val % 128;
            self.length.set_halt(val >= 128);
        } else if reg == 1 {
        } else if reg == 2 {
            self.timer_period = (self.timer_period / 256) % 8 * 256 + val as u16;
        } else {
            self.timer_period = (val % 8) as u16 * 256 + self.timer_period % 256;
            self.length.load(val / 8);
            self.reload = true;
        }
    }

    pub fn envelope_tick(&mut self)
        ensures
            *final(self) == old(self).envelope_ticked(),
    {
        if self.reload {
            self.linear = self.reload_value;
        } else if self.linear > 0 {
            self.linear = self.linear - 1;
        }
        if !self.control {
            self.reload = false;
        }
    }

    pub fn length_tick(&mut self)
        ensures
            *final(self) == old(self).length_ticked(),
    {
        self.length.tick();
    }

    fn amplitude(&self) -> (r: u8)
        ensures
            r == self.output(),
            r <= 15,
    {
        let s: u8 = self.step % 32;
        if s < 16 { 15 - s } else { s - 16 }
    }

    fn clock(&mut self, time: u64, buffer: &mut SampleBuffer)
        requires
            old(buffer)@.wf(),
        ensures
            (*final(self), final(buffer)@) == old(self).clocked(old(buffer)@, time),
            final(buffer)@.wf(),
    {
        let was: u8 = self.level;
        if self.timer > 0 {
            self.timer = self.timer - 1;
        } else {
            self.timer = self.timer_period;
            if self.length.active() == 1 && self.linear > 0 {
                self.step = (self.step % 32 + 1) % 32;
            }
        }
        let amp: u8 = self.amplitude();
        if amp != was {
            buffer.add_delta(time, amp as i32 - was as i32);
            self.level = amp;
        }
    }

    /// Adds the channel's output over a window of cycles, counted from the
    /// start of the buffer's frame, to the buffer.
    pub fn play(&mut self, from: u64, to: u64, buffer: &mut SampleBuffer)
        requires
            old(buffer)@.wf(),
        ensures
            (*final(self), final(buffer)@) == old(self).played(old(buffer)@, from, to),
            final(buffer)@.wf(),
    {
        let mut c: u64 = from;
        while c < to
            invariant
                from <= c <= to || (c == from && to < from),
                buffer@.wf(),
                (*self, buffer@) == old(self).played(old(buffer)@, from, c),
            decreases to - c,
        {
            self.clock(c, buffer);
            c = c + 1;
        }
    }
}

} // verus!

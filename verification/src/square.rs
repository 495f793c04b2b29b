use vstd::prelude::*;
use crate::buffer::{MixerState, SampleBuffer};
use crate::components::{Envelope, Length};

verus! {

/// `x` shifted right by the low three bits of `s`.
pub open spec fn shifted(x: u16, s: u8) -> u16 {
    let k = s % 8;
    if k == 0 {
        x
    } else if k == 1 {
        x / 2
    } else if k == 2 {
        x / 4
    } else if k == 3 {
        x / 8
    } else if k == 4 {
        x / 16
    } else if k == 5 {
        x / 32
    } else if k == 6 {
        x / 64
    } else {
        x / 128
    }
}

fn shift_right(x: u16, s: u8) -> (r: u16)
    ensures
        r == shifted(x, s),
{
    let k: u8 = s % 8;
    if k == 0 {
        x
    } else if k == 1 {
        x / 2
    } else if k == 2 {
        x / 4
    } else if k == 3 {
        x / 8
    } else if k == 4 {
        x / 16
    } else if k == 5 {
        x / 32
    } else if k == 6 {
        x / 64
    } else {
        x / 128
    }
}

/// Whether a duty pattern is high at a step of its eight-step cycle.
pub open spec fn duty_high(duty: u8, phase: u8) -> bool {
    let d = duty % 4;
    let p = phase % 8;
    if d == 0 {
        p == 1
    } else if d == 1 {
        p == 1 || p == 2
    } else if d == 2 {
        1 <= p <= 4
    } else {
        !(p == 1 || p == 2)
    }
}

/// The unit that slides a pulse channel's period up or down.
#[derive(Clone, Copy, Debug)]
pub struct Sweep {
    pub enabled: bool,
    pub period: u8,
    pub negate: bool,
    pub shift: u8,
    pub reload: bool,
    pub divider: u8,
}

impl Sweep {
    pub open spec fn fresh() -> Sweep {
        Sweep { enabled: false, period: 0, negate: false, shift: 0, reload: false, divider: 0 }
    }

    /// Bit 7 enables, bits 4 to 6 give the period, bit 3 negates, the low
    /// three bits give the shift; a write asks for a reload.
    pub open spec fn written(self, val: u8) -> Sweep {
        Sweep {
            enabled: val >= 128,
            period: (val / 16) % 8,
            negate: (val / 8) % 2 == 1,
            shift: val % 8,
            reload: true,
            divider: self.divider,
        }
    }
}

/// One of the two pulse channels.
#[derive(Clone, Copy, Debug)]
pub struct Square {
    /// The second channel negates a sweep in two's complement, the first in
    /// one's complement.
    pub second: bool,
    pub duty: u8,
    pub phase: u8,
    pub timer_period: u16,
    pub timer: u16,
    /// The timer counts on every second CPU cycle.
    pub odd: bool,
    pub envelope: Envelope,
    pub sweep: Sweep,
    pub length: Length,
    /// The amplitude last handed to the buffer.
    pub level: u8,
}

impl Square {
    pub open spec fn fresh(second: bool) -> Square {
        Square {
            second,
            duty: 0,
            phase: 0,
            timer_period: 0,
            timer: 0,
            odd: false,
            envelope: Envelope::fresh(),
            sweep: Sweep::fresh(),
            length: Length::fresh(),
            level: 0,
        }
    }

    /// The period that the sweep unit aims at.
    pub open spec fn sweep_target(self) -> int {
        let change = shifted(self.timer_period, self.sweep.shift) as int;
        if self.sweep.negate {
            if self.second {
                self.timer_period - change
            } else {
                self.timer_period - change - 1
            }
        } else {
            self.timer_period + change
        }
    }

    /// A period under 8, or a target beyond eleven bits, silences the channel.
    pub open spec fn muted(self) -> bool {
        self.timer_period < 8 || self.sweep_target() > 0x7FF
    }

    pub open spec fn written(self, idx: u16, val: u8) -> Square {
        let reg = idx % 4;
        if reg == 0 {
            Square {
                duty: val / 64,
                length: self.length.with_halt((val / 32) % 2 == 1),
                envelope: self.envelope.written(val),
                ..self
            }
        } else if reg == 1 {
            Square { sweep: self.sweep.written(val), ..self }
        } else if reg == 2 {
            Square { timer_period: ((self.timer_period / 256) % 8 * 256 + val) as u16, ..self }
        } else {
            Square {
                timer_period: ((val % 8) * 256 + self.timer_period % 256) as u16,
                length: self.length.loaded(val / 8),
                phase: 0,
                envelope: self.envelope.restarted(),
                ..self
            }
        }
    }

    pub open spec fn envelope_ticked(self) -> Square {
        Square { envelope: self.envelope.ticked(), ..self }
    }

    /// A length clock also clocks the sweep unit.
    pub open spec fn length_ticked(self) -> Square {
        let target = self.sweep_target();
        let slide = self.sweep.divider == 0 && self.sweep.enabled && self.sweep.shift % 8 != 0
            && !self.muted() && target >= 0;
        let restart = self.sweep.divider == 0 || self.sweep.reload;
        Square {
            timer_period: if slide { target as u16 } else { self.timer_period },
            sweep: Sweep {
                divider: if restart { self.sweep.period } else { (self.sweep.divider - 1) as u8 },
                reload: if restart { false } else { self.sweep.reload },
                ..self.sweep
            },
            length: self.length.ticked(),
            ..self
        }
    }

    /// The amplitude that the channel drives, 0 to 15.
    pub open spec fn output(self) -> u8 {
        if self.length.is_active() && !self.muted() && duty_high(self.duty, self.phase) {
            self.envelope.level()
        } else {
            0
        }
    }

    /// One CPU cycle, at `time` cycles into the buffer's frame.
    pub open spec fn clocked(self, m: MixerState, time: u64) -> (Square, MixerState) {
        let stepped = if !self.odd {
            self
        } else if self.timer == 0 {
            Square { timer: self.timer_period, phase: ((self.phase % 8 + 1) % 8) as u8, ..self }
        } else {
            Square { timer: (self.timer - 1) as u16, ..self }
        };
        let turned = Square { odd: !self.odd, ..stepped };
        let amp = turned.output();
        if amp != self.level {
            (Square { level: amp, ..turned }, m.with_delta(time, (amp - self.level) as i32))
        } else {
            (turned, m)
        }
    }

    /// The cycles of the window from `from` up to, not including, `to`.
    pub open spec fn played(self, m: MixerState, from: u64, to: u64) -> (Square, MixerState)
        decreases to - from,
    {
        if to <= from {
            (self, m)
        } else {
            let (s, m1) = self.played(m, from, (to - 1) as u64);
            s.clocked(m1, (to - 1) as u64)
        }
    }

    /// Playing keeps a sound buffer sound.
    pub proof fn lemma_played_wf(self, m: MixerState, from: u64, to: u64)
        requires
            m.wf(),
        ensures
            self.played(m, from, to).1.wf(),
        decreases to - from,
    {
        if to > from {
            self.lemma_played_wf(m, from, (to - 1) as u64);
        }
    }

    pub fn new(second: bool) -> (r: Square)
        ensures
            r == Square::fresh(second),
    {
        Square {
            second,
            duty: 0,
            phase: 0,
            timer_period: 0,
            timer: 0,
            odd: false,
            envelope: Envelope::new(),
            sweep: Sweep { enabled: false, period: 0, negate: false, shift: 0, reload: false, divider: 0 },
            length: Length::new(),
            level: 0,
        }
    }

    fn target_period(&self) -> (r: i32)
        ensures
            r == self.sweep_target(),
    {
        let change: i32 = shift_right(self.timer_period, self.sweep.shift) as i32;
        let base: i32 = self.timer_period as i32;
        if self.sweep.negate {
            if self.second {
                base - change
            } else {
                base - change - 1
            }
        } else {
            base + change
        }
    }

    fn is_muted(&self) -> (r: bool)
        ensures
            r == self.muted(),
    {
        self.timer_period < 8 || self.target_period() > 0x7FF
    }

    pub fn write(&mut self, idx: u16, val: u8)
        ensures
            *final(self) == old(self).written(idx, val),
    {
        let reg: u16 = idx % 4;
        if reg == 0 {
            self.duty = val / 64;
            self.length.set_halt((val / 32) % 2 == 1);
            self.envelope.write(val);
        } else if reg == 1 {
            self.sweep.enabled = val >= 128;
            self.sweep.period = (val / 16) % 8;
            self.sweep.negate = (val / 8) % 2 == 1;
            self.sweep.shift = val % 8;
            self.sweep.reload = true;
        } else if reg == 2 {
            self.timer_period = (self.timer_period / 256) % 8 * 256 + val as u16;
        } else {
            self.timer_period = (val % 8) as u16 * 256 + self.timer_period % 256;
            self.length.load(val / 8);
            self.phase = 0;
            self.envelope.restart();
        }
    }

    pub fn envelope_tick(&mut self)
        ensures
            *final(self) == old(self).envelope_ticked(),
    {
        self.envelope.tick();
    }

    pub fn length_tick(&mut self)
        ensures
            *final(self) == old(self).length_ticked(),
    {
        let target: i32 = self.target_period();
        let slide: bool = self.sweep.divider == 0 && self.sweep.enabled && self.sweep.shift % 8 != 0
            && !self.is_muted() && target >= 0;
        if slide {
            self.timer_period = target as u16;
        }
        if self.sweep.divider == 0 || self.sweep.reload {
            self.sweep.divider = self.sweep.period;
            self.sweep.reload = false;
        } else {
            self.sweep.divider = self.sweep.divider - 1;
        }
        self.length.tick();
    }

    fn amplitude(&self) -> (r: u8)
        ensures
            r == self.output(),
            r <= 15,
    {
        let d: u8 = self.duty % 4;
        let p: u8 = self.phase % 8;
        let high: bool = if d == 0 {
            p == 1
        } else if d == 1 {
            p == 1 || p == 2
        } else if d == 2 {
            1 <= p && p <= 4
        } else {
            !(p == 1 || p == 2)
        };
        if self.length.active() == 1 && !self.is_muted() && high {
            self.envelope.volume()
        } else {
            0
        }
    }

    fn clock(&mut self, time: u64, buffer: &mut SampleBuffer)
        requires
            old(buffer)@.wf(),
        ensures
            (*final(self), final(buffer)@) == old(self).clocked(old(buffer)@, time),
            final(buffer)@.wf(),
    {
        let was: u8 = self.level;
        if self.odd {
            if self.timer == 0 {
                self.timer = self.timer_period;
                self.phase = (self.phase % 8 + 1) % 8;
            } else {
                self.timer = self.timer - 1;
            }
        }
        self.odd = !self.odd;
        let amp: u8 = self.amplitude();
        if amp != was {
            buffer.add_delta(time, amp as i32 - was as i32);
            self.level = amp;
        }
    }

    /// Adds the channel's output over a window of cycles, counted from the
    /// start of the buffer's frame, to the buffer.
    pub fn play(&mut self, from: u64, to: u64, buffer: &mut SampleBuffer)
        requires
            old(buffer)@.wf(),
        ensures
            (*final(self), final(buffer)@) == old(self).played(old(buffer)@, from, to),
            final(buffer)@.wf(),
    {
        let mut c: u64 = from;
        while c < to
            invariant
                from <= c <= to || (c == from && to < from),
                buffer@.wf(),
                (*self, buffer@) == old(self).played(old(buffer)@, from, c),
            decreases to - c,
        {
            self.clock(c, buffer);
            c = c + 1;
        }
    }
}

} // verus!

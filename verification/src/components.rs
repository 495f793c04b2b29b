use vstd::prelude::*;

verus! {

/// The length a counter is loaded with, by the five-bit code written to a
/// channel's top register. Codes above 31 read as the last entry.
pub open spec fn length_value(code: u8) -> u8 {
    if code == 0 {
        10
    } else if code == 1 {
        254
    } else if code == 2 {
        20
    } else if code == 3 {
        2
    } else if code == 4 {
        40
    } else if code == 5 {
        4
    } else if code == 6 {
        80
    } else if code == 7 {
        6
    } else if code == 8 {
        160
    } else if code == 9 {
        8
    } else if code == 10 {
        60
    } else if code == 11 {
        10
    } else if code == 12 {
        14
    } else if code == 13 {
        12
    } else if code == 14 {
        26
    } else if code == 15 {
        14
    } else if code == 16 {
        12
    } else if code == 17 {
        16
    } else if code == 18 {
        24
    } else if code == 19 {
        18
    } else if code == 20 {
        48
    } else if code == 21 {
        20
    } else if code == 22 {
        96
    } else if code == 23 {
        22
    } else if code == 24 {
        192
    } else if code == 25 {
        24
    } else if code == 26 {
        72
    } else if code == 27 {
        26
    } else if code == 28 {
        16
    } else if code == 29 {
        28
    } else if code == 30 {
        32
    } else {
        30
    }
}

/// Looks up the load value of a length code.
pub fn length_lookup(code: u8) -> (r: u8)
    ensures
        r == length_value(code),
{
    if code == 0 {
        10
    } else if code == 1 {
        254
    } else if code == 2 {
        20
    } else if code == 3 {
        2
    } else if code == 4 {
        40
    } else if code == 5 {
        4
    } else if code == 6 {
        80
    } else if code == 7 {
        6
    } else if code == 8 {
        160
    } else if code == 9 {
        8
    } else if code == 10 {
        60
    } else if code == 11 {
        10
    } else if code == 12 {
        14
    } else if code == 13 {
        12
    } else if code == 14 {
        26
    } else if code == 15 {
        14
    } else if code == 16 {
        12
    } else if code == 17 {
        16
    } else if code == 18 {
        24
    } else if code == 19 {
        18
    } else if code == 20 {
        48
    } else if code == 21 {
        20
    } else if code == 22 {
        96
    } else if code == 23 {
        22
    } else if code == 24 {
        192
    } else if code == 25 {
        24
    } else if code == 26 {
        72
    } else if code == 27 {
        26
    } else if code == 28 {
        16
    } else if code == 29 {
        28
    } else if code == 30 {
        32
    } else {
        30
    }
}

/// Auto-mute countdown of one channel.
#[derive(Clone, Copy, Debug)]
pub struct Length {
    pub enabled: bool,
    pub halt: bool,
    pub remaining: u8,
}

impl Length {
    pub open spec fn fresh() -> Length {
        Length { enabled: false, halt: false, remaining: 0 }
    }

    pub open spec fn with_halt(self, halt: bool) -> Length {
        Length { halt, ..self }
    }

    /// A load is ignored while the channel is disabled.
    pub open spec fn loaded(self, code: u8) -> Length {
        if self.enabled {
            Length { remaining: length_value(code), ..self }
        } else {
            self
        }
    }

    pub open spec fn ticked(self) -> Length {
        if self.remaining > 0 && !self.halt {
            Length { remaining: (self.remaining - 1) as u8, ..self }
        } else {
            self
        }
    }

    pub open spec fn is_active(self) -> bool {
        self.remaining > 0
    }

    /// Disabling empties the counter at once; enabling alone loads nothing.
    pub open spec fn with_enable(self, on: bool) -> Length {
        Length { enabled: on, remaining: if on { self.remaining } else { 0 }, ..self }
    }

    pub fn new() -> (r: Length)
        ensures
            r == Length::fresh(),
    {
        Length { enabled: false, halt: false, remaining: 0 }
    }

    pub fn set_halt(&mut self, halt: bool)
        ensures
            *final(self) == old(self).with_halt(halt),
    {
        self.halt = halt;
    }

    pub fn load(&mut self, code: u8)
        ensures
            *final(self) == old(self).loaded(code),
    {
        if self.enabled {
            self.remaining = length_lookup(code);
        }
    }

    pub fn tick(&mut self)
        ensures
            *final(self) == old(self).ticked(),
    {
        if self.remaining > 0 && !self.halt {
            self.remaining = self.remaining - 1;
        }
    }

    /// 1 while the counter has not run out, else 0.
    pub fn active(&self) -> (r: u8)
        ensures
            r == if self.is_active() { 1u8 } else { 0u8 },
    {
        if self.remaining > 0 { 1 } else { 0 }
    }

    pub fn set_enable(&mut self, on: bool)
        ensures
            *final(self) == old(self).with_enable(on),
    {
        self.enabled = on;
        if !on {
            self.remaining = 0;
        }
    }
}

/// Volume shaper: a constant level, or a counter that decays from 15 and may
/// loop.
#[derive(Clone, Copy, Debug)]
pub struct Envelope {
    pub start: bool,
    pub looping: bool,
    pub constant: bool,
    pub period: u8,
    pub divider: u8,
    pub decay: u8,
}

impl Envelope {
    pub open spec fn fresh() -> Envelope {
        Envelope { start: false, looping: false, constant: false, period: 0, divider: 0, decay: 0 }
    }

    /// Bit 5 of the register loops the decay, bit 4 holds the volume
    /// constant, the low four bits give the period (and the constant volume).
    pub open spec fn written(self, val: u8) -> Envelope {
        Envelope {
            looping: (val / 32) % 2 == 1,
            constant: (val / 16) % 2 == 1,
            period: val % 16,
            ..self
        }
    }

    pub open spec fn restarted(self) -> Envelope {
        Envelope { start: true, ..self }
    }

    pub open spec fn ticked(self) -> Envelope {
        if self.start {
            Envelope { start: false, decay: 15, divider: self.period, ..self }
        } else if self.divider == 0 {
            Envelope {
                divider: self.period,
                decay: if self.decay > 0 {
                    (self.decay - 1) as u8
                } else if self.looping {
                    15
                } else {
                    0
                },
                ..self
            }
        } else {
            Envelope { divider: (self.divider - 1) as u8, ..self }
        }
    }

    pub open spec fn level(self) -> u8 {
        if self.constant { self.period % 16 } else { self.decay % 16 }
    }

    pub fn new() -> (r: Envelope)
        ensures
            r == Envelope::fresh(),
    {
        Envelope { start: false, looping: false, constant: false, period: 0, divider: 0, decay: 0 }
    }

    pub fn write(&mut self, val: u8)
        ensures
            *final(self) == old(self).written(val),
    {
        self.looping = (val / 32) % 2 == 1;
        self.constant = (val / 16) % 2 == 1;
        self.period = val % 16;
    }

    pub fn restart(&mut self)
        ensures
            *final(self) == old(self).restarted(),
    {
        self.start = true;
    }

    pub fn tick(&mut self)
        ensures
            *final(self) == old(self).ticked(),
    {
        if self.start {
            self.start = false;
            self.decay = 15;
            self.divider = self.period;
        } else if self.divider == 0 {
            self.divider = self.period;
            if self.decay > 0 {
                self.decay = self.decay - 1;
            } else if self.looping {
                self.decay = 15;
            }
        } else {
            self.divider = self.divider - 1;
        }
    }

    /// The volume, 0 to 15.
    pub fn volume(&self) -> (r: u8)
        ensures
            r == self.level(),
            r <= 15,
    {
        if self.constant { self.period % 16 } else { self.decay % 16 }
    }
}

} // verus!

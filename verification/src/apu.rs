use vstd::prelude::*;
use crate::buffer::{MixerState, SampleBuffer};
use crate::dmc::DMC;
use crate::noise::Noise;
use crate::square::Square;
use crate::triangle::Triangle;

verus! {

pub type Sample = i16;

/// The interrupt request that the frame sequencer raises.
#[derive(Clone, Copy, Debug)]
pub enum Interrupt {
    IRQ,
}

/// Cycles from one sequencer step to the next, by mode and step.
pub open spec fn tick_length(five_step: bool, slot: u8) -> u64 {
    if !five_step {
        if slot == 0 {
            7459
        } else if slot == 1 {
            7456
        } else if slot <= 4 {
            7458
        } else {
            0
        }
    } else {
        if slot == 0 {
            1
        } else if slot == 1 {
            7458
        } else if slot == 2 {
            7456
        } else if slot <= 4 {
            7458
        } else {
            7452
        }
    }
}

fn tick_lookup(five_step: bool, slot: u8) -> (r: u64)
    ensures
        r == tick_length(five_step, slot),
{
    if !five_step {
        if slot == 0 {
            7459
        } else if slot == 1 {
            7456
        } else if slot <= 4 {
            7458
        } else {
            0
        }
    } else {
        if slot == 0 {
            1
        } else if slot == 1 {
            7458
        } else if slot == 2 {
            7456
        } else if slot <= 4 {
            7458
        } else {
            7452
        }
    }
}

/// A cycle number moved on by a delta, held at the largest one.
pub open spec fn add_sat(a: u64, b: u64) -> u64 {
    if a + b > u64::MAX { u64::MAX } else { (a + b) as u64 }
}

/// The frame mode register.
#[derive(Clone, Copy, Debug)]
pub struct Frame {
    /// The five-step sequence in place of the four-step one.
    pub five_step: bool,
    pub suppress_irq: bool,
}

impl Frame {
    /// Bit 7 selects the mode, bit 6 suppresses the interrupt; the other
    /// bits are dropped.
    pub open spec fn of_bits(val: u8) -> Frame {
        Frame { five_step: val >= 128, suppress_irq: (val / 64) % 2 == 1 }
    }

    pub open spec fn spec_mode(self) -> usize {
        if self.five_step { 1 } else { 0 }
    }

    pub fn empty() -> (r: Frame)
        ensures
            r == Frame::of_bits(0),
    {
        Frame { five_step: false, suppress_irq: false }
    }

    pub fn from_bits_truncate(val: u8) -> (r: Frame)
        ensures
            r == Frame::of_bits(val),
    {
        Frame { five_step: val >= 128, suppress_irq: (val / 64) % 2 == 1 }
    }

    pub fn mode(&self) -> (r: usize)
        ensures
            r == self.spec_mode(),
    {
        if self.five_step { 1 } else { 0 }
    }
}

/// A write to the mode register that waits for its cycle.
#[derive(Clone, Copy, Debug)]
pub enum Jitter {
    /// The cycle at which to apply, and the value.
    Delay(u64, u8),
    Idle,
}

/// The sequencer's state as mathematical values.
pub struct ApuState {
    pub square1: Square,
    pub square2: Square,
    pub triangle: Triangle,
    pub noise: Noise,
    pub dmc: DMC,
    pub frame: Frame,
    pub mixer: MixerState,
    /// The samples of the finished blocks that nobody has taken yet.
    pub output: Seq<Sample>,
    pub global_cyc: u64,
    pub tick: u8,
    pub next_tick_cyc: u64,
    pub next_transfer_cyc: u64,
    pub last_frame_cyc: u64,
    pub irq_requested: bool,
    pub jitter: Jitter,
}

impl ApuState {
    /// The buffer is sound, the step counter is inside its mode's sequence,
    /// and no scheduled event lies behind the clock. Of the three kinds of
    /// event (a waiting mode write, a sequencer step, a transfer) the first
    /// `k` lie strictly ahead of it.
    pub open spec fn settled(self, k: int) -> bool {
        &&& self.mixer.wf()
        &&& self.last_frame_cyc <= self.global_cyc
        &&& self.tick <= if self.frame.five_step { 4u8 } else { 3u8 }
        &&& self.global_cyc < u64::MAX ==> {
            &&& match self.jitter {
                Jitter::Delay(at, _) => at > self.global_cyc || (k < 1 && at == self.global_cyc),
                Jitter::Idle => true,
            }
            &&& (self.next_tick_cyc > self.global_cyc || (k < 2 && self.next_tick_cyc
                == self.global_cyc))
            &&& (self.next_transfer_cyc > self.global_cyc || (k < 3 && self.next_transfer_cyc
                == self.global_cyc))
        }
    }

    /// Every scheduled event lies ahead of the clock, the step counter is
    /// inside its mode's sequence, and the buffer is sound.
    pub open spec fn wf(self) -> bool {
        self.settled(3)
    }

    pub open spec fn power_on(sample_rate: u32) -> ApuState {
        ApuState {
            square1: Square::fresh(false),
            square2: Square::fresh(true),
            triangle: Triangle::fresh(),
            noise: Noise::fresh(),
            dmc: DMC::fresh(),
            frame: Frame::of_bits(0),
            mixer: MixerState::fresh(sample_rate),
            output: Seq::empty(),
            global_cyc: 0,
            tick: 0,
            next_tick_cyc: tick_length(false, 0),
            next_transfer_cyc: MixerState::fresh(sample_rate).clocks(),
            last_frame_cyc: 0,
            irq_requested: false,
            jitter: Jitter::Idle,
        }
    }

    pub open spec fn envelope_ticked(self) -> ApuState {
        ApuState {
            square1: self.square1.envelope_ticked(),
            square2: self.square2.envelope_ticked(),
            triangle: self.triangle.envelope_ticked(),
            noise: self.noise.envelope_ticked(),
            ..self
        }
    }

    pub open spec fn length_ticked(self) -> ApuState {
        ApuState {
            square1: self.square1.length_ticked(),
            square2: self.square2.length_ticked(),
            triangle: self.triangle.length_ticked(),
            noise: self.noise.length_ticked(),
            ..self
        }
    }

    /// The request is raised, and remembered, unless it is suppressed.
    pub open spec fn raised(self) -> (ApuState, bool) {
        if !self.frame.suppress_irq {
            (ApuState { irq_requested: true, ..self }, true)
        } else {
            (self, false)
        }
    }

    /// A value reaches the mode register: the sequence starts over, a
    /// suppressed request is forgotten, and the five-step mode clocks
    /// envelopes and lengths at once.
    pub open spec fn mode_set(self, val: u8) -> ApuState {
        let frame = Frame::of_bits(val);
        let s = ApuState {
            frame,
            irq_requested: self.irq_requested && !frame.suppress_irq,
            tick: 0,
            next_tick_cyc: add_sat(self.global_cyc, tick_length(frame.five_step, 0)),
            ..self
        };
        if frame.five_step {
            s.envelope_ticked().length_ticked()
        } else {
            s
        }
    }

    /// One step of the frame sequence, and whether it raised the interrupt.
    pub open spec fn ticked(self) -> (ApuState, bool) {
        let t = if self.tick < 255 { (self.tick + 1) as u8 } else { 255u8 };
        let s = ApuState {
            tick: t,
            next_tick_cyc: add_sat(self.global_cyc, tick_length(self.frame.five_step, t)),
            ..self
        };
        if !self.frame.five_step {
            if t == 1 || t == 3 {
                (s.envelope_ticked(), false)
            } else if t == 2 {
                (s.envelope_ticked().length_ticked(), false)
            } else if t == 4 {
                (ApuState { tick: 0, ..s }).envelope_ticked().length_ticked().raised()
            } else {
                (ApuState { tick: 0, ..s }, false)
            }
        } else {
            if t == 1 || t == 3 {
                (s.envelope_ticked().length_ticked(), false)
            } else if t == 2 || t == 4 {
                (s.envelope_ticked(), false)
            } else {
                (ApuState { tick: 0, ..s }, false)
            }
        }
    }

    /// The channels play CPU cycle `c`.
    pub open spec fn cycle(self, c: u64) -> ApuState {
        let from = (c - self.last_frame_cyc) as u64;
        let to = (from + 1) as u64;
        let (square1, m1) = self.square1.played(self.mixer, from, to);
        let (square2, m2) = self.square2.played(m1, from, to);
        let (triangle, m3) = self.triangle.played(m2, from, to);
        let (noise, m4) = self.noise.played(m3, from, to);
        ApuState { square1, square2, triangle, noise, mixer: m4, ..self }
    }

    /// The channels play the cycles from `from` up to, not including, `to`.
    pub open spec fn played(self, from: u64, to: u64) -> ApuState
        decreases to - from,
    {
        if to <= from {
            self
        } else {
            self.played(from, (to - 1) as u64).cycle((to - 1) as u64)
        }
    }

    /// Whether two states agree on all but the channels and the buffer.
    pub open spec fn same_schedule(self, other: ApuState) -> bool {
        &&& self.dmc == other.dmc
        &&& self.frame == other.frame
        &&& self.output == other.output
        &&& self.global_cyc == other.global_cyc
        &&& self.tick == other.tick
        &&& self.next_tick_cyc == other.next_tick_cyc
        &&& self.next_transfer_cyc == other.next_transfer_cyc
        &&& self.last_frame_cyc == other.last_frame_cyc
        &&& self.irq_requested == other.irq_requested
        &&& self.jitter == other.jitter
    }

    /// Playing touches the channels and the buffer only, and keeps a sound
    /// buffer sound.
    pub proof fn lemma_played_schedule(self, from: u64, to: u64)
        requires
            self.mixer.wf(),
        ensures
            self.played(from, to).same_schedule(self),
            self.played(from, to).mixer.wf(),
        decreases to - from,
    {
        if to > from {
            self.lemma_played_schedule(from, (to - 1) as u64);
            let s = self.played(from, (to - 1) as u64);
            let c = (to - 1) as u64;
            let a = (c - s.last_frame_cyc) as u64;
            let b = (a + 1) as u64;
            s.square1.lemma_played_wf(s.mixer, a, b);
            let m1 = s.square1.played(s.mixer, a, b).1;
            s.square2.lemma_played_wf(m1, a, b);
            let m2 = s.square2.played(m1, a, b).1;
            s.triangle.lemma_played_wf(m2, a, b);
            let m3 = s.triangle.played(m2, a, b).1;
            s.noise.lemma_played_wf(m3, a, b);
        }
    }

    /// A block is complete: its samples join the output and the next block
    /// is scheduled.
    pub open spec fn transferred(self) -> ApuState {
        let ended = self.mixer.frame_ended((self.global_cyc - self.last_frame_cyc) as u64);
        let drained = ended.drained();
        ApuState {
            mixer: drained,
            output: self.output + ended.samples(),
            last_frame_cyc: self.global_cyc,
            next_transfer_cyc: add_sat(self.global_cyc, drained.clocks()),
            ..self
        }
    }

    /// The cycle at which a run towards `target` next has to stop: the
    /// target, or an event that comes first.
    pub open spec fn next_stop(self, target: u64) -> u64 {
        let a = if self.next_tick_cyc < target { self.next_tick_cyc } else { target };
        let b = if self.next_transfer_cyc < a { self.next_transfer_cyc } else { a };
        match self.jitter {
            Jitter::Delay(at, _) => if at < b { at } else { b },
            Jitter::Idle => b,
        }
    }

    /// The channels play up to `n`, and the clock moves there.
    pub open spec fn arrived(self, n: u64) -> ApuState {
        ApuState { global_cyc: n, ..self.played(self.global_cyc, n) }
    }

    /// A waiting mode write whose cycle has come is applied.
    pub open spec fn jitter_resolved(self) -> ApuState {
        match self.jitter {
            Jitter::Delay(at, val) => if at == self.global_cyc {
                ApuState { jitter: Jitter::Idle, ..self.mode_set(val) }
            } else {
                self
            },
            Jitter::Idle => self,
        }
    }

    /// The sequencer steps if its cycle has come.
    pub open spec fn tick_due(self) -> (ApuState, bool) {
        if self.global_cyc == self.next_tick_cyc {
            self.ticked()
        } else {
            (self, false)
        }
    }

    /// A block is transferred if its cycle has come.
    pub open spec fn transfer_due(self) -> ApuState {
        if self.global_cyc == self.next_transfer_cyc {
            self.transferred()
        } else {
            self
        }
    }

    /// The clock moves to `n`, and what is due there happens: first a
    /// waiting mode write, then a sequencer step, then a transfer.
    pub open spec fn stepped(self, n: u64) -> (ApuState, bool) {
        let (s, irq) = self.arrived(n).jitter_resolved().tick_due();
        (s.transfer_due(), irq)
    }

    /// Whether the clock can move to `n` without passing an event.
    pub open spec fn can_reach(self, n: u64) -> bool {
        &&& self.global_cyc < n
        &&& n <= self.next_tick_cyc
        &&& n <= self.next_transfer_cyc
        &&& match self.jitter {
            Jitter::Delay(at, _) => n <= at,
            Jitter::Idle => true,
        }
    }

    /// Moving the clock changes the channels and the buffer only, and may
    /// bring the clock up to an event, not past it.
    pub proof fn lemma_arrived(self, n: u64)
        requires
            self.wf(),
            self.can_reach(n),
        ensures
            self.arrived(n).settled(0),
            self.arrived(n).global_cyc == n,
            self.arrived(n).same_schedule(ApuState { global_cyc: n, ..self }),
    {
        self.lemma_played_schedule(self.global_cyc, n);
    }

    /// Once a due mode write is applied, no mode write is due.
    pub proof fn lemma_jitter_resolved(self)
        requires
            self.settled(0),
        ensures
            self.jitter_resolved().settled(1),
            self.jitter_resolved().global_cyc == self.global_cyc,
    {
    }

    /// Once a due sequencer step is taken, the next one lies ahead.
    pub proof fn lemma_tick_due(self)
        requires
            self.settled(1),
        ensures
            self.tick_due().0.settled(2),
            self.tick_due().0.global_cyc == self.global_cyc,
    {
    }

    /// Once a due transfer is made, the next one lies ahead.
    pub proof fn lemma_transfer_due(self)
        requires
            self.settled(2),
        ensures
            self.transfer_due().settled(3),
            self.transfer_due().global_cyc == self.global_cyc,
    {
    }

    /// A step to a cycle that passes no event leaves the state well formed,
    /// with the clock at that cycle.
    pub proof fn lemma_stepped_wf(self, n: u64)
        requires
            self.wf(),
            self.can_reach(n),
        ensures
            self.arrived(n).settled(0),
            self.arrived(n).jitter_resolved().settled(1),
            self.arrived(n).jitter_resolved().tick_due().0.settled(2),
            self.stepped(n).0.wf(),
            self.stepped(n).0.global_cyc == n,
    {
        self.lemma_arrived(n);
        self.arrived(n).lemma_jitter_resolved();
        self.arrived(n).jitter_resolved().lemma_tick_due();
        self.arrived(n).jitter_resolved().tick_due().0.lemma_transfer_due();
    }

    /// The state after catching up to `target`, and whether the interrupt
    /// was raised on the way: steps from stop to stop until the clock is at
    /// `target`. From a well-formed state every step moves the clock
    /// forward; from any other the run ends where the clock does not.
    pub open spec fn run_to(self, target: u64) -> (ApuState, bool)
        decreases target - self.global_cyc,
    {
        if self.global_cyc >= target {
            (self, false)
        } else {
            let (s1, i1) = self.stepped(self.next_stop(target));
            if s1.global_cyc <= self.global_cyc || s1.global_cyc > target {
                (s1, i1)
            } else {
                let (s2, i2) = s1.run_to(target);
                (s2, i1 || i2)
            }
        }
    }

    /// The status byte: one bit per running length counter, bit 6 for the
    /// remembered interrupt request.
    pub open spec fn status(self) -> u8 {
        ((if self.square1.length.is_active() { 1int } else { 0 })
            + (if self.square2.length.is_active() { 2int } else { 0 })
            + (if self.triangle.length.is_active() { 4int } else { 0 })
            + (if self.noise.length.is_active() { 8int } else { 0 })
            + (if self.irq_requested { 64int } else { 0 })) as u8
    }

    /// A status read at `cycle`: the byte shows the state one cycle before,
    /// the request is forgotten, and the clock then reaches `cycle`.
    pub open spec fn status_read(self, cycle: u64) -> (ApuState, bool, u8) {
        let (s1, i1) = self.run_to((cycle - 1) as u64);
        let s2 = ApuState { irq_requested: false, ..s1 };
        let (s3, i2) = s2.run_to(cycle);
        (s3, i1 || i2, s1.status())
    }

    /// The four enable bits reach the length counters.
    pub open spec fn enable_written(self, val: u8) -> ApuState {
        ApuState {
            noise: Noise { length: self.noise.length.with_enable((val / 8) % 2 == 1), ..self.noise },
            triangle: Triangle {
                length: self.triangle.length.with_enable((val / 4) % 2 == 1),
                ..self.triangle
            },
            square2: Square {
                length: self.square2.length.with_enable((val / 2) % 2 == 1),
                ..self.square2
            },
            square1: Square { length: self.square1.length.with_enable(val % 2 == 1), ..self.square1 },
            ..self
        }
    }

    /// A register write, by the address modulo 0x20.
    pub open spec fn written(self, idx: u16, val: u8) -> ApuState {
        let reg = idx % 0x20;
        if reg <= 0x03 {
            ApuState { square1: self.square1.written(reg, val), ..self }
        } else if reg <= 0x07 {
            ApuState { square2: self.square2.written(reg, val), ..self }
        } else if reg <= 0x0B {
            ApuState { triangle: self.triangle.written(reg, val), ..self }
        } else if reg <= 0x0F {
            ApuState { noise: self.noise.written(reg, val), ..self }
        } else if reg <= 0x13 {
            ApuState { dmc: self.dmc.written(reg, val), ..self }
        } else if reg == 0x15 {
            self.enable_written(val)
        } else if reg == 0x17 {
            if self.global_cyc % 2 == 0 {
                self.mode_set(val)
            } else {
                ApuState { jitter: Jitter::Delay(add_sat(self.global_cyc, 1), val), ..self }
            }
        } else {
            self
        }
    }
}

/// The audio unit: the frame sequencer with its channels and its buffer.
#[derive(Debug)]
pub struct APU {
    pub square1: Square,
    pub square2: Square,
    pub triangle: Triangle,
    pub noise: Noise,
    pub dmc: DMC,
    pub frame: Frame,
    pub buffer: SampleBuffer,
    pub output: Vec<Sample>,
    pub global_cyc: u64,
    pub tick: u8,
    pub next_tick_cyc: u64,
    pub next_transfer_cyc: u64,
    pub last_frame_cyc: u64,
    pub irq_requested: bool,
    pub jitter: Jitter,
}

impl View for APU {
    type V = ApuState;

    open spec fn view(&self) -> ApuState {
        ApuState {
            square1: self.square1,
            square2: self.square2,
            triangle: self.triangle,
            noise: self.noise,
            dmc: self.dmc,
            frame: self.frame,
            mixer: self.buffer@,
            output: self.output@,
            global_cyc: self.global_cyc,
            tick: self.tick,
            next_tick_cyc: self.next_tick_cyc,
            next_transfer_cyc: self.next_transfer_cyc,
            last_frame_cyc: self.last_frame_cyc,
            irq_requested: self.irq_requested,
            jitter: self.jitter,
        }
    }
}

impl APU {
    /// The unit at power-on, for a sink of the given sample rate.
    pub fn new(sample_rate: u32) -> (r: APU)
        ensures
            r@ == ApuState::power_on(sample_rate),
            r@.wf(),
    {
        let buffer = SampleBuffer::new(sample_rate);
        let clocks_needed: u64 = buffer.clocks_needed();
        APU {
            square1: Square::new(false),
            square2: Square::new(true),
            triangle: Triangle::new(),
            noise: Noise::new(),
            dmc: DMC::new(),
            frame: Frame::empty(),
            buffer,
            output: Vec::new(),
            global_cyc: 0,
            tick: 0,
            next_tick_cyc: tick_lookup(false, 0),
            next_transfer_cyc: clocks_needed,
            last_frame_cyc: 0,
            irq_requested: false,
            jitter: Jitter::Idle,
        }
    }

    /// Whether the unit is well formed.
    pub fn valid(&self) -> (r: bool)
        ensures
            r == self@.wf(),
    {
        let ahead: bool = match self.jitter {
            Jitter::Delay(at, _) => at > self.global_cyc,
            Jitter::Idle => true,
        };
        let last_step: u8 = if self.frame.five_step { 4 } else { 3 };
        self.buffer.valid() && self.last_frame_cyc <= self.global_cyc && self.tick <= last_step
            && (self.global_cyc == u64::MAX || (self.next_tick_cyc > self.global_cyc
            && self.next_transfer_cyc > self.global_cyc && ahead))
    }

    /// Catches up to `cpu_cycle`, handling every due event in the order of
    /// its cycle, and says whether the interrupt was raised on the way.
    pub fn run_to(&mut self, cpu_cycle: u64) -> (r: Option<Interrupt>)
        requires
            old(self)@.wf(),
        ensures
            final(self)@ == old(self)@.run_to(cpu_cycle).0,
            r.is_some() == old(self)@.run_to(cpu_cycle).1,
            final(self)@.wf(),
            cpu_cycle <= old(self)@.global_cyc ==> final(self)@ == old(self)@ && r.is_none(),
            cpu_cycle >= old(self)@.global_cyc ==> final(self)@.global_cyc == cpu_cycle,
    {
        let mut interrupt: Option<Interrupt> = None;
        while self.global_cyc < cpu_cycle
            invariant
                self@.wf(),
                old(self)@.global_cyc <= self@.global_cyc,
                cpu_cycle >= old(self)@.global_cyc ==> self@.global_cyc <= cpu_cycle,
                cpu_cycle <= old(self)@.global_cyc ==> self@ == old(self)@ && interrupt.is_none(),
                old(self)@.run_to(cpu_cycle).0 == self@.run_to(cpu_cycle).0,
                old(self)@.run_to(cpu_cycle).1 == (interrupt.is_some() || self@.run_to(cpu_cycle).1),
            decreases cpu_cycle - self.global_cyc,
        {
            let mut next_step: u64 = if self.next_tick_cyc < cpu_cycle {
                self.next_tick_cyc
            } else {
                cpu_cycle
            };
            if self.next_transfer_cyc < next_step {
                next_step = self.next_transfer_cyc;
            }
            if let Jitter::Delay(time, _) = self.jitter {
                if time < next_step {
                    next_step = time;
                }
            }
            let raised: bool = self.step_to(next_step);
            if raised {
                interrupt = Some(Interrupt::IRQ);
            }
        }
        interrupt
    }

    fn step_to(&mut self, next_step: u64) -> (r: bool)
        requires
            old(self)@.wf(),
            old(self)@.can_reach(next_step),
        ensures
            (final(self)@, r) == old(self)@.stepped(next_step),
            final(self)@.wf(),
            final(self)@.global_cyc == next_step,
    {
        proof {
            self@.lemma_stepped_wf(next_step);
        }
        self.arrive(next_step);
        self.resolve_jitter();
        let raised: bool = self.tick_if_due();
        self.transfer_if_due();
        raised
    }

    fn arrive(&mut self, next_step: u64)
        requires
            old(self)@.wf(),
            old(self)@.global_cyc <= next_step,
        ensures
            final(self)@ == old(self)@.arrived(next_step),
    {
        let current_cycle: u64 = self.global_cyc;
        self.play(current_cycle, next_step);
        self.global_cyc = next_step;
    }

    fn resolve_jitter(&mut self)
        ensures
            final(self)@ == old(self)@.jitter_resolved(),
    {
        if let Jitter::Delay(time, val) = self.jitter {
            if self.global_cyc == time {
                self.set_4017(val);
                self.jitter = Jitter::Idle;
            }
        }
    }

    fn tick_if_due(&mut self) -> (r: bool)
        requires
            old(self)@.tick <= 4,
        ensures
            (final(self)@, r) == old(self)@.tick_due(),
    {
        if self.global_cyc == self.next_tick_cyc {
            self.tick().is_some()
        } else {
            false
        }
    }

    fn transfer_if_due(&mut self)
        requires
            old(self)@.mixer.wf(),
            old(self)@.last_frame_cyc <= old(self)@.global_cyc,
        ensures
            final(self)@ == old(self)@.transfer_due(),
    {
        if self.global_cyc == self.next_transfer_cyc {
            self.transfer();
        }
    }

    /// The 240 Hz output of the frame sequencer's divider.
    fn tick(&mut self) -> (r: Option<Interrupt>)
        requires
            old(self)@.tick <= 4,
        ensures
            final(self)@ == old(self)@.ticked().0,
            r.is_some() == old(self)@.ticked().1,
    {
        self.tick = self.tick + 1;
        let five_step: bool = self.frame.five_step;
        self.next_tick_cyc = self.global_cyc.saturating_add(tick_lookup(five_step, self.tick));
        if !five_step {
            if self.tick == 1 || self.tick == 3 {
                self.envelope_tick();
            } else if self.tick == 2 {
                self.envelope_tick();
                self.length_tick();
            } else if self.tick == 4 {
                self.tick = 0;
                self.envelope_tick();
                self.length_tick();
                return self.raise_irq();
            } else {
                self.tick = 0;
            }
        } else {
            if self.tick == 1 || self.tick == 3 {
                self.envelope_tick();
                self.length_tick();
            } else if self.tick == 2 || self.tick == 4 {
                self.envelope_tick();
            } else {
                self.tick = 0;
            }
        }
        None
    }

    fn envelope_tick(&mut self)
        ensures
            final(self)@ == old(self)@.envelope_ticked(),
    {
        self.square1.envelope_tick();
        self.square2.envelope_tick();
        self.triangle.envelope_tick();
        self.noise.envelope_tick();
    }

    fn length_tick(&mut self)
        ensures
            final(self)@ == old(self)@.length_ticked(),
    {
        self.square1.length_tick();
        self.square2.length_tick();
        self.triangle.length_tick();
        self.noise.length_tick();
    }

    fn raise_irq(&mut self) -> (r: Option<Interrupt>)
        ensures
            final(self)@ == old(self)@.raised().0,
            r.is_some() == old(self)@.raised().1,
    {
        if !self.frame.suppress_irq {
            self.irq_requested = true;
            return Some(Interrupt::IRQ);
        }
        None
    }

    fn play(&mut self, from_cyc: u64, to_cyc: u64)
        requires
            old(self)@.mixer.wf(),
            old(self)@.last_frame_cyc <= from_cyc,
        ensures
            final(self)@ == old(self)@.played(from_cyc, to_cyc),
            final(self)@.mixer.wf(),
    {
        let mut c: u64 = from_cyc;
        while c < to_cyc
            invariant
                from_cyc <= c <= to_cyc || (c == from_cyc && to_cyc < from_cyc),
                self@.mixer.wf(),
                self@.last_frame_cyc <= from_cyc,
                self@ == old(self)@.played(from_cyc, c),
            decreases to_cyc - c,
        {
            let from: u64 = c - self.last_frame_cyc;
            let to: u64 = from + 1;
            self.square1.play(from, to, &mut self.buffer);
            self.square2.play(from, to, &mut self.buffer);
            self.triangle.play(from, to, &mut self.buffer);
            self.noise.play(from, to, &mut self.buffer);
            self.dmc.play(from, to, &mut self.buffer);
            c = c + 1;
        }
    }

    fn transfer(&mut self)
        requires
            old(self)@.mixer.wf(),
            old(self)@.last_frame_cyc <= old(self)@.global_cyc,
        ensures
            final(self)@ == old(self)@.transferred(),
            final(self)@.mixer.wf(),
    {
        let cpu_cyc: u64 = self.global_cyc;
        let cycles_since_last_frame: u64 = cpu_cyc - self.last_frame_cyc;
        self.last_frame_cyc = cpu_cyc;
        self.buffer.end_frame(cycles_since_last_frame);
        let mut samples: Vec<Sample> = self.buffer.read();
        self.next_transfer_cyc = cpu_cyc.saturating_add(self.buffer.clocks_needed());
        self.output.append(&mut samples);
    }

    /// The cycle at which the unit next has work to do: the next step of the
    /// frame sequencer. The CPU must not pass it without running the unit.
    pub fn requested_run_cycle(&self) -> (r: u64)
        ensures
            r == self@.next_tick_cyc,
    {
        self.next_tick_cyc
    }

    fn set_4017(&mut self, val: u8)
        ensures
            final(self)@ == old(self)@.mode_set(val),
    {
        self.frame = Frame::from_bits_truncate(val);
        if self.frame.suppress_irq {
            self.irq_requested = false;
        }
        self.tick = 0;
        self.next_tick_cyc = self.global_cyc.saturating_add(tick_lookup(self.frame.five_step, 0));
        if self.frame.five_step {
            self.envelope_tick();
            self.length_tick();
        }
    }

    /// Reads the status register at `cycle`: the interrupt raised up to
    /// there, if any, and the status byte.
    pub fn read_status(&mut self, cycle: u64) -> (r: (Option<Interrupt>, u8))
        requires
            old(self)@.wf(),
            cycle >= 1,
        ensures
            final(self)@ == old(self)@.status_read(cycle).0,
            r.0.is_some() == old(self)@.status_read(cycle).1,
            r.1 == old(self)@.status_read(cycle).2,
            final(self)@.wf(),
    {
        let first: Option<Interrupt> = self.run_to(cycle - 1);
        let mut status: u8 = 0;
        status = status + self.square1.length.active();
        status = status + 2 * self.square2.length.active();
        status = status + 4 * self.triangle.length.active();
        status = status + 8 * self.noise.length.active();
        status = status + if self.irq_requested { 64 } else { 0 };
        self.irq_requested = false;
        let second: Option<Interrupt> = self.run_to(cycle);
        (if first.is_some() { first } else { second }, status)
    }

    /// Writes a register, addressed modulo 0x20. A write to the mode
    /// register on an odd cycle waits one cycle.
    pub fn write(&mut self, idx: u16, val: u8)
        requires
            old(self)@.wf(),
        ensures
            final(self)@ == old(self)@.written(idx, val),
            final(self)@.wf(),
    {
        let x: u16 = idx % 0x20;
        if x <= 0x03 {
            self.square1.write(x, val);
        } else if x <= 0x07 {
            self.square2.write(x, val);
        } else if x <= 0x0B {
            self.triangle.write(x, val);
        } else if x <= 0x0F {
            self.noise.write(x, val);
        } else if x <= 0x13 {
            self.dmc.write(x, val);
        } else if x == 0x15 {
            self.set_enable(val);
        } else if x == 0x17 {
            if self.global_cyc % 2 == 0 {
                self.set_4017(val);
            } else {
                self.jitter = Jitter::Delay(self.global_cyc.saturating_add(1), val);
            }
        }
    }

    fn set_enable(&mut self, val: u8)
        ensures
            final(self)@ == old(self)@.enable_written(val),
    {
        self.noise.length.set_enable((val / 8) % 2 == 1);
        self.triangle.length.set_enable((val / 4) % 2 == 1);
        self.square2.length.set_enable((val / 2) % 2 == 1);
        self.square1.length.set_enable(val % 2 == 1);
    }

    /// Hands out the samples of the blocks finished since the last call, in
    /// order, for the sink to play.
    pub fn take_samples(&mut self) -> (r: Vec<Sample>)
        ensures
            r@ == old(self)@.output,
            final(self)@ == (ApuState { output: Seq::empty(), ..old(self)@ }),
            old(self)@.wf() ==> final(self)@.wf(),
    {
        let mut taken: Vec<Sample> = Vec::new();
        taken.append(&mut self.output);
        taken
    }
}

} // verus!

use vstd::prelude::*;

verus! {

/// CPU cycles per second.
pub const CPU_CLOCK: u64 = 1_789_773;

/// One output sample, in the fixed-point unit of the sample clock.
pub const UNIT: u64 = 0x1_0000_0000;

/// What a buffer holds, as mathematical values.
pub struct MixerState {
    /// Sample-clock units that pass per CPU cycle.
    pub factor: u64,
    /// Sample-clock units already passed at the start of the time frame.
    pub offset: u64,
    /// Samples per block.
    pub block: u64,
    /// Finished samples waiting to be read.
    pub avail: usize,
    /// Amplitude reached by the samples read so far.
    pub level: i32,
    /// Amplitude change falling into each sample slot not yet read.
    pub cells: Seq<i32>,
}

pub open spec fn clamp_i32(v: int) -> i32 {
    if v > i32::MAX {
        i32::MAX
    } else if v < i32::MIN {
        i32::MIN
    } else {
        v as i32
    }
}

/// An amplitude as a 16-bit sample: scaled by 128 and clamped.
pub open spec fn to_sample(level: i32) -> i16 {
    if level * 128 > i16::MAX {
        i16::MAX
    } else if level * 128 < i16::MIN {
        i16::MIN
    } else {
        (level * 128) as i16
    }
}

/// Sample-clock units per CPU cycle at an output rate: the rate over the CPU
/// clock, rounded up, kept between one unit step and one sample per cycle.
pub open spec fn rate_factor(sample_rate: u32) -> u64 {
    let f = (UNIT * sample_rate + CPU_CLOCK - 1) / (CPU_CLOCK as int);
    if f < 1 {
        1
    } else if f > UNIT {
        UNIT
    } else {
        f as u64
    }
}

/// Samples per block at an output rate: a sixtieth of a second, at least one.
pub open spec fn rate_block(sample_rate: u32) -> u64 {
    if sample_rate / 60 < 1 { 1 } else { (sample_rate / 60) as u64 }
}

/// The amplitude after the first `n` slots of `cells` have been summed in.
pub open spec fn level_after(level: i32, cells: Seq<i32>, n: nat) -> i32
    decreases n,
{
    if n == 0 || n > cells.len() {
        level
    } else {
        clamp_i32(level_after(level, cells, (n - 1) as nat) + cells[n - 1])
    }
}

impl MixerState {
    pub open spec fn wf(self) -> bool {
        &&& 1 <= self.factor <= UNIT
        &&& self.offset < UNIT
        &&& 1 <= self.block <= u32::MAX
        &&& self.cells.len() == self.block + 1
        &&& self.avail <= self.cells.len()
    }

    pub open spec fn fresh(sample_rate: u32) -> MixerState {
        MixerState {
            factor: rate_factor(sample_rate),
            offset: 0,
            block: rate_block(sample_rate),
            avail: 0,
            level: 0,
            cells: Seq::new((rate_block(sample_rate) + 1) as nat, |i: int| 0i32),
        }
    }

    /// The slot that a clock time of the current frame falls into.
    pub open spec fn slot(self, time: u64) -> int {
        self.avail + (time * self.factor + self.offset) / (UNIT as int)
    }

    /// A change outside the buffer is dropped.
    pub open spec fn with_delta(self, time: u64, delta: i32) -> MixerState {
        let i = self.slot(time);
        if i < self.cells.len() {
            MixerState { cells: self.cells.update(i, clamp_i32(self.cells[i] + delta)), ..self }
        } else {
            self
        }
    }

    /// Cycles until one more block is complete, at least one.
    pub open spec fn clocks(self) -> u64 {
        let q = (self.block * UNIT - self.offset + self.factor - 1) / (self.factor as int);
        if q < 1 {
            1
        } else if q > u64::MAX {
            u64::MAX
        } else {
            q as u64
        }
    }

    /// The frame ends after `cycles`: the samples it completed become
    /// available, as far as the buffer has slots for them.
    pub open spec fn frame_ended(self, cycles: u64) -> MixerState {
        let off = cycles * self.factor + self.offset;
        let n = self.avail + off / (UNIT as int);
        MixerState {
            avail: if n > self.cells.len() { self.cells.len() as usize } else { n as usize },
            offset: (off % (UNIT as int)) as u64,
            ..self
        }
    }

    /// The samples that a read hands out.
    pub open spec fn samples(self) -> Seq<i16> {
        Seq::new(
            self.avail as nat,
            |i: int| to_sample(level_after(self.level, self.cells, (i + 1) as nat)),
        )
    }

    /// The buffer after a read: the slots read are gone, the rest move up.
    pub open spec fn drained(self) -> MixerState {
        MixerState {
            avail: 0,
            level: level_after(self.level, self.cells, self.avail as nat),
            cells: Seq::new(
                self.cells.len(),
                |j: int| if j + self.avail < self.cells.len() { self.cells[j + self.avail] } else { 0i32 },
            ),
            ..self
        }
    }
}

/// Accumulates the channels' amplitude changes, stamped in CPU cycles, and
/// hands them out as samples at the host's rate.
#[derive(Debug)]
pub struct SampleBuffer {
    factor: u64,
    offset: u64,
    block: u64,
    avail: usize,
    level: i32,
    cells: Vec<i32>,
}

impl View for SampleBuffer {
    type V = MixerState;

    closed spec fn view(&self) -> MixerState {
        MixerState {
            factor: self.factor,
            offset: self.offset,
            block: self.block,
            avail: self.avail,
            level: self.level,
            cells: self.cells@,
        }
    }
}

fn add_clamped(a: i32, b: i32) -> (r: i32)
    ensures
        r == clamp_i32(a + b),
{
    let v: i64 = a as i64 + b as i64;
    if v > i32::MAX as i64 {
        i32::MAX
    } else if v < i32::MIN as i64 {
        i32::MIN
    } else {
        v as i32
    }
}

fn sample_of(level: i32) -> (r: i16)
    ensures
        r == to_sample(level),
{
    let v: i64 = level as i64 * 128;
    if v > i16::MAX as i64 {
        i16::MAX
    } else if v < i16::MIN as i64 {
        i16::MIN
    } else {
        v as i16
    }
}

impl SampleBuffer {
    pub fn new(sample_rate: u32) -> (r: SampleBuffer)
        ensures
            r@ == MixerState::fresh(sample_rate),
            r@.wf(),
    {
        assert(UNIT * sample_rate <= 0x1_0000_0000 * 0xFFFF_FFFF) by (nonlinear_arith)
            requires
                UNIT == 0x1_0000_0000,
                sample_rate <= 0xFFFF_FFFF,
        ;
        let wide: u128 = (UNIT as u128 * sample_rate as u128 + (CPU_CLOCK - 1) as u128) / (CPU_CLOCK as u128);
        let factor: u64 = if wide < 1 {
            1
        } else if wide > UNIT as u128 {
            UNIT
        } else {
            wide as u64
        };
        let block: u64 = if sample_rate / 60 < 1 { 1 } else { (sample_rate / 60) as u64 };
        let mut cells: Vec<i32> = Vec::new();
        let mut i: u64 = 0;
        while i < block + 1
            invariant
                i <= block + 1,
                block <= u32::MAX,
                cells@ =~= Seq::new(i as nat, |k: int| 0i32),
            decreases block + 1 - i,
        {
            cells.push(0);
            i = i + 1;
        }
        SampleBuffer { factor, offset: 0, block, avail: 0, level: 0, cells }
    }

    /// Whether the buffer is sound.
    pub fn valid(&self) -> (r: bool)
        ensures
            r == self@.wf(),
    {
        1 <= self.factor && self.factor <= UNIT && self.offset < UNIT && 1 <= self.block
            && self.block <= 0xFFFF_FFFF && self.cells.len() as u64 == self.block + 1
            && self.avail <= self.cells.len()
    }

    pub fn clocks_needed(&self) -> (r: u64)
        requires
            self@.wf(),
        ensures
            r == self@.clocks(),
            r >= 1,
    {
        let needed: u128 = self.block as u128 * UNIT as u128 - self.offset as u128 + self.factor as u128 - 1;
        let q: u128 = needed / (self.factor as u128);
        if q < 1 {
            1
        } else if q > u64::MAX as u128 {
            u64::MAX
        } else {
            q as u64
        }
    }

    fn slot_of(&self, time: u64) -> (r: u128)
        requires
            self@.wf(),
        ensures
            r == (time * self.factor + self.offset) / (UNIT as int),
            r == self@.slot(time) - self.avail,
            (time * self.factor + self.offset) % (UNIT as int) < UNIT,
    {
        assert(time * self.factor <= 0xFFFF_FFFF_FFFF_FFFF * 0x1_0000_0000) by (nonlinear_arith)
            requires
                time <= 0xFFFF_FFFF_FFFF_FFFF,
                self.factor <= 0x1_0000_0000,
        ;
        assert(0 <= time * self.factor) by (nonlinear_arith);
        let off: u128 = time as u128 * self.factor as u128 + self.offset as u128;
        off / (UNIT as u128)
    }

    pub fn add_delta(&mut self, time: u64, delta: i32)
        requires
            old(self)@.wf(),
        ensures
            final(self)@ == old(self)@.with_delta(time, delta),
            final(self)@.wf(),
    {
        let rel: u128 = self.slot_of(time);
        if rel < (self.cells.len() - self.avail) as u128 {
            let i: usize = self.avail + rel as usize;
            let v: i32 = add_clamped(self.cells[i], delta);
            self.cells.set(i, v);
        }
    }

    pub fn end_frame(&mut self, cycles: u64)
        requires
            old(self)@.wf(),
        ensures
            final(self)@ == old(self)@.frame_ended(cycles),
            final(self)@.wf(),
    {
        let rel: u128 = self.slot_of(cycles);
        assert(cycles * self.factor <= 0xFFFF_FFFF_FFFF_FFFF * 0x1_0000_0000) by (nonlinear_arith)
            requires
                cycles <= 0xFFFF_FFFF_FFFF_FFFF,
                self.factor <= 0x1_0000_0000,
        ;
        assert(0 <= cycles * self.factor) by (nonlinear_arith);
        let off: u128 = cycles as u128 * self.factor as u128 + self.offset as u128;
        if rel > (self.cells.len() - self.avail) as u128 {
            self.avail = self.cells.len();
        } else {
            self.avail = self.avail + rel as usize;
        }
        self.offset = (off % (UNIT as u128)) as u64;
    }

    /// Drains the finished samples.
    pub fn read(&mut self) -> (r: Vec<i16>)
        requires
            old(self)@.wf(),
        ensures
            r@ == old(self)@.samples(),
            final(self)@ == old(self)@.drained(),
            final(self)@.wf(),
    {
        let n: usize = self.avail;
        let len: usize = self.cells.len();
        let ghost start = self@;
        let mut out: Vec<i16> = Vec::new();
        let mut level: i32 = self.level;
        let mut i: usize = 0;
        while i < n
            invariant
                i <= n <= len,
                len == self.cells.len(),
                self@ == start,
                n == start.avail,
                level == level_after(start.level, start.cells, i as nat),
                out@ =~= Seq::new(
                    i as nat,
                    |k: int| to_sample(level_after(start.level, start.cells, (k + 1) as nat)),
                ),
            decreases n - i,
        {
            level = add_clamped(level, self.cells[i]);
            out.push(sample_of(level));
            i = i + 1;
        }
        let mut rest: Vec<i32> = Vec::new();
        let mut j: usize = 0;
        while j < len
            invariant
                j <= len,
                n <= len,
                len == self.cells.len(),
                self@ == start,
                rest@ =~= Seq::new(
                    j as nat,
                    |k: int| if k + n < len { start.cells[k + n] } else { 0i32 },
                ),
            decreases len - j,
        {
            let v: i32 = if j < len - n { self.cells[j + n] } else { 0 };
            rest.push(v);
            j = j + 1;
        }
        self.cells = rest;
        self.level = level;
        self.avail = 0;
        assert(self@.cells =~= start.drained().cells);
        out
    }
}

} // verus!

use vstd::prelude::*;
use crate::apu::{add_sat, ApuState, APU};
use crate::cpu::{jump_target, supported, CpuMemory, CPU, JMP_ABSOLUTE};
use crate::laws::lemma_run_to_split;

verus! {

/// CPU cycles in one video frame.
pub const FRAME_CYCLES: u64 = 29_781;

/// The sample rate of a console built without a sink of its own.
pub const DEFAULT_RATE: u32 = 44_100;

/// The processor from `cycle` to the end of the frame: where its program
/// counter ends up, and whether it has halted on an opcode that it cannot
/// decode. An absolute jump takes three cycles, an indirect one five; the
/// frame's last instruction ends with the frame.
pub open spec fn cpu_run(mem: Seq<u8>, pc: u16, halted: bool, cycle: int, end: int) -> (u16, bool)
    decreases end - cycle,
{
    if cycle >= end || halted {
        (pc, halted)
    } else if !supported(mem[pc as int]) {
        (pc, true)
    } else {
        let done = cycle + if mem[pc as int] == 0x4C { 3int } else { 5int };
        cpu_run(mem, jump_target(mem, pc), false, if done < end { done } else { end }, end)
    }
}

/// What a console is built from.
#[derive(Debug)]
pub struct EmulatorBuilder {
    pub mem: CpuMemory,
    pub sample_rate: u32,
}

impl EmulatorBuilder {
    pub fn new(mem: CpuMemory) -> (r: EmulatorBuilder)
        ensures
            r.mem@ == mem@,
            r.sample_rate == DEFAULT_RATE,
    {
        EmulatorBuilder { mem, sample_rate: DEFAULT_RATE }
    }

    /// The console at power-on, its program counter at the start of the
    /// program.
    pub fn build(self) -> (r: Emulator)
        requires
            self.mem.wf(),
        ensures
            r.wf(),
            r.cycle == 0,
            !r.halted && !r.irq_pending,
            r.apu@ == ApuState::power_on(self.sample_rate),
            r.cpu.mem@ == self.mem@,
            r.cpu.pc == 0xC000,
            r.cpu.a == 0 && r.cpu.x == 0 && r.cpu.y == 0 && r.cpu.p == 0x24 && r.cpu.s == 0xFD,
    {
        let apu = APU::new(self.sample_rate);
        let mut cpu = CPU::new(self.mem);
        cpu.init();
        Emulator { cpu, apu, cycle: 0, irq_pending: false, halted: false }
    }
}

/// The processor and the audio unit on one clock.
#[derive(Debug)]
pub struct Emulator {
    pub cpu: CPU,
    pub apu: APU,
    pub cycle: u64,
    /// An interrupt request of the audio unit that the processor has not
    /// taken yet.
    pub irq_pending: bool,
    pub halted: bool,
}

impl Emulator {
    /// Between frames the audio unit has caught up with the clock.
    pub open spec fn wf(&self) -> bool {
        &&& self.cpu.mem.wf()
        &&& self.apu@.wf()
        &&& self.apu@.global_cyc == self.cycle
    }

    /// Whether the console is well formed.
    pub fn valid(&self) -> (r: bool)
        ensures
            r == self.wf(),
    {
        self.cpu.mem.valid() && self.apu.valid() && self.apu.global_cyc == self.cycle
    }

    /// The processor executes one instruction at cycle `now`, or halts, and
    /// the cycle at which it is done is returned.
    fn cpu_step(&mut self, now: u64, end: u64) -> (next: u64)
        requires
            old(self).cpu.mem.wf(),
            now < end,
            !old(self).halted,
        ensures
            final(self).cpu.mem.wf(),
            final(self).cpu.mem@ == old(self).cpu.mem@,
            final(self).cpu.same_registers(&old(self).cpu),
            final(self).apu == old(self).apu,
            final(self).irq_pending == old(self).irq_pending,
            final(self).cycle == old(self).cycle,
            now <= next <= end,
            now < next || final(self).halted,
            cpu_run(old(self).cpu.mem@, old(self).cpu.pc, false, now as int, end as int) == cpu_run(
                final(self).cpu.mem@,
                final(self).cpu.pc,
                final(self).halted,
                next as int,
                end as int,
            ),
    {
        if self.cpu.can_step() {
            let opcode: u8 = self.cpu.read(self.cpu.pc);
            let cost: u64 = if opcode == JMP_ABSOLUTE { 3 } else { 5 };
            self.cpu.step();
            let done: u64 = now.saturating_add(cost);
            if done < end { done } else { end }
        } else {
            self.halted = true;
            now
        }
    }

    /// Runs the audio unit to `target`, a cycle of the frame that ends at
    /// `end`, and notes an interrupt that it raises.
    fn catch_up(&mut self, target: u64, end: u64)
        requires
            old(self).apu@.wf(),
            old(self).apu@.global_cyc <= end,
            target <= end,
        ensures
            final(self).apu@.wf(),
            final(self).apu@.global_cyc <= end,
            target >= old(self).apu@.global_cyc ==> final(self).apu@.global_cyc == target,
            final(self).cpu == old(self).cpu,
            final(self).halted == old(self).halted,
            final(self).cycle == old(self).cycle,
            final(self).apu@.run_to(end).0 == old(self).apu@.run_to(end).0,
            (final(self).irq_pending || final(self).apu@.run_to(end).1) == (old(self).irq_pending
                || old(self).apu@.run_to(end).1),
    {
        if target > self.apu.global_cyc {
            proof {
                lemma_run_to_split(self.apu@, target, end);
            }
            if self.apu.run_to(target).is_some() {
                self.irq_pending = true;
            }
        }
    }

    /// Runs one video frame: the processor executes until the frame's last
    /// cycle or until it halts, and the audio unit is run whenever the clock
    /// reaches the cycle that it asked for, and to the end of the frame.
    pub fn run_frame(&mut self)
        requires
            old(self).wf(),
        ensures
            final(self).wf(),
            final(self).cycle == add_sat(old(self).cycle, FRAME_CYCLES),
            final(self).apu@ == old(self).apu@.run_to(final(self).cycle).0,
            final(self).irq_pending == (old(self).irq_pending || old(self).apu@.run_to(
                final(self).cycle,
            ).1),
            (final(self).cpu.pc, final(self).halted) == cpu_run(
                old(self).cpu.mem@,
                old(self).cpu.pc,
                old(self).halted,
                old(self).cycle as int,
                final(self).cycle as int,
            ),
            final(self).cpu.mem@ == old(self).cpu.mem@,
            final(self).cpu.same_registers(&old(self).cpu),
    {
        let end: u64 = self.cycle.saturating_add(FRAME_CYCLES);
        let mut now: u64 = self.cycle;
        while now < end && !self.halted
            invariant
                self.cpu.mem.wf(),
                self.cpu.mem@ == old(self).cpu.mem@,
                self.cpu.same_registers(&old(self).cpu),
                self.apu@.wf(),
                self.apu@.global_cyc <= end,
                old(self).apu@.run_to(end).0 == self.apu@.run_to(end).0,
                (old(self).irq_pending || old(self).apu@.run_to(end).1) == (self.irq_pending
                    || self.apu@.run_to(end).1),
                cpu_run(
                    old(self).cpu.mem@,
                    old(self).cpu.pc,
                    old(self).halted,
                    old(self).cycle as int,
                    end as int,
                ) == cpu_run(self.cpu.mem@, self.cpu.pc, self.halted, now as int, end as int),
            decreases end - now, if self.halted { 0int } else { 1int },
        {
            now = self.cpu_step(now, end);
            if now >= self.apu.requested_run_cycle() {
                self.catch_up(now, end);
            }
        }
        self.catch_up(end, end);
        self.cycle = end;
    }

    /// Whether the processor has stopped on an opcode that it cannot decode.
    pub fn halted(&self) -> (r: bool)
        ensures
            r == self.halted,
    {
        self.halted
    }
}

} // verus!

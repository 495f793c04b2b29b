use vstd::prelude::*;
use crate::apu::{add_sat, ApuState, Frame, Jitter};

verus! {

/// Playing does not look at the clock: setting the clock before or after
/// gives the same state.
pub proof fn lemma_played_ignores_clock(s: ApuState, clock: u64, from: u64, to: u64)
    ensures
        (ApuState { global_cyc: clock, ..s }).played(from, to) == (ApuState {
            global_cyc: clock,
            ..s.played(from, to)
        }),
    decreases to - from,
{
    if to > from {
        lemma_played_ignores_clock(s, clock, from, (to - 1) as u64);
    }
}

/// Playing a window in two parts is playing it whole.
pub proof fn lemma_played_split(s: ApuState, a: u64, b: u64, c: u64)
    requires
        a <= b <= c,
    ensures
        s.played(a, b).played(b, c) == s.played(a, c),
    decreases c - b,
{
    if c > b {
        lemma_played_split(s, a, b, (c - 1) as u64);
    }
}

/// Moving the clock to a cycle in two moves is moving it there in one.
pub proof fn lemma_arrived_split(s: ApuState, b: u64, c: u64)
    requires
        s.global_cyc <= b <= c,
    ensures
        s.arrived(b).arrived(c) == s.arrived(c),
{
    lemma_played_ignores_clock(s.played(s.global_cyc, b), b, b, c);
    lemma_played_split(s, s.global_cyc, b, c);
}

/// Catching up is associative: for targets `t1 <= t2` at or after the clock,
/// running to `t1` and then to `t2` ends in the state that one run to `t2`
/// ends in, and raises the interrupt if and only if that run does.
pub proof fn lemma_run_to_split(s: ApuState, t1: u64, t2: u64)
    requires
        s.wf(),
        s.global_cyc <= t1 <= t2,
    ensures
        s.run_to(t1).0.run_to(t2).0 == s.run_to(t2).0,
        (s.run_to(t1).1 || s.run_to(t1).0.run_to(t2).1) == s.run_to(t2).1,
    decreases t2 - s.global_cyc,
{
    if s.global_cyc < t1 {
        let n1 = s.next_stop(t1);
        let n2 = s.next_stop(t2);
        s.lemma_stepped_wf(n1);
        s.lemma_stepped_wf(n2);
        let s1 = s.stepped(n1).0;
        if n1 == n2 {
            lemma_run_to_split(s1, t1, t2);
        } else {
            assert(n1 == t1 && t1 < n2);
            s.lemma_arrived(t1);
            assert(s1 == s.arrived(t1));
            assert(s1.run_to(t1) == (s1, false));
            assert(s1.next_stop(t2) == n2);
            lemma_arrived_split(s, t1, n2);
            assert(s1.stepped(n2) == s.stepped(n2));
        }
    }
}

/// A register write keeps a well-formed state well formed, and leaves the
/// clock where it is.
pub proof fn lemma_written_wf(s: ApuState, idx: u16, val: u8)
    requires
        s.wf(),
    ensures
        s.written(idx, val).wf(),
        s.written(idx, val).global_cyc == s.global_cyc,
        s.written(idx, val).output == s.output,
{
}

/// A run to the cycle that the clock is at, or to an earlier one, changes
/// nothing and raises nothing.
pub proof fn lemma_run_to_reached(s: ApuState, target: u64)
    requires
        target <= s.global_cyc,
    ensures
        s.run_to(target) == (s, false),
{
}

/// Clearing a channel's bit in the enable register stops its length counter
/// at once, whatever it held, and the status byte shows that bit as 0.
pub proof fn lemma_disable_clears_status(s: ApuState, val: u8)
    ensures
        val % 2 == 0 ==> !s.written(0x15, val).square1.length.is_active() && s.written(
            0x15,
            val,
        ).status() % 2 == 0,
        (val / 2) % 2 == 0 ==> !s.written(0x15, val).square2.length.is_active() && (s.written(
            0x15,
            val,
        ).status() / 2) % 2 == 0,
        (val / 4) % 2 == 0 ==> !s.written(0x15, val).triangle.length.is_active() && (s.written(
            0x15,
            val,
        ).status() / 4) % 2 == 0,
        (val / 8) % 2 == 0 ==> !s.written(0x15, val).noise.length.is_active() && (s.written(
            0x15,
            val,
        ).status() / 8) % 2 == 0,
{
}

/// A mode value with bit 7 set, reaching the mode register, clocks every
/// envelope and every length counter once, besides starting the five-step
/// sequence over with its next step one cycle ahead.
pub proof fn lemma_five_step_clocks_at_once(s: ApuState, val: u8)
    requires
        val >= 128,
    ensures
        s.mode_set(val).square1 == s.square1.envelope_ticked().length_ticked(),
        s.mode_set(val).square2 == s.square2.envelope_ticked().length_ticked(),
        s.mode_set(val).triangle == s.triangle.envelope_ticked().length_ticked(),
        s.mode_set(val).noise == s.noise.envelope_ticked().length_ticked(),
        s.mode_set(val).frame.five_step,
        s.mode_set(val).tick == 0,
        s.mode_set(val).next_tick_cyc == add_sat(s.global_cyc, 1),
        s.global_cyc % 2 == 0 ==> s.written(0x17, val) == s.mode_set(val),
{
}

/// A write to the mode register on an even cycle takes effect at once.
pub proof fn lemma_mode_write_even(s: ApuState, val: u8)
    requires
        s.global_cyc % 2 == 0,
    ensures
        s.written(0x17, val) == s.mode_set(val),
        s.written(0x17, val).frame == Frame::of_bits(val),
{
}

/// A write to the mode register on an odd cycle changes nothing but the
/// waiting write, and a run to the next cycle applies it there.
pub proof fn lemma_mode_write_odd(s: ApuState, val: u8)
    requires
        s.wf(),
        s.global_cyc % 2 == 1,
        s.global_cyc < u64::MAX,
    ensures
        s.written(0x17, val) == (ApuState {
            jitter: Jitter::Delay((s.global_cyc + 1) as u64, val),
            ..s
        }),
        s.written(0x17, val).run_to(s.global_cyc).0.frame == s.frame,
        s.written(0x17, val).run_to((s.global_cyc + 1) as u64).0.frame == Frame::of_bits(val),
        s.written(0x17, val).run_to((s.global_cyc + 1) as u64).0.jitter == Jitter::Idle,
{
    let w = s.written(0x17, val);
    let n = (s.global_cyc + 1) as u64;
    assert(w.wf());
    assert(w.next_stop(n) == n);
    w.lemma_stepped_wf(n);
    w.lemma_arrived(n);
    let s1 = w.stepped(n).0;
    assert(w.arrived(n).jitter == Jitter::Delay(n, val));
    assert(w.arrived(n).jitter_resolved().frame == Frame::of_bits(val));
    assert(s1.run_to(n) == (s1, false));
}

/// A step of the frame sequence raises the interrupt exactly when it is the
/// last step of the four-step sequence and the interrupt is not suppressed;
/// the request is then remembered, and the sequence starts over.
pub proof fn lemma_interrupt_on_last_step(s: ApuState)
    requires
        s.wf(),
    ensures
        s.ticked().1 == (!s.frame.five_step && s.tick == 3 && !s.frame.suppress_irq),
        s.ticked().1 ==> s.ticked().0.irq_requested && s.ticked().0.tick == 0,
        !s.ticked().1 ==> s.ticked().0.irq_requested == s.irq_requested,
{
}

/// A run from a well-formed state ends in a well-formed state, with the
/// clock at the target, or where it was if the target lies behind it.
pub proof fn lemma_run_to_arrives(s: ApuState, target: u64)
    requires
        s.wf(),
    ensures
        s.run_to(target).0.wf(),
        s.run_to(target).0.global_cyc == if target > s.global_cyc {
            target
        } else {
            s.global_cyc
        },
    decreases target - s.global_cyc,
{
    if s.global_cyc < target {
        let n = s.next_stop(target);
        s.lemma_stepped_wf(n);
        lemma_run_to_arrives(s.stepped(n).0, target);
    }
}

/// A status read leaves a well-formed state with the clock at its cycle, or
/// where it was if that lies behind it, and the byte it returns has bits 4, 5
/// and 7 clear.
pub proof fn lemma_status_read(s: ApuState, cycle: u64)
    requires
        s.wf(),
        cycle >= 1,
    ensures
        s.status_read(cycle).0.wf(),
        s.status_read(cycle).0.global_cyc == if cycle > s.global_cyc {
            cycle
        } else {
            s.global_cyc
        },
        (s.status_read(cycle).2 / 16) % 2 == 0,
        (s.status_read(cycle).2 / 32) % 2 == 0,
        s.status_read(cycle).2 < 128,
{
    lemma_run_to_arrives(s, (cycle - 1) as u64);
    let s1 = s.run_to((cycle - 1) as u64).0;
    lemma_run_to_arrives(ApuState { irq_requested: false, ..s1 }, cycle);
}

/// A mode value with bit 6 set forgets a remembered interrupt request as it
/// reaches the register.
pub proof fn lemma_suppress_clears_irq(s: ApuState, val: u8)
    requires
        (val / 64) % 2 == 1,
    ensures
        !s.mode_set(val).irq_requested,
        s.mode_set(val).frame.suppress_irq,
        s.global_cyc % 2 == 0 ==> !s.written(0x17, val).irq_requested,
{
}

} // verus!

use nes_apu::apu::{Frame, Jitter, APU};

fn snapshot(apu: &APU) -> String {
    format!("{:?}", apu)
}

/// Pulse 1 enabled, envelope decaying with period 0, length code 1 (254).
fn with_pulse1() -> APU {
    let mut apu = APU::new(44100);
    apu.write(0x4015, 0x01);
    apu.write(0x4000, 0x00);
    apu.write(0x4003, 0x08);
    apu
}

#[test]
fn power_on_state() {
    let apu = APU::new(44100);
    assert_eq!(apu.global_cyc, 0);
    assert_eq!(apu.tick, 0);
    assert_eq!(apu.next_tick_cyc, 7459);
    assert_eq!(apu.requested_run_cycle(), 7459);
    assert_eq!(apu.next_transfer_cyc, 29830);
    assert_eq!(apu.last_frame_cyc, 0);
    assert!(!apu.irq_requested);
    assert!(!apu.frame.five_step);
    assert!(!apu.frame.suppress_irq);
    assert!(matches!(apu.jitter, Jitter::Idle));
}

#[test]
fn run_to_current_cycle_is_a_no_op() {
    let mut apu = with_pulse1();
    assert!(apu.run_to(5000).is_none());
    let before = snapshot(&apu);
    assert!(apu.run_to(5000).is_none());
    assert_eq!(snapshot(&apu), before);
    assert!(apu.run_to(10).is_none());
    assert_eq!(snapshot(&apu), before);
}

#[test]
fn first_step_clocks_envelope_only() {
    let mut apu = with_pulse1();
    assert!(apu.square1.envelope.start);
    assert!(apu.run_to(7458).is_none());
    assert!(apu.square1.envelope.start);
    assert_eq!(apu.square1.length.remaining, 254);
    assert!(apu.run_to(7459).is_none());
    assert!(!apu.square1.envelope.start);
    assert_eq!(apu.square1.envelope.decay, 15);
    assert_eq!(apu.square1.length.remaining, 254);
    assert!(!apu.irq_requested);
    assert_eq!(apu.tick, 1);
    assert_eq!(apu.requested_run_cycle(), 7459 + 7456);
}

#[test]
fn full_four_step_cycle_raises_one_interrupt() {
    let mut apu = with_pulse1();
    let mut raised = 0;
    for cycle in 1..=29831u64 {
        if apu.run_to(cycle).is_some() {
            raised += 1;
            assert_eq!(cycle, 29831);
        }
    }
    assert_eq!(raised, 1);
    assert!(apu.irq_requested);
    assert_eq!(apu.tick, 0);
    assert_eq!(apu.square1.length.remaining, 252);
    assert_eq!(apu.square1.envelope.decay, 12);
    assert_eq!(apu.requested_run_cycle(), 29831 + 7458);
}

#[test]
fn full_four_step_cycle_suppressed_raises_nothing() {
    let mut apu = with_pulse1();
    apu.write(0x4017, 0x40);
    assert!(apu.frame.suppress_irq);
    assert!(apu.run_to(29831).is_none());
    assert!(!apu.irq_requested);
    assert_eq!(apu.square1.length.remaining, 252);
}

#[test]
fn five_step_sequence_never_interrupts() {
    let mut apu = with_pulse1();
    apu.write(0x4017, 0x80);
    let whole = 1 + 7458 + 7456 + 7458 + 7458 + 7452;
    assert!(apu.run_to(2 * whole).is_none());
    assert!(!apu.irq_requested);
}

#[test]
fn catch_up_in_two_runs_equals_one_run() {
    let mut split = with_pulse1();
    let mut whole = with_pulse1();
    let a = split.run_to(10_000);
    let b = split.run_to(40_000);
    let c = whole.run_to(40_000);
    assert_eq!(a.is_some() || b.is_some(), c.is_some());
    assert!(c.is_some());
    assert_eq!(snapshot(&split), snapshot(&whole));
    assert_eq!(split.take_samples(), whole.take_samples());
}

#[test]
fn catch_up_split_at_an_event_equals_one_run() {
    let mut split = with_pulse1();
    let mut whole = with_pulse1();
    split.write(0x4002, 0xFD);
    whole.write(0x4002, 0xFD);
    split.run_to(7459);
    split.run_to(29830);
    split.run_to(29831);
    split.run_to(65_000);
    whole.run_to(65_000);
    assert_eq!(snapshot(&split), snapshot(&whole));
}

#[test]
fn clearing_enable_bits_clears_status_bits() {
    let mut apu = APU::new(44100);
    apu.write(0x4015, 0x0F);
    apu.write(0x4003, 0x08);
    apu.write(0x4007, 0x08);
    apu.write(0x400B, 0x08);
    apu.write(0x400F, 0x08);
    let (_, status) = apu.read_status(1);
    assert_eq!(status, 0x0F);
    apu.write(0x4015, 0x05);
    assert_eq!(apu.square2.length.remaining, 0);
    assert_eq!(apu.noise.length.remaining, 0);
    assert_eq!(apu.square1.length.remaining, 254);
    let (_, status) = apu.read_status(2);
    assert_eq!(status, 0x05);
}

#[test]
fn five_step_write_clocks_at_once() {
    let mut apu = with_pulse1();
    apu.write(0x4017, 0x80);
    assert!(apu.frame.five_step);
    assert!(!apu.square1.envelope.start);
    assert_eq!(apu.square1.envelope.decay, 15);
    assert_eq!(apu.square1.length.remaining, 253);
    assert_eq!(apu.tick, 0);
    assert_eq!(apu.requested_run_cycle(), 1);
}

#[test]
fn four_step_write_clocks_nothing() {
    let mut apu = with_pulse1();
    apu.run_to(100);
    apu.write(0x4017, 0x00);
    assert!(apu.square1.envelope.start);
    assert_eq!(apu.square1.length.remaining, 254);
    assert_eq!(apu.requested_run_cycle(), 100 + 7459);
}

#[test]
fn mode_write_on_odd_cycle_waits_one_cycle() {
    let mut apu = with_pulse1();
    apu.run_to(101);
    apu.write(0x4017, 0xC0);
    assert!(!apu.frame.five_step);
    assert!(!apu.frame.suppress_irq);
    assert_eq!(apu.requested_run_cycle(), 7459);
    assert!(matches!(apu.jitter, Jitter::Delay(102, 0xC0)));
    assert!(apu.square1.envelope.start);
    apu.run_to(102);
    assert!(apu.frame.five_step);
    assert!(apu.frame.suppress_irq);
    assert!(matches!(apu.jitter, Jitter::Idle));
    assert_eq!(apu.requested_run_cycle(), 103);
    assert_eq!(apu.square1.length.remaining, 253);
}

#[test]
fn mode_write_on_even_cycle_is_immediate() {
    let mut apu = with_pulse1();
    apu.run_to(100);
    apu.write(0x4017, 0x80);
    assert!(apu.frame.five_step);
    assert!(matches!(apu.jitter, Jitter::Idle));
    assert_eq!(apu.requested_run_cycle(), 101);
}

#[test]
fn suppressing_clears_pending_interrupt() {
    let mut apu = APU::new(44100);
    assert!(apu.run_to(29832).is_some());
    assert!(apu.irq_requested);
    apu.write(0x4017, 0x40);
    assert!(!apu.irq_requested);
    let (irq, status) = apu.read_status(29833);
    assert!(irq.is_none());
    assert_eq!(status & 0x40, 0);
}

#[test]
fn status_read_shows_and_clears_interrupt() {
    let mut apu = APU::new(44100);
    assert!(apu.run_to(29831).is_some());
    let (irq, status) = apu.read_status(29832);
    assert!(irq.is_none());
    assert_eq!(status, 0x40);
    assert!(!apu.irq_requested);
    let (_, status) = apu.read_status(29833);
    assert_eq!(status, 0x00);
}

#[test]
fn status_read_sees_the_cycle_before() {
    let mut apu = APU::new(44100);
    let (irq, status) = apu.read_status(29831);
    assert!(irq.is_some());
    assert_eq!(status, 0x00);
    assert!(apu.irq_requested);
    assert_eq!(apu.global_cyc, 29831);
}

#[test]
fn length_load_makes_channel_active() {
    let mut apu = APU::new(44100);
    apu.write(0x4015, 0x01);
    let (_, status) = apu.read_status(1);
    assert_eq!(status & 1, 0);
    apu.write(0x4003, 0x00);
    assert_eq!(apu.square1.length.active(), 1);
    assert_eq!(apu.square1.length.remaining, 10);
    let (_, status) = apu.read_status(2);
    assert_eq!(status & 1, 1);
    apu.run_to(14914);
    assert_eq!(apu.square1.length.remaining, 10);
    apu.run_to(14915);
    assert_eq!(apu.square1.length.remaining, 9);
    apu.run_to(149_150);
    assert_eq!(apu.square1.length.remaining, 1);
    apu.run_to(149_151);
    assert_eq!(apu.square1.length.remaining, 0);
    let (_, status) = apu.read_status(149_152);
    assert_eq!(status & 1, 0);
}

#[test]
fn length_load_is_ignored_while_disabled() {
    let mut apu = APU::new(44100);
    apu.write(0x4003, 0x00);
    assert_eq!(apu.square1.length.active(), 0);
    let (_, status) = apu.read_status(1);
    assert_eq!(status & 1, 0);
}

#[test]
fn unused_registers_change_nothing() {
    let mut apu = with_pulse1();
    let before = snapshot(&apu);
    apu.write(0x4014, 0xFF);
    apu.write(0x4016, 0xFF);
    apu.write(0x4018, 0xFF);
    apu.write(0x401F, 0xFF);
    assert_eq!(snapshot(&apu), before);
}

#[test]
fn addresses_are_taken_modulo_0x20() {
    let mut a = APU::new(44100);
    let mut b = APU::new(44100);
    a.write(0x4015, 0x0F);
    b.write(0x0015, 0x0F);
    a.write(0x400F, 0x18);
    b.write(0x002F, 0x18);
    assert_eq!(snapshot(&a), snapshot(&b));
    assert_eq!(a.noise.length.remaining, 2);
}

#[test]
fn dmc_registers_are_accepted_and_silent() {
    let mut apu = APU::new(44100);
    apu.write(0x4010, 0x11);
    apu.write(0x4013, 0x44);
    assert_eq!(apu.dmc.regs, (0x11, 0, 0, 0x44));
    let (_, status) = apu.read_status(1);
    assert_eq!(status, 0);
}

#[test]
fn frame_register_bits() {
    let f = Frame::from_bits_truncate(0xFF);
    assert!(f.five_step && f.suppress_irq);
    assert_eq!(f.mode(), 1);
    let f = Frame::from_bits_truncate(0x3F);
    assert!(!f.five_step && !f.suppress_irq);
    assert_eq!(f.mode(), 0);
    let f = Frame::from_bits_truncate(0x40);
    assert!(!f.five_step && f.suppress_irq);
    assert_eq!(Frame::empty().mode(), 0);
}

#[test]
fn blocks_are_transferred_on_schedule() {
    let mut apu = APU::new(44100);
    apu.write(0x4015, 0x01);
    apu.write(0x4000, 0xBF);
    apu.write(0x4002, 0xFD);
    apu.write(0x4003, 0x08);
    apu.run_to(29829);
    assert!(apu.take_samples().is_empty());
    apu.run_to(29830);
    assert_eq!(apu.last_frame_cyc, 29830);
    assert_eq!(apu.next_transfer_cyc, 29830 + 29830);
    let samples = apu.take_samples();
    assert_eq!(samples.len(), 735);
    assert_eq!(samples[0], 30 * 128);
    assert!(samples.iter().any(|s| *s == 15 * 128));
    assert!(samples.iter().all(|s| *s == 30 * 128 || *s == 15 * 128));
    assert!(apu.take_samples().is_empty());
}

#[test]
fn four_step_schedule_follows_table() {
    let mut apu = APU::new(44100);
    let mut stops = Vec::new();
    for _ in 0..6 {
        let at = apu.requested_run_cycle();
        stops.push(at);
        apu.run_to(at);
    }
    assert_eq!(stops, vec![7459, 14915, 22373, 29831, 37289, 44745]);
}

#[test]
fn five_step_schedule_follows_table() {
    let mut apu = APU::new(44100);
    apu.write(0x4017, 0x80);
    let mut stops = Vec::new();
    for _ in 0..8 {
        let at = apu.requested_run_cycle();
        stops.push(at);
        apu.run_to(at);
    }
    assert_eq!(stops, vec![1, 7459, 14915, 22373, 29831, 37283, 44741, 52197]);
}

#[test]
fn taking_samples_empties_the_output() {
    let mut apu = APU::new(44100);
    apu.run_to(60_000);
    let first = apu.take_samples();
    assert_eq!(first.len(), 2 * 735);
    assert!(first.iter().all(|s| *s == 15 * 128));
    assert!(apu.take_samples().is_empty());
    assert_eq!(apu.global_cyc, 60_000);
}

#[test]
fn validity_is_checked() {
    let mut apu = APU::new(44100);
    assert!(apu.valid());
    apu.run_to(12_345);
    apu.write(0x4017, 0x80);
    assert!(apu.valid());
    apu.run_to(100_000);
    assert!(apu.valid());
    apu.next_tick_cyc = 5;
    assert!(!apu.valid());
    let mut apu = APU::new(44100);
    apu.tick = 4;
    assert!(!apu.valid());
    apu.frame.five_step = true;
    assert!(apu.valid());
}

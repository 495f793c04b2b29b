use nes_apu::buffer::SampleBuffer;
use nes_apu::components::{length_lookup, Envelope, Length};
use nes_apu::dmc::DMC;
use nes_apu::noise::Noise;
use nes_apu::square::Square;
use nes_apu::triangle::Triangle;

#[test]
fn length_table_values() {
    let expected: [u8; 32] = [
        10, 254, 20, 2, 40, 4, 80, 6, 160, 8, 60, 10, 14, 12, 26, 14, 12, 16, 24, 18, 48, 20, 96,
        22, 192, 24, 72, 26, 16, 28, 32, 30,
    ];
    for code in 0..32u8 {
        assert_eq!(length_lookup(code), expected[code as usize]);
    }
}

#[test]
fn length_counter_counts_down_and_stops() {
    let mut l = Length::new();
    l.set_enable(true);
    assert_eq!(l.active(), 0);
    l.load(3);
    assert_eq!(l.remaining, 2);
    assert_eq!(l.active(), 1);
    l.tick();
    assert_eq!(l.remaining, 1);
    l.tick();
    assert_eq!(l.active(), 0);
    l.tick();
    assert_eq!(l.remaining, 0);
}

#[test]
fn length_counter_halt_holds_value() {
    let mut l = Length::new();
    l.set_enable(true);
    l.load(0);
    l.set_halt(true);
    l.tick();
    l.tick();
    assert_eq!(l.remaining, 10);
}

#[test]
fn length_counter_disable_zeroes() {
    let mut l = Length::new();
    l.set_enable(true);
    l.load(1);
    assert_eq!(l.remaining, 254);
    l.set_enable(false);
    assert_eq!(l.remaining, 0);
    l.load(1);
    assert_eq!(l.remaining, 0);
    l.set_enable(true);
    assert_eq!(l.remaining, 0);
}

#[test]
fn envelope_decays_and_loops() {
    let mut e = Envelope::new();
    e.write(0x21);
    assert!(e.looping && !e.constant);
    assert_eq!(e.period, 1);
    e.restart();
    e.tick();
    assert_eq!(e.volume(), 15);
    e.tick();
    assert_eq!(e.volume(), 15);
    e.tick();
    assert_eq!(e.volume(), 14);
    for _ in 0..28 {
        e.tick();
    }
    assert_eq!(e.volume(), 0);
    e.tick();
    e.tick();
    assert_eq!(e.volume(), 15);
}

#[test]
fn envelope_constant_volume() {
    let mut e = Envelope::new();
    e.write(0x17);
    assert!(e.constant && !e.looping);
    assert_eq!(e.volume(), 7);
    e.restart();
    e.tick();
    assert_eq!(e.volume(), 7);
}

#[test]
fn envelope_without_loop_stays_at_zero() {
    let mut e = Envelope::new();
    e.write(0x00);
    e.restart();
    for _ in 0..40 {
        e.tick();
    }
    assert_eq!(e.volume(), 0);
}

#[test]
fn buffer_rates() {
    assert_eq!(SampleBuffer::new(44100).clocks_needed(), 29830);
    assert_eq!(SampleBuffer::new(48000).clocks_needed(), 29830);
    assert_eq!(SampleBuffer::new(1_789_773).clocks_needed(), 29829);
    assert_eq!(SampleBuffer::new(0).clocks_needed(), 4_294_967_296);
}

#[test]
fn buffer_turns_deltas_into_samples() {
    let mut b = SampleBuffer::new(1_789_773);
    b.add_delta(0, 5);
    b.add_delta(2, -5);
    b.add_delta(3, 2);
    b.add_delta(10, 7);
    b.end_frame(4);
    assert_eq!(b.read(), vec![640, 640, 0, 256]);
    assert_eq!(b.clocks_needed(), 29829);
    b.end_frame(7);
    assert_eq!(b.read(), vec![256, 256, 256, 256, 256, 256, 1152]);
    b.end_frame(0);
    assert!(b.read().is_empty());
}

#[test]
fn buffer_clamps_samples() {
    let mut b = SampleBuffer::new(1_789_773);
    b.add_delta(0, 1000);
    b.add_delta(1, -2000);
    b.end_frame(2);
    assert_eq!(b.read(), vec![i16::MAX, i16::MIN]);
}

#[test]
fn buffer_drops_deltas_beyond_its_block() {
    let mut b = SampleBuffer::new(60);
    b.add_delta(u64::MAX, 9);
    let needed = b.clocks_needed();
    assert_eq!(needed, 29830);
    b.end_frame(needed);
    assert_eq!(b.read(), vec![0]);
    assert_eq!(b.clocks_needed(), 29829);
}

#[test]
fn buffer_resamples_with_the_rate() {
    let mut b = SampleBuffer::new(44100);
    b.add_delta(0, 1);
    b.add_delta(41, 1);
    b.add_delta(29829, 1);
    b.end_frame(29830);
    let s = b.read();
    assert_eq!(s.len(), 735);
    assert_eq!(s[0], 128);
    assert_eq!(s[1], 256);
    assert_eq!(s[733], 256);
    assert_eq!(s[734], 384);
}

#[test]
fn square_registers() {
    let mut s = Square::new(false);
    s.length.set_enable(true);
    s.write(0, 0xBF);
    assert_eq!(s.duty, 2);
    assert!(s.length.halt);
    assert!(s.envelope.constant);
    assert_eq!(s.envelope.period, 15);
    s.write(1, 0xAB);
    assert!(s.sweep.enabled && s.sweep.negate && s.sweep.reload);
    assert_eq!(s.sweep.period, 2);
    assert_eq!(s.sweep.shift, 3);
    s.write(2, 0xFD);
    assert_eq!(s.timer_period, 0x0FD);
    s.phase = 5;
    s.write(3, 0x0A);
    assert_eq!(s.timer_period, 0x2FD);
    assert_eq!(s.length.remaining, 254);
    assert_eq!(s.phase, 0);
    assert!(s.envelope.start);
    s.write(2, 0x01);
    assert_eq!(s.timer_period, 0x201);
}

#[test]
fn square_sweep_negation_differs_between_channels() {
    let mut first = Square::new(false);
    let mut second = Square::new(true);
    for s in [&mut first, &mut second] {
        s.write(2, 0x00);
        s.write(3, 0x01);
        s.write(1, 0x89);
        s.length_tick();
    }
    assert_eq!(first.timer_period, 0x100 - 0x80 - 1);
    assert_eq!(second.timer_period, 0x100 - 0x80);
    assert!(!first.sweep.reload);
    assert_eq!(first.sweep.divider, 0);
}

#[test]
fn square_sweep_up_and_mute() {
    let mut s = Square::new(false);
    s.write(2, 0x00);
    s.write(3, 0x04);
    s.write(1, 0x81);
    s.length_tick();
    assert_eq!(s.timer_period, 0x600);
    s.length_tick();
    assert_eq!(s.timer_period, 0x600);
}

#[test]
fn square_wave_follows_duty() {
    let mut s = Square::new(false);
    let mut b = SampleBuffer::new(1_789_773);
    s.length.set_enable(true);
    s.write(0, 0x3A);
    s.write(2, 0x08);
    s.write(3, 0x00);
    s.play(0, 18 * 8, &mut b);
    b.end_frame(18 * 8);
    let samples = b.read();
    assert_eq!(samples.len(), 144);
    assert_eq!(s.phase, 0);
    let high = samples.iter().filter(|v| **v == 10 * 128).count();
    let low = samples.iter().filter(|v| **v == 0).count();
    assert_eq!(high, 18);
    assert_eq!(low, 126);
    assert_eq!(samples[0], 0);
    assert_eq!(samples[1], 1280);
    assert_eq!(samples[18], 1280);
    assert_eq!(samples[19], 0);
    assert_eq!(samples[143], 0);
}

#[test]
fn square_play_in_parts_equals_whole() {
    let mut a = Square::new(true);
    let mut b = Square::new(true);
    let mut ba = SampleBuffer::new(44100);
    let mut bb = SampleBuffer::new(44100);
    for s in [&mut a, &mut b] {
        s.length.set_enable(true);
        s.write(0, 0x7F);
        s.write(2, 0x40);
        s.write(3, 0x00);
    }
    a.play(0, 1000, &mut ba);
    a.play(1000, 5000, &mut ba);
    b.play(0, 5000, &mut bb);
    assert_eq!(format!("{:?}", a), format!("{:?}", b));
    ba.end_frame(5000);
    bb.end_frame(5000);
    assert_eq!(ba.read(), bb.read());
}

#[test]
fn square_is_silent_until_loaded() {
    let mut s = Square::new(false);
    let mut b = SampleBuffer::new(1_789_773);
    s.length.set_enable(true);
    s.write(0, 0xBF);
    s.write(2, 0x40);
    s.play(0, 500, &mut b);
    b.end_frame(500);
    assert!(b.read().iter().all(|v| *v == 0));
}

#[test]
fn triangle_registers_and_linear_counter() {
    let mut t = Triangle::new();
    t.length.set_enable(true);
    t.write(0x08, 0x85);
    assert!(t.control && t.length.halt);
    assert_eq!(t.reload_value, 5);
    t.write(0x0A, 0x34);
    t.write(0x0B, 0x0A);
    assert_eq!(t.timer_period, 0x234);
    assert_eq!(t.length.remaining, 254);
    assert!(t.reload);
    t.envelope_tick();
    assert_eq!(t.linear, 5);
    assert!(t.reload);
    t.write(0x08, 0x05);
    t.envelope_tick();
    assert_eq!(t.linear, 5);
    assert!(!t.reload);
    t.envelope_tick();
    assert_eq!(t.linear, 4);
    t.length_tick();
    assert_eq!(t.length.remaining, 253);
}

#[test]
fn triangle_walks_its_staircase() {
    let mut t = Triangle::new();
    let mut b = SampleBuffer::new(1_789_773);
    t.length.set_enable(true);
    t.write(0x08, 0xFF);
    t.write(0x0A, 0x00);
    t.write(0x0B, 0x00);
    t.envelope_tick();
    t.play(0, 34, &mut b);
    b.end_frame(34);
    let samples = b.read();
    let expected: Vec<i16> = (0..34)
        .map(|i: i16| {
            let s = (i + 1) % 32;
            (if s < 16 { 15 - s } else { s - 16 }) * 128
        })
        .collect();
    assert_eq!(samples, expected);
}

#[test]
fn triangle_holds_without_linear_counter() {
    let mut t = Triangle::new();
    let mut b = SampleBuffer::new(1_789_773);
    t.length.set_enable(true);
    t.write(0x0B, 0x00);
    t.play(0, 10, &mut b);
    assert_eq!(t.step, 0);
    b.end_frame(10);
    assert_eq!(b.read(), vec![15 * 128; 10]);
}

#[test]
fn noise_registers() {
    let mut n = Noise::new();
    n.length.set_enable(true);
    n.write(0x0C, 0x3C);
    assert!(n.length.halt && n.envelope.constant);
    assert_eq!(n.envelope.period, 12);
    n.write(0x0E, 0x8F);
    assert!(n.short);
    assert_eq!(n.period, 15);
    n.write(0x0F, 0x18);
    assert_eq!(n.length.remaining, 2);
    assert!(n.envelope.start);
    n.length_tick();
    assert_eq!(n.length.remaining, 2);
    n.envelope_tick();
    assert!(!n.envelope.start);
}

#[test]
fn noise_shift_register_steps() {
    let mut n = Noise::new();
    let mut b = SampleBuffer::new(1_789_773);
    assert_eq!(n.register, 1);
    n.play(0, 1, &mut b);
    assert_eq!(n.register, 16384);
    assert_eq!(n.timer, 4);
    n.play(1, 5, &mut b);
    assert_eq!(n.register, 16384);
    n.play(5, 6, &mut b);
    assert_eq!(n.register, 8192);
    let mut short = Noise::new();
    short.write(0x0E, 0x80);
    short.register = 0x40;
    short.play(0, 1, &mut b);
    assert_eq!(short.register, 0x20 + 16384);
    let mut long = Noise::new();
    long.register = 0x40;
    long.play(0, 1, &mut b);
    assert_eq!(long.register, 0x20);
}

#[test]
fn noise_output_follows_register() {
    let mut n = Noise::new();
    let mut b = SampleBuffer::new(1_789_773);
    n.length.set_enable(true);
    n.write(0x0C, 0x19);
    n.write(0x0F, 0x00);
    n.play(0, 3, &mut b);
    b.end_frame(3);
    assert_eq!(b.read(), vec![9 * 128; 3]);
}

#[test]
fn dmc_latches_and_plays_nothing() {
    let mut d = DMC::new();
    let mut b = SampleBuffer::new(1_789_773);
    d.write(0x10, 1);
    d.write(0x11, 2);
    d.write(0x12, 3);
    d.write(0x13, 4);
    assert_eq!(d.regs, (1, 2, 3, 4));
    d.play(0, 100, &mut b);
    b.end_frame(100);
    assert_eq!(b.read(), vec![0; 100]);
}

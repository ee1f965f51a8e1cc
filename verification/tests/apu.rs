use nes_core::apu::channels::{
    DMC_RATE_TABLE, DUTY_TABLE, LENGTH_TABLE, NOISE_PERIOD_TABLE, TRIANGLE_TABLE,
};
use nes_core::apu::{Apu, DmcChannel, Envelope, NoiseChannel, PulseChannel, TriangleChannel};

fn clocks(apu: &mut Apu, n: u32) {
    for _ in 0..n {
        apu.clock();
    }
}

#[test]
fn tables() {
    assert_eq!(LENGTH_TABLE[0], 10);
    assert_eq!(LENGTH_TABLE[1], 254);
    assert_eq!(LENGTH_TABLE[31], 30);
    assert_eq!(NOISE_PERIOD_TABLE[0], 4);
    assert_eq!(NOISE_PERIOD_TABLE[15], 4068);
    assert_eq!(DMC_RATE_TABLE[0], 428);
    assert_eq!(DMC_RATE_TABLE[15], 54);
    assert_eq!(TRIANGLE_TABLE[0], 15);
    assert_eq!(TRIANGLE_TABLE[15], 0);
    assert_eq!(TRIANGLE_TABLE[16], 0);
    assert_eq!(TRIANGLE_TABLE[31], 15);
    assert_eq!(DUTY_TABLE[0], [0, 0, 0, 0, 0, 0, 0, 1]);
    assert_eq!(DUTY_TABLE[3], [1, 1, 1, 1, 1, 1, 0, 0]);
}

#[test]
fn power_on_is_silent() {
    let apu = Apu::new();
    assert_eq!(apu.pulse1.channel, 1);
    assert_eq!(apu.pulse2.channel, 2);
    assert_eq!(apu.noise.shift_register, 1);
    assert_eq!(apu.dmc.timer_period, 428);
    assert_eq!(apu.dmc.bits_remaining, 8);
    assert!(apu.dmc.sample_buffer_empty && apu.dmc.silence);
    assert_eq!(apu.dmc_read_request, None);
    assert_eq!(
        (
            apu.pulse1.output(),
            apu.pulse2.output(),
            apu.triangle.output(),
            apu.noise.output(),
            apu.dmc.output()
        ),
        (0, 0, 0, 0, 0)
    );
    assert!(!apu.check_irq());
}

#[test]
fn envelope_decays_and_loops() {
    let mut e = Envelope::new();
    e.write(0x02);
    assert!(e.enabled && !e.loop_flag);
    assert_eq!((e.period, e.constant_volume), (2, 2));
    e.start = true;
    e.clock();
    assert_eq!((e.start, e.decay, e.divider), (false, 15, 2));
    e.clock();
    e.clock();
    assert_eq!((e.decay, e.divider), (15, 0));
    e.clock();
    assert_eq!((e.decay, e.divider), (14, 2));
    assert_eq!(e.output(), 14);
    e.decay = 0;
    e.divider = 0;
    e.clock();
    assert_eq!(e.decay, 0);
    e.write(0x22);
    e.divider = 0;
    e.clock();
    assert_eq!(e.decay, 15);
    // constant volume
    e.write(0x17);
    assert!(!e.enabled);
    assert_eq!(e.output(), 7);
}

#[test]
fn pulse_register_writes() {
    let mut p = PulseChannel::new(1);
    p.write_ctrl(0xBF);
    assert_eq!(p.duty, 2);
    assert!(p.length_halt);
    assert!(p.envelope.loop_flag && !p.envelope.enabled);
    assert_eq!((p.envelope.period, p.envelope.constant_volume), (15, 15));
    p.write_sweep(0xAB);
    assert!(p.sweep_enabled && p.sweep_negate && p.sweep_reload);
    assert_eq!((p.sweep_period, p.sweep_shift), (2, 3));
    p.write_timer_lo(0x34);
    p.write_length(0x0A);
    assert_eq!(p.timer_period, 0x0234);
    // not enabled: the length counter is not loaded
    assert_eq!(p.length_counter, 0);
    assert!(p.envelope.start);
    p.set_enabled(true);
    p.duty_pos = 5;
    p.write_length(0x0F);
    assert_eq!(p.timer_period, 0x0734);
    assert_eq!(p.length_counter, 254);
    assert_eq!(p.duty_pos, 0);
    p.set_enabled(false);
    assert_eq!(p.length_counter, 0);
}

#[test]
fn pulse_sweep_target_differs_between_the_channels() {
    let mut first = PulseChannel::new(1);
    let mut second = PulseChannel::new(2);
    for p in [&mut first, &mut second] {
        p.timer_period = 0x100;
        p.sweep_shift = 1;
    }
    assert_eq!(first.sweep_target_period(), 0x180);
    assert_eq!(second.sweep_target_period(), 0x180);
    first.sweep_negate = true;
    second.sweep_negate = true;
    assert_eq!(first.sweep_target_period(), 0x7F);
    assert_eq!(second.sweep_target_period(), 0x80);
}

#[test]
fn pulse_is_muted_by_short_periods_and_high_targets() {
    let mut p = PulseChannel::new(1);
    p.timer_period = 7;
    assert!(p.is_muted());
    p.timer_period = 8;
    assert!(!p.is_muted());
    p.timer_period = 0x400;
    p.sweep_shift = 0;
    assert!(p.is_muted());
    p.sweep_shift = 1;
    assert!(!p.is_muted());
    p.timer_period = 0x600;
    assert!(p.is_muted());
    p.sweep_negate = true;
    assert!(!p.is_muted());
}

#[test]
fn pulse_sweep_writes_the_target_back() {
    let mut p = PulseChannel::new(2);
    p.timer_period = 0x100;
    p.write_sweep(0x91);
    // the first tick only reloads the divider: it is zero, so the period moves too
    p.clock_sweep();
    assert_eq!(p.timer_period, 0x180);
    assert_eq!(p.sweep_divider, 1);
    assert!(!p.sweep_reload);
    p.clock_sweep();
    assert_eq!((p.timer_period, p.sweep_divider), (0x180, 0));
    p.clock_sweep();
    assert_eq!((p.timer_period, p.sweep_divider), (0x240, 1));
    // a disabled sweep leaves the period alone
    p.write_sweep(0x11);
    p.sweep_divider = 0;
    p.clock_sweep();
    assert_eq!(p.timer_period, 0x240);
    // so does a target above 0x7FF
    p.timer_period = 0x600;
    p.write_sweep(0x91);
    p.sweep_divider = 0;
    p.clock_sweep();
    assert_eq!(p.timer_period, 0x600);
}

#[test]
fn pulse_output_follows_duty_and_envelope() {
    let mut p = PulseChannel::new(1);
    p.set_enabled(true);
    p.write_ctrl(0x9A);
    p.write_timer_lo(0x10);
    p.write_length(0x08);
    assert_eq!(p.length_counter, 254);
    // duty 2 is 0 0 0 0 1 1 1 1
    let mut levels = Vec::new();
    for _ in 0..8 {
        levels.push(p.output());
        p.timer_value = 0;
        p.clock_timer();
    }
    assert_eq!(levels, vec![0, 0, 0, 0, 10, 10, 10, 10]);
    assert_eq!(p.duty_pos, 0);
    assert_eq!(p.timer_value, 0x10);
    p.clock_timer();
    assert_eq!((p.timer_value, p.duty_pos), (0x0F, 0));
    p.duty_pos = 4;
    p.length_counter = 0;
    assert_eq!(p.output(), 0);
    p.length_counter = 1;
    assert_eq!(p.output(), 10);
    p.timer_period = 7;
    assert_eq!(p.output(), 0);
}

#[test]
fn length_counters_count_unless_halted() {
    let mut p = PulseChannel::new(1);
    p.length_counter = 2;
    p.clock_length();
    p.clock_length();
    p.clock_length();
    assert_eq!(p.length_counter, 0);
    p.length_counter = 2;
    p.length_halt = true;
    p.clock_length();
    assert_eq!(p.length_counter, 2);
}

#[test]
fn triangle_channel() {
    let mut t = TriangleChannel::new();
    t.set_enabled(true);
    t.write_ctrl(0x85);
    assert!(t.length_halt);
    assert_eq!(t.linear_counter_reload, 5);
    t.write_timer_lo(0x02);
    t.write_length(0x08);
    assert_eq!(t.timer_period, 2);
    assert_eq!(t.length_counter, 254);
    assert!(t.linear_counter_reload_flag);
    // nothing moves while the linear counter is zero
    t.clock_timer();
    assert_eq!((t.sequence_pos, t.timer_value), (0, 2));
    assert_eq!(t.output(), 0);
    t.clock_linear_counter();
    assert_eq!(t.linear_counter, 5);
    // the control flag keeps the reload flag
    assert!(t.linear_counter_reload_flag);
    assert_eq!(t.output(), 15);
    t.timer_value = 0;
    t.clock_timer();
    assert_eq!(t.sequence_pos, 1);
    assert_eq!(t.output(), 14);
    t.sequence_pos = 31;
    t.timer_value = 0;
    t.clock_timer();
    assert_eq!(t.sequence_pos, 0);
    t.write_ctrl(0x05);
    t.clock_linear_counter();
    assert!(!t.linear_counter_reload_flag);
    assert_eq!(t.linear_counter, 5);
    t.clock_linear_counter();
    assert_eq!(t.linear_counter, 4);
    t.linear_counter = 0;
    t.clock_linear_counter();
    assert_eq!(t.linear_counter, 0);
    // periods below 2 are silent
    t.linear_counter = 1;
    t.timer_period = 1;
    assert_eq!(t.output(), 0);
}

#[test]
fn noise_register_writes() {
    let mut n = NoiseChannel::new();
    n.write_mode(0x8F);
    assert!(n.mode);
    assert_eq!(n.timer_period, 4068);
    n.write_mode(0x03);
    assert!(!n.mode);
    assert_eq!(n.timer_period, 32);
    n.write_ctrl(0x3F);
    assert!(n.length_halt && n.envelope.loop_flag && !n.envelope.enabled);
    n.write_length(0xF8);
    assert_eq!(n.length_counter, 0);
    n.set_enabled(true);
    n.write_length(0xF8);
    assert_eq!(n.length_counter, 30);
    assert!(n.envelope.start);
}

#[test]
fn noise_shift_register_steps() {
    let mut n = NoiseChannel::new();
    // from 1: bit 0 xor bit 1 is 1, which enters at bit 14
    n.clock_timer();
    assert_eq!(n.shift_register, 0x4000);
    n.timer_value = 0;
    n.clock_timer();
    assert_eq!(n.shift_register, 0x2000);
    assert_eq!(n.timer_value, 0);
    n.timer_period = 3;
    n.clock_timer();
    assert_eq!(n.timer_value, 3);
    n.clock_timer();
    assert_eq!((n.timer_value, n.shift_register), (2, 0x1000));
    // short mode taps bit 6
    n.mode = true;
    n.shift_register = 0x0040;
    n.timer_value = 0;
    n.clock_timer();
    assert_eq!(n.shift_register, 0x4020);
}

#[test]
fn noise_shift_register_never_becomes_zero() {
    for mode in [false, true] {
        let mut n = NoiseChannel::new();
        n.mode = mode;
        let mut seen_one_again = 0u32;
        for i in 0..70000u32 {
            n.timer_value = 0;
            n.clock_timer();
            assert_ne!(n.shift_register, 0, "step {}", i);
            assert!(n.shift_register < 0x8000);
            if n.shift_register == 1 {
                seen_one_again = i + 1;
                break;
            }
        }
        // the long sequence has 32767 steps, the short one 93
        assert_eq!(seen_one_again, if mode { 93 } else { 32767 });
    }
}

#[test]
fn noise_output() {
    let mut n = NoiseChannel::new();
    n.set_enabled(true);
    n.write_ctrl(0x19);
    n.write_length(0x08);
    // bit 0 of the shift register is set: silent
    assert_eq!(n.output(), 0);
    n.shift_register = 0x4000;
    assert_eq!(n.output(), 9);
    n.length_counter = 0;
    assert_eq!(n.output(), 0);
}

#[test]
fn dmc_register_writes() {
    let mut d = DmcChannel::new();
    d.irq_flag = true;
    d.write_ctrl(0xCF);
    assert!(d.irq_enabled && d.loop_flag && d.irq_flag);
    assert_eq!((d.rate_index, d.timer_period), (15, 54));
    d.write_ctrl(0x03);
    assert!(!d.irq_enabled && !d.loop_flag && !d.irq_flag);
    assert_eq!(d.timer_period, 320);
    d.write_direct_load(0xFF);
    assert_eq!(d.output(), 0x7F);
    d.write_direct_load(0x45);
    assert_eq!(d.output(), 0x45);
    d.write_sample_addr(0x00);
    assert_eq!(d.sample_address, 0xC000);
    d.write_sample_addr(0xFF);
    assert_eq!(d.sample_address, 0xFFC0);
    d.write_sample_length(0x00);
    assert_eq!(d.sample_length, 1);
    d.write_sample_length(0xFF);
    assert_eq!(d.sample_length, 4081);
    d.restart();
    assert_eq!((d.current_address, d.bytes_remaining), (0xFFC0, 4081));
}

#[test]
fn dmc_level_stays_within_seven_bits() {
    let mut d = DmcChannel::new();
    d.silence = false;
    // ones move the level up by two, not beyond 127
    for (from, to) in [(0u8, 2u8), (124, 126), (125, 127), (126, 126), (127, 127)] {
        d.output_level = from;
        d.shift_register = 0xFF;
        d.bits_remaining = 8;
        d.timer_value = 0;
        d.tick();
        assert_eq!(d.output_level, to);
    }
    // zeros move it down by two, not below 0
    for (from, to) in [(127u8, 125u8), (3, 1), (2, 0), (1, 1), (0, 0)] {
        d.output_level = from;
        d.shift_register = 0x00;
        d.bits_remaining = 8;
        d.timer_value = 0;
        d.tick();
        assert_eq!(d.output_level, to);
    }
    // in silence it stands still
    d.silence = true;
    d.output_level = 64;
    d.shift_register = 0xFF;
    d.timer_value = 0;
    d.tick();
    assert_eq!(d.output_level, 64);
}

#[test]
fn dmc_level_stays_within_seven_bits_while_playing() {
    let mut apu = Apu::new();
    apu.cpu_write(0x4010, 0x4F);
    apu.cpu_write(0x4012, 0x00);
    apu.cpu_write(0x4013, 0x01);
    apu.cpu_write(0x4011, 0x7E);
    apu.cpu_write(0x4015, 0x10);
    apu.dmc_provide_sample(0xFF);
    for _ in 0..200_000 {
        apu.clock();
        if apu.dmc_read_request.is_some() {
            apu.dmc_provide_sample(0xFF);
        }
        assert!(apu.dmc.output_level <= 127);
        assert_ne!(apu.noise.shift_register, 0);
    }
    assert_eq!(apu.dmc.output_level, 126);
}

#[test]
fn dmc_timer_and_output_cycle() {
    let mut d = DmcChannel::new();
    d.timer_period = 3;
    d.timer_value = 2;
    assert!(!d.tick());
    assert!(!d.tick());
    assert_eq!((d.timer_value, d.bits_remaining), (0, 8));
    assert!(!d.tick());
    assert_eq!((d.timer_value, d.bits_remaining), (3, 7));
    // the last bit of an output cycle with an empty buffer: silence
    d.bits_remaining = 1;
    d.timer_value = 0;
    d.silence = false;
    assert!(!d.tick());
    assert_eq!(d.bits_remaining, 8);
    assert!(d.silence);
    // with a byte in the buffer: it is played next, and the next is asked for
    // if the sample has bytes left
    d.fill_buffer(0xA5);
    d.bytes_remaining = 0;
    d.bits_remaining = 1;
    d.timer_value = 0;
    assert!(!d.tick());
    assert!(!d.silence && d.sample_buffer_empty);
    assert_eq!(d.shift_register, 0xA5);
    d.fill_buffer(0x5A);
    d.bytes_remaining = 2;
    d.bits_remaining = 1;
    d.timer_value = 0;
    assert!(d.tick());
    assert_eq!(d.shift_register, 0x5A);
}

#[test]
fn dmc_fetch_moves_the_address_and_ends_the_sample() {
    let mut d = DmcChannel::new();
    d.current_address = 0xFFFF;
    d.bytes_remaining = 2;
    d.fetch();
    assert_eq!((d.current_address, d.bytes_remaining), (0x8000, 1));
    assert!(!d.irq_flag);
    // the last byte without loop and without interrupt
    d.fetch();
    assert_eq!((d.current_address, d.bytes_remaining), (0x8001, 0));
    assert!(!d.irq_flag);
    // with the interrupt enabled
    d.irq_enabled = true;
    d.bytes_remaining = 1;
    d.fetch();
    assert!(d.irq_flag);
    assert_eq!(d.bytes_remaining, 0);
    // with loop the sample starts over and no interrupt is raised
    d.irq_flag = false;
    d.loop_flag = true;
    d.sample_address = 0xC040;
    d.sample_length = 17;
    d.bytes_remaining = 1;
    d.fetch();
    assert_eq!((d.current_address, d.bytes_remaining), (0xC040, 17));
    assert!(!d.irq_flag);
}

#[test]
fn dmc_asks_for_its_next_byte_through_the_apu() {
    let mut apu = Apu::new();
    apu.cpu_write(0x4010, 0x8F);
    apu.cpu_write(0x4012, 0x00);
    apu.cpu_write(0x4013, 0x00);
    apu.cpu_write(0x4015, 0x10);
    assert_eq!(apu.dmc.bytes_remaining, 1);
    assert_eq!(apu.cpu_read() & 0x10, 0x10);
    apu.dmc_provide_sample(0xAA);
    // the timer fires on the first cycle and then every 55 APU cycles;
    // the eighth firing ends the output cycle
    clocks(&mut apu, 770);
    assert_eq!(apu.dmc_read_request, None);
    assert_eq!(apu.dmc.bits_remaining, 1);
    clocks(&mut apu, 1);
    assert_eq!(apu.dmc_read_request, Some(0xC000));
    assert_eq!(apu.dmc.current_address, 0xC001);
    assert_eq!(apu.dmc.bytes_remaining, 0);
    assert_eq!(apu.dmc.shift_register, 0xAA);
    assert!(apu.dmc.irq_flag);
    assert!(apu.check_irq());
    assert_eq!(apu.cpu_read() & 0x90, 0x80);
    apu.dmc_provide_sample(0x55);
    assert_eq!(apu.dmc_read_request, None);
    assert_eq!(apu.dmc.sample_buffer, 0x55);
    // a write to the status register withdraws the interrupt
    apu.cpu_write(0x4015, 0x00);
    assert!(!apu.check_irq());
}

#[test]
fn status_register() {
    let mut apu = Apu::new();
    assert_eq!(apu.cpu_read(), 0);
    apu.cpu_write(0x4015, 0x0F);
    apu.cpu_write(0x4003, 0x08);
    apu.cpu_write(0x4007, 0x08);
    apu.cpu_write(0x400B, 0x08);
    apu.cpu_write(0x400F, 0x08);
    assert_eq!(apu.cpu_read(), 0x0F);
    // switching a channel off clears its length counter
    apu.cpu_write(0x4015, 0x05);
    assert_eq!(apu.cpu_read(), 0x05);
    assert_eq!(apu.pulse2.length_counter, 0);
    assert_eq!(apu.noise.length_counter, 0);
    assert_eq!(apu.pulse1.length_counter, 254);
    // writes to addresses that are no registers change nothing
    apu.cpu_write(0x4009, 0xFF);
    apu.cpu_write(0x400D, 0xFF);
    apu.cpu_write(0x4014, 0xFF);
    apu.cpu_write(0x4016, 0xFF);
    assert_eq!(apu.cpu_read(), 0x05);
}

#[test]
fn frame_interrupt_in_four_step_mode() {
    let mut apu = Apu::new();
    clocks(&mut apu, 14914);
    assert!(!apu.check_irq());
    assert_eq!(apu.frame_value, 14914);
    clocks(&mut apu, 1);
    assert!(apu.check_irq());
    assert!(apu.frame_irq);
    assert_eq!(apu.frame_value, 0);
    // reading the status shows the interrupt and clears it
    assert_eq!(apu.cpu_read(), 0x40);
    assert!(!apu.check_irq());
    assert_eq!(apu.cpu_read(), 0x00);
}

#[test]
fn frame_interrupt_can_be_inhibited() {
    let mut apu = Apu::new();
    clocks(&mut apu, 14915);
    assert!(apu.frame_irq);
    apu.cpu_write(0x4017, 0x40);
    assert!(!apu.frame_irq);
    assert_eq!(apu.frame_value, 0);
    clocks(&mut apu, 14915 * 2);
    assert!(!apu.check_irq());
}

#[test]
fn five_step_mode_never_interrupts() {
    let mut apu = Apu::new();
    apu.cpu_write(0x4017, 0x80);
    assert!(apu.frame_mode);
    clocks(&mut apu, 18640);
    assert_eq!(apu.frame_value, 18640);
    clocks(&mut apu, 1);
    assert_eq!(apu.frame_value, 0);
    clocks(&mut apu, 40000);
    assert!(!apu.check_irq());
}

#[test]
fn frame_sequencer_clocks_lengths_and_envelopes() {
    let mut apu = Apu::new();
    apu.cpu_write(0x4015, 0x01);
    apu.cpu_write(0x4000, 0x03);
    apu.cpu_write(0x4003, 0x08);
    assert_eq!(apu.pulse1.length_counter, 254);
    assert!(apu.pulse1.envelope.start);
    clocks(&mut apu, 3728);
    assert!(apu.pulse1.envelope.start);
    clocks(&mut apu, 1);
    // the first quarter frame starts the envelope
    assert!(!apu.pulse1.envelope.start);
    assert_eq!(apu.pulse1.envelope.decay, 15);
    assert_eq!(apu.pulse1.length_counter, 254);
    clocks(&mut apu, 7457 - 3729);
    assert_eq!(apu.pulse1.length_counter, 253);
    clocks(&mut apu, 11186 - 7457);
    assert_eq!(apu.pulse1.length_counter, 253);
    clocks(&mut apu, 14915 - 11186);
    assert_eq!(apu.pulse1.length_counter, 252);
}

#[test]
fn five_step_write_clocks_a_half_frame_at_once() {
    let mut apu = Apu::new();
    apu.cpu_write(0x4015, 0x01);
    apu.cpu_write(0x4003, 0x08);
    apu.cpu_write(0x4017, 0x80);
    assert_eq!(apu.pulse1.length_counter, 253);
    assert!(!apu.pulse1.envelope.start);
    apu.cpu_write(0x4017, 0x00);
    assert_eq!(apu.pulse1.length_counter, 253);
}

#[test]
fn pulse_timers_run_on_every_second_cycle_and_the_triangle_on_every_one() {
    let mut apu = Apu::new();
    apu.cpu_write(0x4002, 0x64);
    apu.cpu_write(0x400A, 0x64);
    apu.pulse1.timer_value = 100;
    apu.triangle.timer_value = 100;
    clocks(&mut apu, 10);
    assert_eq!(apu.pulse1.timer_value, 95);
    assert_eq!(apu.triangle.timer_value, 90);
    assert_eq!(apu.cycle, 10);
}

#[test]
fn reset_silences_the_channels() {
    let mut apu = Apu::new();
    apu.cpu_write(0x4015, 0x1F);
    apu.cpu_write(0x4003, 0x08);
    apu.cpu_write(0x4011, 0x40);
    apu.cpu_write(0x4017, 0x80);
    clocks(&mut apu, 100);
    apu.reset();
    assert_eq!(apu.cpu_read(), 0);
    assert_eq!(apu.dmc.output_level, 0);
    assert_eq!(apu.noise.shift_register, 1);
    assert_eq!((apu.frame_value, apu.cycle), (0, 0));
    // the mode of the sequencer stays
    assert!(apu.frame_mode);
}

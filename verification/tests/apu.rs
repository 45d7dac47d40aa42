use nes_rust::apu::{Apu, ApuDmc, ApuNoise, ApuPulse, ApuPulseChannel, ApuTriangle};
use nes_rust::audio::Sample;
use nes_rust::default_audio::DefaultAudio;

#[test]
fn the_noise_register_is_never_zero() {
    let mut noise = ApuNoise::new();
    assert_eq!(1, noise.shift_register);
    noise.drive_timer();
    assert_eq!(0x4000, noise.shift_register);
    noise.drive_timer();
    assert_eq!(0x2000, noise.shift_register);
    for _ in 0..32765 {
        noise.drive_timer();
        assert!(0 < noise.shift_register && noise.shift_register < 0x8000);
    }
    // the long sequence comes round after 32767 clocks
    assert_eq!(1, noise.shift_register);
    noise.store_register(0x400E, 0x80);
    for _ in 0..1000 {
        noise.drive_timer();
        noise.drive_timer();
        noise.drive_timer();
        noise.drive_timer();
        noise.drive_timer();
        assert!(0 < noise.shift_register && noise.shift_register < 0x8000);
    }
}

#[test]
fn the_noise_timer_period_comes_from_the_table() {
    let mut noise = ApuNoise::new();
    noise.store_register(0x400E, 0x0F);
    assert_eq!(0xFE4, noise.timer_period);
    noise.store_register(0x400E, 0x80);
    assert_eq!(0x004, noise.timer_period);
    assert!(noise.is_random());
    noise.drive_timer();
    assert_eq!(4, noise.timer_counter);
    for _ in 0..4 {
        noise.drive_timer();
    }
    assert_eq!(0, noise.timer_counter);
    assert_eq!(0x4000, noise.shift_register);
}

#[test]
fn the_noise_channel_is_silent_while_bit_zero_is_set() {
    let mut noise = ApuNoise::new();
    noise.set_enable(true);
    noise.store_register(0x400C, 0x1A);
    noise.store_register(0x400F, 0x08);
    assert_eq!(0xFE, noise.length_counter);
    assert_eq!(0, noise.output());
    noise.drive_timer();
    assert_eq!(0x0A, noise.output());
    noise.set_enable(false);
    assert_eq!(0, noise.output());
}

fn running_dmc(level: u8) -> ApuDmc {
    let mut dmc = ApuDmc::new();
    dmc.store_register(0x4010, 0x0F);
    dmc.store_register(0x4011, level);
    dmc.store_register(0x4012, 0xFF);
    dmc.store_register(0x4013, 0xFF);
    dmc.set_enable(true);
    dmc
}

#[test]
fn the_delta_level_stays_between_0_and_126() {
    let mut dmc = running_dmc(0x78);
    assert_eq!(27, dmc.timer_period);
    assert_eq!(0xFFC0, dmc.address_counter);
    assert_eq!(0xFF1, dmc.remaining_bytes_counter);
    for _ in 0..28 * 64 {
        dmc.drive_timer(0xFF);
        assert!(dmc.delta_counter <= 126);
    }
    assert_eq!(126, dmc.delta_counter);
    assert_eq!(126, dmc.output());
    for _ in 0..28 * 80 {
        dmc.drive_timer(0x00);
        assert!(dmc.delta_counter <= 126);
    }
    assert_eq!(0, dmc.delta_counter);
}

#[test]
fn the_delta_level_moves_by_two_for_each_bit() {
    let mut dmc = running_dmc(0x40);
    // the first clock takes the byte and plays its bit 0
    dmc.drive_timer(0b0000_0101);
    assert_eq!(0x42, dmc.delta_counter);
    let mut levels = Vec::new();
    for _ in 0..7 {
        for _ in 0..28 {
            dmc.drive_timer(0);
        }
        levels.push(dmc.delta_counter);
    }
    assert_eq!(vec![0x40, 0x42, 0x40, 0x3E, 0x3C, 0x3A, 0x38], levels);
}

#[test]
fn an_odd_level_written_to_the_register_shows_the_seven_bit_range() {
    let mut dmc = running_dmc(0xFF);
    assert_eq!(127, dmc.delta_counter);
    dmc.drive_timer(0xFF);
    assert_eq!(127, dmc.delta_counter);
    assert_eq!(127, dmc.output());
}

#[test]
fn the_sample_address_wraps_to_0x8000() {
    let mut dmc = running_dmc(0);
    assert_eq!(0xFFC0, dmc.address_counter);
    for _ in 0..0x40 {
        assert!(dmc.needs_cpu_memory_data());
        dmc.drive_timer(0);
        dmc.remaining_bits_counter = 0;
        for _ in 0..27 {
            dmc.drive_timer(0);
        }
    }
    assert_eq!(0x8000, dmc.address_counter);
    assert_eq!(0xFF1 - 0x40, dmc.remaining_bytes_counter);
}

#[test]
fn the_sample_ends_with_an_interrupt_or_starts_again() {
    let mut dmc = ApuDmc::new();
    dmc.store_register(0x4010, 0x80);
    dmc.store_register(0x4013, 0x00);
    dmc.set_enable(true);
    assert_eq!(1, dmc.remaining_bytes_counter);
    assert!(dmc.drive_timer(0xAA));
    assert_eq!(0, dmc.remaining_bytes_counter);
    assert!(!dmc.needs_cpu_memory_data());
    let mut looping = ApuDmc::new();
    looping.store_register(0x4010, 0xC0);
    looping.store_register(0x4012, 0x01);
    looping.store_register(0x4013, 0x00);
    looping.set_enable(true);
    assert!(!looping.drive_timer(0xAA));
    assert_eq!(1, looping.remaining_bytes_counter);
    assert_eq!(0xC040, looping.address_counter);
}

fn sounding_pulse(channel: ApuPulseChannel) -> ApuPulse {
    let mut pulse = ApuPulse::new(channel);
    pulse.set_enable(true);
    pulse
}

#[test]
fn a_pulse_follows_its_duty_sequence() {
    let mut pulse = sounding_pulse(ApuPulseChannel::Channel1);
    pulse.store_register(0x4000, 0x9F);
    pulse.store_register(0x4002, 0x08);
    pulse.store_register(0x4003, 0x08);
    assert_eq!(2, pulse.duty());
    assert_eq!(8, pulse.timer_period);
    assert_eq!(0xFE, pulse.length_counter);
    let mut levels = Vec::new();
    for _ in 0..8 {
        levels.push(pulse.output());
        for _ in 0..9 {
            pulse.drive_timer();
        }
    }
    assert_eq!(vec![0, 15, 15, 15, 15, 0, 0, 0], levels);
}

#[test]
fn a_pulse_is_silent_below_period_8_and_without_length() {
    let mut pulse = sounding_pulse(ApuPulseChannel::Channel1);
    pulse.store_register(0x4000, 0xDF);
    pulse.store_register(0x4002, 0x07);
    pulse.store_register(0x4003, 0x08);
    assert_eq!(0, pulse.output());
    pulse.store_register(0x4002, 0x08);
    assert_eq!(15, pulse.output());
    pulse.set_enable(false);
    assert_eq!(0, pulse.length_counter);
    assert_eq!(0, pulse.output());
    // a disabled channel does not load its length counter
    pulse.store_register(0x4003, 0x08);
    assert_eq!(0, pulse.length_counter);
}

#[test]
fn the_length_counter_counts_down_unless_halted() {
    let mut pulse = sounding_pulse(ApuPulseChannel::Channel2);
    pulse.store_register(0x4007, 0x18);
    assert_eq!(2, pulse.length_counter);
    pulse.drive_length();
    pulse.drive_length();
    pulse.drive_length();
    assert_eq!(0, pulse.length_counter);
    pulse.store_register(0x4004, 0x20);
    pulse.store_register(0x4007, 0x18);
    pulse.drive_length();
    assert_eq!(2, pulse.length_counter);
}

#[test]
fn the_envelope_decays_and_loops() {
    let mut pulse = sounding_pulse(ApuPulseChannel::Channel1);
    pulse.store_register(0x4000, 0x01);
    pulse.store_register(0x4003, 0x08);
    pulse.drive_envelope();
    assert_eq!(15, pulse.envelope_decay_level_counter);
    assert_eq!(1, pulse.envelope_counter);
    pulse.drive_envelope();
    assert_eq!(15, pulse.envelope_decay_level_counter);
    pulse.drive_envelope();
    assert_eq!(14, pulse.envelope_decay_level_counter);
    for _ in 0..2 * 14 {
        pulse.drive_envelope();
    }
    assert_eq!(0, pulse.envelope_decay_level_counter);
    for _ in 0..4 {
        pulse.drive_envelope();
    }
    assert_eq!(0, pulse.envelope_decay_level_counter);
    pulse.store_register(0x4000, 0x21);
    pulse.drive_envelope();
    pulse.drive_envelope();
    assert_eq!(15, pulse.envelope_decay_level_counter);
}

fn swept(channel: ApuPulseChannel, register: u8, period: u16) -> u16 {
    let mut pulse = sounding_pulse(channel);
    pulse.store_register(0x4001, register);
    pulse.store_register(0x4002, period as u8);
    pulse.store_register(0x4003, (period >> 8) as u8);
    pulse.drive_sweep();
    pulse.timer_period
}

#[test]
fn the_two_pulses_negate_their_sweep_differently() {
    assert_eq!(0x180, swept(ApuPulseChannel::Channel1, 0x81, 0x100));
    assert_eq!(0x180, swept(ApuPulseChannel::Channel2, 0x81, 0x100));
    assert_eq!(0x07F, swept(ApuPulseChannel::Channel1, 0x89, 0x100));
    assert_eq!(0x080, swept(ApuPulseChannel::Channel2, 0x89, 0x100));
    // no sweep while disabled, with shift 0 or outside 8..=0x7FF
    assert_eq!(0x100, swept(ApuPulseChannel::Channel1, 0x01, 0x100));
    assert_eq!(0x100, swept(ApuPulseChannel::Channel1, 0x80, 0x100));
    assert_eq!(0x007, swept(ApuPulseChannel::Channel1, 0x81, 0x007));
}

#[test]
fn the_triangle_steps_while_both_counters_run() {
    let mut triangle = ApuTriangle::new();
    triangle.set_enable(true);
    triangle.store_register(0x4008, 0x7F);
    triangle.store_register(0x400A, 0x04);
    triangle.store_register(0x400B, 0x08);
    assert_eq!(0, triangle.output());
    triangle.drive_linear();
    assert_eq!(0x7F, triangle.linear_counter);
    assert_eq!(15, triangle.output());
    triangle.drive_timer();
    assert_eq!(14, triangle.output());
    for _ in 0..5 * 15 {
        triangle.drive_timer();
    }
    assert_eq!(0, triangle.output());
    for _ in 0..5 * 16 {
        triangle.drive_timer();
    }
    assert_eq!(15, triangle.output());
    assert_eq!(0, triangle.timer_sequence);
    // with the linear counter run out the triangle stands still
    triangle.linear_counter = 0;
    for _ in 0..50 {
        triangle.drive_timer();
    }
    assert_eq!(0, triangle.timer_sequence);
    assert_eq!(0, triangle.output());
}

fn unit() -> Apu<DefaultAudio> {
    Apu::new(DefaultAudio::new())
}

#[test]
fn the_status_register_shows_the_running_length_counters() {
    let mut apu = unit();
    assert_eq!(0x00, apu.load_register(0x4015));
    apu.store_register(0x4015, 0x0F);
    apu.store_register(0x4003, 0x08);
    assert_eq!(0x01, apu.load_register(0x4015));
    apu.store_register(0x4007, 0x08);
    apu.store_register(0x400B, 0x08);
    apu.store_register(0x400F, 0x08);
    assert_eq!(0x0F, apu.load_register(0x4015));
    apu.store_register(0x4015, 0x05);
    assert_eq!(0x05, apu.load_register(0x4015));
    apu.store_register(0x4013, 0x01);
    assert_eq!(0x15, apu.load_register(0x4015));
    // other registers read as zero
    assert_eq!(0x00, apu.load_register(0x4000));
    assert_eq!(0x00, apu.load_register(0x4017));
}

#[test]
fn the_frame_interrupt_comes_on_the_fourth_step() {
    let mut apu = unit();
    for _ in 0..4 * 7457 - 1 {
        apu.step(0);
    }
    assert!(!apu.irq_interrupted());
    assert_eq!(0x00, apu.load_register(0x4015));
    apu.step(0);
    assert!(apu.irq_interrupted());
    assert_eq!(0x40, apu.load_register(0x4015));
    assert_eq!(0x00, apu.load_register(0x4015));
    apu.clear_irq_interrupted();
    assert!(!apu.irq_interrupted());
}

#[test]
fn the_frame_interrupt_can_be_inhibited() {
    let mut apu = unit();
    apu.store_register(0x4017, 0x40);
    for _ in 0..8 * 7457 {
        apu.step(0);
    }
    assert!(!apu.irq_interrupted());
    assert_eq!(0x00, apu.load_register(0x4015));
    let mut five = unit();
    five.store_register(0x4017, 0x80);
    for _ in 0..10 * 7457 {
        five.step(0);
    }
    assert!(!five.irq_interrupted());
}

#[test]
fn a_write_to_the_frame_counter_in_five_step_mode_clocks_at_once() {
    let mut apu = unit();
    apu.store_register(0x4015, 0x01);
    apu.store_register(0x4003, 0x18);
    assert_eq!(0x01, apu.load_register(0x4015));
    apu.store_register(0x4017, 0x00);
    assert_eq!(0x01, apu.load_register(0x4015));
    apu.store_register(0x4017, 0x80);
    assert_eq!(0x01, apu.load_register(0x4015));
    apu.store_register(0x4017, 0x80);
    assert_eq!(0x00, apu.load_register(0x4015));
}

#[test]
fn the_sequencer_clocks_lengths_on_its_second_and_fourth_step() {
    let mut apu = unit();
    apu.store_register(0x4015, 0x01);
    apu.store_register(0x4003, 0x18);
    for _ in 0..7457 {
        apu.step(0);
    }
    assert_eq!(0x01, apu.load_register(0x4015));
    for _ in 0..3 * 7457 - 1 {
        apu.step(0);
    }
    assert_eq!(0x01, apu.load_register(0x4015) & 0x01);
    apu.step(0);
    assert_eq!(0x00, apu.load_register(0x4015) & 0x01);
}

#[test]
fn a_sample_is_pushed_every_40_cycles() {
    let mut apu = unit();
    apu.store_register(0x4015, 0x04);
    apu.store_register(0x4008, 0x7F);
    apu.store_register(0x400A, 0x04);
    apu.store_register(0x400B, 0x08);
    apu.store_register(0x4017, 0x80);
    for _ in 0..79 {
        apu.step(0);
    }
    let silent = Sample { pulse1: 9, pulse2: 9, triangle: 9, noise: 9, dmc: 9 };
    let mut out = vec![silent; 4096];
    apu.copy_sample_buffer(&mut out);
    assert_eq!((0, 0, 7, 0, 0), (out[0].pulse1, out[0].pulse2, out[0].triangle, out[0].noise, out[0].dmc));
    // one sample was waiting; the rest repeats it
    assert_eq!(7, out[1].triangle);
    apu.step(0);
    apu.copy_sample_buffer(&mut out);
    assert_eq!(0, out[0].triangle);
    assert_eq!(0, out[4095].triangle);
}

#[test]
fn the_delta_channel_asks_for_a_byte_on_odd_cycles() {
    let mut apu = unit();
    apu.store_register(0x4012, 0x02);
    apu.store_register(0x4013, 0x01);
    assert!(!apu.dmc_needs_cpu_memory_data());
    apu.step(0);
    assert!(apu.dmc_needs_cpu_memory_data());
    assert_eq!(0xC080, apu.dmc_sample_address());
    apu.step(0x55);
    assert!(!apu.dmc_needs_cpu_memory_data());
    assert_eq!(0xC081, apu.dmc_sample_address());
    assert_eq!(0x10, apu.load_register(0x4015));
    apu.store_register(0x4015, 0x00);
    assert_eq!(0x00, apu.load_register(0x4015));
}

#[test]
fn the_delta_level_is_raised_only_up_to_124_and_lowered_only_from_2() {
    // the first clock takes the byte and plays its bit 0
    let mut dmc = running_dmc(124);
    dmc.drive_timer(0x01);
    assert_eq!(126, dmc.delta_counter);
    let mut dmc = running_dmc(125);
    dmc.drive_timer(0x01);
    assert_eq!(125, dmc.delta_counter);
    let mut dmc = running_dmc(126);
    dmc.drive_timer(0x01);
    assert_eq!(126, dmc.delta_counter);
    let mut dmc = running_dmc(2);
    dmc.drive_timer(0x00);
    assert_eq!(0, dmc.delta_counter);
    let mut dmc = running_dmc(1);
    dmc.drive_timer(0x00);
    assert_eq!(1, dmc.delta_counter);
    let mut dmc = running_dmc(0);
    dmc.drive_timer(0x00);
    assert_eq!(0, dmc.delta_counter);
}

#[test]
fn a_level_of_127_comes_down_to_125_and_never_back() {
    let mut dmc = running_dmc(0x7F);
    assert_eq!(127, dmc.delta_counter);
    dmc.drive_timer(0x00);
    assert_eq!(125, dmc.delta_counter);
    for _ in 0..2000 {
        dmc.drive_timer(0xFF);
        assert!(dmc.delta_counter <= 126);
    }
    assert_eq!(125, dmc.delta_counter);
}

#[test]
fn a_sample_that_starts_again_keeps_the_level() {
    let mut looping = ApuDmc::new();
    looping.store_register(0x4010, 0xC0);
    looping.store_register(0x4011, 0x40);
    looping.store_register(0x4012, 0x01);
    looping.store_register(0x4013, 0x00);
    looping.set_enable(true);
    assert_eq!(0x40, looping.delta_counter);
    // the only byte is taken, its bit 0 raises the level, and the sample
    // starts again
    assert!(!looping.drive_timer(0x01));
    assert_eq!(1, looping.remaining_bytes_counter);
    assert_eq!(0xC040, looping.address_counter);
    assert_eq!(0x42, looping.delta_counter);
    looping.set_enable(false);
    looping.set_enable(true);
    assert_eq!(0x42, looping.delta_counter);
}


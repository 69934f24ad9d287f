use synth_core::ay8910::Ay8910Core;
use synth_core::namco_wsg;
use synth_core::pokey;
use synth_core::ricoh2a03::{noise_period_for_note, NoiseChannel, PulseChannel, TriangleChannel};
use synth_core::scc;
use synth_core::sid6581::{EnvState, Voice, Waveform};
use synth_core::sn76489::{attenuation_for_velocity, NoiseChannel as SnNoise, ToneChannel};

#[test]
fn sn_tone_toggles_every_period_plus_one_ticks() {
    let mut t = ToneChannel::new();
    assert_eq!(t.volume, 15);
    t.frequency = 2;
    let outs: Vec<bool> = (0..7)
        .map(|_| {
            t.tick();
            t.output
        })
        .collect();
    // counter 0 reloads to 2 and flips, then counts 2, 1, 0 -> flips again
    assert_eq!(outs, vec![true, true, true, false, false, false, true]);
}

#[test]
fn sn_noise_shift_rates() {
    let mut n = SnNoise::new();
    assert_eq!(n.shift_value(), 0x10);
    n.shift_rate = 1;
    assert_eq!(n.shift_value(), 0x20);
    n.shift_rate = 2;
    assert_eq!(n.shift_value(), 0x40);
    n.shift_rate = 3;
    assert_eq!(n.shift_value(), 0);
    n.tick(123);
    assert_eq!(n.counter, 123);
}

#[test]
fn sn_noise_register_never_locks_at_zero() {
    for white in [true, false] {
        let mut n = SnNoise::new();
        n.white_noise = white;
        let mut seen_high = false;
        for _ in 0..100_000 {
            n.tick(0);
            assert_ne!(n.lfsr, 0);
            seen_high |= n.output;
        }
        assert!(seen_high);
    }
}

#[test]
fn sn_white_noise_first_shifts() {
    let mut n = SnNoise::new();
    n.tick(0);
    // 0x8000: bit 0 and bit 3 are clear, so a zero is shifted in
    assert_eq!(n.lfsr, 0x4000);
    assert!(!n.output);
    assert_eq!(n.counter, 0x10);
}

#[test]
fn sn_attenuation_from_velocity() {
    assert_eq!(attenuation_for_velocity(127), 0);
    assert_eq!(attenuation_for_velocity(0), 15);
    assert_eq!(attenuation_for_velocity(64), 8);
}

#[test]
fn ay_core_noise_and_envelope() {
    let mut ay = Ay8910Core::new();
    assert_eq!(ay.noise_lfsr, 1);
    assert_eq!(ay.env_period, 1000);
    ay.tick();
    // bit 0 XOR bit 3 of 1 is 1, shifted into bit 16
    assert_eq!(ay.noise_lfsr, 0x1_0000);
    assert!(!ay.noise_output);
    assert_eq!(ay.env_step, 1);
    assert_eq!(ay.env_counter, 1000);
    for _ in 0..100_000 {
        ay.tick();
        assert_ne!(ay.noise_lfsr, 0);
        assert!(ay.env_step <= 32);
    }
}

#[test]
fn ay_channel_mixing_rule() {
    let mut ay = Ay8910Core::new();
    // Period 0 counts as a high tone
    assert!(ay.channel_on(0));
    ay.noise_enable[0] = true;
    ay.noise_output = false;
    assert!(!ay.channel_on(0));
    ay.tones[1].period = 10;
    ay.tones[1].output = false;
    assert!(!ay.channel_on(1));
}

#[test]
fn pokey_polynomials_stay_live() {
    for mode in 0..4u8 {
        let mut c = pokey::Channel::new();
        c.distortion = mode;
        c.volume = 9;
        for _ in 0..10_000 {
            c.tick();
            assert!(c.poly4 > 0 && c.poly4 <= 0x0F);
            assert!(c.poly5 > 0 && c.poly5 <= 0x1F);
            assert!(c.poly17 > 0 && c.poly17 <= 0x1FFFF);
            assert_eq!(c.level(), if c.output { 9 } else { 0 });
        }
    }
}

#[test]
fn pokey_poly4_sequence() {
    let mut c = pokey::Channel::new();
    c.distortion = 1;
    let mut states = Vec::new();
    for _ in 0..15 {
        c.tick();
        states.push(c.poly4);
    }
    // A maximal 4-bit sequence visits all fifteen nonzero states
    let mut sorted = states.clone();
    sorted.sort();
    sorted.dedup();
    assert_eq!(sorted.len(), 15);
}

#[test]
fn nes_pulse_duty_patterns() {
    let mut p = PulseChannel::new();
    p.enabled = true;
    p.period = 8;
    p.volume = 12;
    let mut highs = Vec::new();
    for step in 0..8u8 {
        p.step = step;
        highs.push(p.level() > 0);
    }
    assert_eq!(highs, vec![false, true, true, true, true, false, false, false]);
    p.duty = 3;
    p.step = 0;
    assert_eq!(p.level(), 12);
    p.period = 7;
    assert_eq!(p.level(), 0);
}

#[test]
fn nes_pulse_step_wraps() {
    let mut p = PulseChannel::new();
    for _ in 0..20 {
        p.tick();
        assert!(p.step < 8);
    }
    assert_eq!(p.step, 20 % 8);
}

#[test]
fn nes_triangle_ramp() {
    let mut t = TriangleChannel::new();
    t.tick();
    assert_eq!(t.step, 0, "a disabled triangle is frozen");
    t.enabled = true;
    t.period = 2;
    assert_eq!(t.level(), 15);
    t.step = 16;
    assert_eq!(t.level(), 0);
    t.step = 31;
    assert_eq!(t.level(), 15);
    t.step = 31;
    t.counter = 0;
    t.tick();
    assert_eq!(t.step, 0);
}

#[test]
fn nes_noise_register() {
    let mut n = NoiseChannel::new();
    n.tick();
    // 1: bit 0 XOR bit 1 = 1 -> bit 14
    assert_eq!(n.lfsr, 0x4000);
    for short in [false, true] {
        n.short_mode = short;
        for _ in 0..50_000 {
            n.tick();
            assert_ne!(n.lfsr, 0);
        }
    }
    n.enabled = true;
    n.volume = 5;
    n.lfsr = 2;
    assert_eq!(n.level(), 5);
    n.lfsr = 3;
    assert_eq!(n.level(), 0);
}

#[test]
fn nes_noise_period_by_note() {
    assert_eq!(noise_period_for_note(108), 4);
    assert_eq!(noise_period_for_note(120), 4);
    assert_eq!(noise_period_for_note(20), 4068);
    assert_eq!(noise_period_for_note(0), 4068);
    // (108 - 64) * 16 / 88 = 8
    assert_eq!(noise_period_for_note(64), 202);
}

#[test]
fn scc_waveforms_and_stepping() {
    assert_eq!(scc::waveform(0)[6], 89);
    assert_eq!(scc::waveform(1)[16], -128);
    assert_eq!(scc::waveform(2)[0], -128);
    assert_eq!(scc::waveform(9), scc::waveform(3));
    let mut c = scc::Channel::new();
    assert_eq!(c.sample(), None);
    c.volume = 15;
    c.period = 1;
    c.tick();
    assert_eq!(c.wave_pos, 1);
    assert_eq!(c.sample(), Some(24));
    c.tick();
    assert_eq!(c.wave_pos, 1);
    for _ in 0..100 {
        c.tick();
        assert!(c.wave_pos < 32);
    }
}

#[test]
fn namco_accumulator_selects_samples() {
    assert_eq!(namco_wsg::waveform(1)[15], 15);
    assert_eq!(namco_wsg::waveform(7), namco_wsg::waveform(3));
    let mut c = namco_wsg::Channel::new();
    c.frequency = 1 << 15;
    c.volume = 3;
    c.tick();
    assert_eq!(c.accumulator, 1 << 15);
    assert_eq!(c.sample(), Some(9));
    c.accumulator = u32::MAX;
    c.tick();
    assert_eq!(c.accumulator, (1 << 15) - 1);
}

#[test]
fn sid_envelope_attack_decay_sustain_release() {
    let mut v = Voice::new();
    assert_eq!(v.env_state, EnvState::Idle);
    v.attack = 0;
    v.decay = 0;
    v.sustain = 8;
    v.release = 0;
    v.gate_on();
    assert_eq!(v.env_state, EnvState::Attack);
    assert_eq!(v.env_counter, 2);
    let mut prev = 0;
    while v.env_state == EnvState::Attack {
        v.clock_envelope();
        assert!(v.env_level >= prev);
        prev = v.env_level;
    }
    assert_eq!(v.env_level, 255);
    assert_eq!(v.env_state, EnvState::Decay);
    while v.env_state == EnvState::Decay {
        v.clock_envelope();
        assert!(v.env_level >= 136);
    }
    assert_eq!(v.env_state, EnvState::Sustain);
    assert_eq!(v.env_level, 136);
    v.gate_off();
    assert_eq!(v.env_state, EnvState::Release);
    for _ in 0..10_000 {
        v.clock_envelope();
    }
    assert_eq!(v.env_level, 0);
    assert_eq!(v.env_state, EnvState::Idle);
}

#[test]
fn sid_oscillator_values() {
    let mut v = Voice::new();
    assert_eq!(v.waveform, Waveform::Sawtooth);
    v.accumulator = 0x80_0000;
    assert_eq!(v.saw_value(), 0x800);
    assert_eq!(v.triangle_value(), 0xFFF);
    v.accumulator = 0x40_0000;
    assert_eq!(v.triangle_value(), 0x800);
    v.pulse_width = 0x400;
    assert!(v.pulse_high());
    v.frequency = 0x1000;
    v.accumulator = 0xFF_F000;
    v.clock();
    assert_eq!(v.accumulator, 0);
}

#[test]
fn sid_noise_shifts_when_bit_19_is_set() {
    let mut v = Voice::new();
    v.frequency = 0x8000;
    v.accumulator = 0x07_8000;
    v.clock();
    assert_eq!(v.accumulator, 0x08_0000);
    // 0x7FFFF8: bit 22 = 1, bit 17 = 1, feedback 0
    assert_eq!(v.noise_lfsr, 0x7F_FFF0);
}

#[test]
fn scc_core_tick_steps_every_channel() {
    let mut core = scc::SccCore::new();
    core.voice_on(0, 2, 127);
    core.voice_on(4, 0, 127);
    core.tick();
    // Channel 0 starts with counter 0: it reloads to the period and moves on.
    assert_eq!(core.channels[0].counter, 2);
    assert_eq!(core.channels[0].wave_pos, 1);
    core.tick();
    assert_eq!(core.channels[0].counter, 1);
    assert_eq!(core.channels[0].wave_pos, 1);
    // A zero period moves one sample every tick.
    assert_eq!(core.channels[4].wave_pos, 2);
}

#[test]
fn namco_core_tick_advances_every_accumulator() {
    let mut core = namco_wsg::NamcoCore::new();
    core.voice_on(1, 0x8000, 127);
    core.voice_on(2, 0xFFFF_FFFF, 127);
    core.tick();
    core.tick();
    assert_eq!(core.channels[0].accumulator, 0);
    assert_eq!(core.channels[1].accumulator, 0x1_0000);
    assert_eq!(core.channels[2].accumulator, 0xFFFF_FFFE);
}

#[test]
fn sn_attenuation_accepts_velocities_up_to_135() {
    assert_eq!(attenuation_for_velocity(128), 0);
    assert_eq!(attenuation_for_velocity(135), 0);
    assert_eq!(attenuation_for_velocity(9), 14);
}

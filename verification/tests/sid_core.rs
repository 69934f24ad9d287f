use synth_core::chip::ParamValue;
use synth_core::sid6581::{EnvState, Sid6581Core, Waveform};

fn byte(b: u8) -> ParamValue {
    ParamValue { byte: b, word: b as u16, on: b != 0 }
}

#[test]
fn sid_core_defaults() {
    let c = Sid6581Core::new();
    assert_eq!(c.get_param(0), 1); // sawtooth
    assert_eq!(c.get_param(1), 2048);
    assert_eq!(c.get_param(2), 2);
    assert_eq!(c.get_param(3), 4);
    assert_eq!(c.get_param(4), 10);
    assert_eq!(c.get_param(5), 4);
    assert_eq!(c.get_param(6), 15);
    assert_eq!(c.get_param(7), 0);
    assert!(c.voices.iter().all(|v| v.env_state == EnvState::Idle && !v.gate));
}

#[test]
fn sid_core_params_apply_to_every_voice_and_clamp() {
    let mut c = Sid6581Core::new();
    c.set_param(0, byte(2));
    assert_eq!(c.waveform, Waveform::Pulse);
    assert!(c.voices.iter().all(|v| v.waveform == Waveform::Pulse));
    c.set_param(0, byte(9));
    assert_eq!(c.get_param(0), 3); // anything past 2 is noise
    c.set_param(1, ParamValue { byte: 255, word: 5000, on: true });
    assert_eq!(c.get_param(1), 4095);
    assert!(c.voices.iter().all(|v| v.pulse_width == 4095));
    c.set_param(2, byte(40));
    assert_eq!(c.get_param(2), 15);
    assert!(c.voices.iter().all(|v| v.attack == 15));
    c.set_param(6, byte(3));
    assert_eq!(c.get_param(6), 3);
    let before = c;
    c.set_param(42, byte(1));
    assert_eq!(c.voices, before.voices);
    assert_eq!(c.get_param(6), 3);
}

#[test]
fn sid_core_voice_on_uses_patch_and_starts_attack() {
    let mut c = Sid6581Core::new();
    c.set_param(2, byte(0)); // fastest attack: 2 cycles per step
    c.voice_on(1, 0x1CD6, 60);
    let v = c.voices[1];
    assert_eq!(v.frequency, 0x1CD6);
    assert_eq!(v.midi_note, Some(60));
    assert!(v.gate);
    assert_eq!(v.env_state, EnvState::Attack);
    assert_eq!(v.env_counter, 2);
    assert_eq!(v.attack, 0);
    // voice 0 untouched
    assert!(!c.voices[0].gate);
    // out-of-range voice ignored
    let before = c;
    c.voice_on(3, 100, 61);
    assert_eq!(c.voices, before.voices);
}

#[test]
fn sid_core_tick_rises_then_voice_off_releases() {
    let mut c = Sid6581Core::new();
    c.set_param(2, byte(0));
    c.voice_on(0, 1000, 60);
    for _ in 0..30 {
        c.tick();
    }
    let level = c.voices[0].env_level;
    assert!(level > 0);
    assert!(c.voices[0].accumulator > 0);
    c.voice_off(0);
    assert_eq!(c.voices[0].env_state, EnvState::Release);
    assert_eq!(c.voices[0].midi_note, None);
    assert_eq!(c.voices[0].env_counter, 114); // release setting 4: 114 cycles per step
    c.reset();
    assert!(c.voices.iter().all(|v| v.env_level == 0 && v.env_state == EnvState::Idle));
    assert_eq!(c.get_param(2), 0); // the patch stays
}

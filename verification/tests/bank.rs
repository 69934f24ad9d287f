use synth_core::bank::{BankControl, VoiceCommand, MACRO_TICK_INTERVAL};
use synth_core::chip::VoiceMode;
use synth_core::macros::{factory_macros, InstrumentMacro};
use synth_core::voice::Detune;

fn on(chip: usize, voice: usize, note: u8, velocity: u8, num: i128, den: u64) -> VoiceCommand {
    VoiceCommand::On { chip, voice, note, velocity, detune_cents: Detune { num, den } }
}

#[test]
fn bank_pools_voices_of_all_chips() {
    let bank = BankControl::new(3, 2);
    assert_eq!(bank.total_voices(), 6);
    assert_eq!(bank.num_chips(), 2);
    assert_eq!(bank.voices_per_chip(), 3);
    assert_eq!(bank.voice_mode(), VoiceMode::Poly);
    assert_eq!(bank.active_macro_name(), None);
}

#[test]
fn bank_poly_routes_fourth_note_to_second_chip() {
    let mut bank = BankControl::new(3, 2);
    assert_eq!(bank.note_on(60, 100), vec![on(0, 0, 60, 100, 0, 1)]);
    assert_eq!(bank.note_on(62, 90), vec![on(0, 1, 62, 90, 0, 1)]);
    assert_eq!(bank.note_on(64, 80), vec![on(0, 2, 64, 80, 0, 1)]);
    assert_eq!(bank.note_on(65, 70), vec![on(1, 0, 65, 70, 0, 1)]);
    assert_eq!(bank.note_off(65), vec![VoiceCommand::Off { chip: 1, voice: 0 }]);
    assert_eq!(bank.note_off(99), vec![]);
}

#[test]
fn bank_unison_spreads_detune_over_every_voice() {
    let mut bank = BankControl::new(3, 1);
    bank.set_voice_mode(VoiceMode::Unison { detune_cents: 10 });
    assert_eq!(
        bank.note_on(60, 127),
        vec![on(0, 0, 60, 127, -20, 2), on(0, 1, 60, 127, 0, 2), on(0, 2, 60, 127, 20, 2)]
    );
    assert_eq!(
        bank.note_off(60),
        vec![
            VoiceCommand::Off { chip: 0, voice: 0 },
            VoiceCommand::Off { chip: 0, voice: 1 },
            VoiceCommand::Off { chip: 0, voice: 2 },
        ]
    );
}

#[test]
fn bank_mono_retriggers_held_note_with_velocity_100() {
    let mut bank = BankControl::new(3, 1);
    bank.set_voice_mode(VoiceMode::Mono);
    assert_eq!(bank.note_on(60, 50), vec![on(0, 0, 60, 50, 0, 1)]);
    assert_eq!(bank.note_on(64, 50), vec![on(0, 0, 64, 50, 0, 1)]);
    // releasing the newer note brings back the older one on voice 0
    assert_eq!(bank.note_off(64), vec![on(0, 0, 60, 100, 0, 1)]);
    // releasing the last held note keys voice 0 off
    assert_eq!(bank.note_off(60), vec![VoiceCommand::Off { chip: 0, voice: 0 }]);
}

#[test]
fn bank_without_macro_advances_silently() {
    let mut bank = BankControl::new(3, 1);
    bank.note_on(60, 100);
    assert_eq!(bank.advance(10_000), vec![]);
}

#[test]
fn bank_arpeggio_macro_retriggers_every_tick() {
    let macros = factory_macros();
    let minor = macros.iter().find(|m| m.name == "Minor Arp").unwrap().clone();
    let mut bank = BankControl::new(3, 1);
    bank.set_macro(Some(minor));
    assert_eq!(bank.active_macro_name(), Some("Minor Arp"));
    bank.note_on(60, 100);
    // fewer samples than one tick: nothing yet
    assert_eq!(bank.advance(MACRO_TICK_INTERVAL - 1), vec![]);
    // the tick boundary: step 0 of the arpeggio (offset 0)
    assert_eq!(bank.advance(1), vec![on(0, 0, 60, 100, 0, 1)]);
    // speed 2: ticks 1, 2, 3 give steps 0, 1, 1 (offsets 0, +3, +3)
    assert_eq!(
        bank.advance(3 * MACRO_TICK_INTERVAL),
        vec![on(0, 0, 60, 100, 0, 1), on(0, 0, 63, 100, 0, 1), on(0, 0, 63, 100, 0, 1)]
    );
    // released voices are no longer modulated
    bank.note_off(60);
    assert_eq!(bank.advance(5 * MACRO_TICK_INTERVAL), vec![]);
}

#[test]
fn bank_macro_splits_into_any_chunks() {
    let macros = factory_macros();
    let octave = macros.iter().find(|m| m.name == "Octave Pulse").unwrap().clone();
    let mut a = BankControl::new(2, 1);
    let mut b = BankControl::new(2, 1);
    a.set_macro(Some(octave.clone()));
    b.set_macro(Some(octave));
    a.note_on(40, 64);
    b.note_on(40, 64);
    let whole = a.advance(3000);
    let mut parts = b.advance(1000);
    parts.extend(b.advance(2000));
    assert_eq!(whole, parts);
    assert_eq!(
        whole,
        vec![on(0, 0, 40, 64, 0, 1), on(0, 0, 52, 64, 0, 1), on(0, 0, 40, 64, 0, 1), on(0, 0, 52, 64, 0, 1)]
    );
}

#[test]
fn bank_arpeggio_clamps_to_midi_range() {
    let macros = factory_macros();
    let kick = macros.iter().find(|m| m.name == "Kick Drum").unwrap().clone();
    let mut bank = BankControl::new(1, 1);
    bank.set_macro(Some(kick));
    bank.note_on(20, 127);
    // offsets 0, -12, -24, -36: the last two fall below note 0
    assert_eq!(
        bank.advance(4 * MACRO_TICK_INTERVAL),
        vec![on(0, 0, 20, 127, 0, 1), on(0, 0, 8, 127, 0, 1), on(0, 0, 0, 127, 0, 1), on(0, 0, 0, 127, 0, 1)]
    );
}

#[test]
fn fresh_bank_plays_the_documented_octave_arpeggio_on_voice_zero() {
    let mac = InstrumentMacro { arpeggio: vec![0, 12], loop_point: Some(0), ..Default::default() };
    let mut short = BankControl::new(3, 1);
    short.set_macro(Some(mac.clone()));
    assert_eq!(short.note_on(60, 100), vec![on(0, 0, 60, 100, 0, 1)]);
    assert_eq!(short.advance(734), vec![]);

    let mut bank = BankControl::new(3, 1);
    bank.set_macro(Some(mac));
    assert_eq!(bank.note_on(60, 100), vec![on(0, 0, 60, 100, 0, 1)]);
    assert_eq!(bank.advance(1470), vec![on(0, 0, 60, 100, 0, 1), on(0, 0, 72, 100, 0, 1)]);
}

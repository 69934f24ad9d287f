use synth_core::chip::VoiceMode;
use synth_core::voice::{Detune, VoiceAllocator};

fn cents(d: &Detune) -> f64 {
    d.num as f64 / d.den as f64
}

fn make_allocator(voices: usize) -> VoiceAllocator {
    VoiceAllocator::new(voices)
}

// --- Poly mode ---

#[test]
fn poly_assigns_different_voices() {
    let mut alloc = make_allocator(3);
    let v1 = alloc.note_on(60);
    let v2 = alloc.note_on(64);
    let v3 = alloc.note_on(67);
    assert_eq!(v1.len(), 1);
    assert_eq!(v2.len(), 1);
    assert_eq!(v3.len(), 1);
    assert_ne!(v1[0].0, v2[0].0);
    assert_ne!(v2[0].0, v3[0].0);
}

#[test]
fn poly_steals_oldest_when_full() {
    let mut alloc = make_allocator(2);
    let v1 = alloc.note_on(60);
    let _v2 = alloc.note_on(64);
    let v3 = alloc.note_on(67); // should steal v1's voice
    assert_eq!(v3[0].0, v1[0].0);
}

#[test]
fn poly_reuses_released_voice() {
    let mut alloc = make_allocator(2);
    alloc.note_on(60);
    alloc.note_on(64);
    alloc.note_off(60); // free voice 0
    let v3 = alloc.note_on(67);
    assert_eq!(v3[0].0, 0); // should reuse voice 0
}

#[test]
fn poly_note_off_returns_correct_voice() {
    let mut alloc = make_allocator(3);
    alloc.note_on(60);
    alloc.note_on(64);
    alloc.note_on(67);
    let released = alloc.note_off(64);
    assert_eq!(released.len(), 1);
    assert_eq!(released[0], 1);
}

// --- Mono mode ---

#[test]
fn mono_always_uses_voice_0() {
    let mut alloc = make_allocator(3);
    alloc.set_mode(VoiceMode::Mono);
    let v1 = alloc.note_on(60);
    let v2 = alloc.note_on(64);
    assert_eq!(v1[0].0, 0);
    assert_eq!(v2[0].0, 0);
}

#[test]
fn mono_retrigger_on_release() {
    let mut alloc = make_allocator(3);
    alloc.set_mode(VoiceMode::Mono);
    alloc.note_on(60);
    alloc.note_on(64);
    let released = alloc.note_off(64);
    assert!(released.is_empty()); // no release — retrigger instead
    assert_eq!(alloc.mono_retrigger_note(), Some(60));
}

#[test]
fn mono_releases_when_stack_empty() {
    let mut alloc = make_allocator(3);
    alloc.set_mode(VoiceMode::Mono);
    alloc.note_on(60);
    let released = alloc.note_off(60);
    assert_eq!(released, vec![0]);
    assert_eq!(alloc.mono_retrigger_note(), None);
}

// --- Unison mode ---

#[test]
fn unison_triggers_all_voices() {
    let mut alloc = make_allocator(3);
    alloc.set_mode(VoiceMode::Unison { detune_cents: 10 });
    let voices = alloc.note_on(60);
    assert_eq!(voices.len(), 3);
}

#[test]
fn unison_detune_spread_symmetric() {
    let mut alloc = make_allocator(3);
    alloc.set_mode(VoiceMode::Unison { detune_cents: 10 });
    let voices = alloc.note_on(60);
    let detunes: Vec<f64> = voices.iter().map(|(_, d)| cents(d)).collect();
    assert!((detunes[0] - (-10.0)).abs() < 0.01);
    assert!((detunes[1] - 0.0).abs() < 0.01);
    assert!((detunes[2] - 10.0).abs() < 0.01);
}

#[test]
fn unison_releases_all_voices() {
    let mut alloc = make_allocator(3);
    alloc.set_mode(VoiceMode::Unison { detune_cents: 10 });
    alloc.note_on(60);
    let released = alloc.note_off(60);
    assert_eq!(released.len(), 3);
}

// --- Further cases ---

#[test]
fn unison_detune_with_four_voices() {
    let mut alloc = make_allocator(4);
    alloc.set_mode(VoiceMode::Unison { detune_cents: 30 });
    let voices = alloc.note_on(60);
    let detunes: Vec<Detune> = voices.iter().map(|(_, d)| *d).collect();
    // -1.0, -1/3, 1/3, 1.0 of the spread, held exactly as thirds
    assert_eq!(
        detunes,
        vec![
            Detune { num: -90, den: 3 },
            Detune { num: -30, den: 3 },
            Detune { num: 30, den: 3 },
            Detune { num: 90, den: 3 },
        ]
    );
    let indices: Vec<usize> = voices.iter().map(|(v, _)| *v).collect();
    assert_eq!(indices, vec![0, 1, 2, 3]);
}

#[test]
fn unison_single_voice_is_not_detuned() {
    let mut alloc = make_allocator(1);
    alloc.set_mode(VoiceMode::Unison { detune_cents: 25 });
    let voices = alloc.note_on(60);
    assert_eq!(voices, vec![(0, Detune { num: 0, den: 1 })]);
}

#[test]
fn unison_detune_keeps_fractions_of_a_cent() {
    let mut alloc = make_allocator(4);
    alloc.set_mode(VoiceMode::Unison { detune_cents: 10 });
    let voices = alloc.note_on(60);
    let detunes: Vec<f64> = voices.iter().map(|(_, d)| cents(d)).collect();
    assert!((detunes[0] - (-10.0)).abs() < 1e-9);
    assert!((detunes[1] - (-10.0 / 3.0)).abs() < 1e-9);
    assert!((detunes[2] - 10.0 / 3.0).abs() < 1e-9);
    assert!((detunes[3] - 10.0).abs() < 1e-9);
}

#[test]
fn poly_note_off_of_unplayed_note_releases_nothing() {
    let mut alloc = make_allocator(3);
    alloc.note_on(60);
    assert!(alloc.note_off(61).is_empty());
}

#[test]
fn poly_same_note_twice_takes_two_voices() {
    let mut alloc = make_allocator(3);
    let a = alloc.note_on(60);
    let b = alloc.note_on(60);
    assert_ne!(a[0].0, b[0].0);
    let released = alloc.note_off(60);
    assert_eq!(released, vec![0, 1]);
}

#[test]
fn mono_last_note_priority_through_three_notes() {
    let mut alloc = make_allocator(1);
    alloc.set_mode(VoiceMode::Mono);
    alloc.note_on(60);
    alloc.note_on(62);
    alloc.note_on(64);
    assert!(alloc.note_off(64).is_empty());
    assert_eq!(alloc.mono_retrigger_note(), Some(62));
    // Releasing a held note that is not the newest changes nothing audible
    assert!(alloc.note_off(60).is_empty());
    assert_eq!(alloc.mono_retrigger_note(), Some(62));
}

#[test]
fn mode_is_reported_back() {
    let mut alloc = make_allocator(2);
    assert_eq!(alloc.mode(), VoiceMode::Poly);
    alloc.set_mode(VoiceMode::Unison { detune_cents: 5 });
    assert_eq!(alloc.mode(), VoiceMode::Unison { detune_cents: 5 });
}

#[test]
fn resize_keeps_existing_voices() {
    let mut alloc = make_allocator(1);
    alloc.note_on(60);
    alloc.resize(3);
    let v = alloc.note_on(64);
    assert_eq!(v[0].0, 1);
    assert_eq!(alloc.note_off(60), vec![0]);
}

use synth_core::midi_file::{
    ticks_to_us, MidiError, MidiEventKind, MidiPlayer, MidiSequence, MidiTiming, MidiTrackEvent,
    TimedMidiEvent,
};

#[test]
fn midi_player_lifecycle() {
    let mut player = MidiPlayer::new();
    assert!(!player.is_playing());
    assert!(!player.has_sequence());

    let seq = MidiSequence {
        events: vec![
            TimedMidiEvent {
                time_us: 0,
                note: 60,
                velocity: 100,
                is_on: true,
            },
            TimedMidiEvent {
                time_us: 500_000,
                note: 60,
                velocity: 0,
                is_on: false,
            },
        ],
        duration_us: 500_000,
        name: "Test".into(),
    };

    player.load(seq);
    assert!(player.has_sequence());
    assert!(!player.is_playing());
    assert_eq!(player.sequence_name(), "Test");

    player.play();
    assert!(player.is_playing());

    // Poll immediately — should get the first event (time_us=0)
    let events = player.poll();
    assert!(!events.is_empty());
    assert!(events[0].is_on);

    player.pause();
    assert!(!player.is_playing());
    // The key assertion is that pause captures a position
    let paused_pos = player.position_us();
    assert!(
        paused_pos < 500_000,
        "Should not have advanced past the sequence"
    );

    player.stop();
    assert!(!player.is_playing());
    assert_eq!(player.position_us(), 0);
}

fn note(time_us: u64, note: u8, on: bool) -> TimedMidiEvent {
    TimedMidiEvent {
        time_us,
        note,
        velocity: if on { 100 } else { 0 },
        is_on: on,
    }
}

fn two_note_sequence() -> MidiSequence {
    MidiSequence {
        events: vec![
            note(0, 60, true),
            note(100, 64, true),
            note(200, 60, false),
            note(300, 64, false),
        ],
        duration_us: 300,
        name: "Two".into(),
    }
}

#[test]
fn poll_at_hands_out_due_events_in_order() {
    let mut player = MidiPlayer::new();
    player.load(two_note_sequence());
    player.play();
    let first = player.poll_at(150);
    assert_eq!(first, vec![note(0, 60, true), note(100, 64, true)]);
    assert!(player.is_playing());
    // Nothing new is due at the same time
    assert!(player.poll_at(150).is_empty());
    let rest = player.poll_at(1000);
    assert_eq!(rest, vec![note(200, 60, false), note(300, 64, false)]);
    // Playback ends once every event has been handed out
    assert!(!player.is_playing());
    assert!(player.poll_at(2000).is_empty());
}

#[test]
fn two_polls_equal_one_later_poll() {
    let mut a = MidiPlayer::new();
    a.load(two_note_sequence());
    a.play();
    let mut split = a.poll_at(120);
    split.extend(a.poll_at(250));
    let mut b = MidiPlayer::new();
    b.load(two_note_sequence());
    b.play();
    assert_eq!(split, b.poll_at(250));
}

#[test]
fn poll_without_play_gives_nothing() {
    let mut player = MidiPlayer::new();
    player.load(two_note_sequence());
    assert!(player.poll_at(1000).is_empty());
    assert!(player.poll().is_empty());
}

#[test]
fn play_without_sequence_does_nothing() {
    let mut player = MidiPlayer::default();
    player.play();
    assert!(!player.is_playing());
    assert_eq!(player.sequence_name(), "");
    assert_eq!(player.duration_us(), 0);
    assert_eq!(player.position_us(), 0);
}

#[test]
fn resume_keeps_the_cursor() {
    let mut player = MidiPlayer::new();
    player.load(two_note_sequence());
    player.play();
    assert_eq!(player.poll_at(150).len(), 2);
    player.pause();
    player.play();
    // The first two events are not handed out again
    assert_eq!(player.poll_at(1000), vec![note(200, 60, false), note(300, 64, false)]);
}

#[test]
fn stop_rewinds() {
    let mut player = MidiPlayer::new();
    player.load(two_note_sequence());
    player.play();
    player.poll_at(1000);
    player.stop();
    assert_eq!(player.duration_us(), 300);
    player.play();
    assert_eq!(player.poll_at(0), vec![note(0, 60, true)]);
}

#[test]
fn ticks_convert_with_tempo() {
    assert_eq!(ticks_to_us(96, 500_000, 96), 500_000);
    assert_eq!(ticks_to_us(48, 600_000, 96), 300_000);
    assert_eq!(ticks_to_us(1000, 500_000, 0), 0);
}

fn ev(delta: u32, kind: MidiEventKind) -> MidiTrackEvent {
    MidiTrackEvent { delta, kind }
}

#[test]
fn tracks_merge_sorted_by_time() {
    let t0 = vec![
        ev(0, MidiEventKind::Tempo(250_000)),
        ev(96, MidiEventKind::NoteOn { key: 60, vel: 90 }),
        ev(96, MidiEventKind::NoteOff { key: 60 }),
    ];
    let t1 = vec![
        ev(48, MidiEventKind::NoteOn { key: 67, vel: 80 }),
        ev(0, MidiEventKind::Other),
        ev(48, MidiEventKind::NoteOn { key: 67, vel: 0 }),
    ];
    let seq = MidiSequence::from_tracks(MidiTiming::Metrical(96), &vec![t0, t1], "Merged".into())
        .unwrap();
    // The second track runs at the tempo the first one set: 250 000 us per beat
    assert_eq!(
        seq.events,
        vec![
            TimedMidiEvent { time_us: 125_000, note: 67, velocity: 80, is_on: true },
            TimedMidiEvent { time_us: 250_000, note: 60, velocity: 90, is_on: true },
            TimedMidiEvent { time_us: 250_000, note: 67, velocity: 0, is_on: false },
            TimedMidiEvent { time_us: 500_000, note: 60, velocity: 0, is_on: false },
        ]
    );
    assert_eq!(seq.duration_us, 500_000);
    assert_eq!(seq.name, "Merged");
}

#[test]
fn time_is_computed_before_the_tempo_changes() {
    let t0 = vec![
        ev(96, MidiEventKind::Tempo(1_000_000)),
        ev(0, MidiEventKind::NoteOn { key: 60, vel: 1 }),
    ];
    let seq = MidiSequence::from_tracks(MidiTiming::Metrical(96), &vec![t0], "T".into()).unwrap();
    // The note at tick 96 is timed with the new tempo
    assert_eq!(seq.events[0].time_us, 1_000_000);
}

#[test]
fn smpte_timing_uses_frames_times_subframes() {
    let t0 = vec![ev(100, MidiEventKind::NoteOn { key: 60, vel: 64 })];
    let seq = MidiSequence::from_tracks(MidiTiming::Timecode(25, 4), &vec![t0], "S".into())
        .unwrap();
    // 100 ticks at 100 ticks per beat and 500 000 us per beat
    assert_eq!(seq.events[0].time_us, 500_000);
}

#[test]
fn zero_ticks_per_beat_puts_everything_at_zero() {
    let t0 = vec![ev(100, MidiEventKind::NoteOn { key: 60, vel: 64 })];
    let seq = MidiSequence::from_tracks(MidiTiming::Metrical(0), &vec![t0], "Z".into()).unwrap();
    assert_eq!(seq.events[0].time_us, 0);
    assert_eq!(seq.duration_us, 0);
}

#[test]
fn empty_file_has_zero_duration() {
    let seq = MidiSequence::from_tracks(MidiTiming::Metrical(96), &vec![], "E".into()).unwrap();
    assert!(seq.events.is_empty());
    assert_eq!(seq.duration_us, 0);
}

#[test]
fn huge_times_are_refused() {
    let t0 = vec![
        ev(u32::MAX, MidiEventKind::Tempo(16_777_215)),
        ev(u32::MAX, MidiEventKind::Other),
        ev(u32::MAX, MidiEventKind::NoteOn { key: 1, vel: 1 }),
    ];
    let long: Vec<MidiTrackEvent> = std::iter::repeat(t0).take(200).flatten().collect();
    let r = MidiSequence::from_tracks(MidiTiming::Metrical(1), &vec![long], "H".into());
    assert_eq!(r.err(), Some(MidiError::TimeOverflow));
}

fn small_midi_file() -> Vec<u8> {
    let mut track = vec![
        0x00, 0xFF, 0x51, 0x03, 0x07, 0xA1, 0x20, // tempo 500 000
        0x00, 0x90, 0x3C, 0x64, // note on C4
        0x60, 0x80, 0x3C, 0x40, // 96 ticks later, note off
        0x00, 0xFF, 0x2F, 0x00, // end of track
    ];
    let mut data = b"MThd".to_vec();
    data.extend_from_slice(&[0, 0, 0, 6, 0, 0, 0, 1, 0, 96]);
    data.extend_from_slice(b"MTrk");
    data.extend_from_slice(&(track.len() as u32).to_be_bytes());
    data.append(&mut track);
    data
}

#[test]
fn parses_a_standard_midi_file() {
    let seq = MidiSequence::parse(&small_midi_file(), "Small".into()).unwrap();
    assert_eq!(
        seq.events,
        vec![
            TimedMidiEvent { time_us: 0, note: 60, velocity: 100, is_on: true },
            TimedMidiEvent { time_us: 500_000, note: 60, velocity: 0, is_on: false },
        ]
    );
    assert_eq!(seq.duration_us, 500_000);
    assert_eq!(seq.name, "Small");
}

#[test]
fn refuses_bytes_that_are_not_midi() {
    let r = MidiSequence::parse(b"not a midi file", "X".into());
    assert_eq!(r.err(), Some(MidiError::Parse));
}

#[test]
fn many_polls_hand_out_the_events_due_by_the_last_reading() {
    let seq = two_note_sequence();
    let readings = [0u64, 50, 50, 120, 199, 250];
    let mut player = MidiPlayer::new();
    player.load(two_note_sequence());
    player.play();
    let mut all = Vec::new();
    for t in readings {
        let got = player.poll_at(t);
        assert!(got.iter().all(|e| e.time_us <= t));
        all.extend(got);
    }
    let due = seq.events.iter().filter(|e| e.time_us <= 250).count();
    assert_eq!(due, 3);
    assert_eq!(all, seq.events[..due].to_vec());
    assert!(player.is_playing());
}

#[test]
fn pause_at_keeps_the_position_and_play_resumes_there() {
    let mut player = MidiPlayer::new();
    player.load(two_note_sequence());
    player.play();
    assert_eq!(player.poll_at(150).len(), 2);
    player.pause_at(150);
    assert!(!player.is_playing());
    assert_eq!(player.position_us(), 150);
    player.play();
    assert!(player.is_playing());
    assert_eq!(player.poll_at(1000), vec![note(200, 60, false), note(300, 64, false)]);
}

#[test]
fn resuming_runs_on_from_the_paused_position() {
    let mut player = MidiPlayer::new();
    player.load(two_note_sequence());
    player.play();
    assert_eq!(player.poll_at(120).len(), 2);
    player.pause_at(150);
    player.play();
    let pos = player.position_us();
    assert!(pos >= 150);
    assert!(pos < 150 + 5_000_000);
    // Nothing handed out before the pause comes again, and the events due
    // from the paused position on follow.
    assert_eq!(player.poll_at(250), vec![note(200, 60, false)]);
}

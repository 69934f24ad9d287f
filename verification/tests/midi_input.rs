use synth_core::midi_input::{parse_midi, MidiMessage};

#[test]
fn midi_input_notes_on_any_channel() {
    assert_eq!(parse_midi(&[0x90, 60, 100]), Some(MidiMessage::NoteOn { note: 60, velocity: 100 }));
    assert_eq!(parse_midi(&[0x9F, 61, 1]), Some(MidiMessage::NoteOn { note: 61, velocity: 1 }));
    assert_eq!(parse_midi(&[0x80, 60, 64]), Some(MidiMessage::NoteOff { note: 60 }));
    // a note-on with velocity 0 is a note-off
    assert_eq!(parse_midi(&[0x93, 62, 0]), Some(MidiMessage::NoteOff { note: 62 }));
}

#[test]
fn midi_input_pitch_bend() {
    assert_eq!(parse_midi(&[0xE0, 0x00, 0x40]), Some(MidiMessage::PitchBend { value: 8192 }));
    assert_eq!(parse_midi(&[0xE5, 0x7F, 0x7F]), Some(MidiMessage::PitchBend { value: 16383 }));
    assert_eq!(parse_midi(&[0xE0, 0x01, 0x00]), Some(MidiMessage::PitchBend { value: 1 }));
}

#[test]
fn midi_input_ignores_short_and_other_messages() {
    assert_eq!(parse_midi(&[]), None);
    assert_eq!(parse_midi(&[0x90, 60]), None);
    assert_eq!(parse_midi(&[0xB0, 7, 100]), None); // control change
    assert_eq!(parse_midi(&[0xC0, 5, 0]), None); // program change
    assert_eq!(parse_midi(&[0xF8, 0, 0]), None); // clock
}

use synth_core::keyboard::{computer_keys, KeyboardResult, PianoKeyboard};
use synth_core::midi_input::MidiMessage;

#[test]
fn keyboard_layout_of_one_octave() {
    let kb = PianoKeyboard::new(4, 1);
    let keys = kb.key_layout();
    assert_eq!(keys.len(), 12);
    let whites: Vec<(u8, u32)> = keys[..7].iter().map(|k| (k.midi_note, k.white_index)).collect();
    assert_eq!(whites, vec![(48, 0), (50, 1), (52, 2), (53, 3), (55, 4), (57, 5), (59, 6)]);
    assert!(keys[..7].iter().all(|k| !k.is_black));
    let blacks: Vec<(u8, u32)> = keys[7..].iter().map(|k| (k.midi_note, k.white_index)).collect();
    assert_eq!(blacks, vec![(49, 1), (51, 2), (54, 4), (56, 5), (58, 6)]);
    assert!(keys[7..].iter().all(|k| k.is_black));
}

#[test]
fn keyboard_layout_of_two_octaves() {
    let kb = PianoKeyboard::new(3, 2);
    let keys = kb.key_layout();
    assert_eq!(keys.len(), 24);
    assert_eq!(keys[7].midi_note, 48);
    assert_eq!(keys[7].white_index, 7);
    assert_eq!(keys[13].midi_note, 59);
    assert_eq!(keys[14 + 5].midi_note, 49);
    assert_eq!(keys[14 + 5].white_index, 8);
}

#[test]
fn keyboard_pointer_press_drag_release() {
    let kb = PianoKeyboard::new(4, 2);
    let mut held = None;
    let r = kb.pointer(true, Some(60), &mut held);
    assert_eq!(r, KeyboardResult { note_on: Some(60), note_off: None });
    assert_eq!(held, Some(60));
    // holding on the same key does nothing
    let r = kb.pointer(true, Some(60), &mut held);
    assert_eq!(r, KeyboardResult { note_on: None, note_off: None });
    // dragging onto another key: glissando
    let r = kb.pointer(true, Some(62), &mut held);
    assert_eq!(r, KeyboardResult { note_on: Some(62), note_off: Some(60) });
    // dragging off the keys keeps the note
    let r = kb.pointer(true, None, &mut held);
    assert_eq!(r, KeyboardResult { note_on: None, note_off: None });
    assert_eq!(held, Some(62));
    // release
    let r = kb.pointer(false, Some(62), &mut held);
    assert_eq!(r, KeyboardResult { note_on: None, note_off: Some(62) });
    assert_eq!(held, None);
    let r = kb.pointer(false, None, &mut held);
    assert_eq!(r, KeyboardResult { note_on: None, note_off: None });
}

#[test]
fn computer_keys_press_hold_release() {
    let mut held = Vec::new();
    let out = computer_keys(&mut held, &[(60, true, false), (64, true, false)]);
    assert_eq!(
        out,
        vec![
            MidiMessage::NoteOn { note: 60, velocity: 100 },
            MidiMessage::NoteOn { note: 64, velocity: 100 }
        ]
    );
    assert_eq!(held, vec![60, 64]);
    // auto-repeat and a second press of a held key do nothing
    assert_eq!(computer_keys(&mut held, &[(60, true, true), (60, true, false)]), vec![]);
    assert_eq!(held, vec![60, 64]);
    let out = computer_keys(&mut held, &[(60, false, false)]);
    assert_eq!(out, vec![MidiMessage::NoteOff { note: 60 }]);
    assert_eq!(held, vec![64]);
    // releasing a key that is not held does nothing
    assert_eq!(computer_keys(&mut held, &[(61, false, false)]), vec![]);
}

#[test]
fn computer_keys_release_and_press_in_one_frame_keeps_the_note() {
    let mut held = vec![60];
    let out = computer_keys(&mut held, &[(60, false, false), (60, true, false)]);
    assert_eq!(out, vec![]);
    assert_eq!(held, vec![60]);
}

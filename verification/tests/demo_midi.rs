use synth_core::demo_midi::{demo_chord_midi, demo_melody_midi, write_variable_length};
use synth_core::midi_file::MidiSequence;

fn vlq(v: u32) -> Vec<u8> {
    let mut buf = vec![0xAA];
    write_variable_length(&mut buf, v);
    buf.remove(0);
    buf
}

#[test]
fn variable_length_examples() {
    assert_eq!(vlq(0), vec![0x00]);
    assert_eq!(vlq(0x7F), vec![0x7F]);
    assert_eq!(vlq(0x80), vec![0x81, 0x00]);
    assert_eq!(vlq(480), vec![0x83, 0x60]);
    assert_eq!(vlq(0x3FFF), vec![0xFF, 0x7F]);
    assert_eq!(vlq(0x4000), vec![0x81, 0x80, 0x00]);
    assert_eq!(vlq(0x0FFF_FFFF), vec![0xFF, 0xFF, 0xFF, 0x7F]);
    assert_eq!(vlq(u32::MAX), vec![0x8F, 0xFF, 0xFF, 0xFF, 0x7F]);
}

#[test]
fn variable_length_round_trip() {
    for v in [0u32, 1, 127, 128, 300, 16_383, 16_384, 2_097_151, 2_097_152, 123_456_789, u32::MAX] {
        let bytes = vlq(v);
        let decoded = bytes.iter().fold(0u64, |acc, b| acc * 128 + (b & 0x7F) as u64);
        assert_eq!(decoded, v as u64);
        assert!(bytes[..bytes.len() - 1].iter().all(|b| b & 0x80 != 0));
        assert!(bytes[bytes.len() - 1] & 0x80 == 0);
    }
}

#[test]
fn demo_melody_file_layout() {
    let data = demo_melody_midi();
    assert_eq!(&data[..14], &[b'M', b'T', b'h', b'd', 0, 0, 0, 6, 0, 0, 0, 1, 0x01, 0xE0]);
    assert_eq!(&data[14..18], b"MTrk");
    let len = u32::from_be_bytes([data[18], data[19], data[20], data[21]]) as usize;
    assert_eq!(data.len(), 22 + len);
    assert_eq!(&data[22..29], &[0x00, 0xFF, 0x51, 0x03, 0x07, 0xA1, 0x20]);
    assert_eq!(&data[29..37], &[0x00, 0x90, 64, 100, 0x83, 0x60, 0x80, 64]);
    assert_eq!(&data[data.len() - 4..], &[0x00, 0xFF, 0x2F, 0x00]);
}

#[test]
fn demo_melody_parses_to_fifteen_notes() {
    let data = demo_melody_midi();
    let seq = MidiSequence::parse(&data, "demo".to_string()).unwrap();
    let ons: Vec<u8> = seq.events.iter().filter(|e| e.is_on).map(|e| e.note).collect();
    assert_eq!(ons, vec![64, 64, 65, 67, 67, 65, 64, 62, 60, 60, 62, 64, 64, 62, 62]);
    // 480 ticks per beat at 500000 us per beat: a quarter note lasts 0.5 s
    let first_off = seq.events.iter().find(|e| !e.is_on).unwrap();
    assert_eq!(first_off.time_us, 500_000);
    // 16 beats in all
    assert_eq!(seq.duration_us, 8_000_000);
}

#[test]
fn demo_chords_parse_to_sixteen_notes() {
    let data = demo_chord_midi();
    assert_eq!(&data[22..29], &[0x00, 0xFF, 0x51, 0x03, 0x0A, 0x2C, 0x2B]);
    let seq = MidiSequence::parse(&data, "chords".to_string()).unwrap();
    let ons = seq.events.iter().filter(|e| e.is_on).count();
    let offs = seq.events.iter().filter(|e| !e.is_on).count();
    assert_eq!(ons, 16);
    assert_eq!(offs, 16);
    // the first chord starts together
    let first: Vec<(u64, u8)> = seq.events.iter().take(3).map(|e| (e.time_us, e.note)).collect();
    assert_eq!(first, vec![(0, 60), (0, 64), (0, 67)]);
}

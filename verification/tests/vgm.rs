use synth_core::vgm::{create_test_vgm_sn76489, TimedCommand, VgmCommand, VgmError, VgmFile};
use synth_core::vgm_extract::{
    extract, extract_sn76489, samples_to_us, ExtractChip, KeyPitch,
};

#[test]
fn parse_synthetic_sn76489() {
    let data = create_test_vgm_sn76489();
    let vgm = VgmFile::parse(&data).unwrap();
    assert_eq!(vgm.header.version, 0x150);
    assert_eq!(vgm.chips_used.len(), 1);
    assert_eq!(vgm.chips_used[0].name, "SN76489");
    assert!(vgm.chips_used[0].write_count > 0);
}

#[test]
fn extract_sn76489_writes() {
    let data = create_test_vgm_sn76489();
    let vgm = VgmFile::parse(&data).unwrap();

    let sn_writes: Vec<_> = vgm
        .commands
        .iter()
        .filter_map(|tc| match &tc.command {
            VgmCommand::Sn76489Write { data } => Some((tc.sample_pos, *data)),
            _ => None,
        })
        .collect();

    assert!(
        sn_writes.len() >= 16,
        "Should have note-on + note-off pairs"
    );
    // First write should be a latch byte (bit 7 set)
    assert!(sn_writes[0].1 & 0x80 != 0, "First byte should be a latch");
}

#[test]
fn duration_calculation() {
    let data = create_test_vgm_sn76489();
    let vgm = VgmFile::parse(&data).unwrap();
    let dur = vgm.header.total_samples as f64 / 44100.0;
    assert!(
        dur > 2.0 && dur < 5.0,
        "Scale should be ~2.4 seconds, got {}",
        dur
    );
}

fn midi_note_for_sn_period(clock: u32, period: u32) -> u8 {
    let hz = clock as f64 / (32.0 * period as f64);
    let note = 69.0 + 12.0 * (hz / 440.0).log2();
    note.round().clamp(0.0, 127.0) as u8
}

#[test]
fn extract_from_synthetic_sn76489() {
    let data = create_test_vgm_sn76489();
    let vgm_file = VgmFile::parse(&data).unwrap();
    let extractions = extract(&vgm_file);

    assert_eq!(extractions.len(), 1);
    let ext = &extractions[0];
    assert_eq!(ext.chip, ExtractChip::Sn76489);
    assert!(!ext.events.is_empty(), "Should extract note events");

    // Should have note-on and note-off events for 8 notes
    let on_events: Vec<_> = ext.events.iter().filter(|e| e.is_on).collect();
    let off_events: Vec<_> = ext.events.iter().filter(|e| !e.is_on).collect();
    assert_eq!(on_events.len(), 8, "Should have 8 note-on events for C major scale");
    assert_eq!(off_events.len(), 8, "Should have 8 note-off events");

    // First note should be around C4 (MIDI 60)
    let first_note = match on_events[0].pitch {
        KeyPitch::Register(p) => midi_note_for_sn_period(vgm_file.header.sn76489_clock, p),
        KeyPitch::Note(n) => n,
    };
    assert!(
        first_note >= 58 && first_note <= 62,
        "First note should be ~C4, got MIDI {}",
        first_note
    );
    assert_eq!(ext.duration_us, samples_to_us(vgm_file.header.total_samples as u64));
}

#[test]
fn synthetic_file_has_the_scale_periods() {
    let data = create_test_vgm_sn76489();
    let vgm = VgmFile::parse(&data).unwrap();
    let events = extract_sn76489(&vgm.commands);
    let periods: Vec<u32> = events
        .iter()
        .filter(|e| e.is_on)
        .map(|e| match e.pitch {
            KeyPitch::Register(p) => p,
            KeyPitch::Note(_) => 0,
        })
        .collect();
    assert_eq!(periods, vec![428, 381, 339, 320, 285, 254, 226, 214]);
    // Each note-off ends the note that was playing, with its period
    for pair in events.chunks(2) {
        assert!(pair[0].is_on && !pair[1].is_on);
        assert_eq!(pair[0].pitch, pair[1].pitch);
        assert!(pair[0].time_us <= pair[1].time_us);
        assert_eq!(pair[0].velocity, 120);
        assert_eq!(pair[1].velocity, 0);
    }
}

#[test]
fn synthetic_file_layout() {
    let data = create_test_vgm_sn76489();
    assert_eq!(data.len(), 369);
    assert_eq!(&data[0..4], b"Vgm ");
    assert_eq!(*data.last().unwrap(), 0x66);
    let vgm = VgmFile::parse(&data).unwrap();
    assert_eq!(vgm.header.sn76489_clock, 3_579_545);
    assert_eq!(vgm.header.total_samples, 8 * (11025 + 2205));
    assert_eq!(vgm.commands.last().unwrap().command, VgmCommand::End);
}

#[test]
fn stamps_follow_the_waits() {
    let data = create_test_vgm_sn76489();
    let vgm = VgmFile::parse(&data).unwrap();
    let mut t: u64 = 0;
    for tc in &vgm.commands {
        if let VgmCommand::Wait { samples } = tc.command {
            t += samples as u64;
        }
        assert_eq!(tc.sample_pos, t);
    }
    assert_eq!(t, vgm.header.total_samples as u64);
}

#[test]
fn too_short_is_refused() {
    assert_eq!(VgmFile::parse(&[0u8; 63]).err(), Some(VgmError::TooShort));
    assert_eq!(VgmError::TooShort.message(), "VGM file too short");
}

#[test]
fn bad_magic_is_refused() {
    let mut data = create_test_vgm_sn76489();
    data[0] = b'X';
    assert_eq!(VgmFile::parse(&data).err(), Some(VgmError::BadMagic));
}

#[test]
fn decode_reads_plain_and_gzipped_files() {
    let data = create_test_vgm_sn76489();
    let plain = VgmFile::decode(&data, false).unwrap();
    let mut enc = flate2::write::GzEncoder::new(Vec::new(), flate2::Compression::default());
    std::io::Write::write_all(&mut enc, &data).unwrap();
    let gz = enc.finish().unwrap();
    assert_eq!(&gz[0..2], &[0x1f, 0x8b]);
    let unpacked = VgmFile::decode(&gz, false).unwrap();
    assert_eq!(unpacked.commands, plain.commands);
    assert_eq!(unpacked.header, plain.header);
    // Gzipped data whose name says .vgz
    let by_name = VgmFile::decode(&gz, true).unwrap();
    assert_eq!(by_name.commands.len(), plain.commands.len());
}

#[test]
fn decode_refuses_broken_gzip() {
    let junk = [0x1fu8, 0x8b, 1, 2, 3, 4, 5];
    assert_eq!(VgmFile::decode(&junk, false).err(), Some(VgmError::Decompress));
    let data = create_test_vgm_sn76489();
    assert_eq!(VgmFile::decode(&data, true).err(), Some(VgmError::Decompress));
}

#[test]
fn samples_convert_to_microseconds() {
    assert_eq!(samples_to_us(44100), 1_000_000);
    assert_eq!(samples_to_us(735), 16_666);
    assert_eq!(samples_to_us(0), 0);
}

fn cmd(sample_pos: u64, command: VgmCommand) -> TimedCommand {
    TimedCommand { sample_pos, command }
}

#[test]
fn sn76489_latch_and_data_bytes_build_the_period() {
    let cmds = vec![
        cmd(0, VgmCommand::Sn76489Write { data: 0x80 | 0x0C }), // tone 0, low nibble 0xC
        cmd(0, VgmCommand::Sn76489Write { data: 0x1A }),        // high six bits 0x1A
        cmd(44100, VgmCommand::Sn76489Write { data: 0x90 | 0x03 }), // tone 0 volume 3
        cmd(88200, VgmCommand::Sn76489Write { data: 0x90 | 0x0F }), // silent
    ];
    let ev = extract_sn76489(&cmds);
    assert_eq!(ev.len(), 2);
    assert_eq!(ev[0].pitch, KeyPitch::Register(0x1AC));
    assert_eq!(ev[0].time_us, 1_000_000);
    assert_eq!(ev[0].velocity, 96);
    assert_eq!(ev[0].channel, 0);
    assert!(!ev[1].is_on);
    assert_eq!(ev[1].time_us, 2_000_000);
}

#[test]
fn sn76489_zero_period_does_not_key_on() {
    let cmds = vec![cmd(0, VgmCommand::Sn76489Write { data: 0x90 })];
    assert!(extract_sn76489(&cmds).is_empty());
}

#[test]
fn sn76489_noise_latch_is_ignored() {
    let cmds = vec![
        cmd(0, VgmCommand::Sn76489Write { data: 0xE0 | 0x04 }),
        cmd(0, VgmCommand::Sn76489Write { data: 0xF0 }),
        cmd(0, VgmCommand::Sn76489Write { data: 0x3F }),
    ];
    assert!(extract_sn76489(&cmds).is_empty());
}

#[test]
fn header_word_cut_short_by_the_end_reads_zero() {
    // 0xB2 bytes: long enough for the POKEY field to be looked at (> 0xB0),
    // too short for its four bytes, so it reads as 0.
    let mut data = vec![0u8; 0xB2];
    data[0..4].copy_from_slice(b"Vgm ");
    data[0x08] = 0x50;
    data[0x09] = 0x01;
    data[0xB0] = 0x12;
    data[0xB1] = 0x34;
    data[0x40] = 0x66;
    let vgm = VgmFile::parse(&data).unwrap();
    assert_eq!(vgm.header.version, 0x150);
    assert_eq!(vgm.header.pokey_clock, 0);
}

#[test]
fn long_waits_keep_exact_sample_positions() {
    let mut data = vec![0u8; 0x40];
    data[0..4].copy_from_slice(b"Vgm ");
    for _ in 0..4 {
        data.extend_from_slice(&[0x61, 0xFF, 0xFF]);
    }
    data.push(0x66);
    let vgm = VgmFile::parse(&data).unwrap();
    let stamps: Vec<u64> = vgm.commands.iter().map(|tc| tc.sample_pos).collect();
    assert_eq!(stamps, vec![65535, 131070, 196605, 262140, 262140]);
    assert_eq!(VgmError::TooLarge.message(), "VGM sample positions overflow");
}

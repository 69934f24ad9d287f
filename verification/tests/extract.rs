use synth_core::sid_extract::{
    analyze_sid_writes, sid_capture, sid_load_address, sid_memory_image, waveform_name,
    waveform_param, SidError, SidHeader, SidInfo, SidWrite,
};
use synth_core::vgm::{TimedCommand, VgmCommand};
use synth_core::vgm_extract::{
    extract_ay8910, extract_nes_apu, extract_pokey, extract_ym2151, extract_ym2612, KeyEvent,
    KeyPitch,
};

fn cmd(sample_pos: u64, command: VgmCommand) -> TimedCommand {
    TimedCommand { sample_pos, command }
}

fn ay(pos: u64, reg: u8, data: u8) -> TimedCommand {
    cmd(pos, VgmCommand::Ay8910Write { reg, data })
}

#[test]
fn ay8910_volume_keys_notes() {
    let cmds = vec![
        ay(0, 2, 0x34),
        ay(0, 3, 0x12),   // channel 1 period 0x234
        ay(441, 9, 0x0A), // channel 1 volume 10: key-on
        ay(882, 9, 0x00), // key-off
        ay(900, 8, 0x05), // channel 0 has period 0: no key-on
    ];
    let ev = extract_ay8910(&cmds);
    assert_eq!(
        ev,
        vec![
            KeyEvent { time_us: 10_000, channel: 1, pitch: KeyPitch::Register(0x234), velocity: 80, is_on: true },
            KeyEvent { time_us: 20_000, channel: 1, pitch: KeyPitch::Register(0x234), velocity: 0, is_on: false },
        ]
    );
}

#[test]
fn pokey_control_volume_keys_notes() {
    let cmds = vec![
        cmd(0, VgmCommand::PokeyWrite { reg: 4, data: 99 }),
        cmd(0, VgmCommand::PokeyWrite { reg: 5, data: 0xA7 }),
        cmd(44100, VgmCommand::PokeyWrite { reg: 5, data: 0xA0 }),
        cmd(44100, VgmCommand::PokeyWrite { reg: 1, data: 0x0F }),
    ];
    let ev = extract_pokey(&cmds);
    assert_eq!(
        ev,
        vec![
            KeyEvent { time_us: 0, channel: 2, pitch: KeyPitch::Register(99), velocity: 56, is_on: true },
            KeyEvent { time_us: 1_000_000, channel: 2, pitch: KeyPitch::Register(99), velocity: 0, is_on: false },
        ]
    );
}

#[test]
fn nes_length_loads_retrigger() {
    let cmds = vec![
        cmd(0, VgmCommand::NesApuWrite { reg: 0x02, data: 0xFD }),
        cmd(0, VgmCommand::NesApuWrite { reg: 0x03, data: 0x00 }), // pulse 1 period 0xFD
        cmd(10, VgmCommand::NesApuWrite { reg: 0x03, data: 0x01 }), // retrigger, period 0x1FD
        cmd(20, VgmCommand::NesApuWrite { reg: 0x0F, data: 0x00 }), // noise
        cmd(30, VgmCommand::NesApuWrite { reg: 0x40, data: 0x00 }), // out of range, ignored
    ];
    let ev = extract_nes_apu(&cmds);
    let t10 = 10 * 1_000_000 / 44100;
    let t20 = 20 * 1_000_000 / 44100;
    assert_eq!(
        ev,
        vec![
            KeyEvent { time_us: 0, channel: 0, pitch: KeyPitch::Register(0xFD), velocity: 100, is_on: true },
            KeyEvent { time_us: t10, channel: 0, pitch: KeyPitch::Register(0xFD), velocity: 0, is_on: false },
            KeyEvent { time_us: t10, channel: 0, pitch: KeyPitch::Register(0x1FD), velocity: 100, is_on: true },
            KeyEvent { time_us: t20, channel: 3, pitch: KeyPitch::Note(60), velocity: 100, is_on: true },
        ]
    );
}

#[test]
fn nes_zero_period_plays_note_60() {
    let cmds = vec![cmd(0, VgmCommand::NesApuWrite { reg: 0x0B, data: 0x00 })];
    let ev = extract_nes_apu(&cmds);
    assert_eq!(ev[0].pitch, KeyPitch::Note(60));
    assert_eq!(ev[0].channel, 2);
}

#[test]
fn ym2151_key_code_gives_the_note() {
    let cmds = vec![
        cmd(0, VgmCommand::Ym2151Write { reg: 0x20, data: 0x3D }), // fb 7, algo 5
        cmd(0, VgmCommand::Ym2151Write { reg: 0x2B, data: 0x4A }), // ch 3: octave 4, code 10
        cmd(0, VgmCommand::Ym2151Write { reg: 0x08, data: 0x78 | 3 }),
        cmd(44100, VgmCommand::Ym2151Write { reg: 0x08, data: 3 }),
    ];
    let (ev, patch) = extract_ym2151(&cmds);
    assert_eq!(
        ev,
        vec![
            KeyEvent { time_us: 0, channel: 3, pitch: KeyPitch::Note(58), velocity: 100, is_on: true },
            KeyEvent { time_us: 1_000_000, channel: 3, pitch: KeyPitch::Note(58), velocity: 0, is_on: false },
        ]
    );
    assert_eq!(patch, Some((5, 7)));
}

#[test]
fn ym2151_without_keys_has_no_patch() {
    let cmds = vec![cmd(0, VgmCommand::Ym2151Write { reg: 0x20, data: 0x3D })];
    let (ev, patch) = extract_ym2151(&cmds);
    assert!(ev.is_empty());
    assert_eq!(patch, None);
}

fn p0(reg: u8, data: u8) -> TimedCommand {
    cmd(0, VgmCommand::Ym2612Port0 { reg, data })
}

#[test]
fn ym2612_keys_and_voices() {
    let cmds = vec![
        p0(0xA4, (3 << 3) | 0x02), // block 3, F-number high bits 2
        p0(0xA0, 0x80),            // F-number 0x280
        p0(0xB0, (6 << 3) | 4),    // feedback 6, algorithm 4
        p0(0x40, 0xFF),            // operator 1 total level
        p0(0x28, 0xF0),            // key on channel 0
        p0(0x28, 0xF0),            // again: same voice is not collected twice
        p0(0x28, 0x00),            // key off
        p0(0x28, 0xF1),            // key on channel 1 (no frequency)
        cmd(0, VgmCommand::Ym2612Port1 { reg: 0xB0, data: 1 }),
        p0(0x28, 0xF4),            // channel 3 (port 1, first channel)
        p0(0x28, 0xF3),            // code 3 addresses no channel
    ];
    let (ev, patches) = extract_ym2612(&cmds, 44100);
    let on: Vec<(u8, KeyPitch)> = ev.iter().filter(|e| e.is_on).map(|e| (e.channel, e.pitch)).collect();
    assert_eq!(
        on,
        vec![
            (0, KeyPitch::Register(0x280 << 3)),
            (0, KeyPitch::Register(0x280 << 3)),
            (1, KeyPitch::Register(0)),
            (3, KeyPitch::Register(0)),
        ]
    );
    // Notes still sounding end with the file
    let offs: Vec<(u8, u64)> = ev.iter().filter(|e| !e.is_on).map(|e| (e.channel, e.time_us)).collect();
    assert_eq!(offs, vec![(0, 0), (1, 1_000_000), (3, 1_000_000)]);
    assert_eq!(patches.len(), 3);
    assert_eq!((patches[0].algo, patches[0].fb), (4, 6));
    assert_eq!(patches[0].op1.tl, 0x7F);
    assert_eq!((patches[1].algo, patches[1].fb), (0, 0));
    assert_eq!((patches[2].algo, patches[2].fb), (1, 0));
}

fn sid_write(frame: u32, reg: u8, value: u8) -> SidWrite {
    SidWrite { frame, reg, value }
}

#[test]
fn sid_gate_bits_key_notes() {
    let writes = vec![
        sid_write(0, 0, 0x34),
        sid_write(0, 1, 0x12),
        sid_write(0, 5, 0x29),
        sid_write(0, 6, 0xA9),
        sid_write(0, 2, 0x00),
        sid_write(0, 3, 0x18), // pulse width high nibble 8
        sid_write(1, 4, 0x41), // pulse + gate
        sid_write(2, 4, 0x41), // gate stays on
        sid_write(3, 4, 0x40), // gate off
        sid_write(3, 4 + 7, 0x21), // voice 1 gate on with frequency 0
        sid_write(4, 0x18, 0x0F), // volume register: ignored
    ];
    let (ev, regs) = analyze_sid_writes(&writes);
    assert_eq!(
        ev,
        vec![
            KeyEvent { time_us: 20_000, channel: 0, pitch: KeyPitch::Register(0x1234), velocity: 100, is_on: true },
            KeyEvent { time_us: 60_000, channel: 0, pitch: KeyPitch::Register(0x1234), velocity: 0, is_on: false },
            KeyEvent { time_us: 60_000, channel: 1, pitch: KeyPitch::Register(0), velocity: 100, is_on: true },
        ]
    );
    assert_eq!(regs.control, 0x40);
    assert_eq!(regs.pulse_width, 0x800);
    assert_eq!(regs.attack_decay, 0x29);
    assert_eq!(regs.sustain_release, 0xA9);
    assert_eq!(waveform_name(regs.control), "Pulse");
    assert_eq!(waveform_param(regs.control), 2);
    assert_eq!(waveform_name(0x30), "Mixed");
    assert_eq!(waveform_param(0x30), 1);
}

fn sid_file(name: &str, author: &str) -> Vec<u8> {
    let mut raw = vec![0u8; 0x7C];
    raw[0..4].copy_from_slice(b"PSID");
    raw[4..6].copy_from_slice(&2u16.to_be_bytes());
    raw[6..8].copy_from_slice(&0x7Cu16.to_be_bytes());
    raw[8..10].copy_from_slice(&0x1000u16.to_be_bytes());
    raw[10..12].copy_from_slice(&0x1003u16.to_be_bytes());
    raw[12..14].copy_from_slice(&0x1006u16.to_be_bytes());
    raw[14..16].copy_from_slice(&19u16.to_be_bytes());
    raw[16..18].copy_from_slice(&1u16.to_be_bytes());
    raw[0x16..0x16 + name.len()].copy_from_slice(name.as_bytes());
    raw[0x36..0x36 + author.len()].copy_from_slice(author.as_bytes());
    raw.extend_from_slice(&[0xA9, 0x00, 0x60]);
    raw
}

#[test]
fn parse_sid_header() {
    let raw = sid_file("Commando", "Rob Hubbard");
    let header = SidHeader::parse(&raw).unwrap();
    assert_eq!(header.name, "Commando");
    assert_eq!(header.author, "Rob Hubbard");
    assert_eq!(header.songs, 19);
    assert!(header.init_addr > 0);
    assert!(header.play_addr > 0);
    assert_eq!(header.version, 2);
    assert_eq!(header.load_addr, 0x1000);
    assert_eq!(header.default_song, 1);
    assert_eq!(header.data, vec![0xA9, 0x00, 0x60]);
}

#[test]
fn sid_header_refusals() {
    assert!(matches!(SidHeader::parse(&[0u8; 0x75]), Err(SidError::TooShort)));
    let mut raw = sid_file("X", "Y");
    raw[0] = b'Q';
    assert!(matches!(SidHeader::parse(&raw), Err(SidError::BadMagic)));
    raw[0] = b'R';
    assert!(SidHeader::parse(&raw).is_ok());
    assert_eq!(SidError::BadMagic.message(), "Not a SID file (bad magic)");
}

#[test]
fn sid_header_without_data() {
    let mut raw = sid_file("A", "B");
    raw[6..8].copy_from_slice(&0x200u16.to_be_bytes());
    let header = SidHeader::parse(&raw).unwrap();
    assert!(header.data.is_empty());
}

#[test]
fn sid_text_keeps_inner_nuls_and_replaces_bad_bytes() {
    let mut raw = sid_file("", "");
    raw[0x16..0x1B].copy_from_slice(&[b'a', 0, b'b', 0xFF, b'c']);
    let header = SidHeader::parse(&raw).unwrap();
    assert_eq!(header.name, "a\0b\u{FFFD}c");
    assert_eq!(header.author, "");
}

#[test]
fn sid_info_from_header() {
    let header = SidHeader::parse(&sid_file("Commando", "Rob Hubbard")).unwrap();
    let info = SidInfo::from_header(&header);
    assert_eq!(info.name, "Commando");
    assert_eq!(info.author, "Rob Hubbard");
    assert_eq!(info.songs, 19);
    assert_eq!(info.default_song, 1);
}

#[test]
fn sid_memory_image_at_header_address() {
    let header = SidHeader::parse(&sid_file("A", "B")).unwrap();
    assert_eq!(sid_load_address(&header), Some(0x1000));
    let mem = sid_memory_image(&header).unwrap();
    assert_eq!(mem.len(), 0x10000);
    assert_eq!(&mem[0x1000..0x1003], &[0xA9, 0x00, 0x60]);
    assert_eq!(mem[0x0FFF], 0);
    assert_eq!(mem[0x1003], 0);
    assert_eq!(mem[0xFFF0], 0x60);
    assert_eq!(&mem[0xFFFA..], &[0xF0, 0xFF, 0xF0, 0xFF, 0xF0, 0xFF]);
    assert_eq!(&mem[0x01FE..0x0200], &[0xEF, 0xFF]);
}

#[test]
fn sid_memory_image_with_embedded_address() {
    let mut raw = sid_file("A", "B");
    raw[8..10].copy_from_slice(&0u16.to_be_bytes());
    raw.truncate(0x7C);
    raw.extend_from_slice(&[0x00, 0x20, 0xEA, 0x60]); // load at $2000
    let header = SidHeader::parse(&raw).unwrap();
    assert_eq!(sid_load_address(&header), Some(0x2000));
    let mem = sid_memory_image(&header).unwrap();
    assert_eq!(&mem[0x2000..0x2002], &[0xEA, 0x60]);
    assert_eq!(mem[0x2002], 0);
    // no room for the embedded address: nothing to run
    raw.truncate(0x7C + 1);
    let header = SidHeader::parse(&raw).unwrap();
    assert_eq!(sid_load_address(&header), None);
    assert!(sid_memory_image(&header).is_none());
}

#[test]
fn sid_memory_image_cut_at_end_of_memory() {
    let mut raw = sid_file("A", "B");
    raw[8..10].copy_from_slice(&0xFFFEu16.to_be_bytes());
    let header = SidHeader::parse(&raw).unwrap();
    let mem = sid_memory_image(&header).unwrap();
    assert_eq!(mem.len(), 0x10000);
    // the trap vectors overwrite the program's last bytes
    assert_eq!(&mem[0xFFFE..], &[0xF0, 0xFF]);
}

#[test]
fn sid_capture_only_sid_registers() {
    assert_eq!(sid_capture(7, 0xD400, 0x12), Some(SidWrite { frame: 7, reg: 0, value: 0x12 }));
    assert_eq!(sid_capture(7, 0xD41C, 1), Some(SidWrite { frame: 7, reg: 0x1C, value: 1 }));
    assert_eq!(sid_capture(7, 0xD3FF, 1), None);
    assert_eq!(sid_capture(7, 0xD41D, 1), None);
    assert_eq!(sid_capture(0, 0x1000, 1), None);
}

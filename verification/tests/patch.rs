use synth_core::chip::{velocity_to_volume, ChipId, VoiceMode};
use synth_core::patch::{
    chip_id_to_str, name_less, sanitize_filename, str_to_chip_id, voice_mode_from_str,
    voice_mode_to_str,
};

#[test]
fn chip_keys_round_trip() {
    for id in ChipId::all() {
        assert_eq!(str_to_chip_id(chip_id_to_str(*id)), Some(*id));
    }
    assert_eq!(chip_id_to_str(ChipId::Ricoh2a03), "2a03");
    assert_eq!(chip_id_to_str(ChipId::NamcoWsg), "namco_wsg");
}

#[test]
fn unknown_chip_key_is_none() {
    assert_eq!(str_to_chip_id("sn7648"), None);
    assert_eq!(str_to_chip_id(""), None);
    assert_eq!(str_to_chip_id("SN76489"), None);
}

#[test]
fn chip_keys_are_distinct() {
    let keys: Vec<&str> = ChipId::all().iter().map(|c| chip_id_to_str(*c)).collect();
    for (i, a) in keys.iter().enumerate() {
        for b in &keys[i + 1..] {
            assert_ne!(a, b);
        }
    }
}

#[test]
fn voice_modes_round_trip() {
    for mode in [VoiceMode::Poly, VoiceMode::Mono, VoiceMode::Unison { detune_cents: 12 }] {
        let detune = match mode {
            VoiceMode::Unison { detune_cents } => detune_cents,
            _ => 0,
        };
        assert_eq!(voice_mode_from_str(voice_mode_to_str(mode), detune), mode);
    }
    assert_eq!(voice_mode_from_str("anything", 7), VoiceMode::Poly);
}

#[test]
fn sanitize_keeps_letters_digits_dash_underscore() {
    assert_eq!(sanitize_filename("My Patch #1"), "My_Patch__1");
    assert_eq!(sanitize_filename("lead-2_b"), "lead-2_b");
    assert_eq!(sanitize_filename("a/b\\c.json"), "a_b_c_json");
    assert_eq!(sanitize_filename("Grüße"), "Grüße");
    assert_eq!(sanitize_filename(""), "");
}

#[test]
fn display_names() {
    assert_eq!(ChipId::Sn76489.display_name(), "SN76489 (PSG)");
    assert_eq!(ChipId::NamcoWsg.display_name(), "Namco WSG");
    assert_eq!(ChipId::all().len(), 11);
    assert_eq!(ChipId::all()[0], ChipId::Sn76489);
    assert_eq!(ChipId::all()[10], ChipId::NamcoWsg);
}

#[test]
fn velocity_scales_to_four_bits() {
    assert_eq!(velocity_to_volume(127), 15);
    assert_eq!(velocity_to_volume(0), 0);
    assert_eq!(velocity_to_volume(64), 7);
    assert_eq!(velocity_to_volume(255), 30);
}

#[test]
fn patch_bank_lists_by_name_keeping_scan_order_for_ties() {
    let mut bank = synth_core::patch::PatchBank::new("patches");
    assert!(bank.needs_factory_presets());
    assert_eq!(bank.list().len(), 0);
    bank.set_scanned(vec![
        ("PSG Square Lead".to_string(), "b.json"),
        ("C64 Bass".to_string(), "a.json"),
        ("FM Brass".to_string(), "c.json"),
        ("C64 Bass".to_string(), "d.json"),
        ("C64".to_string(), "e.json"),
    ]);
    let names: Vec<(&str, &str)> = bank.list().iter().map(|(n, p)| (n.as_str(), *p)).collect();
    assert_eq!(
        names,
        vec![
            ("C64", "e.json"),
            ("C64 Bass", "a.json"),
            ("C64 Bass", "d.json"),
            ("FM Brass", "c.json"),
            ("PSG Square Lead", "b.json"),
        ]
    );
    assert!(!bank.needs_factory_presets());
    assert_eq!(bank.get(3).map(|(n, _)| n.as_str()), Some("FM Brass"));
    assert!(bank.get(5).is_none());
    assert_eq!(*bank.patches_dir(), "patches");
}

#[test]
fn patch_names_order_by_code_point() {
    assert!(name_less("A", "B"));
    assert!(name_less("Z", "a")); // upper case before lower case
    assert!(name_less("ab", "abc"));
    assert!(!name_less("abc", "ab"));
    assert!(!name_less("same", "same"));
    assert!(name_less("", "x"));
    assert!(name_less("é", "ü"));
    assert!(name_less("z", "é"));
}

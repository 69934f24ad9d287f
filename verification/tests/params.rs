use std::collections::HashSet;
use synth_core::chip::{param_info_for_chip, ChipId, ParamKind};

#[test]
fn param_tables_have_distinct_ids_and_sound_ranges() {
    for id in ChipId::all() {
        let params = param_info_for_chip(*id);
        assert!(!params.is_empty());
        let ids: HashSet<u32> = params.iter().map(|p| p.id).collect();
        assert_eq!(ids.len(), params.len(), "{:?}", id);
        for p in &params {
            match &p.kind {
                ParamKind::Continuous { min, max, default } => assert!(min <= default && default <= max),
                ParamKind::Discrete { min, max, default, labels } => {
                    assert!(min <= default && default <= max);
                    if let Some(l) = labels {
                        assert_eq!(l.len() as i32, max - min + 1);
                    }
                }
                ParamKind::Toggle { .. } => {}
            }
        }
    }
}

#[test]
fn sn76489_param_table() {
    let params = param_info_for_chip(ChipId::Sn76489);
    assert_eq!(params.len(), 6);
    assert_eq!(params[0].name, "Volume");
    assert_eq!(params[0].group, "Tone 1");
    assert!(matches!(params[3].kind, ParamKind::Continuous { min: 0, max: 15, default: 15 }));
    assert_eq!(params[4].name, "White Noise");
    assert!(matches!(params[4].kind, ParamKind::Toggle { default: true }));
    match &params[5].kind {
        ParamKind::Discrete { labels: Some(l), .. } => {
            assert_eq!(l, &vec!["N/512".to_string(), "N/1024".into(), "N/2048".into(), "Tone 3".into()])
        }
        _ => panic!("shift rate should be a labelled selector"),
    }
    assert_eq!(params[5].kind.default_value(), 0);
    assert_eq!(params[4].kind.default_value(), 1);
}

#[test]
fn ym2612_operator_params_follow_the_id_scheme() {
    let params = param_info_for_chip(ChipId::Ym2612);
    assert_eq!(params.len(), 4 + 4 * 8);
    let op3_tl = &params[4 + 2 * 8];
    assert_eq!(op3_tl.id, 300);
    assert_eq!(op3_tl.name, "Total Level");
    assert_eq!(op3_tl.group, "Operator 3");
    assert_eq!(op3_tl.kind.default_value(), 40);
    let op4_tl = &params[4 + 3 * 8];
    assert_eq!(op4_tl.id, 400);
    assert_eq!(op4_tl.kind.default_value(), 0);
    assert_eq!(params[4 + 7].id, 107);
    assert_eq!(params[4 + 7].name, "Detune");
}

#[test]
fn opl_tables_have_two_operators() {
    let opl2 = param_info_for_chip(ChipId::Ym3812);
    assert_eq!(opl2.len(), 2 + 2 * 7);
    assert_eq!(opl2[2 + 7 + 6].id, 206);
    assert_eq!(opl2[2 + 7 + 6].name, "Key Scale");
    let opl3 = param_info_for_chip(ChipId::Ymf262);
    assert_eq!(opl3.len(), 3 + 2 * 6);
    assert_eq!(opl3[2].name, "4-Op Mode");
    assert_eq!(opl3[3].kind.default_value(), 20);
}

#[test]
fn small_tables() {
    assert_eq!(param_info_for_chip(ChipId::Ay8910).len(), 4);
    assert_eq!(param_info_for_chip(ChipId::Ricoh2a03).len(), 3);
    assert_eq!(param_info_for_chip(ChipId::Pokey).len(), 1);
    assert_eq!(param_info_for_chip(ChipId::Scc).len(), 1);
    assert_eq!(param_info_for_chip(ChipId::NamcoWsg).len(), 1);
    let sid = param_info_for_chip(ChipId::Sid6581);
    assert_eq!(sid.len(), 7);
    assert_eq!(sid[1].kind.default_value(), 2048);
    assert_eq!(param_info_for_chip(ChipId::Ym2151).len(), 4 + 4 * 8);
}

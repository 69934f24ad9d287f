use synth_core::macros::{factory_macros, InstrumentMacro, MacroState};

#[test]
fn empty_macro_no_output() {
    let mac = InstrumentMacro::default();
    let mut state = MacroState::new();
    state.trigger();
    let out = state.tick(&mac);
    assert!(out.volume.is_none());
    assert!(out.arp_semitones.is_none());
}

#[test]
fn volume_decay() {
    let mac = InstrumentMacro {
        volume: vec![15, 10, 5, 0],
        ..Default::default()
    };
    let mut state = MacroState::new();
    state.trigger();
    assert_eq!(state.tick(&mac).volume, Some(15));
    assert_eq!(state.tick(&mac).volume, Some(10));
    assert_eq!(state.tick(&mac).volume, Some(5));
    assert_eq!(state.tick(&mac).volume, Some(0));
    // Past end: hold last
    assert_eq!(state.tick(&mac).volume, Some(0));
}

#[test]
fn arpeggio_loops() {
    let mac = InstrumentMacro {
        arpeggio: vec![0, 4, 7],
        loop_point: Some(0),
        ..Default::default()
    };
    let mut state = MacroState::new();
    state.trigger();
    assert_eq!(state.tick(&mac).arp_semitones, Some(0));
    assert_eq!(state.tick(&mac).arp_semitones, Some(4));
    assert_eq!(state.tick(&mac).arp_semitones, Some(7));
    // Loop back to 0
    assert_eq!(state.tick(&mac).arp_semitones, Some(0));
    assert_eq!(state.tick(&mac).arp_semitones, Some(4));
}

#[test]
fn speed_divider() {
    let mac = InstrumentMacro {
        arpeggio: vec![0, 12],
        loop_point: Some(0),
        speed: 3,
        ..Default::default()
    };
    let mut state = MacroState::new();
    state.trigger();
    // Speed 3: same value for 3 ticks
    assert_eq!(state.tick(&mac).arp_semitones, Some(0));
    assert_eq!(state.tick(&mac).arp_semitones, Some(0));
    assert_eq!(state.tick(&mac).arp_semitones, Some(0));
    // Now advances
    assert_eq!(state.tick(&mac).arp_semitones, Some(12));
}

#[test]
fn release_stops_output() {
    let mac = InstrumentMacro {
        volume: vec![15, 10, 5],
        ..Default::default()
    };
    let mut state = MacroState::new();
    state.trigger();
    assert_eq!(state.tick(&mac).volume, Some(15));
    state.release();
    assert!(state.tick(&mac).volume.is_none());
}

#[test]
fn untriggered_state_gives_nothing() {
    let mac = InstrumentMacro {
        volume: vec![15],
        ..Default::default()
    };
    let mut state = MacroState::new();
    let out = state.tick(&mac);
    assert_eq!(out.volume, None);
    assert_eq!(out.arp_semitones, None);
    assert_eq!(out.duty, None);
}

#[test]
fn loop_point_in_the_middle_repeats_the_tail() {
    let mac = InstrumentMacro {
        duty: vec![1, 2, 3],
        loop_point: Some(1),
        ..Default::default()
    };
    let mut state = MacroState::new();
    state.trigger();
    let got: Vec<Option<u8>> = (0..7).map(|_| state.tick(&mac).duty).collect();
    assert_eq!(
        got,
        vec![Some(1), Some(2), Some(3), Some(2), Some(3), Some(2), Some(3)]
    );
}

#[test]
fn loop_point_past_the_end_holds_the_last_value() {
    let mac = InstrumentMacro {
        volume: vec![9, 8],
        loop_point: Some(5),
        ..Default::default()
    };
    let mut state = MacroState::new();
    state.trigger();
    let got: Vec<Option<u8>> = (0..4).map(|_| state.tick(&mac).volume).collect();
    assert_eq!(got, vec![Some(9), Some(8), Some(8), Some(8)]);
}

#[test]
fn speed_zero_steps_every_tick() {
    let mac = InstrumentMacro {
        arpeggio: vec![0, 5, 9],
        speed: 0,
        ..Default::default()
    };
    let mut state = MacroState::new();
    state.trigger();
    let got: Vec<Option<i8>> = (0..3).map(|_| state.tick(&mac).arp_semitones).collect();
    assert_eq!(got, vec![Some(0), Some(5), Some(9)]);
}

#[test]
fn retrigger_restarts_from_the_first_step() {
    let mac = InstrumentMacro {
        volume: vec![15, 10, 5],
        ..Default::default()
    };
    let mut state = MacroState::new();
    state.trigger();
    state.tick(&mac);
    state.tick(&mac);
    state.trigger();
    assert_eq!(state.tick(&mac).volume, Some(15));
}

#[test]
fn default_macro_is_empty() {
    let mac = InstrumentMacro::default();
    assert!(mac.is_empty());
    assert_eq!(mac.name, "Default");
    assert_eq!(mac.speed, 1);
    let with_duty = InstrumentMacro {
        duty: vec![2],
        ..Default::default()
    };
    assert!(!with_duty.is_empty());
}

#[test]
fn factory_macros_are_well_formed() {
    let macros = factory_macros();
    assert!(!macros.is_empty());
    for m in &macros {
        assert!(!m.name.is_empty());
        assert!(m.speed >= 1);
        for v in &m.volume {
            assert!(*v <= 15);
        }
        if let Some(lp) = m.loop_point {
            let longest = m.volume.len().max(m.arpeggio.len()).max(m.duty.len());
            assert!(lp < longest);
        }
    }
}

#[test]
fn factory_macros_in_menu_order() {
    let names: Vec<String> = factory_macros().into_iter().map(|m| m.name).collect();
    assert_eq!(
        names,
        vec![
            "Pluck",
            "Minor Arp",
            "Major Arp",
            "Octave Pulse",
            "Kick Drum",
            "Vibrato",
            "Swell"
        ]
    );
    let kick = &factory_macros()[4];
    assert_eq!(kick.arpeggio, vec![0, -12, -24, -36]);
    assert_eq!(kick.loop_point, None);
}

#[test]
fn signed_and_byte_sequences_pick_the_same_step() {
    let arp: Vec<i8> = vec![0, -12, -24, -36];
    let mac = InstrumentMacro {
        arpeggio: arp.clone(),
        volume: arp.iter().map(|x| *x as u8).collect(),
        speed: 1,
        ..Default::default()
    };
    let mut state = MacroState::new();
    state.trigger();
    let mut last = None;
    for _ in 0..8 {
        last = Some(state.tick(&mac));
    }
    let out = last.unwrap();
    // Step 7 is past the end with no loop point: the last element holds.
    assert_eq!(out.arp_semitones, Some(-36));
    assert_eq!(out.volume, Some(-36i8 as u8));
    assert_eq!(out.volume.map(|b| b as i8), out.arp_semitones);
}

#[test]
fn each_step_lasts_speed_ticks_after_a_trigger() {
    let mac = InstrumentMacro { volume: vec![9, 8, 7, 6], speed: 3, ..Default::default() };
    let mut state = MacroState::new();
    state.trigger();
    let outs: Vec<Option<u8>> = (0..8).map(|_| state.tick(&mac).volume).collect();
    // tick k plays step k / 3
    assert_eq!(outs, vec![Some(9), Some(9), Some(9), Some(8), Some(8), Some(8), Some(7), Some(7)]);
}

#[test]
fn trigger_restarts_whatever_came_before() {
    let mac = InstrumentMacro { arpeggio: vec![0, 4, 7], loop_point: Some(0), ..Default::default() };
    let mut used = MacroState::new();
    used.trigger();
    for _ in 0..5 {
        used.tick(&mac);
    }
    used.release();
    used.trigger();
    used.trigger();
    let mut fresh = MacroState::new();
    fresh.trigger();
    for _ in 0..6 {
        assert_eq!(used.tick(&mac), fresh.tick(&mac));
    }
}

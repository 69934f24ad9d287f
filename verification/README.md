# synth_core

A multi-chip retro sound synthesizer (SN76489, AY-3-8910, POKEY, 2A03, SCC,
Namco WSG, SID 6581, YM2612, YM2151, YM3812, YMF262) whose control logic is
verified with Verus.

## Layout

- `src/` — the verified library:
  - `chip.rs`: chip identities, parameter values and the parameter tables;
  - the chip cores (`sn76489.rs`, `ay8910.rs`, `pokey.rs`, `ricoh2a03.rs`,
    `scc.rs`, `namco_wsg.rs`, `sid6581.rs`): the generators' integer state
    machines, stepped at the chips' native rates;
  - the FM chips (`fm.rs`, `ym2612.rs`, `ym2151.rs`, `ym3812.rs`,
    `ymf262.rs`): patch state and the exact register writes for every
    change, key-on and key-off;
  - `voice.rs`, `macros.rs`, `bank.rs`: voice allocation (poly, mono,
    unison), instrument macros and the routing of a bank of chips;
  - `vgm.rs`, `vgm_extract.rs`: VGM/VGZ parsing and the extraction of notes
    and voices from register streams;
  - `midi_file.rs`, `midi_input.rs`, `demo_midi.rs`: standard MIDI files
    (reading, playback timing, writing the demo songs) and live MIDI bytes;
  - `sid_extract.rs`: SID file headers, the memory image a tune runs in, and
    the analysis of captured SID register writes;
  - `patch.rs`, `keyboard.rs`, `text.rs`: patch keys and the sorted patch
    list, the on-screen and computer keyboards, string helpers.
- `tests/` — tests of the library.
- `app/` — the program around it: audio output (cpal), MIDI input (midir),
  sample mixing in floating point, the YMFM bindings, patch files, the 6502
  emulation of SID tunes, and the command line.

//! Verified core of a multi-chip retro sound synthesizer: chip identities,
//! voice allocation, instrument macros, MIDI sequencing and VGM parsing.

pub mod chip;
pub mod text;
pub mod macros;
pub mod patch;
pub mod voice;
pub mod bank;
pub mod fm;
pub mod ym2612;
pub mod ym2151;
pub mod ym3812;
pub mod ymf262;
pub mod vgm;
pub mod midi_file;
pub mod sn76489;
pub mod ay8910;
pub mod pokey;
pub mod ricoh2a03;
pub mod scc;
pub mod namco_wsg;
pub mod sid6581;
pub mod vgm_extract;
pub mod sid_extract;
pub mod keyboard;
pub mod demo_midi;
pub mod midi_input;

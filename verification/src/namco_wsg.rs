//! Channels of the Namco WSG (Pac-Man): three wavetable channels whose
//! 20-bit phase accumulators select one of 32 four-bit samples.

use vstd::prelude::*;
use crate::chip::{KindSpec, ParamInfo, ParamSpec, ParamValue, label_list, params_sound, params_view, strings_view, velocity_to_volume};

verus! {

pub open spec fn spec_wave_bell() -> Seq<u8> {
    seq![
        7u8, 9, 11, 13, 14, 15, 14, 13, 11, 9, 7, 5, 3, 1, 0, 0, 0, 0, 1, 3, 5, 7, 9, 11, 13, 14,
        15, 14, 13, 11, 9, 7,
    ]
}

pub open spec fn spec_wave_siren() -> Seq<u8> {
    seq![
        0u8, 1, 2, 3, 4, 5, 6, 7, 8, 9, 10, 11, 12, 13, 14, 15, 15, 14, 13, 12, 11, 10, 9, 8, 7,
        6, 5, 4, 3, 2, 1, 0,
    ]
}

pub open spec fn spec_wave_square() -> Seq<u8> {
    seq![
        15u8, 15, 15, 15, 15, 15, 15, 15, 15, 15, 15, 15, 15, 15, 15, 15, 0, 0, 0, 0, 0, 0, 0, 0,
        0, 0, 0, 0, 0, 0, 0, 0,
    ]
}

pub open spec fn spec_wave_chomp() -> Seq<u8> {
    seq![
        7u8, 10, 12, 14, 15, 14, 12, 10, 7, 4, 2, 0, 0, 2, 4, 7, 10, 13, 15, 13, 10, 7, 4, 1, 0, 1,
        4, 7, 10, 12, 14, 12,
    ]
}

/// The waveform that a waveform parameter selects: bell, siren, square, or
/// (3 and above) chomp.
pub open spec fn spec_waveform(idx: u8) -> Seq<u8> {
    if idx == 0 {
        spec_wave_bell()
    } else if idx == 1 {
        spec_wave_siren()
    } else if idx == 2 {
        spec_wave_square()
    } else {
        spec_wave_chomp()
    }
}

const WAVE_BELL: [u8; 32] = [
    7, 9, 11, 13, 14, 15, 14, 13, 11, 9, 7, 5, 3, 1, 0, 0, 0, 0, 1, 3, 5, 7, 9, 11, 13, 14, 15, 14,
    13, 11, 9, 7,
];

const WAVE_SIREN: [u8; 32] = [
    0, 1, 2, 3, 4, 5, 6, 7, 8, 9, 10, 11, 12, 13, 14, 15, 15, 14, 13, 12, 11, 10, 9, 8, 7, 6, 5, 4,
    3, 2, 1, 0,
];

const WAVE_SQUARE: [u8; 32] = [
    15, 15, 15, 15, 15, 15, 15, 15, 15, 15, 15, 15, 15, 15, 15, 15, 0, 0, 0, 0, 0, 0, 0, 0, 0, 0,
    0, 0, 0, 0, 0, 0,
];

const WAVE_CHOMP: [u8; 32] = [
    7, 10, 12, 14, 15, 14, 12, 10, 7, 4, 2, 0, 0, 2, 4, 7, 10, 13, 15, 13, 10, 7, 4, 1, 0, 1, 4, 7,
    10, 12, 14, 12,
];

/// The waveform that a waveform parameter selects.
pub fn waveform(idx: u8) -> (r: [u8; 32])
    ensures
        r@ == spec_waveform(idx),
{
    let w = match idx {
        0 => WAVE_BELL,
        1 => WAVE_SIREN,
        2 => WAVE_SQUARE,
        _ => WAVE_CHOMP,
    };
    assert(WAVE_BELL@ =~= spec_wave_bell());
    assert(WAVE_SIREN@ =~= spec_wave_siren());
    assert(WAVE_SQUARE@ =~= spec_wave_square());
    assert(WAVE_CHOMP@ =~= spec_wave_chomp());
    w
}

/// A channel after one step: the accumulator advances by the frequency,
/// wrapping at 32 bits.
pub open spec fn channel_after_tick(c: Channel) -> Channel {
    Channel { accumulator: ((c.accumulator + c.frequency) % 0x1_0000_0000) as u32, ..c }
}

/// One wavetable channel.
#[derive(Debug, Clone, Copy)]
pub struct Channel {
    /// Phase increment per step (20 bits are used).
    pub frequency: u32,
    pub accumulator: u32,
    /// 4-bit volume.
    pub volume: u8,
    pub waveform: [u8; 32],
}

/// The sample index for an accumulator: bits 15 to 19.
pub open spec fn spec_wave_index(accumulator: u32) -> int {
    ((accumulator >> 15u32) & 0x1F) as int
}

/// A channel as a reset leaves it: silent, stopped, at the start of the
/// bell wave.
pub open spec fn is_fresh_channel(c: Channel) -> bool {
    &&& c.frequency == 0
    &&& c.accumulator == 0
    &&& c.volume == 0
    &&& c.waveform@ == spec_wave_bell()
}

impl Channel {
    /// A silent channel holding the bell wave.
    pub fn new() -> (r: Self)
        ensures
            r.frequency == 0,
            r.accumulator == 0,
            r.volume == 0,
            r.waveform@ == spec_wave_bell(),
    {
        assert(WAVE_BELL@ =~= spec_wave_bell());
        Channel { frequency: 0, accumulator: 0, volume: 0, waveform: WAVE_BELL }
    }

    /// One step: the accumulator advances by the frequency, wrapping.
    pub fn tick(&mut self)
        ensures
            final(self).frequency == old(self).frequency,
            final(self).volume == old(self).volume,
            final(self).waveform == old(self).waveform,
            final(self).accumulator == (old(self).accumulator + old(self).frequency) % 0x1_0000_0000,
            *final(self) == channel_after_tick(*old(self)),
    {
        self.accumulator = self.accumulator.wrapping_add(self.frequency);
    }

    /// The current 4-bit sample, or `None` while the volume or the
    /// frequency is zero.
    pub fn sample(&self) -> (r: Option<u8>)
        ensures
            r == if self.volume == 0 || self.frequency == 0 {
                None
            } else {
                Some(self.waveform@[spec_wave_index(self.accumulator)])
            },
    {
        if self.volume == 0 || self.frequency == 0 {
            return None;
        }
        let acc = self.accumulator;
        let idx = ((acc >> 15u32) & 0x1F) as usize;
        assert((acc >> 15u32) & 0x1F < 32) by (bit_vector);
        Some(self.waveform[idx])
    }
}

/// The chip's channels and the waveform they share.
#[derive(Debug, Clone, Copy)]
pub struct NamcoCore {
    pub channels: [Channel; 3],
    pub waveform_idx: u8,
}

/// The value a parameter reads back as.
pub open spec fn spec_get_param(c: NamcoCore, param_id: u32) -> u8 {
    if param_id == 0 {
        c.waveform_idx
    } else {
        0
    }
}

impl NamcoCore {
    /// Silent channels with the first waveform.
    pub fn new() -> (r: Self)
        ensures
            r.waveform_idx == 0,
            forall|i: int|
                0 <= i < 3 ==> #[trigger] r.channels@[i].volume == 0 && r.channels@[i].waveform@
                    == spec_waveform(0),            forall|i: int| 0 <= i < 3 ==> is_fresh_channel(#[trigger] r.channels@[i]),
    {
        NamcoCore { channels: [Channel::new(), Channel::new(), Channel::new()], waveform_idx: 0 }
    }

    /// One step of every channel.
    pub fn tick(&mut self)
        ensures
            final(self).waveform_idx == old(self).waveform_idx,
            forall|i: int|
                0 <= i < 3 ==> #[trigger] final(self).channels@[i].volume == old(self).channels@[i].volume
                    && final(self).channels@[i].waveform == old(self).channels@[i].waveform
                    && final(self).channels@[i].frequency == old(self).channels@[i].frequency,
            forall|i: int|
                0 <= i < 3 ==> #[trigger] final(self).channels@[i] == channel_after_tick(
                    old(self).channels@[i],
                ),
    {
        let mut i: usize = 0;
        while i < 3
            invariant
                i <= 3,
                self.waveform_idx == old(self).waveform_idx,
                forall|k: int|
                    0 <= k < 3 ==> #[trigger] self.channels@[k].volume == old(self).channels@[k].volume
                        && self.channels@[k].waveform == old(self).channels@[k].waveform
                        && self.channels@[k].frequency == old(self).channels@[k].frequency,
                forall|k: int| i <= k < 3 ==> #[trigger] self.channels@[k] == old(self).channels@[k],
                forall|k: int|
                    0 <= k < i ==> #[trigger] self.channels@[k] == channel_after_tick(
                        old(self).channels@[k],
                    ),
            decreases 3 - i,
        {
            let ghost before = self.channels@;
            let mut c = self.channels[i];
            c.tick();
            self.channels[i] = c;
            assert(self.channels@ =~= before.update(i as int, c));
            i = i + 1;
        }
    }

    /// Selects the waveform (parameter 0, at most 3) of every channel.
    pub fn set_param(&mut self, param_id: u32, value: ParamValue)
        ensures
            param_id != 0 ==> *final(self) == *old(self),
            param_id == 0 ==> {
                let idx = if value.byte < 3 {
                    value.byte
                } else {
                    3
                };
                &&& final(self).waveform_idx == idx
                &&& forall|i: int|
                    0 <= i < 3 ==> #[trigger] final(self).channels@[i] == (Channel {
                        waveform: final(self).channels@[i].waveform,
                        ..old(self).channels@[i]
                    }) && final(self).channels@[i].waveform@ == spec_waveform(idx)
            },
            spec_get_param(*final(self), param_id) == if param_id == 0 {
                if value.byte < 3 {
                    value.byte
                } else {
                    3
                }
            } else {
                0
            },
    {
        if param_id != 0 {
            return;
        }
        let idx: u8 = if value.byte < 3 {
            value.byte
        } else {
            3
        };
        self.waveform_idx = idx;
        let wave = waveform(idx);
        let mut i: usize = 0;
        while i < 3
            invariant
                i <= 3,
                self.waveform_idx == idx,
                wave@ == spec_waveform(idx),
                forall|k: int|
                    0 <= k < i ==> #[trigger] self.channels@[k] == (Channel {
                        waveform: self.channels@[k].waveform,
                        ..old(self).channels@[k]
                    }) && self.channels@[k].waveform@ == spec_waveform(idx),
                forall|k: int| i <= k < 3 ==> #[trigger] self.channels@[k] == old(self).channels@[k],
            decreases 3 - i,
        {
            let mut c = self.channels[i];
            c.waveform = wave;
            self.channels[i] = c;
            i = i + 1;
        }
    }

    /// The waveform index (parameter 0); other ids read as 0.
    pub fn get_param(&self, param_id: u32) -> (r: u8)
        ensures
            r == spec_get_param(*self, param_id),
    {
        if param_id == 0 {
            self.waveform_idx
        } else {
            0
        }
    }

    /// Plays channel `voice` with phase increment `frequency` at the velocity's volume,
    /// with the selected waveform (voices past 2 are ignored).
    pub fn voice_on(&mut self, voice: usize, frequency: u32, velocity: u8)
        ensures
            voice >= 3 ==> *final(self) == *old(self),
            voice < 3 ==> {
                let c = final(self).channels@[voice as int];
                &&& final(self).waveform_idx == old(self).waveform_idx
                &&& final(self).channels@ == old(self).channels@.update(voice as int, c)
                &&& c == (Channel {
                    frequency,
                    volume: (velocity * 15 / 127) as u8,
                    waveform: c.waveform,
                    ..old(self).channels@[voice as int]
                })
                &&& c.waveform@ == spec_waveform(old(self).waveform_idx)
            },
    {
        if voice >= 3 {
            return;
        }
        let mut c = self.channels[voice];
        c.frequency = frequency;
        c.volume = velocity_to_volume(velocity);
        c.waveform = waveform(self.waveform_idx);
        self.channels[voice] = c;
        assert(self.channels@ =~= old(self).channels@.update(voice as int, c));
    }

    /// Silences channel `voice` (voices past 2 are ignored).
    pub fn voice_off(&mut self, voice: usize)
        ensures
            voice >= 3 ==> *final(self) == *old(self),
            voice < 3 ==> final(self).waveform_idx == old(self).waveform_idx && final(self).channels@
                == old(self).channels@.update(
                voice as int,
                Channel { volume: 0, ..old(self).channels@[voice as int] },
            ),
    {
        if voice >= 3 {
            return;
        }
        let mut c = self.channels[voice];
        c.volume = 0;
        self.channels[voice] = c;
        assert(self.channels@ =~= old(self).channels@.update(voice as int, c));
    }

    /// Fresh channels; the waveform setting stays (new notes take it again).
    pub fn reset(&mut self)
        ensures
            final(self).waveform_idx == old(self).waveform_idx,
            forall|i: int|
                0 <= i < 3 ==> #[trigger] final(self).channels@[i].volume == 0
                    && final(self).channels@[i].waveform@ == spec_waveform(0),            forall|i: int| 0 <= i < 3 ==> is_fresh_channel(#[trigger] final(self).channels@[i]),
    {
        self.channels = [Channel::new(), Channel::new(), Channel::new()];
    }
}

/// The adjustable parameters of the Namco WSG, in display order.
pub open spec fn namco_wsg_params() -> Seq<ParamSpec> {
    seq![
        ParamSpec { id: 0, name: "Waveform"@, group: "Wavetable"@, kind: KindSpec::Discrete { min: 0, max: 3, default: 0, labels: Some(seq!["Bell"@, "Siren"@, "Square"@, "Chomp"@]) } },
    ]
}

/// The adjustable parameters of the Namco WSG: id, name, group and range.
pub fn namco_wsg_param_info() -> (r: Vec<ParamInfo>)
    ensures
        params_view(r@) == namco_wsg_params(),
{
    let mut r: Vec<ParamInfo> = Vec::new();
    let names5: [&str; 4] = ["Bell", "Siren", "Square", "Chomp"];
    assert(names5@ == seq!["Bell", "Siren", "Square", "Chomp"]);
    let labels5 = label_list(&names5);
    assert(strings_view(labels5@) =~= seq!["Bell"@, "Siren"@, "Square"@, "Chomp"@]);
    r.push(ParamInfo::discrete(0, "Waveform", "Wavetable", 0, 3, 0, Some(labels5)));
    assert(params_view(r@) =~= namco_wsg_params());
    r
}

pub proof fn lemma_namco_wsg_params_sound()
    ensures
        params_sound(namco_wsg_params()),
{
}

} // verus!

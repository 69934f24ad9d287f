//! Channels of the Konami SCC: five wavetable channels, each stepping
//! through a 32-sample signed waveform at a rate set by its period.

use vstd::prelude::*;
use crate::chip::{KindSpec, ParamInfo, ParamSpec, ParamValue, label_list, params_sound, params_view, strings_view, velocity_to_volume};

verus! {

pub open spec fn spec_wave_sine() -> Seq<i8> {
    seq![
        0i8, 24, 46, 64, 77, 86, 89, 86, 77, 64, 46, 24, 0, -24i8, -46i8, -64i8, -77i8, -86i8, -89i8, -86i8,
        -77i8, -64i8, -46i8, -24i8, 0, 0, 0, 0, 0, 0, 0, 0,
    ]
}

pub open spec fn spec_wave_square() -> Seq<i8> {
    seq![
        127i8, 127, 127, 127, 127, 127, 127, 127, 127, 127, 127, 127, 127, 127, 127, 127, -128i8,
        -128i8, -128i8, -128i8, -128i8, -128i8, -128i8, -128i8, -128i8, -128i8, -128i8, -128i8, -128i8, -128i8, -128i8, -128i8,
    ]
}

pub open spec fn spec_wave_saw() -> Seq<i8> {
    seq![
        -128i8, -120i8, -112i8, -104i8, -96i8, -88i8, -80i8, -72i8, -64i8, -56i8, -48i8, -40i8, -32i8, -24i8, -16i8, -8i8, 0, 8,
        16, 24, 32, 40, 48, 56, 64, 72, 80, 88, 96, 104, 112, 120,
    ]
}

pub open spec fn spec_wave_organ() -> Seq<i8> {
    seq![
        0i8, 48, 77, 89, 86, 64, 24, -24i8, -64i8, -86i8, -89i8, -77i8, -48i8, 0, 48, 77, 89, 86, 64, 24, -24i8,
        -64i8, -86i8, -89i8, -77i8, -48i8, 0, 24, 46, 46, 24, 0,
    ]
}

/// The waveform that a waveform parameter selects: sine, square, saw, or
/// (3 and above) organ.
pub open spec fn spec_waveform(idx: u8) -> Seq<i8> {
    if idx == 0 {
        spec_wave_sine()
    } else if idx == 1 {
        spec_wave_square()
    } else if idx == 2 {
        spec_wave_saw()
    } else {
        spec_wave_organ()
    }
}

const WAVE_SINE: [i8; 32] = [
    0, 24, 46, 64, 77, 86, 89, 86, 77, 64, 46, 24, 0, -24, -46, -64, -77, -86, -89, -86, -77, -64,
    -46, -24, 0, 0, 0, 0, 0, 0, 0, 0,
];

const WAVE_SQUARE: [i8; 32] = [
    127, 127, 127, 127, 127, 127, 127, 127, 127, 127, 127, 127, 127, 127, 127, 127, -128, -128,
    -128, -128, -128, -128, -128, -128, -128, -128, -128, -128, -128, -128, -128, -128,
];

const WAVE_SAW: [i8; 32] = [
    -128, -120, -112, -104, -96, -88, -80, -72, -64, -56, -48, -40, -32, -24, -16, -8, 0, 8, 16,
    24, 32, 40, 48, 56, 64, 72, 80, 88, 96, 104, 112, 120,
];

const WAVE_ORGAN: [i8; 32] = [
    0, 48, 77, 89, 86, 64, 24, -24, -64, -86, -89, -77, -48, 0, 48, 77, 89, 86, 64, 24, -24, -64,
    -86, -89, -77, -48, 0, 24, 46, 46, 24, 0,
];

/// The waveform that a waveform parameter selects.
pub fn waveform(idx: u8) -> (r: [i8; 32])
    ensures
        r@ == spec_waveform(idx),
{
    let w = match idx {
        0 => WAVE_SINE,
        1 => WAVE_SQUARE,
        2 => WAVE_SAW,
        _ => WAVE_ORGAN,
    };
    assert(WAVE_SINE@ =~= spec_wave_sine());
    assert(WAVE_SQUARE@ =~= spec_wave_square());
    assert(WAVE_SAW@ =~= spec_wave_saw());
    assert(WAVE_ORGAN@ =~= spec_wave_organ());
    w
}

/// A channel after one step at the native rate: the counter counts down,
/// or, at zero, is reloaded from the period as the position moves to the
/// next sample of the waveform.
pub open spec fn channel_after_tick(c: Channel) -> Channel {
    if c.counter > 0 {
        Channel { counter: (c.counter - 1) as u16, ..c }
    } else {
        Channel { counter: c.period, wave_pos: ((c.wave_pos + 1) % 32) as usize, ..c }
    }
}

/// One wavetable channel.
#[derive(Debug, Clone, Copy)]
pub struct Channel {
    /// 12-bit period.
    pub period: u16,
    pub counter: u16,
    /// Position in the waveform, 0-31.
    pub wave_pos: usize,
    /// 4-bit volume.
    pub volume: u8,
    pub waveform: [i8; 32],
}

/// A channel as a reset leaves it: silent, with period and counter 0, at
/// the start of the sine wave.
pub open spec fn is_fresh_channel(c: Channel) -> bool {
    &&& c.period == 0
    &&& c.counter == 0
    &&& c.wave_pos == 0
    &&& c.volume == 0
    &&& c.waveform@ == spec_wave_sine()
}

impl Channel {
    /// A silent channel holding the sine wave.
    pub fn new() -> (r: Self)
        ensures
            r.period == 0,
            r.counter == 0,
            r.wave_pos == 0,
            r.volume == 0,
            r.waveform@ == spec_wave_sine(),
    {
        assert(WAVE_SINE@ =~= spec_wave_sine());
        Channel { period: 0, counter: 0, wave_pos: 0, volume: 0, waveform: WAVE_SINE }
    }

    /// One step at the native rate: count down, or reload the counter from
    /// the period and move to the next sample of the waveform.
    pub fn tick(&mut self)
        requires
            old(self).wave_pos < 32,
        ensures
            final(self).period == old(self).period,
            final(self).volume == old(self).volume,
            final(self).waveform == old(self).waveform,
            old(self).counter > 0 ==> final(self).counter == old(self).counter - 1
                && final(self).wave_pos == old(self).wave_pos,
            old(self).counter == 0 ==> final(self).counter == old(self).period
                && final(self).wave_pos == (old(self).wave_pos + 1) % 32,
            final(self).wave_pos < 32,
            *final(self) == channel_after_tick(*old(self)),
    {
        if self.counter > 0 {
            self.counter = self.counter - 1;
        } else {
            self.counter = self.period;
            self.wave_pos = (self.wave_pos + 1) % 32;
        }
    }

    /// The current sample, or `None` while the volume or the period is zero.
    pub fn sample(&self) -> (r: Option<i8>)
        requires
            self.wave_pos < 32,
        ensures
            r == if self.volume == 0 || self.period == 0 {
                None
            } else {
                Some(self.waveform@[self.wave_pos as int])
            },
    {
        if self.volume == 0 || self.period == 0 {
            None
        } else {
            Some(self.waveform[self.wave_pos])
        }
    }
}

/// The chip's channels and the waveform they share.
#[derive(Debug, Clone, Copy)]
pub struct SccCore {
    pub channels: [Channel; 5],
    pub waveform_idx: u8,
}

/// The value a parameter reads back as.
pub open spec fn spec_get_param(c: SccCore, param_id: u32) -> u8 {
    if param_id == 0 {
        c.waveform_idx
    } else {
        0
    }
}

impl SccCore {
    /// Whether every channel's position in its waveform is in range.
    pub open spec fn wf(&self) -> bool {
        forall|i: int| 0 <= i < 5 ==> #[trigger] self.channels@[i].wave_pos < 32
    }

    /// Silent channels with the first waveform.
    pub fn new() -> (r: Self)
        ensures
            r.wf(),
            r.waveform_idx == 0,
            forall|i: int|
                0 <= i < 5 ==> #[trigger] r.channels@[i].volume == 0 && r.channels@[i].waveform@
                    == spec_waveform(0),            forall|i: int| 0 <= i < 5 ==> is_fresh_channel(#[trigger] r.channels@[i]),
    {
        SccCore { channels: [Channel::new(), Channel::new(), Channel::new(), Channel::new(), Channel::new()], waveform_idx: 0 }
    }

    /// One step of every channel.
    pub fn tick(&mut self)
        requires
            old(self).wf(),
        ensures
            final(self).wf(),
            final(self).waveform_idx == old(self).waveform_idx,
            forall|i: int|
                0 <= i < 5 ==> #[trigger] final(self).channels@[i].volume == old(self).channels@[i].volume
                    && final(self).channels@[i].waveform == old(self).channels@[i].waveform
                    && final(self).channels@[i].period == old(self).channels@[i].period,
            forall|i: int|
                0 <= i < 5 ==> #[trigger] final(self).channels@[i] == channel_after_tick(
                    old(self).channels@[i],
                ),
    {
        let mut i: usize = 0;
        while i < 5
            invariant
                i <= 5,
                self.waveform_idx == old(self).waveform_idx,
                old(self).wf(),
                forall|k: int|
                    0 <= k < 5 ==> #[trigger] self.channels@[k].volume == old(self).channels@[k].volume
                        && self.channels@[k].waveform == old(self).channels@[k].waveform
                        && self.channels@[k].period == old(self).channels@[k].period,
                forall|k: int| i <= k < 5 ==> #[trigger] self.channels@[k] == old(self).channels@[k],
                forall|k: int|
                    0 <= k < i ==> #[trigger] self.channels@[k] == channel_after_tick(
                        old(self).channels@[k],
                    ),
                forall|k: int| 0 <= k < 5 ==> #[trigger] self.channels@[k].wave_pos < 32,
            decreases 5 - i,
        {
            let ghost before = self.channels@;
            let mut c = self.channels[i];
            c.tick();
            self.channels[i] = c;
            assert(self.channels@ =~= before.update(i as int, c));
            i = i + 1;
        }
    }

    /// Selects the waveform (parameter 0, at most 3) of every channel.
    pub fn set_param(&mut self, param_id: u32, value: ParamValue)
        requires
            old(self).wf(),
        ensures
            final(self).wf(),
            param_id != 0 ==> *final(self) == *old(self),
            param_id == 0 ==> {
                let idx = if value.byte < 3 {
                    value.byte
                } else {
                    3
                };
                &&& final(self).waveform_idx == idx
                &&& forall|i: int|
                    0 <= i < 5 ==> #[trigger] final(self).channels@[i] == (Channel {
                        waveform: final(self).channels@[i].waveform,
                        ..old(self).channels@[i]
                    }) && final(self).channels@[i].waveform@ == spec_waveform(idx)
            },
            spec_get_param(*final(self), param_id) == if param_id == 0 {
                if value.byte < 3 {
                    value.byte
                } else {
                    3
                }
            } else {
                0
            },
    {
        if param_id != 0 {
            return;
        }
        let idx: u8 = if value.byte < 3 {
            value.byte
        } else {
            3
        };
        self.waveform_idx = idx;
        let wave = waveform(idx);
        let mut i: usize = 0;
        while i < 5
            invariant
                i <= 5,
                self.waveform_idx == idx,
                wave@ == spec_waveform(idx),
                forall|k: int|
                    0 <= k < i ==> #[trigger] self.channels@[k] == (Channel {
                        waveform: self.channels@[k].waveform,
                        ..old(self).channels@[k]
                    }) && self.channels@[k].waveform@ == spec_waveform(idx),
                forall|k: int| i <= k < 5 ==> #[trigger] self.channels@[k] == old(self).channels@[k],
            decreases 5 - i,
        {
            let mut c = self.channels[i];
            c.waveform = wave;
            self.channels[i] = c;
            i = i + 1;
        }
    }

    /// The waveform index (parameter 0); other ids read as 0.
    pub fn get_param(&self, param_id: u32) -> (r: u8)
        ensures
            r == spec_get_param(*self, param_id),
    {
        if param_id == 0 {
            self.waveform_idx
        } else {
            0
        }
    }

    /// Plays channel `voice` with period `period` at the velocity's volume,
    /// with the selected waveform (voices past 4 are ignored).
    pub fn voice_on(&mut self, voice: usize, period: u16, velocity: u8)
        requires
            old(self).wf(),
        ensures
            final(self).wf(),
            voice >= 5 ==> *final(self) == *old(self),
            voice < 5 ==> {
                let c = final(self).channels@[voice as int];
                &&& final(self).waveform_idx == old(self).waveform_idx
                &&& final(self).channels@ == old(self).channels@.update(voice as int, c)
                &&& c == (Channel {
                    period,
                    volume: (velocity * 15 / 127) as u8,
                    waveform: c.waveform,
                    ..old(self).channels@[voice as int]
                })
                &&& c.waveform@ == spec_waveform(old(self).waveform_idx)
            },
    {
        if voice >= 5 {
            return;
        }
        let mut c = self.channels[voice];
        c.period = period;
        c.volume = velocity_to_volume(velocity);
        c.waveform = waveform(self.waveform_idx);
        self.channels[voice] = c;
        assert(self.channels@ =~= old(self).channels@.update(voice as int, c));
    }

    /// Silences channel `voice` (voices past 4 are ignored).
    pub fn voice_off(&mut self, voice: usize)
        requires
            old(self).wf(),
        ensures
            final(self).wf(),
            voice >= 5 ==> *final(self) == *old(self),
            voice < 5 ==> final(self).waveform_idx == old(self).waveform_idx && final(self).channels@
                == old(self).channels@.update(
                voice as int,
                Channel { volume: 0, ..old(self).channels@[voice as int] },
            ),
    {
        if voice >= 5 {
            return;
        }
        let mut c = self.channels[voice];
        c.volume = 0;
        self.channels[voice] = c;
        assert(self.channels@ =~= old(self).channels@.update(voice as int, c));
    }

    /// Fresh channels; the waveform setting stays (new notes take it again).
    pub fn reset(&mut self)
        ensures
            final(self).wf(),
            final(self).waveform_idx == old(self).waveform_idx,
            forall|i: int|
                0 <= i < 5 ==> #[trigger] final(self).channels@[i].volume == 0
                    && final(self).channels@[i].waveform@ == spec_waveform(0),            forall|i: int| 0 <= i < 5 ==> is_fresh_channel(#[trigger] final(self).channels@[i]),
    {
        self.channels = [Channel::new(), Channel::new(), Channel::new(), Channel::new(), Channel::new()];
    }
}

/// The adjustable parameters of the SCC, in display order.
pub open spec fn scc_params() -> Seq<ParamSpec> {
    seq![
        ParamSpec { id: 0, name: "Waveform"@, group: "Wavetable"@, kind: KindSpec::Discrete { min: 0, max: 3, default: 0, labels: Some(seq!["Sine"@, "Square"@, "Saw"@, "Organ"@]) } },
    ]
}

/// The adjustable parameters of the SCC: id, name, group and range.
pub fn scc_param_info() -> (r: Vec<ParamInfo>)
    ensures
        params_view(r@) == scc_params(),
{
    let mut r: Vec<ParamInfo> = Vec::new();
    let names4: [&str; 4] = ["Sine", "Square", "Saw", "Organ"];
    assert(names4@ == seq!["Sine", "Square", "Saw", "Organ"]);
    let labels4 = label_list(&names4);
    assert(strings_view(labels4@) =~= seq!["Sine"@, "Square"@, "Saw"@, "Organ"@]);
    r.push(ParamInfo::discrete(0, "Waveform", "Wavetable", 0, 3, 0, Some(labels4)));
    assert(params_view(r@) =~= scc_params());
    r
}

pub proof fn lemma_scc_params_sound()
    ensures
        params_sound(scc_params()),
{
}

} // verus!

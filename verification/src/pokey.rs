//! Channels of the POKEY (Atari): a frequency divider whose output either
//! toggles or follows one of three polynomial counters (4-, 5- and 17-bit
//! shift registers), by distortion mode.

use vstd::prelude::*;
use crate::chip::{KindSpec, ParamInfo, ParamSpec, ParamValue, label_list, params_sound, params_view, strings_view, velocity_to_volume};

verus! {

/// The 4-bit counter after one shift: bit 3 XOR bit 2 is fed into bit 0.
pub open spec fn poly4_shift(p: u8) -> u8 {
    ((p << 1u8) | (((p >> 3u8) ^ (p >> 2u8)) & 1)) & 0x0F
}

/// The 5-bit counter after one shift: bit 4 XOR bit 2 is fed into bit 0.
pub open spec fn poly5_shift(p: u8) -> u8 {
    ((p << 1u8) | (((p >> 4u8) ^ (p >> 2u8)) & 1)) & 0x1F
}

/// The 17-bit counter after one shift: bit 16 XOR bit 11 is fed into bit 0.
pub open spec fn poly17_shift(p: u32) -> u32 {
    ((p << 1u32) | (((p >> 16u32) ^ (p >> 11u32)) & 1)) & 0x1FFFF
}

/// One audio channel.
#[derive(Debug, Clone, Copy, PartialEq, Eq, Structural)]
pub struct Channel {
    /// 8-bit frequency divider (AUDF).
    pub divider: u8,
    pub counter: u16,
    /// 4-bit volume (AUDV).
    pub volume: u8,
    pub output: bool,
    pub poly4: u8,
    pub poly5: u8,
    pub poly17: u32,
    /// Distortion mode: 0 pure tone, 1 poly4, 2 poly5, 3 and above poly17.
    pub distortion: u8,
}

/// A channel after one step at the native rate.
pub open spec fn channel_step(c: Channel) -> Channel {
    if c.counter > 0 {
        Channel { counter: (c.counter - 1) as u16, ..c }
    } else if c.distortion == 0 {
        Channel { counter: c.divider as u16, output: !c.output, ..c }
    } else if c.distortion == 1 {
        let p = poly4_shift(c.poly4);
        Channel { counter: c.divider as u16, poly4: p, output: (p & 1) != 0, ..c }
    } else if c.distortion == 2 {
        let p = poly5_shift(c.poly5);
        Channel { counter: c.divider as u16, poly5: p, output: (p & 1) != 0, ..c }
    } else {
        let p = poly17_shift(c.poly17);
        Channel { counter: c.divider as u16, poly17: p, output: (p & 1) != 0, ..c }
    }
}

/// Whether each counter is within its width and not stuck at zero.
pub open spec fn polys_live(c: Channel) -> bool {
    &&& 0 < c.poly4 <= 0x0F
    &&& 0 < c.poly5 <= 0x1F
    &&& 0 < c.poly17 <= 0x1FFFF
}

impl Channel {
    /// A silent channel with all counters full of ones.
    pub fn new() -> (r: Self)
        ensures
            r == (Channel {
                divider: 0,
                counter: 0,
                volume: 0,
                output: false,
                poly4: 0x0F,
                poly5: 0x1F,
                poly17: 0x1FFFF,
                distortion: 0,
            }),
            polys_live(r),
    {
        Channel {
            divider: 0,
            counter: 0,
            volume: 0,
            output: false,
            poly4: 0x0F,
            poly5: 0x1F,
            poly17: 0x1FFFF,
            distortion: 0,
        }
    }

    /// One step at the native rate: count down, or reload the counter from
    /// the divider and produce the next output bit of the selected mode.
    /// Live counters stay live.
    pub fn tick(&mut self)
        ensures
            *final(self) == channel_step(*old(self)),
            polys_live(*old(self)) ==> polys_live(*final(self)),
    {
        if self.counter > 0 {
            self.counter = self.counter - 1;
        } else {
            self.counter = self.divider as u16;
            match self.distortion {
                0 => {
                    self.output = !self.output;
                },
                1 => {
                    let p = self.poly4;
                    let next: u8 = ((p << 1u8) | (((p >> 3u8) ^ (p >> 2u8)) & 1)) & 0x0F;
                    assert(0 < p <= 0x0F ==> 0 < next <= 0x0F) by (bit_vector)
                        requires
                            next == ((p << 1u8) | (((p >> 3u8) ^ (p >> 2u8)) & 1)) & 0x0F,
                    ;
                    self.poly4 = next;
                    self.output = (next & 1) != 0;
                },
                2 => {
                    let p = self.poly5;
                    let next: u8 = ((p << 1u8) | (((p >> 4u8) ^ (p >> 2u8)) & 1)) & 0x1F;
                    assert(0 < p <= 0x1F ==> 0 < next <= 0x1F) by (bit_vector)
                        requires
                            next == ((p << 1u8) | (((p >> 4u8) ^ (p >> 2u8)) & 1)) & 0x1F,
                    ;
                    self.poly5 = next;
                    self.output = (next & 1) != 0;
                },
                _ => {
                    let p = self.poly17;
                    let next: u32 = ((p << 1u32) | (((p >> 16u32) ^ (p >> 11u32)) & 1)) & 0x1FFFF;
                    assert(0 < p <= 0x1FFFF ==> 0 < next <= 0x1FFFF) by (bit_vector)
                        requires
                            next == ((p << 1u32) | (((p >> 16u32) ^ (p >> 11u32)) & 1)) & 0x1FFFF,
                    ;
                    self.poly17 = next;
                    self.output = (next & 1) != 0;
                },
            }
        }
    }

    /// The level the channel contributes: its volume while its output is
    /// high, else zero.
    pub fn level(&self) -> (r: u8)
        ensures
            r == if self.output {
                self.volume
            } else {
                0
            },
    {
        if self.output {
            self.volume
        } else {
            0
        }
    }
}

/// The chip's four channels and the distortion mode they share.
#[derive(Debug, Clone, Copy)]
pub struct PokeyCore {
    pub channels: [Channel; 4],
    pub distortion: u8,
}

/// A fresh channel.
pub open spec fn fresh_channel() -> Channel {
    Channel {
        divider: 0,
        counter: 0,
        volume: 0,
        output: false,
        poly4: 0x0F,
        poly5: 0x1F,
        poly17: 0x1FFFF,
        distortion: 0,
    }
}

/// The value a parameter reads back as.
pub open spec fn spec_get_param(c: PokeyCore, param_id: u32) -> u8 {
    if param_id == 0 {
        c.distortion
    } else {
        0
    }
}

impl PokeyCore {
    /// Four silent channels, pure tones.
    pub fn new() -> (r: Self)
        ensures
            forall|i: int| 0 <= i < 4 ==> r.channels@[i] == fresh_channel(),
            r.distortion == 0,
    {
        PokeyCore {
            channels: [Channel::new(), Channel::new(), Channel::new(), Channel::new()],
            distortion: 0,
        }
    }

    /// One step at the native rate for every channel.
    pub fn tick(&mut self)
        ensures
            forall|i: int|
                0 <= i < 4 ==> #[trigger] final(self).channels@[i] == channel_step(
                    old(self).channels@[i],
                ),
            final(self).distortion == old(self).distortion,
    {
        let mut i: usize = 0;
        while i < 4
            invariant
                i <= 4,
                self.distortion == old(self).distortion,
                forall|k: int|
                    0 <= k < i ==> #[trigger] self.channels@[k] == channel_step(
                        old(self).channels@[k],
                    ),
                forall|k: int| i <= k < 4 ==> #[trigger] self.channels@[k] == old(self).channels@[k],
            decreases 4 - i,
        {
            let mut c = self.channels[i];
            c.tick();
            self.channels[i] = c;
            i = i + 1;
        }
    }

    /// Sets the distortion mode (parameter 0, at most 3) of every channel.
    pub fn set_param(&mut self, param_id: u32, value: ParamValue)
        ensures
            param_id != 0 ==> *final(self) == *old(self),
            param_id == 0 ==> {
                let d = if value.byte < 3 {
                    value.byte
                } else {
                    3
                };
                &&& final(self).distortion == d
                &&& forall|i: int|
                    0 <= i < 4 ==> #[trigger] final(self).channels@[i] == (Channel {
                        distortion: d,
                        ..old(self).channels@[i]
                    })
            },
            spec_get_param(*final(self), param_id) == if param_id == 0 {
                if value.byte < 3 {
                    value.byte
                } else {
                    3
                }
            } else {
                0
            },
    {
        if param_id != 0 {
            return;
        }
        let d: u8 = if value.byte < 3 {
            value.byte
        } else {
            3
        };
        self.distortion = d;
        let mut i: usize = 0;
        while i < 4
            invariant
                i <= 4,
                self.distortion == d,
                forall|k: int|
                    0 <= k < i ==> #[trigger] self.channels@[k] == (Channel {
                        distortion: d,
                        ..old(self).channels@[k]
                    }),
                forall|k: int| i <= k < 4 ==> #[trigger] self.channels@[k] == old(self).channels@[k],
            decreases 4 - i,
        {
            let mut c = self.channels[i];
            c.distortion = d;
            self.channels[i] = c;
            i = i + 1;
        }
    }

    /// The distortion mode (parameter 0); other ids read as 0.
    pub fn get_param(&self, param_id: u32) -> (r: u8)
        ensures
            r == spec_get_param(*self, param_id),
    {
        if param_id == 0 {
            self.distortion
        } else {
            0
        }
    }

    /// Plays channel `voice` with divider `divider` at the volume the
    /// velocity gives, in the shared distortion mode (voices past 3 are
    /// ignored).
    pub fn voice_on(&mut self, voice: usize, divider: u8, velocity: u8)
        ensures
            voice >= 4 ==> *final(self) == *old(self),
            voice < 4 ==> final(self).distortion == old(self).distortion && final(self).channels@
                == old(self).channels@.update(
                voice as int,
                Channel {
                    divider,
                    volume: (velocity * 15 / 127) as u8,
                    distortion: old(self).distortion,
                    ..old(self).channels@[voice as int]
                },
            ),
    {
        if voice >= 4 {
            return;
        }
        let mut c = self.channels[voice];
        c.divider = divider;
        c.volume = velocity_to_volume(velocity);
        c.distortion = self.distortion;
        self.channels[voice] = c;
        assert(self.channels@ =~= old(self).channels@.update(voice as int, c));
    }

    /// Silences channel `voice` (voices past 3 are ignored).
    pub fn voice_off(&mut self, voice: usize)
        ensures
            voice >= 4 ==> *final(self) == *old(self),
            voice < 4 ==> final(self).distortion == old(self).distortion && final(self).channels@
                == old(self).channels@.update(
                voice as int,
                Channel { volume: 0, ..old(self).channels@[voice as int] },
            ),
    {
        if voice >= 4 {
            return;
        }
        let mut c = self.channels[voice];
        c.volume = 0;
        self.channels[voice] = c;
        assert(self.channels@ =~= old(self).channels@.update(voice as int, c));
    }

    /// Fresh channels; the shared distortion setting stays.
    pub fn reset(&mut self)
        ensures
            forall|i: int| 0 <= i < 4 ==> final(self).channels@[i] == fresh_channel(),
            final(self).distortion == old(self).distortion,
    {
        self.channels = [Channel::new(), Channel::new(), Channel::new(), Channel::new()];
    }
}

/// The adjustable parameters of the POKEY, in display order.
pub open spec fn pokey_params() -> Seq<ParamSpec> {
    seq![
        ParamSpec { id: 0, name: "Distortion"@, group: "Global"@, kind: KindSpec::Discrete { min: 0, max: 3, default: 0, labels: Some(seq!["Pure"@, "Buzzy"@, "Gritty"@, "Metallic"@]) } },
    ]
}

/// The adjustable parameters of the POKEY: id, name, group and range.
pub fn pokey_param_info() -> (r: Vec<ParamInfo>)
    ensures
        params_view(r@) == pokey_params(),
{
    let mut r: Vec<ParamInfo> = Vec::new();
    let names3: [&str; 4] = ["Pure", "Buzzy", "Gritty", "Metallic"];
    assert(names3@ == seq!["Pure", "Buzzy", "Gritty", "Metallic"]);
    let labels3 = label_list(&names3);
    assert(strings_view(labels3@) =~= seq!["Pure"@, "Buzzy"@, "Gritty"@, "Metallic"@]);
    r.push(ParamInfo::discrete(0, "Distortion", "Global", 0, 3, 0, Some(labels3)));
    assert(params_view(r@) =~= pokey_params());
    r
}

pub proof fn lemma_pokey_params_sound()
    ensures
        params_sound(pokey_params()),
{
}

} // verus!

//! Generators of the SN76489 (TI PSG): three square-wave tone channels and
//! a noise channel driven by a 16-bit shift register.
//!
//! Each generator counts down at the chip's native rate; when its counter
//! runs out it reloads it and flips (tone) or shifts (noise) its output.
//! Volumes are attenuations: 0 is loudest, 15 is silent.

use vstd::prelude::*;
use crate::chip::{KindSpec, ParamInfo, ParamSpec, ParamValue, label_list, params_sound, params_view, strings_view};

verus! {

/// A square-wave tone generator.
#[derive(Debug, Clone, Copy, PartialEq, Eq, Structural)]
pub struct ToneChannel {
    /// 10-bit frequency register (0-1023).
    pub frequency: u16,
    /// 4-bit attenuation (0 = loud, 15 = silent).
    pub volume: u8,
    pub counter: u16,
    pub output: bool,
}

impl ToneChannel {
    /// A silent channel.
    pub fn new() -> (r: Self)
        ensures
            r == (ToneChannel { frequency: 0, volume: 15, counter: 0, output: false }),
    {
        ToneChannel { frequency: 0, volume: 15, counter: 0, output: false }
    }

    /// One step at the native rate: count down, or reload the counter from
    /// the frequency register and flip the output.
    pub fn tick(&mut self)
        ensures
            *final(self) == tone_step(*old(self)),
    {
        if self.counter > 0 {
            self.counter = self.counter - 1;
        } else {
            self.counter = self.frequency;
            self.output = !self.output;
        }
    }
}

/// A tone channel after one step at the native rate.
pub open spec fn tone_step(c: ToneChannel) -> ToneChannel {
    if c.counter > 0 {
        ToneChannel { counter: (c.counter - 1) as u16, ..c }
    } else {
        ToneChannel { counter: c.frequency, output: !c.output, ..c }
    }
}

/// The period that a noise shift rate selects; rate 3 follows tone 3, which
/// the caller supplies.
pub open spec fn spec_shift_value(rate: u8) -> u16 {
    if rate == 0 {
        0x10
    } else if rate == 1 {
        0x20
    } else if rate == 2 {
        0x40
    } else {
        0
    }
}

/// The shift register after one shift: white noise feeds back bit 0 XOR
/// bit 3 into bit 15, periodic noise feeds back bit 0.
pub open spec fn spec_noise_shift(lfsr: u16, white: bool) -> u16 {
    let feedback: u16 = if white {
        (lfsr & 1) ^ ((lfsr >> 3u16) & 1)
    } else {
        lfsr & 1
    };
    (lfsr >> 1u16) | (feedback << 15u16)
}

/// The noise channel after one step at the native rate; rate 3 reloads
/// from tone 3's frequency.
pub open spec fn noise_step(c: NoiseChannel, tone3_freq: u16) -> NoiseChannel {
    if c.counter > 0 {
        NoiseChannel { counter: (c.counter - 1) as u16, ..c }
    } else {
        NoiseChannel {
            counter: if c.shift_rate == 3 {
                tone3_freq
            } else {
                spec_shift_value(c.shift_rate)
            },
            output: (c.lfsr & 1) != 0,
            lfsr: spec_noise_shift(c.lfsr, c.white_noise),
            ..c
        }
    }
}

/// The noise generator.
#[derive(Debug, Clone, Copy, PartialEq, Eq, Structural)]
pub struct NoiseChannel {
    pub volume: u8,
    /// 0-3: N/512, N/1024, N/2048, or tone 3's frequency.
    pub shift_rate: u8,
    /// White noise, or else periodic.
    pub white_noise: bool,
    pub lfsr: u16,
    pub counter: u16,
    pub output: bool,
}

impl NoiseChannel {
    /// A silent channel, white noise, shift register seeded with bit 15.
    pub fn new() -> (r: Self)
        ensures
            r == (NoiseChannel {
                volume: 15,
                shift_rate: 0,
                white_noise: true,
                lfsr: 0x8000,
                counter: 0,
                output: false,
            }),
    {
        NoiseChannel {
            volume: 15,
            shift_rate: 0,
            white_noise: true,
            lfsr: 0x8000,
            counter: 0,
            output: false,
        }
    }

    /// The period of the selected shift rate (0 for rate 3).
    pub fn shift_value(&self) -> (r: u16)
        ensures
            r == spec_shift_value(self.shift_rate),
    {
        match self.shift_rate {
            0 => 0x10,
            1 => 0x20,
            2 => 0x40,
            _ => 0,
        }
    }

    /// One step at the native rate: count down, or reload the counter and
    /// shift the register, whose bit 0 becomes the output. A register that
    /// is not zero never becomes zero.
    pub fn tick(&mut self, tone3_freq: u16)
        ensures
            *final(self) == noise_step(*old(self), tone3_freq),
            old(self).lfsr != 0 ==> final(self).lfsr != 0,
    {
        if self.counter > 0 {
            self.counter = self.counter - 1;
        } else {
            let period = if self.shift_rate == 3 {
                tone3_freq
            } else {
                self.shift_value()
            };
            self.counter = period;
            let lfsr = self.lfsr;
            let feedback: u16 = if self.white_noise {
                (lfsr & 1) ^ ((lfsr >> 3u16) & 1)
            } else {
                lfsr & 1
            };
            self.output = (lfsr & 1) != 0;
            let next: u16 = (lfsr >> 1u16) | (feedback << 15u16);
            assert(lfsr != 0 && (feedback == (lfsr & 1) ^ ((lfsr >> 3u16) & 1) || feedback == lfsr
                & 1) ==> next != 0) by (bit_vector)
                requires
                    next == (lfsr >> 1u16) | (feedback << 15u16),
            ;
            self.lfsr = next;
        }
    }
}

/// The attenuation for a note velocity: full velocity 127 is 0 (loudest),
/// velocity 0 is 15 (silent). Velocities up to 135 still scale to at most
/// 15 steps; beyond that the attenuation would go below zero.
pub fn attenuation_for_velocity(velocity: u8) -> (r: u8)
    requires
        velocity <= 135,
    ensures
        r == 15 - velocity * 15 / 127,
{
    15 - ((velocity as u16 * 15) / 127) as u8
}

/// The chip's generators: three tone channels and the noise channel.
#[derive(Debug, Clone, Copy)]
pub struct Sn76489Core {
    pub tones: [ToneChannel; 3],
    pub noise: NoiseChannel,
}

/// The value a parameter reads back as: the four attenuations, white
/// noise as 1 or 0, the shift rate; unknown ids as 0.
pub open spec fn spec_get_param(c: Sn76489Core, id: u32) -> u8 {
    if id < 3 {
        c.tones@[id as int].volume
    } else if id == 3 {
        c.noise.volume
    } else if id == 4 {
        if c.noise.white_noise {
            1
        } else {
            0
        }
    } else if id == 5 {
        c.noise.shift_rate
    } else {
        0
    }
}

/// The smaller of `v` and `limit`.
pub open spec fn at_most(v: u8, limit: u8) -> u8 {
    if v < limit {
        v
    } else {
        limit
    }
}

fn min_u8(v: u8, limit: u8) -> (r: u8)
    ensures
        r == at_most(v, limit),
{
    if v < limit {
        v
    } else {
        limit
    }
}

impl Sn76489Core {
    /// All channels silent.
    pub fn new() -> (r: Self)
        ensures
            forall|i: int|
                0 <= i < 3 ==> r.tones@[i] == (ToneChannel {
                    frequency: 0,
                    volume: 15,
                    counter: 0,
                    output: false,
                }),
            r.noise == (NoiseChannel {
                volume: 15,
                shift_rate: 0,
                white_noise: true,
                lfsr: 0x8000,
                counter: 0,
                output: false,
            }),
    {
        Sn76489Core {
            tones: [ToneChannel::new(), ToneChannel::new(), ToneChannel::new()],
            noise: NoiseChannel::new(),
        }
    }

    /// One step at the native rate: each tone steps, then the noise, which
    /// may follow tone 3's frequency.
    pub fn tick(&mut self)
        ensures
            forall|i: int|
                0 <= i < 3 ==> #[trigger] final(self).tones@[i] == tone_step(old(self).tones@[i]),
            final(self).noise == noise_step(old(self).noise, old(self).tones@[2].frequency),
    {
        let mut t0 = self.tones[0];
        t0.tick();
        self.tones[0] = t0;
        let mut t1 = self.tones[1];
        t1.tick();
        self.tones[1] = t1;
        let mut t2 = self.tones[2];
        let f = t2.frequency;
        t2.tick();
        self.tones[2] = t2;
        self.noise.tick(f);
    }

    /// Sets a parameter: attenuations of tones 1-3 and of the noise (0-3,
    /// at most 15), white noise (4), shift rate (5, at most 3).
    pub fn set_param(&mut self, param_id: u32, value: ParamValue)
        ensures
            param_id < 3 ==> final(self).noise == old(self).noise && final(self).tones@
                == old(self).tones@.update(
                param_id as int,
                ToneChannel { volume: at_most(value.byte, 15), ..old(self).tones@[param_id as int] },
            ),
            param_id == 3 ==> *final(self) == (Sn76489Core {
                noise: NoiseChannel { volume: at_most(value.byte, 15), ..old(self).noise },
                ..*old(self)
            }),
            param_id == 4 ==> *final(self) == (Sn76489Core {
                noise: NoiseChannel { white_noise: value.on, ..old(self).noise },
                ..*old(self)
            }),
            param_id == 5 ==> *final(self) == (Sn76489Core {
                noise: NoiseChannel { shift_rate: at_most(value.byte, 3), ..old(self).noise },
                ..*old(self)
            }),
            param_id > 5 ==> *final(self) == *old(self),
            spec_get_param(*final(self), param_id) == if param_id <= 3 {
                at_most(value.byte, 15)
            } else if param_id == 4 {
                if value.on {
                    1u8
                } else {
                    0u8
                }
            } else if param_id == 5 {
                at_most(value.byte, 3)
            } else {
                0u8
            },
    {
        if param_id < 3 {
            let i = param_id as usize;
            let mut t = self.tones[i];
            t.volume = min_u8(value.byte, 15);
            self.tones[i] = t;
            assert(self.tones@ =~= old(self).tones@.update(param_id as int, t));
        } else if param_id == 3 {
            self.noise.volume = min_u8(value.byte, 15);
        } else if param_id == 4 {
            self.noise.white_noise = value.on;
        } else if param_id == 5 {
            self.noise.shift_rate = min_u8(value.byte, 3);
        }
    }

    /// The value of a parameter as an integer.
    pub fn get_param(&self, param_id: u32) -> (r: u8)
        ensures
            r == spec_get_param(*self, param_id),
    {
        if param_id < 3 {
            self.tones[param_id as usize].volume
        } else if param_id == 3 {
            self.noise.volume
        } else if param_id == 4 {
            if self.noise.white_noise {
                1
            } else {
                0
            }
        } else if param_id == 5 {
            self.noise.shift_rate
        } else {
            0
        }
    }

    /// Plays tone `voice` with frequency register `freq_reg` at the
    /// attenuation the velocity gives (voices past 2 are ignored).
    pub fn voice_on(&mut self, voice: usize, freq_reg: u16, velocity: u8)
        requires
            velocity <= 135,
        ensures
            voice >= 3 ==> *final(self) == *old(self),
            voice < 3 ==> final(self).noise == old(self).noise && final(self).tones@
                == old(self).tones@.update(
                voice as int,
                ToneChannel {
                    frequency: freq_reg,
                    volume: (15 - velocity * 15 / 127) as u8,
                    ..old(self).tones@[voice as int]
                },
            ),
    {
        if voice >= 3 {
            return;
        }
        let mut t = self.tones[voice];
        t.frequency = freq_reg;
        t.volume = attenuation_for_velocity(velocity);
        self.tones[voice] = t;
        assert(self.tones@ =~= old(self).tones@.update(voice as int, t));
    }

    /// Silences tone `voice` (voices past 2 are ignored).
    pub fn voice_off(&mut self, voice: usize)
        ensures
            voice >= 3 ==> *final(self) == *old(self),
            voice < 3 ==> final(self).noise == old(self).noise && final(self).tones@
                == old(self).tones@.update(
                voice as int,
                ToneChannel { volume: 15, ..old(self).tones@[voice as int] },
            ),
    {
        if voice >= 3 {
            return;
        }
        let mut t = self.tones[voice];
        t.volume = 15;
        self.tones[voice] = t;
        assert(self.tones@ =~= old(self).tones@.update(voice as int, t));
    }

    /// Returns every channel to its silent power-on state.
    pub fn reset(&mut self)
        ensures
            forall|i: int|
                0 <= i < 3 ==> final(self).tones@[i] == (ToneChannel {
                    frequency: 0,
                    volume: 15,
                    counter: 0,
                    output: false,
                }),
            final(self).noise == (NoiseChannel {
                volume: 15,
                shift_rate: 0,
                white_noise: true,
                lfsr: 0x8000,
                counter: 0,
                output: false,
            }),
    {
        *self = Sn76489Core::new();
    }
}

/// The adjustable parameters of the SN76489, in display order.
pub open spec fn sn76489_params() -> Seq<ParamSpec> {
    seq![
        ParamSpec { id: 0, name: "Volume"@, group: "Tone 1"@, kind: KindSpec::Continuous { min: 0, max: 15, default: 0 } },
        ParamSpec { id: 1, name: "Volume"@, group: "Tone 2"@, kind: KindSpec::Continuous { min: 0, max: 15, default: 0 } },
        ParamSpec { id: 2, name: "Volume"@, group: "Tone 3"@, kind: KindSpec::Continuous { min: 0, max: 15, default: 0 } },
        ParamSpec { id: 3, name: "Volume"@, group: "Noise"@, kind: KindSpec::Continuous { min: 0, max: 15, default: 15 } },
        ParamSpec { id: 4, name: "White Noise"@, group: "Noise"@, kind: KindSpec::Toggle { default: true } },
        ParamSpec { id: 5, name: "Shift Rate"@, group: "Noise"@, kind: KindSpec::Discrete { min: 0, max: 3, default: 0, labels: Some(seq!["N/512"@, "N/1024"@, "N/2048"@, "Tone 3"@]) } },
    ]
}

/// The adjustable parameters of the SN76489: id, name, group and range.
pub fn sn76489_param_info() -> (r: Vec<ParamInfo>)
    ensures
        params_view(r@) == sn76489_params(),
{
    let mut r: Vec<ParamInfo> = Vec::new();
    r.push(ParamInfo::continuous(0, "Volume", "Tone 1", 0, 15, 0));
    r.push(ParamInfo::continuous(1, "Volume", "Tone 2", 0, 15, 0));
    r.push(ParamInfo::continuous(2, "Volume", "Tone 3", 0, 15, 0));
    r.push(ParamInfo::continuous(3, "Volume", "Noise", 0, 15, 15));
    r.push(ParamInfo::toggle(4, "White Noise", "Noise", true));
    let names0: [&str; 4] = ["N/512", "N/1024", "N/2048", "Tone 3"];
    assert(names0@ == seq!["N/512", "N/1024", "N/2048", "Tone 3"]);
    let labels0 = label_list(&names0);
    assert(strings_view(labels0@) =~= seq!["N/512"@, "N/1024"@, "N/2048"@, "Tone 3"@]);
    r.push(ParamInfo::discrete(5, "Shift Rate", "Noise", 0, 3, 0, Some(labels0)));
    assert(params_view(r@) =~= sn76489_params());
    r
}

pub proof fn lemma_sn76489_params_sound()
    ensures
        params_sound(sn76489_params()),
{
}

/// Stepping the generators never changes a volume, so a channel silenced
/// (by key-off or reset, attenuation 15) stays silent until keyed again.
pub proof fn law_steps_keep_volumes(t: ToneChannel, n: NoiseChannel, tone3_freq: u16)
    ensures
        tone_step(t).volume == t.volume,
        tone_step(t).frequency == t.frequency,
        noise_step(n, tone3_freq).volume == n.volume,
{
}

} // verus!

//! Generators of the AY-3-8910 PSG: three square-wave tone channels, a
//! noise generator driven by a 17-bit shift register, and an envelope
//! step counter.

use vstd::prelude::*;
use crate::chip::{KindSpec, ParamInfo, ParamSpec, ParamValue, params_sound, params_view, velocity_to_volume};

verus! {

/// A square-wave tone generator.
#[derive(Debug, Clone, Copy, PartialEq, Eq, Structural)]
pub struct ToneChannel {
    /// 12-bit tone period.
    pub period: u16,
    pub counter: u16,
    pub output: bool,
    /// 4-bit volume (0-15); larger values are heard as 15.
    pub volume: u8,
}

impl ToneChannel {
    /// A silent channel.
    pub fn new() -> (r: Self)
        ensures
            r == (ToneChannel { period: 0, counter: 0, output: false, volume: 0 }),
    {
        ToneChannel { period: 0, counter: 0, output: false, volume: 0 }
    }

    /// One step at the native rate: count down, or reload the counter from
    /// the period and flip the output.
    pub fn tick(&mut self)
        ensures
            *final(self) == tone_step(*old(self)),
    {
        if self.counter > 0 {
            self.counter = self.counter - 1;
        } else {
            self.counter = self.period;
            self.output = !self.output;
        }
    }
}

/// A tone channel after one step at the native rate.
pub open spec fn tone_step(c: ToneChannel) -> ToneChannel {
    if c.counter > 0 {
        ToneChannel { counter: (c.counter - 1) as u16, ..c }
    } else {
        ToneChannel { counter: c.period, output: !c.output, ..c }
    }
}

/// The noise register after one shift: bit 0 XOR bit 3 is fed into bit 16.
pub open spec fn spec_noise_shift(lfsr: u32) -> u32 {
    (lfsr >> 1u32) | (((lfsr ^ (lfsr >> 3u32)) & 1) << 16u32)
}

/// The chip's generators, without its output stage.
#[derive(Debug, Clone, Copy)]
pub struct Ay8910Core {
    pub tones: [ToneChannel; 3],
    pub noise_period: u8,
    pub noise_counter: u16,
    pub noise_lfsr: u32,
    pub noise_output: bool,
    /// Whether each channel is mixed with the noise.
    pub noise_enable: [bool; 3],
    pub env_shape: u8,
    pub env_period: u16,
    pub env_counter: u32,
    pub env_step: u8,
}

/// The value a parameter reads back as.
pub open spec fn spec_get_param(c: Ay8910Core, param_id: u32) -> u16 {
    if param_id == 0 {
        c.noise_period as u16
    } else if param_id == 1 {
        if c.noise_enable[0] {
            1
        } else {
            0
        }
    } else if param_id == 2 {
        c.env_shape as u16
    } else if param_id == 3 {
        c.env_period
    } else {
        0
    }
}

impl Ay8910Core {
    /// All channels silent, noise register seeded with 1, envelope period 1000.
    pub fn new() -> (r: Self)
        ensures
            forall|i: int|
                0 <= i < 3 ==> r.tones[i] == (ToneChannel {
                    period: 0,
                    counter: 0,
                    output: false,
                    volume: 0,
                }),
            r.noise_period == 0,
            r.noise_counter == 0,
            r.noise_lfsr == 1,
            !r.noise_output,
            forall|i: int| 0 <= i < 3 ==> !r.noise_enable[i],
            r.env_shape == 0,
            r.env_period == 1000,
            r.env_counter == 0,
            r.env_step == 0,
    {
        Ay8910Core {
            tones: [ToneChannel::new(), ToneChannel::new(), ToneChannel::new()],
            noise_period: 0,
            noise_counter: 0,
            noise_lfsr: 1,
            noise_output: false,
            noise_enable: [false, false, false],
            env_shape: 0,
            env_period: 1000,
            env_counter: 0,
            env_step: 0,
        }
    }

    /// One step at the native rate: every tone channel steps; the noise
    /// counts down or reloads and shifts; the envelope counts down or
    /// reloads and advances its step, which stops at 32. A noise register
    /// that is not zero never becomes zero.
    pub fn tick(&mut self)
        ensures
            forall|i: int|
                0 <= i < 3 ==> #[trigger] final(self).tones[i] == tone_step(old(self).tones[i]),
            final(self).noise_period == old(self).noise_period,
            final(self).noise_enable == old(self).noise_enable,
            final(self).env_shape == old(self).env_shape,
            final(self).env_period == old(self).env_period,
            old(self).noise_counter > 0 ==> {
                &&& final(self).noise_counter == old(self).noise_counter - 1
                &&& final(self).noise_lfsr == old(self).noise_lfsr
                &&& final(self).noise_output == old(self).noise_output
            },
            old(self).noise_counter == 0 ==> {
                &&& final(self).noise_counter == old(self).noise_period
                &&& final(self).noise_lfsr == spec_noise_shift(old(self).noise_lfsr)
                &&& final(self).noise_output == ((final(self).noise_lfsr & 1) != 0)
            },
            old(self).noise_lfsr != 0 ==> final(self).noise_lfsr != 0,
            old(self).env_counter > 0 ==> final(self).env_counter == old(self).env_counter - 1
                && final(self).env_step == old(self).env_step,
            old(self).env_counter == 0 ==> {
                &&& final(self).env_counter == old(self).env_period
                &&& final(self).env_step == if old(self).env_step < 32 {
                    old(self).env_step + 1
                } else {
                    old(self).env_step as int
                }
            },
    {
        let mut t0 = self.tones[0];
        t0.tick();
        self.tones[0] = t0;
        let mut t1 = self.tones[1];
        t1.tick();
        self.tones[1] = t1;
        let mut t2 = self.tones[2];
        t2.tick();
        self.tones[2] = t2;

        if self.noise_counter > 0 {
            self.noise_counter = self.noise_counter - 1;
        } else {
            self.noise_counter = self.noise_period as u16;
            let lfsr = self.noise_lfsr;
            let next: u32 = (lfsr >> 1u32) | (((lfsr ^ (lfsr >> 3u32)) & 1) << 16u32);
            assert(lfsr != 0 ==> next != 0) by (bit_vector)
                requires
                    next == (lfsr >> 1u32) | (((lfsr ^ (lfsr >> 3u32)) & 1) << 16u32),
            ;
            self.noise_lfsr = next;
            self.noise_output = (next & 1) != 0;
        }

        if self.env_counter > 0 {
            self.env_counter = self.env_counter - 1;
        } else {
            self.env_counter = self.env_period as u32;
            if self.env_step < 32 {
                self.env_step = self.env_step + 1;
            }
        }
    }

    /// Whether channel `i` is heard now: its tone is high (or its period is
    /// zero) and, where noise is mixed in, the noise is high.
    pub fn channel_on(&self, i: usize) -> (r: bool)
        requires
            i < 3,
        ensures
            r == ((self.tones[i as int].output || self.tones[i as int].period == 0) && (
            !self.noise_enable[i as int] || self.noise_output)),
    {
        let tone = self.tones[i];
        let tone_on = tone.output || tone.period == 0;
        let noise_on = !self.noise_enable[i] || self.noise_output;
        tone_on && noise_on
    }

    /// Sets a parameter: noise period (0, at most 31), noise on all three
    /// channels (1), envelope shape (2, at most 15), envelope period (3).
    pub fn set_param(&mut self, param_id: u32, value: ParamValue)
        ensures
            param_id == 0 ==> *final(self) == (Ay8910Core {
                noise_period: if value.byte < 31 {
                    value.byte
                } else {
                    31
                },
                ..*old(self)
            }),
            param_id == 1 ==> *final(self) == (Ay8910Core {
                noise_enable: [value.on, value.on, value.on],
                ..*old(self)
            }),
            param_id == 2 ==> *final(self) == (Ay8910Core {
                env_shape: if value.byte < 15 {
                    value.byte
                } else {
                    15
                },
                ..*old(self)
            }),
            param_id == 3 ==> *final(self) == (Ay8910Core { env_period: value.word, ..*old(self) }),
            param_id > 3 ==> *final(self) == *old(self),
            spec_get_param(*final(self), param_id) == if param_id == 0 {
                if value.byte < 31 {
                    value.byte as u16
                } else {
                    31
                }
            } else if param_id == 1 {
                if value.on {
                    1
                } else {
                    0
                }
            } else if param_id == 2 {
                if value.byte < 15 {
                    value.byte as u16
                } else {
                    15
                }
            } else if param_id == 3 {
                value.word
            } else {
                0
            },
    {
        if param_id == 0 {
            self.noise_period = if value.byte < 31 {
                value.byte
            } else {
                31
            };
        } else if param_id == 1 {
            self.noise_enable = [value.on, value.on, value.on];
        } else if param_id == 2 {
            self.env_shape = if value.byte < 15 {
                value.byte
            } else {
                15
            };
        } else if param_id == 3 {
            self.env_period = value.word;
        }
    }

    /// The value of a parameter as an integer: noise period, noise switch
    /// (channel 0's, as 1 or 0), envelope shape, envelope period; unknown
    /// ids as 0.
    pub fn get_param(&self, param_id: u32) -> (r: u16)
        ensures
            r == spec_get_param(*self, param_id),
    {
        if param_id == 0 {
            self.noise_period as u16
        } else if param_id == 1 {
            if self.noise_enable[0] {
                1
            } else {
                0
            }
        } else if param_id == 2 {
            self.env_shape as u16
        } else if param_id == 3 {
            self.env_period
        } else {
            0
        }
    }

    /// Plays tone `voice` with period `period` at the volume the velocity
    /// gives (voices past 2 are ignored).
    pub fn voice_on(&mut self, voice: usize, period: u16, velocity: u8)
        ensures
            voice >= 3 ==> *final(self) == *old(self),
            voice < 3 ==> *final(self) == (Ay8910Core {
                tones: final(self).tones,
                ..*old(self)
            }) && final(self).tones@ == old(self).tones@.update(
                voice as int,
                ToneChannel {
                    period,
                    volume: (velocity * 15 / 127) as u8,
                    ..old(self).tones@[voice as int]
                },
            ),
    {
        if voice >= 3 {
            return;
        }
        let mut t = self.tones[voice];
        t.period = period;
        t.volume = velocity_to_volume(velocity);
        self.tones[voice] = t;
        assert(self.tones@ =~= old(self).tones@.update(voice as int, t));
    }

    /// Silences tone `voice` (voices past 2 are ignored).
    pub fn voice_off(&mut self, voice: usize)
        ensures
            voice >= 3 ==> *final(self) == *old(self),
            voice < 3 ==> *final(self) == (Ay8910Core {
                tones: final(self).tones,
                ..*old(self)
            }) && final(self).tones@ == old(self).tones@.update(
                voice as int,
                ToneChannel { volume: 0, ..old(self).tones@[voice as int] },
            ),
    {
        if voice >= 3 {
            return;
        }
        let mut t = self.tones[voice];
        t.volume = 0;
        self.tones[voice] = t;
        assert(self.tones@ =~= old(self).tones@.update(voice as int, t));
    }

    /// Silences the tones and restarts the noise register and the envelope
    /// step; the noise and envelope settings and counters stay.
    pub fn reset(&mut self)
        ensures
            forall|i: int|
                0 <= i < 3 ==> final(self).tones@[i] == (ToneChannel {
                    period: 0,
                    counter: 0,
                    output: false,
                    volume: 0,
                }),
            *final(self) == (Ay8910Core {
                tones: final(self).tones,
                noise_lfsr: 1,
                noise_output: false,
                env_step: 0,
                ..*old(self)
            }),
    {
        self.tones = [ToneChannel::new(), ToneChannel::new(), ToneChannel::new()];
        self.noise_lfsr = 1;
        self.noise_output = false;
        self.env_step = 0;
    }
}

/// The adjustable parameters of the AY-3-8910, in display order.
pub open spec fn ay8910_params() -> Seq<ParamSpec> {
    seq![
        ParamSpec { id: 0, name: "Noise Period"@, group: "Noise"@, kind: KindSpec::Discrete { min: 0, max: 31, default: 0, labels: None } },
        ParamSpec { id: 1, name: "Noise Mix"@, group: "Noise"@, kind: KindSpec::Toggle { default: false } },
        ParamSpec { id: 2, name: "Env Shape"@, group: "Envelope"@, kind: KindSpec::Discrete { min: 0, max: 15, default: 0, labels: None } },
        ParamSpec { id: 3, name: "Env Period"@, group: "Envelope"@, kind: KindSpec::Continuous { min: 0, max: 65535, default: 1000 } },
    ]
}

/// The adjustable parameters of the AY-3-8910: id, name, group and range.
pub fn ay8910_param_info() -> (r: Vec<ParamInfo>)
    ensures
        params_view(r@) == ay8910_params(),
{
    let mut r: Vec<ParamInfo> = Vec::new();
    r.push(ParamInfo::discrete(0, "Noise Period", "Noise", 0, 31, 0, None));
    r.push(ParamInfo::toggle(1, "Noise Mix", "Noise", false));
    r.push(ParamInfo::discrete(2, "Env Shape", "Envelope", 0, 15, 0, None));
    r.push(ParamInfo::continuous(3, "Env Period", "Envelope", 0, 65535, 1000));
    assert(params_view(r@) =~= ay8910_params());
    r
}

pub proof fn lemma_ay8910_params_sound()
    ensures
        params_sound(ay8910_params()),
{
}

} // verus!

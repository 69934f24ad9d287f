//! Channels of the Ricoh 2A03 (NES APU): two pulse channels with four duty
//! cycles, a triangle channel stepping through a 32-step ramp, and a noise
//! channel driven by a 15-bit shift register.

use vstd::prelude::*;
use crate::chip::{KindSpec, ParamInfo, ParamSpec, ParamValue, label_list, params_sound, params_view, strings_view, velocity_to_volume};

verus! {

/// Whether step `step` (0-7) of duty cycle `duty` (0-3) is high:
/// 12.5 %, 25 %, 50 %, and 75 % (the 25 % pattern inverted).
pub open spec fn duty_high(duty: u8, step: u8) -> bool {
    if duty == 0 {
        step == 1
    } else if duty == 1 {
        1 <= step <= 2
    } else if duty == 2 {
        1 <= step <= 4
    } else {
        !(1 <= step <= 2)
    }
}

/// Level of step `step` (0-31) of the triangle: 15 down to 0, then 0 up to 15.
pub open spec fn triangle_level(step: u8) -> u8 {
    if step < 16 {
        (15 - step) as u8
    } else {
        (step - 16) as u8
    }
}

/// The noise periods, indexed by the 4-bit period code.
pub open spec fn spec_noise_periods() -> Seq<u16> {
    seq![4, 8, 16, 32, 64, 96, 128, 160, 202, 254, 380, 508, 762, 1016, 2034, 4068]
}

const NOISE_PERIODS: [u16; 16] = [
    4,
    8,
    16,
    32,
    64,
    96,
    128,
    160,
    202,
    254,
    380,
    508,
    762,
    1016,
    2034,
    4068,
];

/// The period code for a noise note: lower notes give longer periods.
pub open spec fn noise_period_index(note: u8) -> int {
    let steps: int = if note < 108 {
        108 - note
    } else {
        0
    };
    let idx = steps * 16 / 88;
    if idx < 15 {
        idx
    } else {
        15
    }
}

/// The noise period used for `note`.
pub fn noise_period_for_note(note: u8) -> (r: u16)
    ensures
        r == spec_noise_periods()[noise_period_index(note)],
{
    let steps: usize = 108u8.saturating_sub(note) as usize;
    let idx_raw: usize = steps * 16 / 88;
    let idx: usize = if idx_raw < 15 {
        idx_raw
    } else {
        15
    };
    let table: &[u16] = &NOISE_PERIODS;
    assert(table@ =~= spec_noise_periods());
    table[idx]
}

/// A pulse channel.
#[derive(Debug, Clone, Copy, PartialEq, Eq, Structural)]
pub struct PulseChannel {
    /// 11-bit timer period.
    pub period: u16,
    pub counter: u16,
    /// Duty cycle, 0-3.
    pub duty: u8,
    /// Position in the 8-step duty sequence.
    pub step: u8,
    /// 4-bit volume.
    pub volume: u8,
    pub enabled: bool,
}

/// A pulse channel after one timer step.
pub open spec fn pulse_step(c: PulseChannel) -> PulseChannel {
    if c.counter > 0 {
        PulseChannel { counter: (c.counter - 1) as u16, ..c }
    } else {
        PulseChannel { counter: c.period, step: ((c.step + 1) % 8) as u8, ..c }
    }
}

impl PulseChannel {
    /// A disabled channel at 50 % duty.
    pub fn new() -> (r: Self)
        ensures
            r == (PulseChannel {
                period: 0,
                counter: 0,
                duty: 2,
                step: 0,
                volume: 0,
                enabled: false,
            }),
    {
        PulseChannel { period: 0, counter: 0, duty: 2, step: 0, volume: 0, enabled: false }
    }

    /// One timer step: count down, or reload and advance the duty step.
    pub fn tick(&mut self)
        requires
            old(self).step < 8,
        ensures
            *final(self) == pulse_step(*old(self)),
            final(self).step < 8,
    {
        if self.counter > 0 {
            self.counter = self.counter - 1;
        } else {
            self.counter = self.period;
            self.step = (self.step + 1) % 8;
        }
    }

    /// The level the channel contributes: its volume on a high step, zero
    /// on a low one, and zero while disabled or below period 8.
    pub fn level(&self) -> (r: u8)
        requires
            self.duty < 4,
            self.step < 8,
        ensures
            r == if !self.enabled || self.period < 8 {
                0
            } else if duty_high(self.duty, self.step) {
                self.volume
            } else {
                0
            },
    {
        if !self.enabled || self.period < 8 {
            return 0;
        }
        let s = self.step;
        let on = match self.duty {
            0 => s == 1,
            1 => 1 <= s && s <= 2,
            2 => 1 <= s && s <= 4,
            _ => !(1 <= s && s <= 2),
        };
        if on {
            self.volume
        } else {
            0
        }
    }
}

/// The triangle channel.
#[derive(Debug, Clone, Copy, PartialEq, Eq, Structural)]
pub struct TriangleChannel {
    pub period: u16,
    pub counter: u16,
    /// Position in the 32-step ramp.
    pub step: u8,
    pub enabled: bool,
}

/// The triangle channel after one timer step; it is frozen while disabled.
pub open spec fn triangle_step(c: TriangleChannel) -> TriangleChannel {
    if !c.enabled {
        c
    } else if c.counter > 0 {
        TriangleChannel { counter: (c.counter - 1) as u16, ..c }
    } else {
        TriangleChannel { counter: c.period, step: ((c.step + 1) % 32) as u8, ..c }
    }
}

impl TriangleChannel {
    /// A disabled channel at the top of the ramp.
    pub fn new() -> (r: Self)
        ensures
            r == (TriangleChannel { period: 0, counter: 0, step: 0, enabled: false }),
    {
        TriangleChannel { period: 0, counter: 0, step: 0, enabled: false }
    }

    /// One timer step while enabled: count down, or reload and advance.
    pub fn tick(&mut self)
        requires
            old(self).step < 32,
        ensures
            *final(self) == triangle_step(*old(self)),
            final(self).step < 32,
    {
        if !self.enabled {
            return;
        }
        if self.counter > 0 {
            self.counter = self.counter - 1;
        } else {
            self.counter = self.period;
            self.step = (self.step + 1) % 32;
        }
    }

    /// The ramp level (0-15); zero while disabled or below period 2.
    pub fn level(&self) -> (r: u8)
        requires
            self.step < 32,
        ensures
            r == if !self.enabled || self.period < 2 {
                0
            } else {
                triangle_level(self.step)
            },
            r <= 15,
    {
        if !self.enabled || self.period < 2 {
            return 0;
        }
        if self.step < 16 {
            15 - self.step
        } else {
            self.step - 16
        }
    }
}

/// The noise register after one shift: bit 0 XOR bit 6 (short mode) or
/// bit 1 (long mode) is fed into bit 14.
pub open spec fn noise_shift(lfsr: u16, short_mode: bool) -> u16 {
    let tap: u16 = if short_mode {
        6
    } else {
        1
    };
    (lfsr >> 1u16) | (((lfsr & 1) ^ ((lfsr >> tap) & 1)) << 14u16)
}

/// The noise channel.
#[derive(Debug, Clone, Copy, PartialEq, Eq, Structural)]
pub struct NoiseChannel {
    pub period: u16,
    pub counter: u16,
    pub lfsr: u16,
    /// Feedback from bit 6 (short) rather than bit 1 (long).
    pub short_mode: bool,
    pub volume: u8,
    pub enabled: bool,
}

/// The noise channel after one timer step.
pub open spec fn noise_step(c: NoiseChannel) -> NoiseChannel {
    if c.counter > 0 {
        NoiseChannel { counter: (c.counter - 1) as u16, ..c }
    } else {
        NoiseChannel { counter: c.period, lfsr: noise_shift(c.lfsr, c.short_mode), ..c }
    }
}

impl NoiseChannel {
    /// A disabled channel, shortest period, register seeded with 1.
    pub fn new() -> (r: Self)
        ensures
            r == (NoiseChannel {
                period: 4,
                counter: 0,
                lfsr: 1,
                short_mode: false,
                volume: 0,
                enabled: false,
            }),
    {
        NoiseChannel { period: 4, counter: 0, lfsr: 1, short_mode: false, volume: 0, enabled: false }
    }

    /// One timer step: count down, or reload and shift the register. A
    /// register that is not zero never becomes zero.
    pub fn tick(&mut self)
        ensures
            *final(self) == noise_step(*old(self)),
            old(self).lfsr != 0 ==> final(self).lfsr != 0,
    {
        if self.counter > 0 {
            self.counter = self.counter - 1;
        } else {
            self.counter = self.period;
            let lfsr = self.lfsr;
            let tap: u16 = if self.short_mode {
                6
            } else {
                1
            };
            let next: u16 = (lfsr >> 1u16) | (((lfsr & 1) ^ ((lfsr >> tap) & 1)) << 14u16);
            assert(lfsr != 0 && (tap == 1 || tap == 6) ==> next != 0) by (bit_vector)
                requires
                    next == (lfsr >> 1u16) | (((lfsr & 1) ^ ((lfsr >> tap) & 1)) << 14u16),
            ;
            self.lfsr = next;
        }
    }

    /// Its volume while bit 0 of the register is clear; zero when disabled.
    pub fn level(&self) -> (r: u8)
        ensures
            r == if !self.enabled {
                0
            } else if (self.lfsr & 1) == 0 {
                self.volume
            } else {
                0
            },
    {
        if !self.enabled {
            return 0;
        }
        if (self.lfsr & 1) == 0 {
            self.volume
        } else {
            0
        }
    }
}

/// The APU's four channels.
#[derive(Debug, Clone, Copy)]
pub struct Ricoh2a03Core {
    pub pulse1: PulseChannel,
    pub pulse2: PulseChannel,
    pub triangle: TriangleChannel,
    pub noise: NoiseChannel,
}

/// The value a parameter reads back as.
pub open spec fn spec_get_param(c: Ricoh2a03Core, param_id: u32) -> u8 {
    if param_id == 0 {
        c.pulse1.duty
    } else if param_id == 1 {
        c.pulse2.duty
    } else if param_id == 2 {
        if c.noise.short_mode {
            1u8
        } else {
            0u8
        }
    } else {
        0
    }
}

impl Ricoh2a03Core {
    /// Whether the sequencer positions and duties are in range.
    pub open spec fn wf(&self) -> bool {
        &&& self.pulse1.step < 8 && self.pulse1.duty < 4
        &&& self.pulse2.step < 8 && self.pulse2.duty < 4
        &&& self.triangle.step < 32
    }

    /// Every channel disabled.
    pub fn new() -> (r: Self)
        ensures
            r.wf(),
            r.pulse1 == (PulseChannel {
                period: 0,
                counter: 0,
                duty: 2,
                step: 0,
                volume: 0,
                enabled: false,
            }),
            r.pulse2 == r.pulse1,
            r.triangle == (TriangleChannel { period: 0, counter: 0, step: 0, enabled: false }),
            r.noise == (NoiseChannel {
                period: 4,
                counter: 0,
                lfsr: 1,
                short_mode: false,
                volume: 0,
                enabled: false,
            }),
    {
        Ricoh2a03Core {
            pulse1: PulseChannel::new(),
            pulse2: PulseChannel::new(),
            triangle: TriangleChannel::new(),
            noise: NoiseChannel::new(),
        }
    }

    /// One timer step of every channel.
    pub fn tick(&mut self)
        requires
            old(self).wf(),
        ensures
            final(self).wf(),
            final(self).pulse1 == pulse_step(old(self).pulse1),
            final(self).pulse2 == pulse_step(old(self).pulse2),
            final(self).triangle == triangle_step(old(self).triangle),
            final(self).noise == noise_step(old(self).noise),
    {
        self.pulse1.tick();
        self.pulse2.tick();
        self.triangle.tick();
        self.noise.tick();
    }

    /// Sets a parameter: pulse 1 duty (0), pulse 2 duty (1), at most 3; the
    /// short noise mode (2).
    pub fn set_param(&mut self, param_id: u32, value: ParamValue)
        requires
            old(self).wf(),
        ensures
            final(self).wf(),
            param_id == 0 ==> *final(self) == (Ricoh2a03Core {
                pulse1: PulseChannel {
                    duty: if value.byte < 3 {
                        value.byte
                    } else {
                        3
                    },
                    ..old(self).pulse1
                },
                ..*old(self)
            }),
            param_id == 1 ==> *final(self) == (Ricoh2a03Core {
                pulse2: PulseChannel {
                    duty: if value.byte < 3 {
                        value.byte
                    } else {
                        3
                    },
                    ..old(self).pulse2
                },
                ..*old(self)
            }),
            param_id == 2 ==> *final(self) == (Ricoh2a03Core {
                noise: NoiseChannel { short_mode: value.on, ..old(self).noise },
                ..*old(self)
            }),
            param_id > 2 ==> *final(self) == *old(self),
            spec_get_param(*final(self), param_id) == if param_id <= 1 {
                if value.byte < 3 {
                    value.byte
                } else {
                    3
                }
            } else if param_id == 2 {
                if value.on {
                    1u8
                } else {
                    0u8
                }
            } else {
                0
            },
    {
        let d: u8 = if value.byte < 3 {
            value.byte
        } else {
            3
        };
        if param_id == 0 {
            self.pulse1.duty = d;
        } else if param_id == 1 {
            self.pulse2.duty = d;
        } else if param_id == 2 {
            self.noise.short_mode = value.on;
        }
    }

    /// The value of a parameter as an integer: the duties, the short noise
    /// mode as 1 or 0; unknown ids as 0.
    pub fn get_param(&self, param_id: u32) -> (r: u8)
        ensures
            r == spec_get_param(*self, param_id),
    {
        if param_id == 0 {
            self.pulse1.duty
        } else if param_id == 1 {
            self.pulse2.duty
        } else if param_id == 2 {
            if self.noise.short_mode {
                1
            } else {
                0
            }
        } else {
            0
        }
    }

    /// Plays a voice: pulse 1 or 2 (0, 1) with timer period `period` at the
    /// velocity's volume; the triangle (2) with `period`; the noise (3) at
    /// the velocity's volume with the period its note selects. Other
    /// voices are ignored.
    pub fn voice_on(&mut self, voice: usize, note: u8, velocity: u8, period: u16)
        requires
            old(self).wf(),
        ensures
            final(self).wf(),
            voice == 0 ==> *final(self) == (Ricoh2a03Core {
                pulse1: PulseChannel {
                    period,
                    volume: (velocity * 15 / 127) as u8,
                    enabled: true,
                    ..old(self).pulse1
                },
                ..*old(self)
            }),
            voice == 1 ==> *final(self) == (Ricoh2a03Core {
                pulse2: PulseChannel {
                    period,
                    volume: (velocity * 15 / 127) as u8,
                    enabled: true,
                    ..old(self).pulse2
                },
                ..*old(self)
            }),
            voice == 2 ==> *final(self) == (Ricoh2a03Core {
                triangle: TriangleChannel { period, enabled: true, ..old(self).triangle },
                ..*old(self)
            }),
            voice == 3 ==> *final(self) == (Ricoh2a03Core {
                noise: NoiseChannel {
                    volume: (velocity * 15 / 127) as u8,
                    enabled: true,
                    period: spec_noise_periods()[noise_period_index(note)],
                    ..old(self).noise
                },
                ..*old(self)
            }),
            voice > 3 ==> *final(self) == *old(self),
    {
        let vol = velocity_to_volume(velocity);
        if voice == 0 {
            self.pulse1.period = period;
            self.pulse1.volume = vol;
            self.pulse1.enabled = true;
        } else if voice == 1 {
            self.pulse2.period = period;
            self.pulse2.volume = vol;
            self.pulse2.enabled = true;
        } else if voice == 2 {
            self.triangle.period = period;
            self.triangle.enabled = true;
        } else if voice == 3 {
            self.noise.volume = vol;
            self.noise.enabled = true;
            self.noise.period = noise_period_for_note(note);
        }
    }

    /// Disables a voice (other voices are ignored).
    pub fn voice_off(&mut self, voice: usize)
        requires
            old(self).wf(),
        ensures
            final(self).wf(),
            voice == 0 ==> *final(self) == (Ricoh2a03Core {
                pulse1: PulseChannel { enabled: false, ..old(self).pulse1 },
                ..*old(self)
            }),
            voice == 1 ==> *final(self) == (Ricoh2a03Core {
                pulse2: PulseChannel { enabled: false, ..old(self).pulse2 },
                ..*old(self)
            }),
            voice == 2 ==> *final(self) == (Ricoh2a03Core {
                triangle: TriangleChannel { enabled: false, ..old(self).triangle },
                ..*old(self)
            }),
            voice == 3 ==> *final(self) == (Ricoh2a03Core {
                noise: NoiseChannel { enabled: false, ..old(self).noise },
                ..*old(self)
            }),
            voice > 3 ==> *final(self) == *old(self),
    {
        if voice == 0 {
            self.pulse1.enabled = false;
        } else if voice == 1 {
            self.pulse2.enabled = false;
        } else if voice == 2 {
            self.triangle.enabled = false;
        } else if voice == 3 {
            self.noise.enabled = false;
        }
    }

    /// Returns every channel to its disabled power-on state (duties back
    /// to 50%).
    pub fn reset(&mut self)
        ensures
            final(self).wf(),
            final(self).pulse1 == (PulseChannel {
                period: 0,
                counter: 0,
                duty: 2,
                step: 0,
                volume: 0,
                enabled: false,
            }),
            final(self).pulse2 == final(self).pulse1,
            final(self).triangle == (TriangleChannel { period: 0, counter: 0, step: 0, enabled: false }),
            final(self).noise == (NoiseChannel {
                period: 4,
                counter: 0,
                lfsr: 1,
                short_mode: false,
                volume: 0,
                enabled: false,
            }),
    {
        *self = Ricoh2a03Core::new();
    }
}

/// The adjustable parameters of the 2A03, in display order.
pub open spec fn ricoh2a03_params() -> Seq<ParamSpec> {
    seq![
        ParamSpec { id: 0, name: "Pulse 1 Duty"@, group: "Pulse"@, kind: KindSpec::Discrete { min: 0, max: 3, default: 2, labels: Some(seq!["12.5%"@, "25%"@, "50%"@, "75%"@]) } },
        ParamSpec { id: 1, name: "Pulse 2 Duty"@, group: "Pulse"@, kind: KindSpec::Discrete { min: 0, max: 3, default: 2, labels: Some(seq!["12.5%"@, "25%"@, "50%"@, "75%"@]) } },
        ParamSpec { id: 2, name: "Noise Mode"@, group: "Noise"@, kind: KindSpec::Toggle { default: false } },
    ]
}

/// The adjustable parameters of the 2A03: id, name, group and range.
pub fn ricoh2a03_param_info() -> (r: Vec<ParamInfo>)
    ensures
        params_view(r@) == ricoh2a03_params(),
{
    let mut r: Vec<ParamInfo> = Vec::new();
    let names1: [&str; 4] = ["12.5%", "25%", "50%", "75%"];
    assert(names1@ == seq!["12.5%", "25%", "50%", "75%"]);
    let labels1 = label_list(&names1);
    assert(strings_view(labels1@) =~= seq!["12.5%"@, "25%"@, "50%"@, "75%"@]);
    r.push(ParamInfo::discrete(0, "Pulse 1 Duty", "Pulse", 0, 3, 2, Some(labels1)));
    let names2: [&str; 4] = ["12.5%", "25%", "50%", "75%"];
    assert(names2@ == seq!["12.5%", "25%", "50%", "75%"]);
    let labels2 = label_list(&names2);
    assert(strings_view(labels2@) =~= seq!["12.5%"@, "25%"@, "50%"@, "75%"@]);
    r.push(ParamInfo::discrete(1, "Pulse 2 Duty", "Pulse", 0, 3, 2, Some(labels2)));
    r.push(ParamInfo::toggle(2, "Noise Mode", "Noise", false));
    assert(params_view(r@) =~= ricoh2a03_params());
    r
}

pub proof fn lemma_ricoh2a03_params_sound()
    ensures
        params_sound(ricoh2a03_params()),
{
}

} // verus!

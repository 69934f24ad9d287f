//! Voices of the MOS 6581 SID (Commodore 64): a 24-bit phase accumulator,
//! a 23-bit noise shift register, and an ADSR envelope that steps its 8-bit
//! level once per rate period.

use vstd::prelude::*;
use crate::chip::{KindSpec, ParamInfo, ParamSpec, ParamValue, label_list, params_sound, params_view, strings_view};

verus! {

/// Oscillator waveform.
#[derive(Debug, Clone, Copy, PartialEq, Eq, Structural)]
pub enum Waveform {
    Triangle,
    Sawtooth,
    Pulse,
    Noise,
}

/// Envelope phase.
#[derive(Debug, Clone, Copy, PartialEq, Eq, Structural)]
pub enum EnvState {
    Idle,
    Attack,
    Decay,
    Sustain,
    Release,
}

/// Clock cycles per attack step, by 4-bit rate.
pub open spec fn spec_attack_rates() -> Seq<u32> {
    seq![2u32, 8, 16, 24, 38, 56, 68, 80, 100, 250, 500, 800, 1000, 3000, 5000, 8000]
}

/// Clock cycles per decay or release step, by 4-bit rate.
pub open spec fn spec_decay_release_rates() -> Seq<u32> {
    seq![6u32, 24, 48, 72, 114, 168, 204, 240, 300, 750, 1500, 2400, 3000, 9000, 15000, 24000]
}

const ATTACK_RATES: [u32; 16] = [
    2,
    8,
    16,
    24,
    38,
    56,
    68,
    80,
    100,
    250,
    500,
    800,
    1000,
    3000,
    5000,
    8000,
];

const DECAY_RELEASE_RATES: [u32; 16] = [
    6,
    24,
    48,
    72,
    114,
    168,
    204,
    240,
    300,
    750,
    1500,
    2400,
    3000,
    9000,
    15000,
    24000,
];

fn attack_rate(rate: u8) -> (r: u32)
    requires
        rate < 16,
    ensures
        r == spec_attack_rates()[rate as int],
{
    let t: &[u32] = &ATTACK_RATES;
    assert(t@ =~= spec_attack_rates());
    t[rate as usize]
}

fn decay_release_rate(rate: u8) -> (r: u32)
    requires
        rate < 16,
    ensures
        r == spec_decay_release_rates()[rate as int],
{
    let t: &[u32] = &DECAY_RELEASE_RATES;
    assert(t@ =~= spec_decay_release_rates());
    t[rate as usize]
}

/// One SID voice.
#[derive(Debug, Clone, Copy, PartialEq, Eq, Structural)]
pub struct Voice {
    /// 16-bit frequency register.
    pub frequency: u16,
    pub waveform: Waveform,
    /// 12-bit pulse width (0-4095).
    pub pulse_width: u16,
    /// 24-bit phase accumulator.
    pub accumulator: u32,
    /// 23-bit noise shift register.
    pub noise_lfsr: u32,
    pub noise_output: u8,
    pub attack: u8,
    pub decay: u8,
    pub sustain: u8,
    pub release: u8,
    pub env_state: EnvState,
    /// Clock cycles left until the next envelope step.
    pub env_counter: u32,
    /// Envelope level 0-255.
    pub env_level: u8,
    /// Key on or off.
    pub gate: bool,
    pub midi_note: Option<u8>,
}

/// Whether the ADSR settings are 4-bit and the accumulator 24-bit.
pub open spec fn voice_valid(v: Voice) -> bool {
    &&& v.attack < 16
    &&& v.decay < 16
    &&& v.sustain < 16
    &&& v.release < 16
    &&& v.accumulator <= 0xFF_FFFF
}

/// The sustain level for a 4-bit sustain setting (0-255).
pub open spec fn sustain_level(sustain: u8) -> u8 {
    (sustain * 17) as u8
}

/// The envelope after one clock cycle.
pub open spec fn envelope_step(v: Voice) -> Voice {
    if v.env_counter > 0 {
        Voice { env_counter: (v.env_counter - 1) as u32, ..v }
    } else {
        match v.env_state {
            EnvState::Attack => {
                let counter = spec_attack_rates()[v.attack as int];
                if v.env_level < 255 {
                    if v.env_level + 1 >= 255 {
                        Voice {
                            env_level: 255,
                            env_state: EnvState::Decay,
                            env_counter: spec_decay_release_rates()[v.decay as int],
                            ..v
                        }
                    } else {
                        Voice { env_level: (v.env_level + 1) as u8, env_counter: counter, ..v }
                    }
                } else {
                    Voice { env_counter: counter, ..v }
                }
            },
            EnvState::Decay => {
                let counter = spec_decay_release_rates()[v.decay as int];
                let sl = sustain_level(v.sustain);
                if v.env_level > sl {
                    if v.env_level - 1 <= sl {
                        Voice {
                            env_level: sl,
                            env_state: EnvState::Sustain,
                            env_counter: counter,
                            ..v
                        }
                    } else {
                        Voice { env_level: (v.env_level - 1) as u8, env_counter: counter, ..v }
                    }
                } else {
                    Voice { env_counter: counter, ..v }
                }
            },
            EnvState::Sustain => Voice { env_level: sustain_level(v.sustain), ..v },
            EnvState::Release => {
                let counter = spec_decay_release_rates()[v.release as int];
                if v.env_level > 0 {
                    Voice { env_level: (v.env_level - 1) as u8, env_counter: counter, ..v }
                } else {
                    Voice { env_state: EnvState::Idle, env_counter: counter, ..v }
                }
            },
            EnvState::Idle => v,
        }
    }
}

/// The noise register after one shift: bit 22 XOR bit 17 is fed into bit 0.
pub open spec fn noise_shift(lfsr: u32) -> u32 {
    ((lfsr << 1u32) | (((lfsr >> 22u32) & 1) ^ ((lfsr >> 17u32) & 1))) & 0x7F_FFFF
}

/// The noise output byte: bits 22, 20, 16, 13, 11, 7, 4 and 2 of the register.
pub open spec fn noise_byte(lfsr: u32) -> u8 {
    (((lfsr >> 22u32) & 1) << 7u32 | ((lfsr >> 20u32) & 1) << 6u32 | ((lfsr >> 16u32) & 1) << 5u32
        | ((lfsr >> 13u32) & 1) << 4u32 | ((lfsr >> 11u32) & 1) << 3u32 | ((lfsr >> 7u32) & 1)
        << 2u32 | ((lfsr >> 4u32) & 1) << 1u32 | ((lfsr >> 2u32) & 1)) as u8
}

/// The oscillator after one clock cycle, before the envelope step: the
/// accumulator advances by the frequency within 24 bits, and the noise
/// register shifts whenever bit 19 of the new accumulator is set.
pub open spec fn oscillator_step(v: Voice) -> Voice {
    let acc = ((v.accumulator + v.frequency) as u32) & 0xFF_FFFF;
    if (acc & 0x08_0000) != 0 {
        let lfsr = noise_shift(v.noise_lfsr);
        Voice { accumulator: acc, noise_lfsr: lfsr, noise_output: noise_byte(lfsr), ..v }
    } else {
        Voice { accumulator: acc, ..v }
    }
}

/// A silent voice: sawtooth, half pulse width, ADSR 2/4/10/4, noise
/// register seeded with 0x7FFFF8.
pub open spec fn silent_voice() -> Voice {
    Voice {
        frequency: 0,
        waveform: Waveform::Sawtooth,
        pulse_width: 2048,
        accumulator: 0,
        noise_lfsr: 0x7F_FFF8,
        noise_output: 0,
        attack: 2,
        decay: 4,
        sustain: 10,
        release: 4,
        env_state: EnvState::Idle,
        env_counter: 0,
        env_level: 0,
        gate: false,
        midi_note: None,
    }
}

impl Voice {
    /// A silent voice: sawtooth, half pulse width, ADSR 2/4/10/4.
    pub fn new() -> (r: Self)
        ensures
            r == silent_voice(),
            voice_valid(r),
    {
        Voice {
            frequency: 0,
            waveform: Waveform::Sawtooth,
            pulse_width: 2048,
            accumulator: 0,
            noise_lfsr: 0x7F_FFF8,
            noise_output: 0,
            attack: 2,
            decay: 4,
            sustain: 10,
            release: 4,
            env_state: EnvState::Idle,
            env_counter: 0,
            env_level: 0,
            gate: false,
            midi_note: None,
        }
    }

    /// One clock cycle: the oscillator steps, then the envelope.
    pub fn clock(&mut self)
        requires
            voice_valid(*old(self)),
        ensures
            *final(self) == envelope_step(oscillator_step(*old(self))),
            voice_valid(*final(self)),
    {
        let a0 = self.accumulator;
        let prev_msb = a0 & 0x80_0000;
        assert(prev_msb & 0x08_0000 == 0) by (bit_vector)
            requires
                prev_msb == a0 & 0x80_0000,
        ;
        let sum: u32 = a0 + self.frequency as u32;
        let a1: u32 = sum & 0xFF_FFFF;
        assert(a1 <= 0xFF_FFFF) by (bit_vector)
            requires
                a1 == sum & 0xFF_FFFF,
        ;
        self.accumulator = a1;
        if (self.accumulator & 0x08_0000) != 0 && (prev_msb & 0x08_0000) == 0 {
            let l = self.noise_lfsr;
            let bit22 = (l >> 22u32) & 1;
            let bit17 = (l >> 17u32) & 1;
            let feedback = bit22 ^ bit17;
            let n: u32 = ((l << 1u32) | feedback) & 0x7F_FFFF;
            self.noise_lfsr = n;
            self.noise_output = (((n >> 22u32) & 1) << 7u32 | ((n >> 20u32) & 1) << 6u32 | ((n
                >> 16u32) & 1) << 5u32 | ((n >> 13u32) & 1) << 4u32 | ((n >> 11u32) & 1) << 3u32
                | ((n >> 7u32) & 1) << 2u32 | ((n >> 4u32) & 1) << 1u32 | ((n >> 2u32)
                & 1)) as u8;
        }
        self.clock_envelope();
    }

    /// One envelope clock: count down, or take one step of the current phase.
    pub fn clock_envelope(&mut self)
        requires
            voice_valid(*old(self)),
        ensures
            *final(self) == envelope_step(*old(self)),
            voice_valid(*final(self)),
    {
        if self.env_counter > 0 {
            self.env_counter = self.env_counter - 1;
            return;
        }
        match self.env_state {
            EnvState::Attack => {
                self.env_counter = attack_rate(self.attack);
                if self.env_level < 255 {
                    self.env_level = self.env_level + 1;
                    if self.env_level >= 255 {
                        self.env_level = 255;
                        self.env_state = EnvState::Decay;
                        self.env_counter = decay_release_rate(self.decay);
                    }
                }
            },
            EnvState::Decay => {
                self.env_counter = decay_release_rate(self.decay);
                let sl = self.sustain * 17;
                if self.env_level > sl {
                    self.env_level = self.env_level - 1;
                    if self.env_level <= sl {
                        self.env_level = sl;
                        self.env_state = EnvState::Sustain;
                    }
                }
            },
            EnvState::Sustain => {
                self.env_level = self.sustain * 17;
            },
            EnvState::Release => {
                self.env_counter = decay_release_rate(self.release);
                if self.env_level > 0 {
                    self.env_level = self.env_level - 1;
                } else {
                    self.env_state = EnvState::Idle;
                }
            },
            EnvState::Idle => {},
        }
    }

    /// Key on: the envelope starts its attack.
    pub fn gate_on(&mut self)
        requires
            old(self).attack < 16,
        ensures
            *final(self) == (Voice {
                gate: true,
                env_state: EnvState::Attack,
                env_counter: spec_attack_rates()[old(self).attack as int],
                ..*old(self)
            }),
    {
        self.gate = true;
        self.env_state = EnvState::Attack;
        self.env_counter = attack_rate(self.attack);
    }

    /// Key off: the envelope starts its release.
    pub fn gate_off(&mut self)
        requires
            old(self).release < 16,
        ensures
            *final(self) == (Voice {
                gate: false,
                env_state: EnvState::Release,
                env_counter: spec_decay_release_rates()[old(self).release as int],
                ..*old(self)
            }),
    {
        self.gate = false;
        self.env_state = EnvState::Release;
        self.env_counter = decay_release_rate(self.release);
    }

    /// The top 12 bits of the accumulator: the sawtooth.
    pub fn saw_value(&self) -> (r: u16)
        requires
            self.accumulator <= 0xFF_FFFF,
        ensures
            r == self.accumulator >> 12u32,
            r <= 0xFFF,
    {
        let a = self.accumulator;
        assert(a <= 0xFF_FFFF ==> a >> 12u32 <= 0xFFF) by (bit_vector);
        (a >> 12u32) as u16
    }

    /// The triangle: bits 11 to 22 of the accumulator, mirrored in the
    /// second half of the cycle (bit 23 set).
    pub fn triangle_value(&self) -> (r: u16)
        ensures
            r == if (self.accumulator >> 23u32) & 1 == 0 {
                (self.accumulator >> 11u32) & 0xFFF
            } else {
                (0xFFF - ((self.accumulator >> 11u32) & 0xFFF)) as u32
            },
            r <= 0xFFF,
    {
        let a = self.accumulator;
        let low = (a >> 11u32) & 0xFFF;
        assert(low <= 0xFFF) by (bit_vector)
            requires
                low == (a >> 11u32) & 0xFFF,
        ;
        if (a >> 23u32) & 1 == 0 {
            low as u16
        } else {
            (0xFFF - low) as u16
        }
    }

    /// Whether the pulse is high: the sawtooth has reached the pulse width.
    pub fn pulse_high(&self) -> (r: bool)
        requires
            self.accumulator <= 0xFF_FFFF,
        ensures
            r == ((self.accumulator >> 12u32) >= self.pulse_width),
    {
        self.saw_value() >= self.pulse_width
    }
}

/// The attack phase never lowers the level; decay and release never raise
/// it, and decay stops at the sustain level.
pub proof fn law_envelope_direction(v: Voice)
    requires
        voice_valid(v),
    ensures
        v.env_state == EnvState::Attack ==> envelope_step(v).env_level >= v.env_level,
        v.env_state == EnvState::Decay || v.env_state == EnvState::Release
            ==> envelope_step(v).env_level <= v.env_level,
        v.env_state == EnvState::Decay && v.env_level >= sustain_level(v.sustain)
            ==> envelope_step(v).env_level >= sustain_level(v.sustain),
{
}

/// The chip: three voices sharing one patch (waveform, pulse width, ADSR)
/// and a master volume.
#[derive(Debug, Clone, Copy)]
pub struct Sid6581Core {
    pub voices: [Voice; 3],
    /// Master volume 0-15.
    pub master_volume: u8,
    pub waveform: Waveform,
    /// 12-bit pulse width.
    pub pulse_width: u16,
    pub attack: u8,
    pub decay: u8,
    pub sustain: u8,
    pub release: u8,
}

/// A setting capped at 15.
pub open spec fn cap15(b: u8) -> u8 {
    if b < 15 {
        b
    } else {
        15
    }
}

/// The waveform selected by index: 0 triangle, 1 sawtooth, 2 pulse, any
/// other noise.
pub open spec fn waveform_from_index(b: u8) -> Waveform {
    if b == 0 {
        Waveform::Triangle
    } else if b == 1 {
        Waveform::Sawtooth
    } else if b == 2 {
        Waveform::Pulse
    } else {
        Waveform::Noise
    }
}

/// The index of a waveform.
pub open spec fn waveform_index(w: Waveform) -> u16 {
    match w {
        Waveform::Triangle => 0,
        Waveform::Sawtooth => 1,
        Waveform::Pulse => 2,
        Waveform::Noise => 3,
    }
}

/// What a parameter change does to each voice: the shared settings
/// (0 waveform, 1 pulse width capped at 4095, 2-5 attack, decay, sustain,
/// release capped at 15) are copied into every voice; others leave it.
pub open spec fn voice_after_param(v: Voice, param_id: u32, value: ParamValue) -> Voice {
    if param_id == 0 {
        Voice { waveform: waveform_from_index(value.byte), ..v }
    } else if param_id == 1 {
        Voice {
            pulse_width: if value.word < 4095 {
                value.word
            } else {
                4095
            },
            ..v
        }
    } else if param_id == 2 {
        Voice { attack: cap15(value.byte), ..v }
    } else if param_id == 3 {
        Voice { decay: cap15(value.byte), ..v }
    } else if param_id == 4 {
        Voice { sustain: cap15(value.byte), ..v }
    } else if param_id == 5 {
        Voice { release: cap15(value.byte), ..v }
    } else {
        v
    }
}

/// A voice keyed on with the chip's patch, a frequency register value and
/// its note: the envelope starts its attack.
pub open spec fn voice_keyed_on(c: Sid6581Core, v: Voice, frequency: u16, note: u8) -> Voice {
    Voice {
        waveform: c.waveform,
        pulse_width: c.pulse_width,
        attack: c.attack,
        decay: c.decay,
        sustain: c.sustain,
        release: c.release,
        frequency: frequency,
        midi_note: Some(note),
        gate: true,
        env_state: EnvState::Attack,
        env_counter: spec_attack_rates()[c.attack as int],
        ..v
    }
}

/// A voice keyed off: the envelope starts its release and the note is
/// forgotten.
pub open spec fn voice_keyed_off(v: Voice) -> Voice {
    Voice {
        gate: false,
        env_state: EnvState::Release,
        env_counter: spec_decay_release_rates()[v.release as int],
        midi_note: None,
        ..v
    }
}

/// The value a parameter reads back as.
pub open spec fn spec_get_param(c: Sid6581Core, param_id: u32) -> u16 {
    if param_id == 0 {
        waveform_index(c.waveform)
    } else if param_id == 1 {
        c.pulse_width
    } else if param_id == 2 {
        c.attack as u16
    } else if param_id == 3 {
        c.decay as u16
    } else if param_id == 4 {
        c.sustain as u16
    } else if param_id == 5 {
        c.release as u16
    } else if param_id == 6 {
        c.master_volume as u16
    } else {
        0
    }
}

impl Sid6581Core {
    /// Every voice valid, the shared ADSR 4-bit, the pulse width 12-bit and
    /// the master volume at most 15.
    pub open spec fn wf(&self) -> bool {
        &&& forall|i: int| 0 <= i < 3 ==> voice_valid(#[trigger] self.voices[i])
        &&& self.attack < 16
        &&& self.decay < 16
        &&& self.sustain < 16
        &&& self.release < 16
        &&& self.pulse_width <= 4095
        &&& self.master_volume <= 15
    }

    /// Three silent voices, master volume 15, sawtooth, pulse width 2048,
    /// ADSR 2/4/10/4.
    pub fn new() -> (r: Self)
        ensures
            forall|i: int| 0 <= i < 3 ==> #[trigger] r.voices[i] == silent_voice(),
            r.master_volume == 15,
            r.waveform == Waveform::Sawtooth,
            r.pulse_width == 2048,
            r.attack == 2,
            r.decay == 4,
            r.sustain == 10,
            r.release == 4,
            r.wf(),
    {
        Sid6581Core {
            voices: [Voice::new(), Voice::new(), Voice::new()],
            master_volume: 15,
            waveform: Waveform::Sawtooth,
            pulse_width: 2048,
            attack: 2,
            decay: 4,
            sustain: 10,
            release: 4,
        }
    }

    /// One clock cycle of every voice.
    pub fn tick(&mut self)
        requires
            old(self).wf(),
        ensures
            forall|i: int|
                0 <= i < 3 ==> #[trigger] final(self).voices[i] == envelope_step(
                    oscillator_step(old(self).voices[i]),
                ),
            final(self).master_volume == old(self).master_volume,
            final(self).waveform == old(self).waveform,
            final(self).pulse_width == old(self).pulse_width,
            final(self).attack == old(self).attack,
            final(self).decay == old(self).decay,
            final(self).sustain == old(self).sustain,
            final(self).release == old(self).release,
            final(self).wf(),
    {
        assert(voice_valid(self.voices[0]));
        assert(voice_valid(self.voices[1]));
        assert(voice_valid(self.voices[2]));
        let mut v0 = self.voices[0];
        v0.clock();
        self.voices[0] = v0;
        let mut v1 = self.voices[1];
        v1.clock();
        self.voices[1] = v1;
        let mut v2 = self.voices[2];
        v2.clock();
        self.voices[2] = v2;
    }

    /// Sets a parameter: the shared waveform (0), pulse width (1, at most
    /// 4095), attack, decay, sustain, release (2-5, at most 15), each copied
    /// into all three voices; the master volume (6, at most 15). Other ids
    /// change nothing.
    pub fn set_param(&mut self, param_id: u32, value: ParamValue)
        requires
            old(self).wf(),
        ensures
            forall|i: int|
                0 <= i < 3 ==> #[trigger] final(self).voices[i] == voice_after_param(
                    old(self).voices[i],
                    param_id,
                    value,
                ),
            final(self).waveform == if param_id == 0 {
                waveform_from_index(value.byte)
            } else {
                old(self).waveform
            },
            final(self).pulse_width == if param_id == 1 {
                if value.word < 4095 {
                    value.word
                } else {
                    4095
                }
            } else {
                old(self).pulse_width
            },
            final(self).attack == if param_id == 2 {
                cap15(value.byte)
            } else {
                old(self).attack
            },
            final(self).decay == if param_id == 3 {
                cap15(value.byte)
            } else {
                old(self).decay
            },
            final(self).sustain == if param_id == 4 {
                cap15(value.byte)
            } else {
                old(self).sustain
            },
            final(self).release == if param_id == 5 {
                cap15(value.byte)
            } else {
                old(self).release
            },
            final(self).master_volume == if param_id == 6 {
                cap15(value.byte)
            } else {
                old(self).master_volume
            },
            final(self).wf(),
            spec_get_param(*final(self), param_id) == if param_id == 0 {
                if value.byte < 3 {
                    value.byte as u16
                } else {
                    3
                }
            } else if param_id == 1 {
                if value.word < 4095 {
                    value.word
                } else {
                    4095
                }
            } else if 2 <= param_id <= 6 {
                cap15(value.byte) as u16
            } else {
                0
            },
    {
        let capped: u8 = if value.byte < 15 {
            value.byte
        } else {
            15
        };
        let pw: u16 = if value.word < 4095 {
            value.word
        } else {
            4095
        };
        let w = if value.byte == 0 {
            Waveform::Triangle
        } else if value.byte == 1 {
            Waveform::Sawtooth
        } else if value.byte == 2 {
            Waveform::Pulse
        } else {
            Waveform::Noise
        };
        if param_id == 0 {
            self.waveform = w;
        } else if param_id == 1 {
            self.pulse_width = pw;
        } else if param_id == 2 {
            self.attack = capped;
        } else if param_id == 3 {
            self.decay = capped;
        } else if param_id == 4 {
            self.sustain = capped;
        } else if param_id == 5 {
            self.release = capped;
        } else if param_id == 6 {
            self.master_volume = capped;
        }
        assert(voice_valid(self.voices[0]) && voice_valid(self.voices[1]) && voice_valid(
            self.voices[2],
        ));
        let v0 = Self::voice_with_param(self.voices[0], param_id, w, pw, capped);
        self.voices[0] = v0;
        let v1 = Self::voice_with_param(self.voices[1], param_id, w, pw, capped);
        self.voices[1] = v1;
        let v2 = Self::voice_with_param(self.voices[2], param_id, w, pw, capped);
        self.voices[2] = v2;
        assert(voice_valid(self.voices[0]) && voice_valid(self.voices[1]) && voice_valid(
            self.voices[2],
        ));
    }

    fn voice_with_param(v: Voice, param_id: u32, w: Waveform, pw: u16, capped: u8) -> (r: Voice)
        ensures
            forall|value: ParamValue|
                w == waveform_from_index(value.byte) && pw == (if value.word < 4095 {
                    value.word
                } else {
                    4095
                }) && capped == cap15(value.byte) ==> r == #[trigger] voice_after_param(
                    v,
                    param_id,
                    value,
                ),
            voice_valid(v) && capped < 16 ==> voice_valid(r),
    {
        let mut r = v;
        if param_id == 0 {
            r.waveform = w;
        } else if param_id == 1 {
            r.pulse_width = pw;
        } else if param_id == 2 {
            r.attack = capped;
        } else if param_id == 3 {
            r.decay = capped;
        } else if param_id == 4 {
            r.sustain = capped;
        } else if param_id == 5 {
            r.release = capped;
        }
        r
    }

    /// The value of a parameter: the waveform's index, the pulse width, the
    /// four ADSR settings, the master volume; unknown ids as 0.
    pub fn get_param(&self, param_id: u32) -> (r: u16)
        ensures
            r == spec_get_param(*self, param_id),
    {
        if param_id == 0 {
            match self.waveform {
                Waveform::Triangle => 0,
                Waveform::Sawtooth => 1,
                Waveform::Pulse => 2,
                Waveform::Noise => 3,
            }
        } else if param_id == 1 {
            self.pulse_width
        } else if param_id == 2 {
            self.attack as u16
        } else if param_id == 3 {
            self.decay as u16
        } else if param_id == 4 {
            self.sustain as u16
        } else if param_id == 5 {
            self.release as u16
        } else if param_id == 6 {
            self.master_volume as u16
        } else {
            0
        }
    }

    /// Keys a voice on with the shared patch, a frequency register value
    /// and the note it plays. A voice number of 3 or more changes nothing.
    pub fn voice_on(&mut self, voice: usize, frequency: u16, note: u8)
        requires
            old(self).wf(),
        ensures
            voice >= 3 ==> *final(self) == *old(self),
            voice < 3 ==> final(self).voices[voice as int] == voice_keyed_on(
                *old(self),
                old(self).voices[voice as int],
                frequency,
                note,
            ),
            forall|i: int|
                0 <= i < 3 && i != voice ==> #[trigger] final(self).voices[i]
                    == old(self).voices[i],
            final(self).master_volume == old(self).master_volume,
            final(self).waveform == old(self).waveform,
            final(self).pulse_width == old(self).pulse_width,
            final(self).attack == old(self).attack,
            final(self).decay == old(self).decay,
            final(self).sustain == old(self).sustain,
            final(self).release == old(self).release,
            final(self).wf(),
    {
        if voice >= 3 {
            return;
        }
        let mut v = self.voices[voice];
        v.waveform = self.waveform;
        v.pulse_width = self.pulse_width;
        v.attack = self.attack;
        v.decay = self.decay;
        v.sustain = self.sustain;
        v.release = self.release;
        v.frequency = frequency;
        v.midi_note = Some(note);
        v.gate_on();
        self.voices[voice] = v;
    }

    /// Keys a voice off: its envelope releases and its note is forgotten.
    /// A voice number of 3 or more changes nothing.
    pub fn voice_off(&mut self, voice: usize)
        requires
            old(self).wf(),
        ensures
            voice >= 3 ==> *final(self) == *old(self),
            voice < 3 ==> final(self).voices[voice as int] == voice_keyed_off(
                old(self).voices[voice as int],
            ),
            forall|i: int|
                0 <= i < 3 && i != voice ==> #[trigger] final(self).voices[i]
                    == old(self).voices[i],
            final(self).master_volume == old(self).master_volume,
            final(self).waveform == old(self).waveform,
            final(self).pulse_width == old(self).pulse_width,
            final(self).attack == old(self).attack,
            final(self).decay == old(self).decay,
            final(self).sustain == old(self).sustain,
            final(self).release == old(self).release,
            final(self).wf(),
    {
        if voice >= 3 {
            return;
        }
        let mut v = self.voices[voice];
        assert(voice_valid(v));
        v.gate_off();
        v.midi_note = None;
        self.voices[voice] = v;
    }

    /// Silences every voice; the shared patch and volume stay.
    pub fn reset(&mut self)
        ensures
            forall|i: int| 0 <= i < 3 ==> #[trigger] final(self).voices[i] == silent_voice(),
            final(self).master_volume == old(self).master_volume,
            final(self).waveform == old(self).waveform,
            final(self).pulse_width == old(self).pulse_width,
            final(self).attack == old(self).attack,
            final(self).decay == old(self).decay,
            final(self).sustain == old(self).sustain,
            final(self).release == old(self).release,
    {
        self.voices = [Voice::new(), Voice::new(), Voice::new()];
    }
}

/// The adjustable parameters of the SID, in display order.
pub open spec fn sid_params() -> Seq<ParamSpec> {
    seq![
        ParamSpec { id: 0, name: "Waveform"@, group: "Oscillator"@, kind: KindSpec::Discrete { min: 0, max: 3, default: 1, labels: Some(seq!["Triangle"@, "Sawtooth"@, "Pulse"@, "Noise"@]) } },
        ParamSpec { id: 1, name: "Pulse Width"@, group: "Oscillator"@, kind: KindSpec::Continuous { min: 0, max: 4095, default: 2048 } },
        ParamSpec { id: 2, name: "Attack"@, group: "Envelope"@, kind: KindSpec::Discrete { min: 0, max: 15, default: 2, labels: None } },
        ParamSpec { id: 3, name: "Decay"@, group: "Envelope"@, kind: KindSpec::Discrete { min: 0, max: 15, default: 4, labels: None } },
        ParamSpec { id: 4, name: "Sustain"@, group: "Envelope"@, kind: KindSpec::Discrete { min: 0, max: 15, default: 10, labels: None } },
        ParamSpec { id: 5, name: "Release"@, group: "Envelope"@, kind: KindSpec::Discrete { min: 0, max: 15, default: 4, labels: None } },
        ParamSpec { id: 6, name: "Volume"@, group: "Master"@, kind: KindSpec::Discrete { min: 0, max: 15, default: 15, labels: None } },
    ]
}

/// The adjustable parameters of the SID: id, name, group and range.
pub fn sid_param_info() -> (r: Vec<ParamInfo>)
    ensures
        params_view(r@) == sid_params(),
{
    let mut r: Vec<ParamInfo> = Vec::new();
    let names6: [&str; 4] = ["Triangle", "Sawtooth", "Pulse", "Noise"];
    assert(names6@ == seq!["Triangle", "Sawtooth", "Pulse", "Noise"]);
    let labels6 = label_list(&names6);
    assert(strings_view(labels6@) =~= seq!["Triangle"@, "Sawtooth"@, "Pulse"@, "Noise"@]);
    r.push(ParamInfo::discrete(0, "Waveform", "Oscillator", 0, 3, 1, Some(labels6)));
    r.push(ParamInfo::continuous(1, "Pulse Width", "Oscillator", 0, 4095, 2048));
    r.push(ParamInfo::discrete(2, "Attack", "Envelope", 0, 15, 2, None));
    r.push(ParamInfo::discrete(3, "Decay", "Envelope", 0, 15, 4, None));
    r.push(ParamInfo::discrete(4, "Sustain", "Envelope", 0, 15, 10, None));
    r.push(ParamInfo::discrete(5, "Release", "Envelope", 0, 15, 4, None));
    r.push(ParamInfo::discrete(6, "Volume", "Master", 0, 15, 15, None));
    assert(params_view(r@) =~= sid_params());
    r
}

pub proof fn lemma_sid_params_sound()
    ensures
        params_sound(sid_params()),
{
}

/// An idle voice at level 0 (as reset leaves it) stays idle and silent,
/// however long the chip runs, until it is keyed on.
pub proof fn law_idle_voice_stays_silent(v: Voice)
    requires
        v.env_state == EnvState::Idle,
        v.env_level == 0,
    ensures
        envelope_step(oscillator_step(v)).env_state == EnvState::Idle,
        envelope_step(oscillator_step(v)).env_level == 0,
{
}

} // verus!

//! Key events in the register writes of a VGM stream.
//!
//! Each chip's writes are replayed into shadow registers; a key-on is a
//! channel that becomes audible (or is keyed, on the FM chips), a key-off
//! one that falls silent. A key event carries the pitch that the registers
//! held at the key-on: a note where the registers give one directly, or the
//! raw period or frequency value, which only the chip's clock turns into a
//! note. A key-off carries the pitch of the key-on it ends.

use vstd::prelude::*;
use crate::vgm::{ChipUsed, TimedCommand, VgmCommand, VgmFile};
use crate::text::str_equal;

verus! {

/// The pitch that a key event was keyed with.
#[derive(Debug, Clone, Copy, PartialEq, Eq, Structural)]
pub enum KeyPitch {
    /// A MIDI note.
    Note(u8),
    /// A tone period or frequency register value.
    Register(u32),
}

/// A key-on or key-off found in the stream.
#[derive(Debug, Clone, Copy, PartialEq, Eq, Structural)]
pub struct KeyEvent {
    pub time_us: u64,
    pub channel: u8,
    pub pitch: KeyPitch,
    pub velocity: u8,
    pub is_on: bool,
}

/// Microseconds at a sample position (44100 samples per second).
pub open spec fn spec_samples_to_us(samples: nat) -> nat {
    samples * 1_000_000 / 44100
}

/// Whether every command's time in microseconds can be computed in 64 bits.
pub open spec fn times_fit(cmds: Seq<TimedCommand>) -> bool {
    forall|i: int| 0 <= i < cmds.len() ==> #[trigger] cmds[i].sample_pos * 1_000_000 <= u64::MAX
}

/// Microseconds at a sample position (44100 samples per second).
pub fn samples_to_us(samples: u64) -> (r: u64)
    requires
        samples * 1_000_000 <= u64::MAX,
    ensures
        r == spec_samples_to_us(samples as nat),
{
    samples * 1_000_000 / 44100
}

/// The time stamp of a command.
pub open spec fn time_of(tc: TimedCommand) -> u64 {
    spec_samples_to_us(tc.sample_pos as nat) as u64
}

/// A key-on.
pub open spec fn key_on(tc: TimedCommand, channel: u8, pitch: KeyPitch, velocity: u8) -> KeyEvent {
    KeyEvent { time_us: time_of(tc), channel, pitch, velocity, is_on: true }
}

/// A key-off.
pub open spec fn key_off(tc: TimedCommand, channel: u8, pitch: KeyPitch) -> KeyEvent {
    KeyEvent { time_us: time_of(tc), channel, pitch, velocity: 0, is_on: false }
}

/// The smaller of `v` and 127.
pub open spec fn cap_velocity(v: int) -> u8 {
    if v < 127 {
        v as u8
    } else {
        127
    }
}

// ---------------------------------------------------------------------------
// SN76489
// ---------------------------------------------------------------------------

/// Shadow state of an SN76489: tone periods, attenuations, the latched
/// register, and the period each sounding channel was keyed with.
pub struct SnTracker {
    pub freq: Seq<u16>,
    pub vol: Seq<u8>,
    pub latched_vol: bool,
    pub latched_ch: u8,
    pub active: Seq<Option<u16>>,
}

pub open spec fn sn_initial() -> SnTracker {
    SnTracker {
        freq: seq![0u16, 0, 0],
        vol: seq![15u8, 15, 15],
        latched_vol: false,
        latched_ch: 0,
        active: seq![None, None, None],
    }
}

/// One command's effect: a latch byte selects a channel and register and
/// writes its low bits (or the attenuation); a data byte writes the high
/// six bits of the latched period. A channel whose attenuation leaves 15
/// with a nonzero period is keyed on; one whose attenuation returns to 15
/// is keyed off.
pub open spec fn sn_step(s: SnTracker, tc: TimedCommand) -> (SnTracker, Seq<KeyEvent>) {
    match tc.command {
        VgmCommand::Sn76489Write { data: d } => {
            if d & 0x80 != 0 {
                let ch = (d >> 5u8) & 0x03;
                let is_vol = (d & 0x10) != 0;
                let low = (d & 0x0F) as u16;
                let s1 = SnTracker { latched_ch: ch, latched_vol: is_vol, ..s };
                if ch >= 3 {
                    (s1, seq![])
                } else if !is_vol {
                    (
                        SnTracker { freq: s.freq.update(ch as int, (s.freq[ch as int] & 0x3F0) | low), ..s1 },
                        seq![],
                    )
                } else {
                    let old_vol = s.vol[ch as int];
                    let new_vol = d & 0x0F;
                    let f = s.freq[ch as int];
                    let s2 = SnTracker { vol: s.vol.update(ch as int, new_vol), ..s1 };
                    if old_vol == 15 && new_vol < 15 && f > 0 {
                        (
                            SnTracker { active: s.active.update(ch as int, Some(f)), ..s2 },
                            seq![
                                key_on(
                                    tc,
                                    ch,
                                    KeyPitch::Register(f as u32),
                                    cap_velocity((15 - new_vol) * 8),
                                ),
                            ],
                        )
                    } else if old_vol < 15 && new_vol == 15 {
                        match s.active[ch as int] {
                            Some(p) => (
                                SnTracker { active: s.active.update(ch as int, None), ..s2 },
                                seq![key_off(tc, ch, KeyPitch::Register(p as u32))],
                            ),
                            None => (s2, seq![]),
                        }
                    } else {
                        (s2, seq![])
                    }
                }
            } else if !s.latched_vol && s.latched_ch < 3 {
                let c = s.latched_ch as int;
                (
                    SnTracker {
                        freq: s.freq.update(c, (s.freq[c] & 0x00F) | (((d & 0x3F) as u16) << 4u16)),
                        ..s
                    },
                    seq![],
                )
            } else {
                (s, seq![])
            }
        },
        _ => (s, seq![]),
    }
}

/// State and key events after the first `n` commands.
pub open spec fn sn_run(cmds: Seq<TimedCommand>, n: int) -> (SnTracker, Seq<KeyEvent>)
    decreases n,
{
    if n <= 0 {
        (sn_initial(), seq![])
    } else {
        let (s, ev) = sn_run(cmds, n - 1);
        let (s2, e2) = sn_step(s, cmds[n - 1]);
        (s2, ev + e2)
    }
}

/// The key events of an SN76489 stream.
pub open spec fn sn_key_events(cmds: Seq<TimedCommand>) -> Seq<KeyEvent> {
    sn_run(cmds, cmds.len() as int).1
}

/// Finds the key events in the SN76489 writes of a command stream.
pub fn extract_sn76489(commands: &Vec<TimedCommand>) -> (r: Vec<KeyEvent>)
    requires
        times_fit(commands@),
    ensures
        r@ == sn_key_events(commands@),
{
    let mut freq: Vec<u16> = Vec::new();
    freq.push(0);
    freq.push(0);
    freq.push(0);
    let mut vol: Vec<u8> = Vec::new();
    vol.push(15);
    vol.push(15);
    vol.push(15);
    let mut active: Vec<Option<u16>> = Vec::new();
    active.push(None);
    active.push(None);
    active.push(None);
    let mut latched_vol = false;
    let mut latched_ch: u8 = 0;
    let mut events: Vec<KeyEvent> = Vec::new();
    assert(freq@ =~= sn_initial().freq);
    assert(vol@ =~= sn_initial().vol);
    assert(active@ =~= sn_initial().active);
    let mut i: usize = 0;
    while i < commands.len()
        invariant
            i <= commands.len(),
            times_fit(commands@),
            freq@.len() == 3 && vol@.len() == 3 && active@.len() == 3,
            sn_run(commands@, i as int).0 == (SnTracker {
                freq: freq@,
                vol: vol@,
                latched_vol,
                latched_ch,
                active: active@,
            }),
            sn_run(commands@, i as int).1 == events@,
        decreases commands.len() - i,
    {
        let tc = commands[i];
        let ghost before = events@;
        assert(tc.sample_pos * 1_000_000 <= u64::MAX);
        match tc.command {
            VgmCommand::Sn76489Write { data } => {
                let d = data;
                if d & 0x80 != 0 {
                    let ch: u8 = (d >> 5u8) & 0x03;
                    let is_vol = (d & 0x10) != 0;
                    let low: u16 = (d & 0x0F) as u16;
                    latched_ch = ch;
                    latched_vol = is_vol;
                    if ch < 3 {
                        let c = ch as usize;
                        if is_vol {
                            let old_vol = vol[c];
                            let new_vol = d & 0x0F;
                            let f = freq[c];
                            vol.set(c, new_vol);
                            if old_vol == 15 && new_vol < 15 && f > 0 {
                                let v: u8 = (15 - new_vol) * 8;
                                let velocity: u8 = if v < 127 {
                                    v
                                } else {
                                    127
                                };
                                events.push(
                                    KeyEvent {
                                        time_us: samples_to_us(tc.sample_pos),
                                        channel: ch,
                                        pitch: KeyPitch::Register(f as u32),
                                        velocity,
                                        is_on: true,
                                    },
                                );
                                active.set(c, Some(f));
                            } else if old_vol < 15 && new_vol == 15 {
                                match active[c] {
                                    Some(p) => {
                                        events.push(
                                            KeyEvent {
                                                time_us: samples_to_us(tc.sample_pos),
                                                channel: ch,
                                                pitch: KeyPitch::Register(p as u32),
                                                velocity: 0,
                                                is_on: false,
                                            },
                                        );
                                        active.set(c, None);
                                    },
                                    None => {},
                                }
                            }
                        } else {
                            let f = freq[c];
                            freq.set(c, (f & 0x3F0) | low);
                        }
                    }
                } else if !latched_vol && latched_ch < 3 {
                    let c = latched_ch as usize;
                    let f = freq[c];
                    freq.set(c, (f & 0x00F) | (((d & 0x3F) as u16) << 4u16));
                }
            },
            _ => {},
        }
        proof {
            let (s2, e2) = sn_step(sn_run(commands@, i as int).0, tc);
            assert(s2.freq =~= freq@);
            assert(s2.vol =~= vol@);
            assert(s2.active =~= active@);
            assert(events@ =~= before + e2);
        }
        i = i + 1;
    }
    events
}

// ---------------------------------------------------------------------------
// AY-3-8910
// ---------------------------------------------------------------------------

/// Shadow state of an AY-3-8910: its 16 registers and the period each
/// sounding channel was keyed with.
pub struct AyTracker {
    pub regs: Seq<u8>,
    pub active: Seq<Option<u16>>,
}

pub open spec fn ay_initial() -> AyTracker {
    AyTracker { regs: Seq::new(16, |i: int| 0u8), active: seq![None, None, None] }
}

/// Whether every AY-3-8910 write names one of its 16 registers.
pub open spec fn ay_regs_in_range(cmds: Seq<TimedCommand>) -> bool {
    forall|i: int|
        0 <= i < cmds.len() ==> (#[trigger] cmds[i].command matches VgmCommand::Ay8910Write {
            reg,
            ..
        } ==> reg < 16)
}

/// The 12-bit tone period of channel `ch` in the registers.
pub open spec fn ay_period(regs: Seq<u8>, ch: int) -> u16 {
    (regs[ch * 2] as u16) | (((regs[ch * 2 + 1] & 0x0F) as u16) << 8u16)
}

/// One command's effect: the register is written; a volume register (8 to
/// 10) that leaves 0 keys its channel on (if its period is not zero), one
/// that returns to 0 keys it off.
pub open spec fn ay_step(s: AyTracker, tc: TimedCommand) -> (AyTracker, Seq<KeyEvent>) {
    match tc.command {
        VgmCommand::Ay8910Write { reg, data } => {
            let old_val = s.regs[reg as int];
            let regs = s.regs.update(reg as int, data);
            let s1 = AyTracker { regs, ..s };
            if 8 <= reg <= 10 {
                let ch = reg - 8;
                let old_vol = old_val & 0x0F;
                let new_vol = data & 0x0F;
                if old_vol == 0 && new_vol > 0 {
                    let period = ay_period(regs, ch);
                    if period > 0 {
                        (
                            AyTracker { active: s.active.update(ch, Some(period)), ..s1 },
                            seq![
                                key_on(
                                    tc,
                                    ch as u8,
                                    KeyPitch::Register(period as u32),
                                    cap_velocity(new_vol * 8),
                                ),
                            ],
                        )
                    } else {
                        (s1, seq![])
                    }
                } else if old_vol > 0 && new_vol == 0 {
                    match s.active[ch] {
                        Some(p) => (
                            AyTracker { active: s.active.update(ch, None), ..s1 },
                            seq![key_off(tc, ch as u8, KeyPitch::Register(p as u32))],
                        ),
                        None => (s1, seq![]),
                    }
                } else {
                    (s1, seq![])
                }
            } else {
                (s1, seq![])
            }
        },
        _ => (s, seq![]),
    }
}

pub open spec fn ay_run(cmds: Seq<TimedCommand>, n: int) -> (AyTracker, Seq<KeyEvent>)
    decreases n,
{
    if n <= 0 {
        (ay_initial(), seq![])
    } else {
        let (s, ev) = ay_run(cmds, n - 1);
        let (s2, e2) = ay_step(s, cmds[n - 1]);
        (s2, ev + e2)
    }
}

/// The key events of an AY-3-8910 stream.
pub open spec fn ay_key_events(cmds: Seq<TimedCommand>) -> Seq<KeyEvent> {
    ay_run(cmds, cmds.len() as int).1
}

/// Finds the key events in the AY-3-8910 writes of a command stream.
pub fn extract_ay8910(commands: &Vec<TimedCommand>) -> (r: Vec<KeyEvent>)
    requires
        times_fit(commands@),
        ay_regs_in_range(commands@),
    ensures
        r@ == ay_key_events(commands@),
{
    let mut regs: Vec<u8> = Vec::new();
    let mut k: usize = 0;
    while k < 16
        invariant
            k <= 16,
            regs@ == Seq::new(k as nat, |i: int| 0u8),
        decreases 16 - k,
    {
        regs.push(0);
        assert(regs@ =~= Seq::new((k + 1) as nat, |i: int| 0u8));
        k = k + 1;
    }
    let mut active: Vec<Option<u16>> = Vec::new();
    active.push(None);
    active.push(None);
    active.push(None);
    assert(active@ =~= ay_initial().active);
    let mut events: Vec<KeyEvent> = Vec::new();
    let mut i: usize = 0;
    while i < commands.len()
        invariant
            i <= commands.len(),
            times_fit(commands@),
            ay_regs_in_range(commands@),
            regs@.len() == 16 && active@.len() == 3,
            ay_run(commands@, i as int).0 == (AyTracker { regs: regs@, active: active@ }),
            ay_run(commands@, i as int).1 == events@,
        decreases commands.len() - i,
    {
        let tc = commands[i];
        let ghost before = events@;
        assert(tc.sample_pos * 1_000_000 <= u64::MAX);
        assert(tc.command matches VgmCommand::Ay8910Write { reg, .. } ==> reg < 16);
        match tc.command {
            VgmCommand::Ay8910Write { reg, data } => {
                let r = reg as usize;
                let old_val = regs[r];
                regs.set(r, data);
                if reg >= 8 && reg <= 10 {
                    let ch = (reg - 8) as usize;
                    let old_vol = old_val & 0x0F;
                    let new_vol = data & 0x0F;
                    if old_vol == 0 && new_vol > 0 {
                        let period: u16 = (regs[ch * 2] as u16) | (((regs[ch * 2 + 1] & 0x0F) as u16)
                            << 8u16);
                        if period > 0 {
                            assert(new_vol <= 15) by (bit_vector)
                                requires
                                    new_vol == data & 0x0F,
                            ;
                            let v: u8 = new_vol * 8;
                            let velocity: u8 = if v < 127 {
                                v
                            } else {
                                127
                            };
                            events.push(
                                KeyEvent {
                                    time_us: samples_to_us(tc.sample_pos),
                                    channel: ch as u8,
                                    pitch: KeyPitch::Register(period as u32),
                                    velocity,
                                    is_on: true,
                                },
                            );
                            active.set(ch, Some(period));
                        }
                    } else if old_vol > 0 && new_vol == 0 {
                        match active[ch] {
                            Some(p) => {
                                events.push(
                                    KeyEvent {
                                        time_us: samples_to_us(tc.sample_pos),
                                        channel: ch as u8,
                                        pitch: KeyPitch::Register(p as u32),
                                        velocity: 0,
                                        is_on: false,
                                    },
                                );
                                active.set(ch, None);
                            },
                            None => {},
                        }
                    }
                }
            },
            _ => {},
        }
        proof {
            let (s2, e2) = ay_step(ay_run(commands@, i as int).0, tc);
            assert(s2.regs =~= regs@);
            assert(s2.active =~= active@);
            assert(events@ =~= before + e2);
        }
        i = i + 1;
    }
    events
}

// ---------------------------------------------------------------------------
// POKEY
// ---------------------------------------------------------------------------

/// Shadow state of a POKEY: the four frequency dividers (AUDF), the four
/// control registers (AUDC), and the divider each sounding channel was
/// keyed with.
pub struct PokeyTracker {
    pub freq: Seq<u8>,
    pub ctrl: Seq<u8>,
    pub active: Seq<Option<u8>>,
}

pub open spec fn pokey_initial() -> PokeyTracker {
    PokeyTracker {
        freq: seq![0u8, 0, 0, 0],
        ctrl: seq![0u8, 0, 0, 0],
        active: seq![None, None, None, None],
    }
}

/// One command's effect: an AUDF write (registers 0, 2, 4, 6) sets a
/// divider; an AUDC write (1, 3, 5, 7) whose volume leaves 0 keys its
/// channel on (if its divider is not zero), one whose volume returns to 0
/// keys it off.
pub open spec fn pokey_step(s: PokeyTracker, tc: TimedCommand) -> (PokeyTracker, Seq<KeyEvent>) {
    match tc.command {
        VgmCommand::PokeyWrite { reg, data } => {
            if reg == 0 || reg == 2 || reg == 4 || reg == 6 {
                (PokeyTracker { freq: s.freq.update((reg / 2) as int, data), ..s }, seq![])
            } else if reg == 1 || reg == 3 || reg == 5 || reg == 7 {
                let ch = (reg - 1) / 2;
                let old_vol = s.ctrl[ch] & 0x0F;
                let new_vol = data & 0x0F;
                let s1 = PokeyTracker { ctrl: s.ctrl.update(ch, data), ..s };
                if old_vol == 0 && new_vol > 0 {
                    let divider = s.freq[ch];
                    if divider > 0 {
                        (
                            PokeyTracker { active: s.active.update(ch, Some(divider)), ..s1 },
                            seq![
                                key_on(
                                    tc,
                                    ch as u8,
                                    KeyPitch::Register(divider as u32),
                                    cap_velocity(new_vol * 8),
                                ),
                            ],
                        )
                    } else {
                        (s1, seq![])
                    }
                } else if old_vol > 0 && new_vol == 0 {
                    match s.active[ch] {
                        Some(p) => (
                            PokeyTracker { active: s.active.update(ch, None), ..s1 },
                            seq![key_off(tc, ch as u8, KeyPitch::Register(p as u32))],
                        ),
                        None => (s1, seq![]),
                    }
                } else {
                    (s1, seq![])
                }
            } else {
                (s, seq![])
            }
        },
        _ => (s, seq![]),
    }
}

pub open spec fn pokey_run(cmds: Seq<TimedCommand>, n: int) -> (PokeyTracker, Seq<KeyEvent>)
    decreases n,
{
    if n <= 0 {
        (pokey_initial(), seq![])
    } else {
        let (s, ev) = pokey_run(cmds, n - 1);
        let (s2, e2) = pokey_step(s, cmds[n - 1]);
        (s2, ev + e2)
    }
}

/// The key events of a POKEY stream.
pub open spec fn pokey_key_events(cmds: Seq<TimedCommand>) -> Seq<KeyEvent> {
    pokey_run(cmds, cmds.len() as int).1
}

/// Finds the key events in the POKEY writes of a command stream.
pub fn extract_pokey(commands: &Vec<TimedCommand>) -> (r: Vec<KeyEvent>)
    requires
        times_fit(commands@),
    ensures
        r@ == pokey_key_events(commands@),
{
    let mut freq: Vec<u8> = Vec::new();
    let mut ctrl: Vec<u8> = Vec::new();
    let mut active: Vec<Option<u8>> = Vec::new();
    let mut k: usize = 0;
    while k < 4
        invariant
            k <= 4,
            freq@ == Seq::new(k as nat, |i: int| 0u8),
            ctrl@ == Seq::new(k as nat, |i: int| 0u8),
            active@ == Seq::new(k as nat, |i: int| None::<u8>),
        decreases 4 - k,
    {
        freq.push(0);
        ctrl.push(0);
        active.push(None);
        assert(freq@ =~= Seq::new((k + 1) as nat, |i: int| 0u8));
        assert(ctrl@ =~= Seq::new((k + 1) as nat, |i: int| 0u8));
        assert(active@ =~= Seq::new((k + 1) as nat, |i: int| None::<u8>));
        k = k + 1;
    }
    assert(freq@ =~= pokey_initial().freq);
    assert(ctrl@ =~= pokey_initial().ctrl);
    assert(active@ =~= pokey_initial().active);
    let mut events: Vec<KeyEvent> = Vec::new();
    let mut i: usize = 0;
    while i < commands.len()
        invariant
            i <= commands.len(),
            times_fit(commands@),
            freq@.len() == 4 && ctrl@.len() == 4 && active@.len() == 4,
            pokey_run(commands@, i as int).0 == (PokeyTracker {
                freq: freq@,
                ctrl: ctrl@,
                active: active@,
            }),
            pokey_run(commands@, i as int).1 == events@,
        decreases commands.len() - i,
    {
        let tc = commands[i];
        let ghost before = events@;
        assert(tc.sample_pos * 1_000_000 <= u64::MAX);
        match tc.command {
            VgmCommand::PokeyWrite { reg, data } => {
                if reg == 0 || reg == 2 || reg == 4 || reg == 6 {
                    freq.set((reg / 2) as usize, data);
                } else if reg == 1 || reg == 3 || reg == 5 || reg == 7 {
                    let ch = ((reg - 1) / 2) as usize;
                    let old_vol = ctrl[ch] & 0x0F;
                    let new_vol = data & 0x0F;
                    ctrl.set(ch, data);
                    if old_vol == 0 && new_vol > 0 {
                        let divider = freq[ch];
                        if divider > 0 {
                            assert(new_vol <= 15) by (bit_vector)
                                requires
                                    new_vol == data & 0x0F,
                            ;
                            let v: u8 = new_vol * 8;
                            let velocity: u8 = if v < 127 {
                                v
                            } else {
                                127
                            };
                            events.push(
                                KeyEvent {
                                    time_us: samples_to_us(tc.sample_pos),
                                    channel: ch as u8,
                                    pitch: KeyPitch::Register(divider as u32),
                                    velocity,
                                    is_on: true,
                                },
                            );
                            active.set(ch, Some(divider));
                        }
                    } else if old_vol > 0 && new_vol == 0 {
                        match active[ch] {
                            Some(p) => {
                                events.push(
                                    KeyEvent {
                                        time_us: samples_to_us(tc.sample_pos),
                                        channel: ch as u8,
                                        pitch: KeyPitch::Register(p as u32),
                                        velocity: 0,
                                        is_on: false,
                                    },
                                );
                                active.set(ch, None);
                            },
                            None => {},
                        }
                    }
                }
            },
            _ => {},
        }
        proof {
            let (s2, e2) = pokey_step(pokey_run(commands@, i as int).0, tc);
            assert(s2.freq =~= freq@);
            assert(s2.ctrl =~= ctrl@);
            assert(s2.active =~= active@);
            assert(events@ =~= before + e2);
        }
        i = i + 1;
    }
    events
}

// ---------------------------------------------------------------------------
// NES APU
// ---------------------------------------------------------------------------

/// Shadow state of an NES APU: registers $4000-$401F and the pitch each
/// sounding channel (pulse 1, pulse 2, triangle, noise) was keyed with.
pub struct NesTracker {
    pub regs: Seq<u8>,
    pub active: Seq<Option<KeyPitch>>,
}

pub open spec fn nes_initial() -> NesTracker {
    NesTracker { regs: Seq::new(32, |i: int| 0u8), active: seq![None, None, None, None] }
}

/// The channel whose length counter a register loads (which keys it):
/// $4003, $4007, $400B, $400F.
pub open spec fn nes_trigger_channel(reg: u8) -> int {
    if reg == 0x03 {
        0
    } else if reg == 0x07 {
        1
    } else if reg == 0x0B {
        2
    } else if reg == 0x0F {
        3
    } else {
        -1
    }
}

/// The pitch of a keyed channel: the 11-bit timer period of a pulse or
/// triangle channel, or note 60 for the noise and for a zero period.
pub open spec fn nes_pitch(regs: Seq<u8>, ch: int) -> KeyPitch {
    if ch < 3 {
        let period = (regs[ch * 4 + 2] as u16) | (((regs[ch * 4 + 3] & 0x07) as u16) << 8u16);
        if period > 0 {
            KeyPitch::Register(period as u32)
        } else {
            KeyPitch::Note(60)
        }
    } else {
        KeyPitch::Note(60)
    }
}

/// One command's effect: the register is written; a length-counter load
/// ends the channel's sounding note, if any, and keys a new one.
pub open spec fn nes_step(s: NesTracker, tc: TimedCommand) -> (NesTracker, Seq<KeyEvent>) {
    match tc.command {
        VgmCommand::NesApuWrite { reg, data } => {
            if reg < 32 {
                let regs = s.regs.update(reg as int, data);
                let ch = nes_trigger_channel(reg);
                if ch >= 0 {
                    let off: Seq<KeyEvent> = match s.active[ch] {
                        Some(p) => seq![key_off(tc, ch as u8, p)],
                        None => seq![],
                    };
                    let pitch = nes_pitch(regs, ch);
                    (
                        NesTracker { regs, active: s.active.update(ch, Some(pitch)) },
                        off.push(key_on(tc, ch as u8, pitch, 100)),
                    )
                } else {
                    (NesTracker { regs, ..s }, seq![])
                }
            } else {
                (s, seq![])
            }
        },
        _ => (s, seq![]),
    }
}

pub open spec fn nes_run(cmds: Seq<TimedCommand>, n: int) -> (NesTracker, Seq<KeyEvent>)
    decreases n,
{
    if n <= 0 {
        (nes_initial(), seq![])
    } else {
        let (s, ev) = nes_run(cmds, n - 1);
        let (s2, e2) = nes_step(s, cmds[n - 1]);
        (s2, ev + e2)
    }
}

/// The key events of an NES APU stream.
pub open spec fn nes_key_events(cmds: Seq<TimedCommand>) -> Seq<KeyEvent> {
    nes_run(cmds, cmds.len() as int).1
}

/// Finds the key events in the NES APU writes of a command stream.
pub fn extract_nes_apu(commands: &Vec<TimedCommand>) -> (r: Vec<KeyEvent>)
    requires
        times_fit(commands@),
    ensures
        r@ == nes_key_events(commands@),
{
    let mut regs: Vec<u8> = Vec::new();
    let mut k: usize = 0;
    while k < 32
        invariant
            k <= 32,
            regs@ == Seq::new(k as nat, |i: int| 0u8),
        decreases 32 - k,
    {
        regs.push(0);
        assert(regs@ =~= Seq::new((k + 1) as nat, |i: int| 0u8));
        k = k + 1;
    }
    let mut active: Vec<Option<KeyPitch>> = Vec::new();
    active.push(None);
    active.push(None);
    active.push(None);
    active.push(None);
    assert(active@ =~= nes_initial().active);
    let mut events: Vec<KeyEvent> = Vec::new();
    let mut i: usize = 0;
    while i < commands.len()
        invariant
            i <= commands.len(),
            times_fit(commands@),
            regs@.len() == 32 && active@.len() == 4,
            nes_run(commands@, i as int).0 == (NesTracker { regs: regs@, active: active@ }),
            nes_run(commands@, i as int).1 == events@,
        decreases commands.len() - i,
    {
        let tc = commands[i];
        let ghost before = events@;
        assert(tc.sample_pos * 1_000_000 <= u64::MAX);
        match tc.command {
            VgmCommand::NesApuWrite { reg, data } => {
                if reg < 32 {
                    regs.set(reg as usize, data);
                    let trig: Option<usize> = if reg == 0x03 {
                        Some(0)
                    } else if reg == 0x07 {
                        Some(1)
                    } else if reg == 0x0B {
                        Some(2)
                    } else if reg == 0x0F {
                        Some(3)
                    } else {
                        None
                    };
                    match trig {
                        Some(ch) => {
                            let t = samples_to_us(tc.sample_pos);
                            match active[ch] {
                                Some(p) => {
                                    events.push(
                                        KeyEvent {
                                            time_us: t,
                                            channel: ch as u8,
                                            pitch: p,
                                            velocity: 0,
                                            is_on: false,
                                        },
                                    );
                                },
                                None => {},
                            }
                            let pitch = if ch < 3 {
                                let base = ch * 4;
                                let period: u16 = (regs[base + 2] as u16) | (((regs[base + 3]
                                    & 0x07) as u16) << 8u16);
                                if period > 0 {
                                    KeyPitch::Register(period as u32)
                                } else {
                                    KeyPitch::Note(60)
                                }
                            } else {
                                KeyPitch::Note(60)
                            };
                            events.push(
                                KeyEvent {
                                    time_us: t,
                                    channel: ch as u8,
                                    pitch,
                                    velocity: 100,
                                    is_on: true,
                                },
                            );
                            active.set(ch, Some(pitch));
                        },
                        None => {},
                    }
                }
            },
            _ => {},
        }
        proof {
            let (s2, e2) = nes_step(nes_run(commands@, i as int).0, tc);
            assert(s2.regs =~= regs@);
            assert(s2.active =~= active@);
            assert(events@ =~= before + e2);
        }
        i = i + 1;
    }
    events
}

// ---------------------------------------------------------------------------
// YM2151
// ---------------------------------------------------------------------------

/// Shadow state of a YM2151: its 256 registers and the note each keyed
/// channel sounds.
pub struct OpmTracker {
    pub regs: Seq<u8>,
    pub active: Seq<Option<u8>>,
}

pub open spec fn opm_initial() -> OpmTracker {
    OpmTracker { regs: Seq::new(256, |i: int| 0u8), active: Seq::new(8, |i: int| None::<u8>) }
}

/// The note of a key code: octave × 12 + note code, at most 127.
pub open spec fn opm_note(kc: u8) -> u8 {
    let n = ((kc >> 4u8) & 0x07) * 12 + (kc & 0x0F);
    if n < 127 {
        n as u8
    } else {
        127
    }
}

/// One command's effect: the register is written; a write to the key
/// register (8) with slots set keys its channel on at the note of the
/// channel's key code, one with no slots keys it off.
pub open spec fn opm_step(s: OpmTracker, tc: TimedCommand) -> (OpmTracker, Seq<KeyEvent>) {
    match tc.command {
        VgmCommand::Ym2151Write { reg, data } => {
            let regs = s.regs.update(reg as int, data);
            if reg == 0x08 {
                let ch = (data & 0x07) as int;
                if (data >> 3u8) != 0 {
                    let note = opm_note(regs[0x28 + ch]);
                    (
                        OpmTracker { regs, active: s.active.update(ch, Some(note)) },
                        seq![key_on(tc, ch as u8, KeyPitch::Note(note), 100)],
                    )
                } else {
                    match s.active[ch] {
                        Some(n) => (
                            OpmTracker { regs, active: s.active.update(ch, None) },
                            seq![key_off(tc, ch as u8, KeyPitch::Note(n))],
                        ),
                        None => (OpmTracker { regs, ..s }, seq![]),
                    }
                }
            } else {
                (OpmTracker { regs, ..s }, seq![])
            }
        },
        _ => (s, seq![]),
    }
}

pub open spec fn opm_run(cmds: Seq<TimedCommand>, n: int) -> (OpmTracker, Seq<KeyEvent>)
    decreases n,
{
    if n <= 0 {
        (opm_initial(), seq![])
    } else {
        let (s, ev) = opm_run(cmds, n - 1);
        let (s2, e2) = opm_step(s, cmds[n - 1]);
        (s2, ev + e2)
    }
}

/// Key events of a YM2151 stream, and the algorithm and feedback of
/// register $20 at its end when any key event was found.
pub open spec fn opm_extraction(cmds: Seq<TimedCommand>) -> (Seq<KeyEvent>, Option<(u8, u8)>) {
    let (s, ev) = opm_run(cmds, cmds.len() as int);
    let r = s.regs[0x20];
    (ev, if ev.len() > 0 {
        Some((r & 0x07, (r >> 3u8) & 0x07))
    } else {
        None
    })
}

/// Finds the key events in the YM2151 writes of a command stream, and the
/// algorithm and feedback of channel 0 for a patch.
pub fn extract_ym2151(commands: &Vec<TimedCommand>) -> (r: (Vec<KeyEvent>, Option<(u8, u8)>))
    requires
        times_fit(commands@),
    ensures
        (r.0@, r.1) == opm_extraction(commands@),
{
    let mut regs: Vec<u8> = Vec::new();
    let mut k: usize = 0;
    while k < 256
        invariant
            k <= 256,
            regs@ == Seq::new(k as nat, |i: int| 0u8),
        decreases 256 - k,
    {
        regs.push(0);
        assert(regs@ =~= Seq::new((k + 1) as nat, |i: int| 0u8));
        k = k + 1;
    }
    let mut active: Vec<Option<u8>> = Vec::new();
    k = 0;
    while k < 8
        invariant
            k <= 8,
            active@ == Seq::new(k as nat, |i: int| None::<u8>),
        decreases 8 - k,
    {
        active.push(None);
        assert(active@ =~= Seq::new((k + 1) as nat, |i: int| None::<u8>));
        k = k + 1;
    }
    let mut events: Vec<KeyEvent> = Vec::new();
    let mut i: usize = 0;
    while i < commands.len()
        invariant
            i <= commands.len(),
            times_fit(commands@),
            regs@.len() == 256 && active@.len() == 8,
            opm_run(commands@, i as int).0 == (OpmTracker { regs: regs@, active: active@ }),
            opm_run(commands@, i as int).1 == events@,
        decreases commands.len() - i,
    {
        let tc = commands[i];
        let ghost before = events@;
        assert(tc.sample_pos * 1_000_000 <= u64::MAX);
        match tc.command {
            VgmCommand::Ym2151Write { reg, data } => {
                regs.set(reg as usize, data);
                if reg == 0x08 {
                    let ch = (data & 0x07) as usize;
                    assert(data & 0x07 < 8) by (bit_vector);
                    if (data >> 3u8) != 0 {
                        let kc = regs[0x28 + ch];
                        let octave = (kc >> 4u8) & 0x07;
                        let code = kc & 0x0F;
                        assert(octave <= 7 && code <= 15) by (bit_vector)
                            requires
                                octave == (kc >> 4u8) & 0x07,
                                code == kc & 0x0F,
                        ;
                        let n = octave * 12 + code;
                        let note: u8 = if n < 127 {
                            n
                        } else {
                            127
                        };
                        events.push(
                            KeyEvent {
                                time_us: samples_to_us(tc.sample_pos),
                                channel: ch as u8,
                                pitch: KeyPitch::Note(note),
                                velocity: 100,
                                is_on: true,
                            },
                        );
                        active.set(ch, Some(note));
                    } else {
                        match active[ch] {
                            Some(n) => {
                                events.push(
                                    KeyEvent {
                                        time_us: samples_to_us(tc.sample_pos),
                                        channel: ch as u8,
                                        pitch: KeyPitch::Note(n),
                                        velocity: 0,
                                        is_on: false,
                                    },
                                );
                                active.set(ch, None);
                            },
                            None => {},
                        }
                    }
                }
            },
            _ => {},
        }
        proof {
            let (s2, e2) = opm_step(opm_run(commands@, i as int).0, tc);
            assert(s2.regs =~= regs@);
            assert(s2.active =~= active@);
            assert(events@ =~= before + e2);
        }
        i = i + 1;
    }
    let patch = if events.len() > 0 {
        let r = regs[0x20];
        Some((r & 0x07, (r >> 3u8) & 0x07))
    } else {
        None
    };
    (events, patch)
}

// ---------------------------------------------------------------------------
// YM2612
// ---------------------------------------------------------------------------

/// The envelope and frequency settings of one FM operator.
#[derive(Debug, Clone, Copy, PartialEq, Eq, Structural)]
pub struct OpnOperator {
    pub tl: u8,
    pub ar: u8,
    pub d1r: u8,
    pub d2r: u8,
    pub sl: u8,
    pub rr: u8,
    pub mul: u8,
    pub dt: u8,
}

/// A YM2612 voice as the registers held it at a key-on: algorithm,
/// feedback, and the four operators (register offsets 0, 8, 4, 12).
#[derive(Debug, Clone, Copy, PartialEq, Eq, Structural)]
pub struct OpnPatch {
    pub algo: u8,
    pub fb: u8,
    pub op1: OpnOperator,
    pub op2: OpnOperator,
    pub op3: OpnOperator,
    pub op4: OpnOperator,
}

/// Shadow state of a YM2612: both register banks (port 0 at 0-255, port 1
/// at 256-511), the pitch each keyed channel sounds, the (algorithm,
/// feedback) pairs already seen, and the voices collected.
pub struct OpnTracker {
    pub regs: Seq<u8>,
    pub active: Seq<Option<u32>>,
    pub seen: Seq<(u8, u8)>,
    pub patches: Seq<OpnPatch>,
}

pub open spec fn opn_initial() -> OpnTracker {
    OpnTracker {
        regs: Seq::new(512, |i: int| 0u8),
        active: Seq::new(6, |i: int| None::<u32>),
        seen: seq![],
        patches: seq![],
    }
}

/// Register `r` of bank `port`.
pub open spec fn opn_reg(regs: Seq<u8>, port: int, r: int) -> u8 {
    regs[port * 256 + r]
}

/// The channel (0-5) that a key-register value addresses: codes 0-2 and
/// 4-6; codes 3 and 7 address none.
pub open spec fn opn_channel(data: u8) -> int {
    let ch = (data & 0x07) as int;
    if ch < 3 {
        ch
    } else if 4 <= ch < 7 {
        ch - 1
    } else {
        -1
    }
}

/// The pitch of channel `base` of bank `port`: F-number shifted by block.
pub open spec fn opn_pitch(regs: Seq<u8>, port: int, base: int) -> u32 {
    let msb = opn_reg(regs, port, 0xA4 + base);
    let lsb = opn_reg(regs, port, 0xA0 + base);
    let block = (msb >> 3u8) & 0x07;
    let fnum = (((msb & 0x07) as u16) << 8u16) | (lsb as u16);
    (fnum as u32) << (block as u32)
}

/// The settings of the operator at register offset `off` of a channel.
pub open spec fn opn_operator(regs: Seq<u8>, port: int, base: int, off: int) -> OpnOperator {
    let o = base + off;
    OpnOperator {
        tl: opn_reg(regs, port, 0x40 + o) & 0x7F,
        ar: opn_reg(regs, port, 0x50 + o) & 0x1F,
        d1r: opn_reg(regs, port, 0x60 + o) & 0x1F,
        d2r: opn_reg(regs, port, 0x70 + o) & 0x1F,
        sl: (opn_reg(regs, port, 0x80 + o) >> 4u8) & 0x0F,
        rr: opn_reg(regs, port, 0x80 + o) & 0x0F,
        mul: opn_reg(regs, port, 0x30 + o) & 0x0F,
        dt: (opn_reg(regs, port, 0x30 + o) >> 4u8) & 0x07,
    }
}

/// The voice of channel `base` of bank `port`.
pub open spec fn opn_patch(regs: Seq<u8>, port: int, base: int) -> OpnPatch {
    let b0 = opn_reg(regs, port, 0xB0 + base);
    OpnPatch {
        algo: b0 & 0x07,
        fb: (b0 >> 3u8) & 0x07,
        op1: opn_operator(regs, port, base, 0),
        op2: opn_operator(regs, port, base, 8),
        op3: opn_operator(regs, port, base, 4),
        op4: opn_operator(regs, port, base, 12),
    }
}

/// One command's effect: the register is written; a port-0 write to the
/// key register ($28) with operators set keys its channel on at the
/// channel's pitch, and collects its voice when its (algorithm, feedback)
/// pair is new; one with no operators keys it off.
pub open spec fn opn_step(s: OpnTracker, tc: TimedCommand) -> (OpnTracker, Seq<KeyEvent>) {
    match tc.command {
        VgmCommand::Ym2612Port0 { reg, data } => {
            let regs = s.regs.update(reg as int, data);
            let s1 = OpnTracker { regs, ..s };
            let ch = opn_channel(data);
            if reg != 0x28 || ch < 0 {
                (s1, seq![])
            } else if (data >> 4u8) != 0 {
                let port: int = if ch < 3 {
                    0
                } else {
                    1
                };
                let base: int = if ch < 3 {
                    ch
                } else {
                    ch - 3
                };
                let pitch = opn_pitch(regs, port, base);
                let patch = opn_patch(regs, port, base);
                let key = (patch.algo, patch.fb);
                let s2 = OpnTracker { active: s.active.update(ch, Some(pitch)), ..s1 };
                let s3 = if s.seen.contains(key) {
                    s2
                } else {
                    OpnTracker { seen: s.seen.push(key), patches: s.patches.push(patch), ..s2 }
                };
                (s3, seq![key_on(tc, ch as u8, KeyPitch::Register(pitch), 100)])
            } else {
                match s.active[ch] {
                    Some(p) => (
                        OpnTracker { active: s.active.update(ch, None), ..s1 },
                        seq![key_off(tc, ch as u8, KeyPitch::Register(p))],
                    ),
                    None => (s1, seq![]),
                }
            }
        },
        VgmCommand::Ym2612Port1 { reg, data } => (
            OpnTracker { regs: s.regs.update(256 + reg, data), ..s },
            seq![],
        ),
        _ => (s, seq![]),
    }
}

pub open spec fn opn_run(cmds: Seq<TimedCommand>, n: int) -> (OpnTracker, Seq<KeyEvent>)
    decreases n,
{
    if n <= 0 {
        (opn_initial(), seq![])
    } else {
        let (s, ev) = opn_run(cmds, n - 1);
        let (s2, e2) = opn_step(s, cmds[n - 1]);
        (s2, ev + e2)
    }
}

/// Key-offs at `time` for the channels from `ch` on that still sound.
pub open spec fn opn_releases(active: Seq<Option<u32>>, ch: int, time: u64) -> Seq<KeyEvent>
    decreases 6 - ch,
{
    if ch >= 6 || ch < 0 {
        seq![]
    } else {
        let rest = opn_releases(active, ch + 1, time);
        match active[ch] {
            Some(p) => seq![
                KeyEvent {
                    time_us: time,
                    channel: ch as u8,
                    pitch: KeyPitch::Register(p),
                    velocity: 0,
                    is_on: false,
                },
            ] + rest,
            None => rest,
        }
    }
}

/// Key events of a YM2612 stream, with a key-off at the end of the file
/// for every channel still sounding, and the voices collected.
pub open spec fn opn_extraction(cmds: Seq<TimedCommand>, total_samples: u32) -> (
    Seq<KeyEvent>,
    Seq<OpnPatch>,
) {
    let (s, ev) = opn_run(cmds, cmds.len() as int);
    let end = spec_samples_to_us(total_samples as nat) as u64;
    (ev + opn_releases(s.active, 0, end), s.patches)
}

/// The settings of the operator at register offset `off` of a channel.
fn read_operator(regs: &Vec<u8>, port: usize, base: usize, off: usize) -> (r: OpnOperator)
    requires
        regs@.len() == 512,
        port < 2,
        base < 3,
        off <= 12,
    ensures
        r == opn_operator(regs@, port as int, base as int, off as int),
{
    let o = port * 256 + base + off;
    OpnOperator {
        tl: regs[0x40 + o] & 0x7F,
        ar: regs[0x50 + o] & 0x1F,
        d1r: regs[0x60 + o] & 0x1F,
        d2r: regs[0x70 + o] & 0x1F,
        sl: (regs[0x80 + o] >> 4u8) & 0x0F,
        rr: regs[0x80 + o] & 0x0F,
        mul: regs[0x30 + o] & 0x0F,
        dt: (regs[0x30 + o] >> 4u8) & 0x07,
    }
}

/// Whether `(algo, fb)` is in `seen`.
fn seen_contains(seen: &Vec<(u8, u8)>, key: (u8, u8)) -> (r: bool)
    ensures
        r == seen@.contains(key),
{
    let mut i: usize = 0;
    while i < seen.len()
        invariant
            i <= seen@.len(),
            forall|j: int| 0 <= j < i ==> seen@[j] != key,
        decreases seen.len() - i,
    {
        let e = seen[i];
        if e.0 == key.0 && e.1 == key.1 {
            assert(seen@[i as int] == key);
            return true;
        }
        i = i + 1;
    }
    false
}

/// The pitch of channel `base` of bank `port`.
fn read_pitch(regs: &Vec<u8>, port: usize, base: usize) -> (r: u32)
    requires
        regs@.len() == 512,
        port < 2,
        base < 3,
    ensures
        r == opn_pitch(regs@, port as int, base as int),
{
    let msb = regs[port * 256 + 0xA4 + base];
    let lsb = regs[port * 256 + 0xA0 + base];
    let block = (msb >> 3u8) & 0x07;
    assert(block < 8) by (bit_vector)
        requires
            block == (msb >> 3u8) & 0x07,
    ;
    let fnum: u16 = (((msb & 0x07) as u16) << 8u16) | (lsb as u16);
    (fnum as u32) << (block as u32)
}

/// The voice of channel `base` of bank `port`.
fn read_patch(regs: &Vec<u8>, port: usize, base: usize) -> (r: OpnPatch)
    requires
        regs@.len() == 512,
        port < 2,
        base < 3,
    ensures
        r == opn_patch(regs@, port as int, base as int),
{
    let b0 = regs[port * 256 + 0xB0 + base];
    OpnPatch {
        algo: b0 & 0x07,
        fb: (b0 >> 3u8) & 0x07,
        op1: read_operator(regs, port, base, 0),
        op2: read_operator(regs, port, base, 8),
        op3: read_operator(regs, port, base, 4),
        op4: read_operator(regs, port, base, 12),
    }
}

/// Applies one command to the shadow state; returns the key events it makes.
fn opn_command(
    tc: TimedCommand,
    regs: &mut Vec<u8>,
    active: &mut Vec<Option<u32>>,
    seen: &mut Vec<(u8, u8)>,
    patches: &mut Vec<OpnPatch>,
) -> (r: Vec<KeyEvent>)
    requires
        old(regs)@.len() == 512,
        old(active)@.len() == 6,
        tc.sample_pos * 1_000_000 <= u64::MAX,
    ensures
        final(regs)@.len() == 512,
        final(active)@.len() == 6,
        ((OpnTracker {
            regs: final(regs)@,
            active: final(active)@,
            seen: final(seen)@,
            patches: final(patches)@,
        }), r@) == opn_step(
            (OpnTracker {
                regs: old(regs)@,
                active: old(active)@,
                seen: old(seen)@,
                patches: old(patches)@,
            }),
            tc,
        ),
{
    let ghost s = OpnTracker {
        regs: regs@,
        active: active@,
        seen: seen@,
        patches: patches@,
    };
    let mut events: Vec<KeyEvent> = Vec::new();
    match tc.command {
        VgmCommand::Ym2612Port0 { reg, data } => {
            regs.set(reg as usize, data);
            let code = (data & 0x07) as usize;
            assert(data & 0x07 < 8) by (bit_vector);
            let ch_opt: Option<usize> = if code < 3 {
                Some(code)
            } else if 4 <= code && code < 7 {
                Some(code - 1)
            } else {
                None
            };
            if reg == 0x28 {
                match ch_opt {
                    Some(ch) => {
                        if (data >> 4u8) != 0 {
                            let port: usize = if ch < 3 {
                                0
                            } else {
                                1
                            };
                            let base: usize = if ch < 3 {
                                ch
                            } else {
                                ch - 3
                            };
                            let pitch = read_pitch(regs, port, base);
                            events.push(
                                KeyEvent {
                                    time_us: samples_to_us(tc.sample_pos),
                                    channel: ch as u8,
                                    pitch: KeyPitch::Register(pitch),
                                    velocity: 100,
                                    is_on: true,
                                },
                            );
                            active.set(ch, Some(pitch));
                            let patch = read_patch(regs, port, base);
                            if !seen_contains(seen, (patch.algo, patch.fb)) {
                                seen.push((patch.algo, patch.fb));
                                patches.push(patch);
                            }
                        } else {
                            match active[ch] {
                                Some(p) => {
                                    events.push(
                                        KeyEvent {
                                            time_us: samples_to_us(tc.sample_pos),
                                            channel: ch as u8,
                                            pitch: KeyPitch::Register(p),
                                            velocity: 0,
                                            is_on: false,
                                        },
                                    );
                                    active.set(ch, None);
                                },
                                None => {},
                            }
                        }
                    },
                    None => {},
                }
            }
        },
        VgmCommand::Ym2612Port1 { reg, data } => {
            regs.set(256 + reg as usize, data);
        },
        _ => {},
    }
    proof {
        let (s2, e2) = opn_step(s, tc);
        assert(s2.regs =~= regs@);
        assert(s2.active =~= active@);
        assert(s2.seen =~= seen@);
        assert(s2.patches =~= patches@);
        assert(events@ =~= e2);
    }
    events
}

/// Finds the key events in the YM2612 writes of a command stream, ends the
/// notes still sounding at `total_samples`, and collects one voice per
/// (algorithm, feedback) pair seen at a key-on.
pub fn extract_ym2612(commands: &Vec<TimedCommand>, total_samples: u32) -> (r: (
    Vec<KeyEvent>,
    Vec<OpnPatch>,
))
    requires
        times_fit(commands@),
    ensures
        (r.0@, r.1@) == opn_extraction(commands@, total_samples),
{
    let mut regs: Vec<u8> = Vec::new();
    let mut k: usize = 0;
    while k < 512
        invariant
            k <= 512,
            regs@ == Seq::new(k as nat, |i: int| 0u8),
        decreases 512 - k,
    {
        regs.push(0);
        assert(regs@ =~= Seq::new((k + 1) as nat, |i: int| 0u8));
        k = k + 1;
    }
    let mut active: Vec<Option<u32>> = Vec::new();
    k = 0;
    while k < 6
        invariant
            k <= 6,
            active@ == Seq::new(k as nat, |i: int| None::<u32>),
        decreases 6 - k,
    {
        active.push(None);
        assert(active@ =~= Seq::new((k + 1) as nat, |i: int| None::<u32>));
        k = k + 1;
    }
    let mut seen: Vec<(u8, u8)> = Vec::new();
    let mut patches: Vec<OpnPatch> = Vec::new();
    let mut events: Vec<KeyEvent> = Vec::new();
    let mut i: usize = 0;
    while i < commands.len()
        invariant
            i <= commands.len(),
            times_fit(commands@),
            regs@.len() == 512 && active@.len() == 6,
            opn_run(commands@, i as int).0 == (OpnTracker {
                regs: regs@,
                active: active@,
                seen: seen@,
                patches: patches@,
            }),
            opn_run(commands@, i as int).1 == events@,
        decreases commands.len() - i,
    {
        let tc = commands[i];
        assert(tc.sample_pos * 1_000_000 <= u64::MAX);
        let mut e = opn_command(tc, &mut regs, &mut active, &mut seen, &mut patches);
        events.append(&mut e);
        i = i + 1;
    }
    let end = samples_to_us(total_samples as u64);
    let ghost main = events@;
    let mut ch: usize = 0;
    while ch < 6
        invariant
            ch <= 6,
            active@.len() == 6,
            events@ + opn_releases(active@, ch as int, end) == main + opn_releases(active@, 0, end),
        decreases 6 - ch,
    {
        let ghost prev = events@;
        match active[ch] {
            Some(p) => {
                events.push(
                    KeyEvent {
                        time_us: end,
                        channel: ch as u8,
                        pitch: KeyPitch::Register(p),
                        velocity: 0,
                        is_on: false,
                    },
                );
                assert(prev + opn_releases(active@, ch as int, end) =~= events@ + opn_releases(
                    active@,
                    ch + 1,
                    end,
                ));
            },
            None => {},
        }
        ch = ch + 1;
    }
    assert(opn_releases(active@, 6, end) =~= Seq::<KeyEvent>::empty());
    assert(events@ =~= events@ + opn_releases(active@, 6, end));
    (events, patches)
}

// ---------------------------------------------------------------------------
// All chips of a file
// ---------------------------------------------------------------------------

/// The chips whose writes are searched for key events.
#[derive(Debug, Clone, Copy, PartialEq, Eq, Structural)]
pub enum ExtractChip {
    Sn76489,
    Ym2612,
    Ym2151,
    Ay8910,
    NesApu,
    Pokey,
}

/// The extractor for a chip name of the parser's chip list, if any.
pub open spec fn chip_kind(name: Seq<char>) -> Option<ExtractChip> {
    if name == "SN76489"@ {
        Some(ExtractChip::Sn76489)
    } else if name == "YM2612"@ {
        Some(ExtractChip::Ym2612)
    } else if name == "YM2151"@ {
        Some(ExtractChip::Ym2151)
    } else if name == "AY-3-8910"@ {
        Some(ExtractChip::Ay8910)
    } else if name == "NES APU"@ {
        Some(ExtractChip::NesApu)
    } else if name == "POKEY"@ {
        Some(ExtractChip::Pokey)
    } else {
        None
    }
}

/// The extractors for the first `n` chips of a chip list, skipping names
/// without one.
pub open spec fn chip_kinds(chips: Seq<ChipUsed>, n: int) -> Seq<ExtractChip>
    decreases n,
{
    if n <= 0 {
        seq![]
    } else {
        let rest = chip_kinds(chips, n - 1);
        match chip_kind(chips[n - 1].name@) {
            Some(k) => rest.push(k),
            None => rest,
        }
    }
}

/// What one chip's writes yield: its key events, the YM2612 voices, the
/// YM2151 algorithm and feedback, and the file's duration.
pub struct ChipExtraction {
    pub chip: ExtractChip,
    pub events: Vec<KeyEvent>,
    pub ym2612_patches: Vec<OpnPatch>,
    pub ym2151_patch: Option<(u8, u8)>,
    pub duration_us: u64,
}

/// The key events that an extractor finds in a stream.
pub open spec fn chip_events(k: ExtractChip, cmds: Seq<TimedCommand>, total: u32) -> Seq<KeyEvent> {
    match k {
        ExtractChip::Sn76489 => sn_key_events(cmds),
        ExtractChip::Ym2612 => opn_extraction(cmds, total).0,
        ExtractChip::Ym2151 => opm_extraction(cmds).0,
        ExtractChip::Ay8910 => ay_key_events(cmds),
        ExtractChip::NesApu => nes_key_events(cmds),
        ExtractChip::Pokey => pokey_key_events(cmds),
    }
}

/// Whether `e` is what extractor `k` yields for a file.
pub open spec fn extracted(e: ChipExtraction, k: ExtractChip, cmds: Seq<TimedCommand>, total: u32) -> bool {
    &&& e.chip == k
    &&& e.events@ == chip_events(k, cmds, total)
    &&& e.ym2612_patches@ == if k == ExtractChip::Ym2612 {
        opn_extraction(cmds, total).1
    } else {
        Seq::<OpnPatch>::empty()
    }
    &&& e.ym2151_patch == if k == ExtractChip::Ym2151 {
        opm_extraction(cmds).1
    } else {
        None
    }
    &&& e.duration_us == spec_samples_to_us(total as nat)
}

/// What the extractors need of a file: times that fit in 64 bits, and
/// AY-3-8910 writes to its 16 registers when that chip is listed.
pub open spec fn extractable(vgm: VgmFile) -> bool {
    &&& times_fit(vgm.commands@)
    &&& chip_kinds(vgm.chips_used@, vgm.chips_used@.len() as int).contains(ExtractChip::Ay8910)
        ==> ay_regs_in_range(vgm.commands@)
}

fn kind_of(name: &str) -> (r: Option<ExtractChip>)
    ensures
        r == chip_kind(name@),
{
    if str_equal(name, "SN76489") {
        Some(ExtractChip::Sn76489)
    } else if str_equal(name, "YM2612") {
        Some(ExtractChip::Ym2612)
    } else if str_equal(name, "YM2151") {
        Some(ExtractChip::Ym2151)
    } else if str_equal(name, "AY-3-8910") {
        Some(ExtractChip::Ay8910)
    } else if str_equal(name, "NES APU") {
        Some(ExtractChip::NesApu)
    } else if str_equal(name, "POKEY") {
        Some(ExtractChip::Pokey)
    } else {
        None
    }
}

/// Runs the extractor of every chip of the file that has one, in the
/// order of the file's chip list.
pub fn extract(vgm: &VgmFile) -> (r: Vec<ChipExtraction>)
    requires
        extractable(*vgm),
    ensures
        r@.len() == chip_kinds(vgm.chips_used@, vgm.chips_used@.len() as int).len(),
        forall|i: int|
            0 <= i < r@.len() ==> extracted(
                #[trigger] r@[i],
                chip_kinds(vgm.chips_used@, vgm.chips_used@.len() as int)[i],
                vgm.commands@,
                vgm.header.total_samples,
            ),
{
    let ghost all = chip_kinds(vgm.chips_used@, vgm.chips_used@.len() as int);
    let mut results: Vec<ChipExtraction> = Vec::new();
    let mut i: usize = 0;
    while i < vgm.chips_used.len()
        invariant
            i <= vgm.chips_used@.len(),
            extractable(*vgm),
            all == chip_kinds(vgm.chips_used@, vgm.chips_used@.len() as int),
            results@.len() == chip_kinds(vgm.chips_used@, i as int).len(),
            forall|j: int|
                0 <= j < results@.len() ==> extracted(
                    #[trigger] results@[j],
                    chip_kinds(vgm.chips_used@, i as int)[j],
                    vgm.commands@,
                    vgm.header.total_samples,
                ),
        decreases vgm.chips_used@.len() - i,
    {
        let kind = kind_of(vgm.chips_used[i].name);
        proof {
            lemma_kinds_prefix(vgm.chips_used@, i + 1, vgm.chips_used@.len() as int);
        }
        match kind {
            Some(k) => {
                let duration_us = samples_to_us(vgm.header.total_samples as u64);
                let e = match k {
                    ExtractChip::Sn76489 => ChipExtraction {
                        chip: k,
                        events: extract_sn76489(&vgm.commands),
                        ym2612_patches: Vec::new(),
                        ym2151_patch: None,
                        duration_us,
                    },
                    ExtractChip::Ym2612 => {
                        let (events, patches) = extract_ym2612(
                            &vgm.commands,
                            vgm.header.total_samples,
                        );
                        ChipExtraction {
                            chip: k,
                            events,
                            ym2612_patches: patches,
                            ym2151_patch: None,
                            duration_us,
                        }
                    },
                    ExtractChip::Ym2151 => {
                        let (events, patch) = extract_ym2151(&vgm.commands);
                        ChipExtraction {
                            chip: k,
                            events,
                            ym2612_patches: Vec::new(),
                            ym2151_patch: patch,
                            duration_us,
                        }
                    },
                    ExtractChip::Ay8910 => {
                        assert(chip_kinds(vgm.chips_used@, i + 1).last() == ExtractChip::Ay8910);
                        assert(all.contains(ExtractChip::Ay8910));
                        ChipExtraction {
                            chip: k,
                            events: extract_ay8910(&vgm.commands),
                            ym2612_patches: Vec::new(),
                            ym2151_patch: None,
                            duration_us,
                        }
                    },
                    ExtractChip::NesApu => ChipExtraction {
                        chip: k,
                        events: extract_nes_apu(&vgm.commands),
                        ym2612_patches: Vec::new(),
                        ym2151_patch: None,
                        duration_us,
                    },
                    ExtractChip::Pokey => ChipExtraction {
                        chip: k,
                        events: extract_pokey(&vgm.commands),
                        ym2612_patches: Vec::new(),
                        ym2151_patch: None,
                        duration_us,
                    },
                };
                results.push(e);
            },
            None => {},
        }
        i = i + 1;
    }
    results
}

/// The extractors of a prefix of the chip list are a prefix of those of
/// the whole list.
proof fn lemma_kinds_prefix(chips: Seq<ChipUsed>, m: int, n: int)
    requires
        0 <= m <= n,
    ensures
        chip_kinds(chips, m).len() <= chip_kinds(chips, n).len(),
        forall|j: int|
            0 <= j < chip_kinds(chips, m).len() ==> chip_kinds(chips, m)[j] == chip_kinds(
                chips,
                n,
            )[j],
    decreases n - m,
{
    if m < n {
        lemma_kinds_prefix(chips, m, n - 1);
    }
}


/// An NES APU channel is keyed exactly by the load of its length counter,
/// the last of its four registers ($4003, $4007, $400B, $400F for pulse 1,
/// pulse 2, triangle and noise): such a write ends the channel's sounding
/// note, if any, and keys a note at the 11-bit timer period made of the
/// channel's timer-low register and the low three bits of the written byte
/// (note 60 for the noise and for period 0). Every other register write,
/// the timer-low write included, keys nothing.
pub proof fn law_nes_keys_on_length_loads(s: NesTracker, tc: TimedCommand, reg: u8, data: u8)
    requires
        s.regs.len() == 32,
        s.active.len() == 4,
        tc.command == (VgmCommand::NesApuWrite { reg, data }),
        reg < 32,
    ensures
        !(reg < 0x10 && reg % 4 == 3) ==> nes_step(s, tc).1.len() == 0 && nes_step(s, tc).0.active
            == s.active,
        (reg < 0x10 && reg % 4 == 3) ==> ({
            let ch = reg / 4;
            let period = s.regs[4 * ch + 2] + (data % 8) * 256;
            let ev = nes_step(s, tc).1;
            &&& ev.len() == if s.active[ch as int] is Some {
                2int
            } else {
                1int
            }
            &&& ev.last().is_on
            &&& ev.last().channel == ch
            &&& ev.last().velocity == 100
            &&& ev.last().time_us == time_of(tc)
            &&& ev.last().pitch == if ch < 3 && period > 0 {
                KeyPitch::Register(period as u32)
            } else {
                KeyPitch::Note(60)
            }
        }),
{
    let regs = s.regs.update(reg as int, data);
    if reg < 0x10 && reg % 4 == 3 {
        let ch = (reg / 4) as int;
        assert(nes_trigger_channel(reg) == ch);
        if ch < 3 {
            let lo = s.regs[4 * ch + 2];
            assert(regs[ch * 4 + 2] == lo);
            assert(regs[ch * 4 + 3] == data);
            assert(((lo as u16) | (((data & 0x07) as u16) << 8u16)) == lo + (data % 8) * 256)
                by (bit_vector);
        }
    } else {
        assert(nes_trigger_channel(reg) == -1);
    }
}

} // verus!

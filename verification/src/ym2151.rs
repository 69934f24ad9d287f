//! Register programming of the YM2151 (OPM): the patch shadow state,
//! parameter ids, and the register writes that patch changes, key-ons and
//! key-offs make. The chip itself is driven by the caller.
//!
//! Operators M1, C1, M2, C2 of channel `ch` sit at register offsets
//! `ch`, `ch + 16`, `ch + 8` and `ch + 24`.

use vstd::prelude::*;
use crate::chip::{KindSpec, ParamInfo, ParamSpec, ParamValue, label_list, lemma_params_concat, operator_group, param_ids_within, params_sound, params_view, spec_operator_group, strings_view};
use crate::fm::{RegWrite, cap, min_u8, op_param, spec_op_param, split_op_param, w};

verus! {

/// Settings of one FM operator.
#[derive(Debug, Clone, Copy, PartialEq, Eq, Structural)]
pub struct OpmOp {
    pub tl: u8,
    pub ar: u8,
    pub d1r: u8,
    pub d2r: u8,
    pub rr: u8,
    pub sl: u8,
    pub mul: u8,
    pub dt1: u8,
}

/// The patch shared by all channels, and the note each channel plays.
#[derive(Debug, Clone, Copy)]
pub struct Ym2151Regs {
    pub algorithm: u8,
    pub feedback: u8,
    pub ops: [OpmOp; 4],
    pub active_notes: [Option<u8>; 8],
}

/// Register offset of operator `op` (0-3) within a channel.
pub open spec fn opm_offset(op: int) -> int {
    if op == 0 {
        0
    } else if op == 1 {
        16
    } else if op == 2 {
        8
    } else {
        24
    }
}

/// The six writes that load operator `o` at register offset `ro`.
pub open spec fn opm_op_writes(o: OpmOp, ro: int) -> Seq<RegWrite> {
    seq![
        w(0, 0x40 + ro, ((o.dt1 << 4u8) | o.mul) as int),
        w(0, 0x60 + ro, o.tl as int),
        w(0, 0x80 + ro, o.ar as int),
        w(0, 0xA0 + ro, o.d1r as int),
        w(0, 0xC0 + ro, o.d2r as int),
        w(0, 0xE0 + ro, ((o.sl << 4u8) | o.rr) as int),
    ]
}

/// Right and left output on, feedback and algorithm: register $20 + ch.
pub open spec fn rl_fb_alg(r: Ym2151Regs) -> int {
    (0xC0u8 | (r.feedback << 3u8) | r.algorithm) as int
}

/// The writes that load the patch into channel `ch`.
pub open spec fn channel_patch_writes(r: Ym2151Regs, ch: int) -> Seq<RegWrite> {
    opm_op_writes(r.ops@[0], ch) + opm_op_writes(r.ops@[1], ch + 16) + opm_op_writes(
        r.ops@[2],
        ch + 8,
    ) + opm_op_writes(r.ops@[3], ch + 24) + seq![w(0, 0x20 + ch, rl_fb_alg(r))]
}

/// Operator `o` with parameter `off` set from `v`, within its range.
pub open spec fn opm_op_set(o: OpmOp, off: int, v: u8) -> OpmOp {
    if off == 0 {
        OpmOp { tl: cap(v, 127), ..o }
    } else if off == 1 {
        OpmOp { ar: cap(v, 31), ..o }
    } else if off == 2 {
        OpmOp { d1r: cap(v, 31), ..o }
    } else if off == 3 {
        OpmOp { d2r: cap(v, 31), ..o }
    } else if off == 4 {
        OpmOp { rr: cap(v, 15), ..o }
    } else if off == 5 {
        OpmOp { sl: cap(v, 15), ..o }
    } else if off == 6 {
        OpmOp { mul: cap(v, 15), ..o }
    } else {
        OpmOp { dt1: cap(v, 7), ..o }
    }
}

/// Parameter `off` of an operator.
pub open spec fn opm_op_get(o: OpmOp, off: int) -> u8 {
    if off == 0 {
        o.tl
    } else if off == 1 {
        o.ar
    } else if off == 2 {
        o.d1r
    } else if off == 3 {
        o.d2r
    } else if off == 4 {
        o.rr
    } else if off == 5 {
        o.sl
    } else if off == 6 {
        o.mul
    } else {
        o.dt1
    }
}

/// The write that carries parameter `off` of operator `o` at offset `ro`.
pub open spec fn opm_param_write(o: OpmOp, off: int, ro: int) -> RegWrite {
    if off == 0 {
        w(0, 0x60 + ro, o.tl as int)
    } else if off == 1 {
        w(0, 0x80 + ro, o.ar as int)
    } else if off == 2 {
        w(0, 0xA0 + ro, o.d1r as int)
    } else if off == 3 {
        w(0, 0xC0 + ro, o.d2r as int)
    } else if off == 4 || off == 5 {
        w(0, 0xE0 + ro, ((o.sl << 4u8) | o.rr) as int)
    } else {
        w(0, 0x40 + ro, ((o.dt1 << 4u8) | o.mul) as int)
    }
}

/// The largest value operator parameter `off` takes.
pub open spec fn opm_op_limit(off: int) -> u8 {
    if off == 0 {
        127
    } else if off == 1 {
        31
    } else if off == 2 {
        31
    } else if off == 3 {
        31
    } else if off == 4 {
        15
    } else if off == 5 {
        15
    } else if off == 6 {
        15
    } else {
        7
    }
}

/// The value a parameter reads back as (the LFO settings are not kept and
/// read as 0, as do unknown ids).
pub open spec fn spec_get_param(r: Ym2151Regs, id: u32) -> u8 {
    if id == 0 {
        r.algorithm
    } else if id == 1 {
        r.feedback
    } else {
        match split_op_param(id, 500) {
            Some((op, off)) => if op < 4 && off < 8 {
                opm_op_get(r.ops@[op], off)
            } else {
                0
            },
            None => 0,
        }
    }
}

fn push_op(v: &mut Vec<RegWrite>, o: OpmOp, ro: u8)
    requires
        ro <= 31,
    ensures
        final(v)@ == old(v)@ + opm_op_writes(o, ro as int),
{
    v.push(RegWrite { port: 0, addr: 0x40 + ro, data: (o.dt1 << 4u8) | o.mul });
    v.push(RegWrite { port: 0, addr: 0x60 + ro, data: o.tl });
    v.push(RegWrite { port: 0, addr: 0x80 + ro, data: o.ar });
    v.push(RegWrite { port: 0, addr: 0xA0 + ro, data: o.d1r });
    v.push(RegWrite { port: 0, addr: 0xC0 + ro, data: o.d2r });
    v.push(RegWrite { port: 0, addr: 0xE0 + ro, data: (o.sl << 4u8) | o.rr });
    assert(final(v)@ =~= old(v)@ + opm_op_writes(o, ro as int));
}

impl Ym2151Regs {
    /// The default patch: operator levels 40, 40, 40, 0; attack 31,
    /// release 7, multiple 1; no channel playing.
    pub fn new() -> (r: Self)
        ensures
            r.algorithm == 0 && r.feedback == 0,
            r.ops@ == seq![
                OpmOp { tl: 40, ar: 31, d1r: 0, d2r: 0, rr: 7, sl: 0, mul: 1, dt1: 0 },
                OpmOp { tl: 40, ar: 31, d1r: 0, d2r: 0, rr: 7, sl: 0, mul: 1, dt1: 0 },
                OpmOp { tl: 40, ar: 31, d1r: 0, d2r: 0, rr: 7, sl: 0, mul: 1, dt1: 0 },
                OpmOp { tl: 0, ar: 31, d1r: 0, d2r: 0, rr: 7, sl: 0, mul: 1, dt1: 0 },
            ],
            forall|i: int| 0 <= i < 8 ==> r.active_notes@[i] is None,
    {
        let op = OpmOp { tl: 40, ar: 31, d1r: 0, d2r: 0, rr: 7, sl: 0, mul: 1, dt1: 0 };
        let carrier = OpmOp { tl: 0, ..op };
        let r = Ym2151Regs {
            algorithm: 0,
            feedback: 0,
            ops: [op, op, op, carrier],
            active_notes: [None, None, None, None, None, None, None, None],
        };
        assert(r.ops@ =~= seq![op, op, op, carrier]);
        r
    }

    /// The writes that load the patch into channel `ch` (0-7).
    pub fn channel_writes(&self, ch: u8) -> (r: Vec<RegWrite>)
        requires
            ch < 8,
        ensures
            r@ == channel_patch_writes(*self, ch as int),
    {
        let mut v: Vec<RegWrite> = Vec::new();
        push_op(&mut v, self.ops[0], ch);
        push_op(&mut v, self.ops[1], ch + 16);
        push_op(&mut v, self.ops[2], ch + 8);
        push_op(&mut v, self.ops[3], ch + 24);
        v.push(
            RegWrite {
                port: 0,
                addr: 0x20 + ch,
                data: 0xC0 | (self.feedback << 3u8) | self.algorithm,
            },
        );
        assert(v@ =~= channel_patch_writes(*self, ch as int));
        v
    }

    /// The writes that load the default patch: the patch into channel 0.
    pub fn init_writes(&self) -> (r: Vec<RegWrite>)
        ensures
            r@ == channel_patch_writes(*self, 0),
    {
        self.channel_writes(0)
    }

    /// Sets a parameter from its integer value; returns the register writes
    /// that apply it. The LFO settings are written only.
    pub fn set_param(&mut self, param_id: u32, value: ParamValue) -> (r: Vec<RegWrite>)
        ensures
            param_id == 0 ==> *final(self) == (Ym2151Regs { algorithm: cap(value.byte, 7), ..*old(self) })
                && r@ == seq![w(0, 0x20, rl_fb_alg(*final(self)))],
            param_id == 1 ==> *final(self) == (Ym2151Regs { feedback: cap(value.byte, 7), ..*old(self) })
                && r@ == seq![w(0, 0x20, rl_fb_alg(*final(self)))],
            param_id == 2 ==> *final(self) == *old(self) && r@ == seq![w(0, 0x18, value.byte as int)],
            param_id == 3 ==> *final(self) == *old(self) && r@ == seq![
                w(0, 0x1B, cap(value.byte, 3) as int),
            ],
            param_id > 3 ==> match split_op_param(param_id, 500) {
                Some((op, off)) if op < 4 && off < 8 => {
                    let o = opm_op_set(old(self).ops@[op], off, value.byte);
                    &&& final(self).algorithm == old(self).algorithm
                    &&& final(self).feedback == old(self).feedback
                    &&& final(self).active_notes == old(self).active_notes
                    &&& final(self).ops@ == old(self).ops@.update(op, o)
                    &&& r@ == seq![opm_param_write(o, off, opm_offset(op))]
                },
                _ => *final(self) == *old(self) && r@ == Seq::<RegWrite>::empty(),
            },
            spec_get_param(*final(self), param_id) == if param_id == 0 || param_id == 1 {
                cap(value.byte, 7)
            } else {
                match split_op_param(param_id, 500) {
                    Some((op, off)) => if op < 4 && off < 8 {
                        cap(value.byte, opm_op_limit(off))
                    } else {
                        0
                    },
                    None => 0,
                }
            },
    {
        let mut v: Vec<RegWrite> = Vec::new();
        if param_id == 0 {
            self.algorithm = min_u8(value.byte, 7);
            v.push(
                RegWrite {
                    port: 0,
                    addr: 0x20,
                    data: 0xC0 | (self.feedback << 3u8) | self.algorithm,
                },
            );
        } else if param_id == 1 {
            self.feedback = min_u8(value.byte, 7);
            v.push(
                RegWrite {
                    port: 0,
                    addr: 0x20,
                    data: 0xC0 | (self.feedback << 3u8) | self.algorithm,
                },
            );
        } else if param_id == 2 {
            v.push(RegWrite { port: 0, addr: 0x18, data: value.byte });
        } else if param_id == 3 {
            v.push(RegWrite { port: 0, addr: 0x1B, data: min_u8(value.byte, 3) });
        } else if 100 <= param_id && param_id < 500 {
            let op = ((param_id - 100) / 100) as usize;
            let off = (param_id - 100) % 100;
            if op < 4 && off < 8 {
                let mut o = self.ops[op];
                if off == 0 {
                    o.tl = min_u8(value.byte, 127);
                } else if off == 1 {
                    o.ar = min_u8(value.byte, 31);
                } else if off == 2 {
                    o.d1r = min_u8(value.byte, 31);
                } else if off == 3 {
                    o.d2r = min_u8(value.byte, 31);
                } else if off == 4 {
                    o.rr = min_u8(value.byte, 15);
                } else if off == 5 {
                    o.sl = min_u8(value.byte, 15);
                } else if off == 6 {
                    o.mul = min_u8(value.byte, 15);
                } else {
                    o.dt1 = min_u8(value.byte, 7);
                }
                self.ops[op] = o;
                let ro: u8 = if op == 0 {
                    0
                } else if op == 1 {
                    16
                } else if op == 2 {
                    8
                } else {
                    24
                };
                let wr = if off == 0 {
                    RegWrite { port: 0, addr: 0x60 + ro, data: o.tl }
                } else if off == 1 {
                    RegWrite { port: 0, addr: 0x80 + ro, data: o.ar }
                } else if off == 2 {
                    RegWrite { port: 0, addr: 0xA0 + ro, data: o.d1r }
                } else if off == 3 {
                    RegWrite { port: 0, addr: 0xC0 + ro, data: o.d2r }
                } else if off == 4 || off == 5 {
                    RegWrite { port: 0, addr: 0xE0 + ro, data: (o.sl << 4u8) | o.rr }
                } else {
                    RegWrite { port: 0, addr: 0x40 + ro, data: (o.dt1 << 4u8) | o.mul }
                };
                v.push(wr);
                assert(self.ops@ =~= old(self).ops@.update(op as int, o));
            }
        }
        v
    }

    /// The value of a parameter as an integer.
    pub fn get_param(&self, param_id: u32) -> (r: u8)
        ensures
            r == spec_get_param(*self, param_id),
    {
        if param_id == 0 {
            self.algorithm
        } else if param_id == 1 {
            self.feedback
        } else if 100 <= param_id && param_id < 500 {
            let op = ((param_id - 100) / 100) as usize;
            let off = (param_id - 100) % 100;
            if op < 4 && off < 8 {
                let o = self.ops[op];
                if off == 0 {
                    o.tl
                } else if off == 1 {
                    o.ar
                } else if off == 2 {
                    o.d1r
                } else if off == 3 {
                    o.d2r
                } else if off == 4 {
                    o.rr
                } else if off == 5 {
                    o.sl
                } else if off == 6 {
                    o.mul
                } else {
                    o.dt1
                }
            } else {
                0
            }
        } else {
            0
        }
    }

    /// Keys channel `voice` on with key code `kc` and key fraction `kf`: the
    /// patch is loaded into the channel, the carrier's level is limited by
    /// the velocity, and all four operators are keyed. Voices past 7 are
    /// ignored.
    pub fn voice_on(&mut self, voice: usize, note: u8, velocity: u8, kc: u8, kf: u8) -> (r: Vec<
        RegWrite,
    >)
        requires
            velocity <= 127,
        ensures
            voice >= 8 ==> *final(self) == *old(self) && r@ == Seq::<RegWrite>::empty(),
            voice < 8 ==> {
                let o = *old(self);
                let ch = voice as int;
                &&& final(self).algorithm == o.algorithm
                &&& final(self).feedback == o.feedback
                &&& final(self).ops == o.ops
                &&& final(self).active_notes@ == o.active_notes@.update(ch, Some(note))
                &&& r@ == channel_patch_writes(o, ch) + seq![
                    w(0, 0x28 + ch, kc as int),
                    w(0, 0x30 + ch, kf as int),
                    w(0, 0x60 + ch + 24, cap((127 - velocity) as u8, o.ops@[3].tl) as int),
                    w(0, 0x08, (0x78u8 | (voice as u8)) as int),
                ]
            },
    {
        if voice >= 8 {
            return Vec::new();
        }
        let ch = voice as u8;
        let mut v = self.channel_writes(ch);
        v.push(RegWrite { port: 0, addr: 0x28 + ch, data: kc });
        v.push(RegWrite { port: 0, addr: 0x30 + ch, data: kf });
        v.push(RegWrite { port: 0, addr: 0x60 + ch + 24, data: min_u8(127 - velocity, self.ops[3].tl) });
        v.push(RegWrite { port: 0, addr: 0x08, data: 0x78 | ch });
        self.active_notes[voice] = Some(note);
        assert(v@ =~= channel_patch_writes(*old(self), voice as int) + seq![
            w(0, 0x28 + voice as int, kc as int),
            w(0, 0x30 + voice as int, kf as int),
            w(0, 0x60 + voice as int + 24, cap((127 - velocity) as u8, old(self).ops@[3].tl) as int),
            w(0, 0x08, (0x78u8 | (voice as u8)) as int),
        ]);
        v
    }

    /// Keys channel `voice` off (voices past 7 are ignored).
    pub fn voice_off(&mut self, voice: usize) -> (r: Vec<RegWrite>)
        ensures
            voice >= 8 ==> *final(self) == *old(self) && r@ == Seq::<RegWrite>::empty(),
            voice < 8 ==> {
                &&& final(self).algorithm == old(self).algorithm
                &&& final(self).feedback == old(self).feedback
                &&& final(self).ops == old(self).ops
                &&& final(self).active_notes@ == old(self).active_notes@.update(voice as int, None)
                &&& r@ == seq![w(0, 0x08, voice as int)]
            },
    {
        let mut v: Vec<RegWrite> = Vec::new();
        if voice >= 8 {
            return v;
        }
        v.push(RegWrite { port: 0, addr: 0x08, data: voice as u8 });
        self.active_notes[voice] = None;
        assert(v@ =~= seq![w(0, 0x08, voice as int)]);
        v
    }

    /// Forgets every note and reloads the patch into channel 0.
    pub fn reset(&mut self) -> (r: Vec<RegWrite>)
        ensures
            final(self).algorithm == old(self).algorithm,
            final(self).feedback == old(self).feedback,
            final(self).ops == old(self).ops,
            forall|i: int| 0 <= i < 8 ==> final(self).active_notes@[i] is None,
            r@ == channel_patch_writes(*old(self), 0),
    {
        self.active_notes = [None, None, None, None, None, None, None, None];
        self.init_writes()
    }
}

/// The adjustable parameters of the YM2151, in display order.
pub open spec fn ym2151_params() -> Seq<ParamSpec> {
    ym2151_global_params() + ym2151_operator_params(0) + ym2151_operator_params(1) + ym2151_operator_params(2) + ym2151_operator_params(3)
}

/// The parameters of operator `op` (counted from 0) of the YM2151.
pub open spec fn ym2151_operator_params(op: u32) -> Seq<ParamSpec> {
    seq![
        ParamSpec { id: spec_op_param(op, 0) as u32, name: "Total Level"@, group: spec_operator_group(op), kind: KindSpec::Continuous { min: 0, max: 127, default: if op == 3 { 0 } else { 40 } } },
        ParamSpec { id: spec_op_param(op, 1) as u32, name: "Attack"@, group: spec_operator_group(op), kind: KindSpec::Discrete { min: 0, max: 31, default: 31, labels: None } },
        ParamSpec { id: spec_op_param(op, 2) as u32, name: "Decay 1"@, group: spec_operator_group(op), kind: KindSpec::Discrete { min: 0, max: 31, default: 0, labels: None } },
        ParamSpec { id: spec_op_param(op, 3) as u32, name: "Decay 2"@, group: spec_operator_group(op), kind: KindSpec::Discrete { min: 0, max: 31, default: 0, labels: None } },
        ParamSpec { id: spec_op_param(op, 4) as u32, name: "Release"@, group: spec_operator_group(op), kind: KindSpec::Discrete { min: 0, max: 15, default: 7, labels: None } },
        ParamSpec { id: spec_op_param(op, 5) as u32, name: "Sustain Level"@, group: spec_operator_group(op), kind: KindSpec::Discrete { min: 0, max: 15, default: 0, labels: None } },
        ParamSpec { id: spec_op_param(op, 6) as u32, name: "Multiply"@, group: spec_operator_group(op), kind: KindSpec::Discrete { min: 0, max: 15, default: 1, labels: None } },
        ParamSpec { id: spec_op_param(op, 7) as u32, name: "Detune"@, group: spec_operator_group(op), kind: KindSpec::Discrete { min: 0, max: 7, default: 0, labels: None } },
    ]
}

fn ym2151_operator_param_info(op: u32) -> (r: Vec<ParamInfo>)
    requires
        op < 4,
    ensures
        params_view(r@) == ym2151_operator_params(op),
{
    let group = operator_group(op);
    let mut r: Vec<ParamInfo> = Vec::new();
    r.push(ParamInfo::continuous(op_param(op, 0), "Total Level", group, 0, 127, if op == 3 { 0 } else { 40 }));
    r.push(ParamInfo::discrete(op_param(op, 1), "Attack", group, 0, 31, 31, None));
    r.push(ParamInfo::discrete(op_param(op, 2), "Decay 1", group, 0, 31, 0, None));
    r.push(ParamInfo::discrete(op_param(op, 3), "Decay 2", group, 0, 31, 0, None));
    r.push(ParamInfo::discrete(op_param(op, 4), "Release", group, 0, 15, 7, None));
    r.push(ParamInfo::discrete(op_param(op, 5), "Sustain Level", group, 0, 15, 0, None));
    r.push(ParamInfo::discrete(op_param(op, 6), "Multiply", group, 0, 15, 1, None));
    r.push(ParamInfo::discrete(op_param(op, 7), "Detune", group, 0, 7, 0, None));
    assert(params_view(r@) =~= ym2151_operator_params(op));
    r
}

/// The adjustable parameters of the YM2151: id, name, group and range.
pub fn ym2151_param_info() -> (r: Vec<ParamInfo>)
    ensures
        params_view(r@) == ym2151_params(),
{
    let mut r: Vec<ParamInfo> = Vec::new();
    r.push(ParamInfo::discrete(0, "Algorithm", "Global", 0, 7, 0, None));
    r.push(ParamInfo::discrete(1, "Feedback", "Global", 0, 7, 0, None));
    r.push(ParamInfo::continuous(2, "LFO Speed", "LFO", 0, 255, 0));
    let names7: [&str; 4] = ["Saw", "Square", "Tri", "Noise"];
    assert(names7@ == seq!["Saw", "Square", "Tri", "Noise"]);
    let labels7 = label_list(&names7);
    assert(strings_view(labels7@) =~= seq!["Saw"@, "Square"@, "Tri"@, "Noise"@]);
    r.push(ParamInfo::discrete(3, "LFO Wave", "LFO", 0, 3, 0, Some(labels7)));
    let mut ops0 = ym2151_operator_param_info(0);
    r.append(&mut ops0);
    let mut ops1 = ym2151_operator_param_info(1);
    r.append(&mut ops1);
    let mut ops2 = ym2151_operator_param_info(2);
    r.append(&mut ops2);
    let mut ops3 = ym2151_operator_param_info(3);
    r.append(&mut ops3);
    assert(params_view(r@) =~= ym2151_params());
    r
}

/// The chip-wide parameters of the table.
pub open spec fn ym2151_global_params() -> Seq<ParamSpec> {
    seq![
        ParamSpec { id: 0, name: "Algorithm"@, group: "Global"@, kind: KindSpec::Discrete { min: 0, max: 7, default: 0, labels: None } },
        ParamSpec { id: 1, name: "Feedback"@, group: "Global"@, kind: KindSpec::Discrete { min: 0, max: 7, default: 0, labels: None } },
        ParamSpec { id: 2, name: "LFO Speed"@, group: "LFO"@, kind: KindSpec::Continuous { min: 0, max: 255, default: 0 } },
        ParamSpec { id: 3, name: "LFO Wave"@, group: "LFO"@, kind: KindSpec::Discrete { min: 0, max: 3, default: 0, labels: Some(seq!["Saw"@, "Square"@, "Tri"@, "Noise"@]) } },
    ]
}

proof fn lemma_ym2151_operator_params_sound(op: u32)
    requires
        op < 4,
    ensures
        params_sound(ym2151_operator_params(op)),
        param_ids_within(ym2151_operator_params(op), 100 + op * 100, 200 + op * 100),
{
}

pub proof fn lemma_ym2151_params_sound()
    ensures
        params_sound(ym2151_params()),
{
    assert(params_sound(ym2151_global_params()));
    assert(param_ids_within(ym2151_global_params(), 0, 100));
    lemma_ym2151_operator_params_sound(0);
    lemma_params_concat(ym2151_global_params(), ym2151_operator_params(0), 100);
    assert(param_ids_within(ym2151_global_params() + ym2151_operator_params(0), 0, 200));
    lemma_ym2151_operator_params_sound(1);
    lemma_params_concat(ym2151_global_params() + ym2151_operator_params(0), ym2151_operator_params(1), 200);
    assert(param_ids_within(ym2151_global_params() + ym2151_operator_params(0) + ym2151_operator_params(1), 0, 300));
    lemma_ym2151_operator_params_sound(2);
    lemma_params_concat(ym2151_global_params() + ym2151_operator_params(0) + ym2151_operator_params(1), ym2151_operator_params(2), 300);
    assert(param_ids_within(ym2151_global_params() + ym2151_operator_params(0) + ym2151_operator_params(1) + ym2151_operator_params(2), 0, 400));
    lemma_ym2151_operator_params_sound(3);
    lemma_params_concat(ym2151_global_params() + ym2151_operator_params(0) + ym2151_operator_params(1) + ym2151_operator_params(2), ym2151_operator_params(3), 400);
    assert(param_ids_within(ym2151_global_params() + ym2151_operator_params(0) + ym2151_operator_params(1) + ym2151_operator_params(2) + ym2151_operator_params(3), 0, 500));
}

} // verus!

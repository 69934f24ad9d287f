//! Register programming of the YM3812 (OPL2): the two-operator patch
//! shadow state, parameter ids, and the register writes that patch
//! changes, key-ons and key-offs make. The chip itself is driven by the
//! caller.

use vstd::prelude::*;
use crate::chip::{KindSpec, ParamInfo, ParamSpec, ParamValue, label_list, lemma_params_concat, operator_group, param_ids_within, params_sound, params_view, spec_operator_group, strings_view};
use crate::fm::{RegWrite, cap, min_u8, op_param, spec_op_param, split_op_param, w};

verus! {

/// Settings of one OPL operator.
#[derive(Debug, Clone, Copy, PartialEq, Eq, Structural)]
pub struct OplOp {
    pub tl: u8,
    pub ar: u8,
    pub dr: u8,
    pub sl: u8,
    pub rr: u8,
    pub mul: u8,
    pub ksl: u8,
}

/// The offset of a channel's first operator: channels 0-2 at 0-2, 3-5 at
/// 8-10, 6-8 at 16-18; other channels at 0.
pub open spec fn opl_base(ch: u8) -> int {
    if ch <= 2 {
        ch as int
    } else if ch <= 5 {
        ch + 5
    } else if ch <= 8 {
        ch + 10
    } else {
        0
    }
}

/// The register offsets of a channel's two operators (the second three
/// above the first).
pub fn opl2_op_offsets(ch: u8) -> (r: [u8; 2])
    ensures
        r@ == seq![opl_base(ch) as u8, (opl_base(ch) + 3) as u8],
{
    let base: u8 = if ch <= 2 {
        ch
    } else if ch <= 5 {
        ch + 5
    } else if ch <= 8 {
        ch + 10
    } else {
        0
    };
    let r = [base, base + 3];
    assert(r@ =~= seq![opl_base(ch) as u8, (opl_base(ch) + 3) as u8]);
    r
}

/// The patch shared by all channels, and the note each channel plays.
#[derive(Debug, Clone, Copy)]
pub struct Ym3812Regs {
    /// 0 FM, 1 additive.
    pub algorithm: u8,
    pub feedback: u8,
    pub ops: [OplOp; 2],
    pub active_notes: [Option<u8>; 9],
}

/// The four writes that load operator `o` at register offset `off`.
pub open spec fn opl2_op_writes(o: OplOp, off: int) -> Seq<RegWrite> {
    seq![
        w(0, 0x20 + off, (o.mul & 0x0F) as int),
        w(0, 0x40 + off, ((o.ksl << 6u8) | (o.tl & 0x3F)) as int),
        w(0, 0x60 + off, ((o.ar << 4u8) | (o.dr & 0x0F)) as int),
        w(0, 0x80 + off, ((o.sl << 4u8) | (o.rr & 0x0F)) as int),
    ]
}

/// The writes that load the patch into channel `ch`.
pub open spec fn patch_writes(r: Ym3812Regs, ch: u8) -> Seq<RegWrite> {
    opl2_op_writes(r.ops@[0], opl_base(ch)) + opl2_op_writes(r.ops@[1], opl_base(ch) + 3) + seq![
        w(0, 0xC0 + ch, ((r.feedback << 1u8) | r.algorithm) as int),
    ]
}

/// Operator `o` with parameter `off` set from `v`, within its range.
pub open spec fn opl_op_set(o: OplOp, off: int, v: u8) -> OplOp {
    if off == 0 {
        OplOp { tl: cap(v, 63), ..o }
    } else if off == 1 {
        OplOp { ar: cap(v, 15), ..o }
    } else if off == 2 {
        OplOp { dr: cap(v, 15), ..o }
    } else if off == 3 {
        OplOp { sl: cap(v, 15), ..o }
    } else if off == 4 {
        OplOp { rr: cap(v, 15), ..o }
    } else if off == 5 {
        OplOp { mul: cap(v, 15), ..o }
    } else {
        OplOp { ksl: cap(v, 3), ..o }
    }
}

/// Parameter `off` of an operator.
pub open spec fn opl_op_get(o: OplOp, off: int) -> u8 {
    if off == 0 {
        o.tl
    } else if off == 1 {
        o.ar
    } else if off == 2 {
        o.dr
    } else if off == 3 {
        o.sl
    } else if off == 4 {
        o.rr
    } else if off == 5 {
        o.mul
    } else {
        o.ksl
    }
}

/// The largest value operator parameter `off` takes.
pub open spec fn opl_op_limit(off: int) -> u8 {
    if off == 0 {
        63
    } else if off == 1 {
        15
    } else if off == 2 {
        15
    } else if off == 3 {
        15
    } else if off == 4 {
        15
    } else if off == 5 {
        15
    } else {
        3
    }
}

/// The value a parameter reads back as (unknown ids as 0).
pub open spec fn spec_get_param(r: Ym3812Regs, id: u32) -> u8 {
    if id == 0 {
        r.algorithm
    } else if id == 1 {
        r.feedback
    } else {
        match split_op_param(id, 300) {
            Some((op, off)) => if op < 2 && off < 7 {
                opl_op_get(r.ops@[op], off)
            } else {
                0
            },
            None => 0,
        }
    }
}

/// Block and F-number as register $B0 holds them, with the key bit.
pub open spec fn block_fnum_hi(fnum: u16, block: u8, key: bool) -> int {
    let v = ((block & 0x07) << 2u8) | (((fnum >> 8u16) as u8) & 0x03);
    (if key {
        0x20u8 | v
    } else {
        v
    }) as int
}

fn push_op(v: &mut Vec<RegWrite>, o: OplOp, off: u8)
    requires
        off <= 21,
    ensures
        final(v)@ == old(v)@ + opl2_op_writes(o, off as int),
{
    v.push(RegWrite { port: 0, addr: 0x20 + off, data: o.mul & 0x0F });
    v.push(RegWrite { port: 0, addr: 0x40 + off, data: (o.ksl << 6u8) | (o.tl & 0x3F) });
    v.push(RegWrite { port: 0, addr: 0x60 + off, data: (o.ar << 4u8) | (o.dr & 0x0F) });
    v.push(RegWrite { port: 0, addr: 0x80 + off, data: (o.sl << 4u8) | (o.rr & 0x0F) });
    assert(final(v)@ =~= old(v)@ + opl2_op_writes(o, off as int));
}

impl Ym3812Regs {
    /// The default patch: levels 20 and 0, attack 15, release 7, multiple 1.
    pub fn new() -> (r: Self)
        ensures
            r.algorithm == 0 && r.feedback == 0,
            r.ops@ == seq![
                OplOp { tl: 20, ar: 15, dr: 0, sl: 0, rr: 7, mul: 1, ksl: 0 },
                OplOp { tl: 0, ar: 15, dr: 0, sl: 0, rr: 7, mul: 1, ksl: 0 },
            ],
            forall|i: int| 0 <= i < 9 ==> r.active_notes@[i] is None,
    {
        let modulator = OplOp { tl: 20, ar: 15, dr: 0, sl: 0, rr: 7, mul: 1, ksl: 0 };
        let carrier = OplOp { tl: 0, ..modulator };
        let r = Ym3812Regs {
            algorithm: 0,
            feedback: 0,
            ops: [modulator, carrier],
            active_notes: [None, None, None, None, None, None, None, None, None],
        };
        assert(r.ops@ =~= seq![modulator, carrier]);
        r
    }

    /// The writes that load the patch into channel `ch` (0-8).
    pub fn patch_writes(&self, ch: u8) -> (r: Vec<RegWrite>)
        requires
            ch <= 8,
        ensures
            r@ == patch_writes(*self, ch),
    {
        let offs = opl2_op_offsets(ch);
        let mut v: Vec<RegWrite> = Vec::new();
        push_op(&mut v, self.ops[0], offs[0]);
        push_op(&mut v, self.ops[1], offs[1]);
        v.push(RegWrite { port: 0, addr: 0xC0 + ch, data: (self.feedback << 1u8) | self.algorithm });
        assert(v@ =~= patch_writes(*self, ch));
        v
    }

    /// Sets a parameter from its integer value; a change
    /// reloads the patch into channel 0.
    pub fn set_param(&mut self, param_id: u32, value: ParamValue) -> (r: Vec<RegWrite>)
        ensures
            param_id == 0 ==> *final(self) == (Ym3812Regs { algorithm: cap(value.byte, 1), ..*old(self) })
                && r@ == patch_writes(*final(self), 0),
            param_id == 1 ==> *final(self) == (Ym3812Regs { feedback: cap(value.byte, 7), ..*old(self) })
                && r@ == patch_writes(*final(self), 0),
            param_id > 1 ==> match split_op_param(param_id, 300) {
                Some((op, off)) if op < 2 && off < 7 => {
                    &&& final(self).algorithm == old(self).algorithm
                    &&& final(self).feedback == old(self).feedback
                    &&& final(self).active_notes == old(self).active_notes
                    &&& final(self).ops@ == old(self).ops@.update(
                        op,
                        opl_op_set(old(self).ops@[op], off, value.byte),
                    )
                    &&& r@ == patch_writes(*final(self), 0)
                },
                _ => *final(self) == *old(self) && r@ == Seq::<RegWrite>::empty(),
            },
            spec_get_param(*final(self), param_id) == if param_id == 0 {
                cap(value.byte, 1)
            } else if param_id == 1 {
                cap(value.byte, 7)
            } else {
                match split_op_param(param_id, 300) {
                    Some((op, off)) => if op < 2 && off < 7 {
                        cap(value.byte, opl_op_limit(off))
                    } else {
                        0
                    },
                    None => 0,
                }
            },
    {
        if param_id == 0 {
            self.algorithm = min_u8(value.byte, 1);
            self.patch_writes(0)
        } else if param_id == 1 {
            self.feedback = min_u8(value.byte, 7);
            self.patch_writes(0)
        } else if 100 <= param_id && param_id < 300 {
            let op = ((param_id - 100) / 100) as usize;
            let off = (param_id - 100) % 100;
            if op < 2 && off < 7 {
                let mut o = self.ops[op];
                if off == 0 {
                    o.tl = min_u8(value.byte, 63);
                } else if off == 1 {
                    o.ar = min_u8(value.byte, 15);
                } else if off == 2 {
                    o.dr = min_u8(value.byte, 15);
                } else if off == 3 {
                    o.sl = min_u8(value.byte, 15);
                } else if off == 4 {
                    o.rr = min_u8(value.byte, 15);
                } else if off == 5 {
                    o.mul = min_u8(value.byte, 15);
                } else {
                    o.ksl = min_u8(value.byte, 3);
                }
                self.ops[op] = o;
                assert(self.ops@ =~= old(self).ops@.update(op as int, o));
                self.patch_writes(0)
            } else {
                Vec::new()
            }
        } else {
            Vec::new()
        }
    }

    /// The value of a parameter as an integer.
    pub fn get_param(&self, param_id: u32) -> (r: u8)
        ensures
            r == spec_get_param(*self, param_id),
    {
        if param_id == 0 {
            self.algorithm
        } else if param_id == 1 {
            self.feedback
        } else if 100 <= param_id && param_id < 300 {
            let op = ((param_id - 100) / 100) as usize;
            let off = (param_id - 100) % 100;
            if op < 2 && off < 7 {
                let o = self.ops[op];
                if off == 0 {
                    o.tl
                } else if off == 1 {
                    o.ar
                } else if off == 2 {
                    o.dr
                } else if off == 3 {
                    o.sl
                } else if off == 4 {
                    o.rr
                } else if off == 5 {
                    o.mul
                } else {
                    o.ksl
                }
            } else {
                0
            }
        } else {
            0
        }
    }

    /// Keys channel `voice` on at F-number `fnum` and block `block`: the
    /// patch is loaded into the channel, the frequency written with the key
    /// bit clear and then set. Voices past 8 are ignored.
    pub fn voice_on(&mut self, voice: usize, note: u8, fnum: u16, block: u8) -> (r: Vec<RegWrite>)
        ensures
            voice >= 9 ==> *final(self) == *old(self) && r@ == Seq::<RegWrite>::empty(),
            voice < 9 ==> {
                let ch = voice as u8;
                &&& final(self).algorithm == old(self).algorithm
                &&& final(self).feedback == old(self).feedback
                &&& final(self).ops == old(self).ops
                &&& final(self).active_notes@ == old(self).active_notes@.update(
                    voice as int,
                    Some(note),
                )
                &&& r@ == patch_writes(*old(self), ch) + seq![
                    w(0, 0xB0 + ch, block_fnum_hi(fnum, block, false)),
                    w(0, 0xA0 + ch, (fnum & 0xFF) as int),
                    w(0, 0xB0 + ch, block_fnum_hi(fnum, block, true)),
                ]
            },
    {
        if voice >= 9 {
            return Vec::new();
        }
        let ch = voice as u8;
        let mut v = self.patch_writes(ch);
        let hi: u8 = ((block & 0x07) << 2u8) | (((fnum >> 8u16) as u8) & 0x03);
        v.push(RegWrite { port: 0, addr: 0xB0 + ch, data: hi });
        v.push(RegWrite { port: 0, addr: 0xA0 + ch, data: (fnum & 0xFF) as u8 });
        v.push(RegWrite { port: 0, addr: 0xB0 + ch, data: 0x20 | hi });
        self.active_notes[voice] = Some(note);
        assert(v@ =~= patch_writes(*old(self), ch) + seq![
            w(0, 0xB0 + ch, block_fnum_hi(fnum, block, false)),
            w(0, 0xA0 + ch, (fnum & 0xFF) as int),
            w(0, 0xB0 + ch, block_fnum_hi(fnum, block, true)),
        ]);
        v
    }

    /// Keys channel `voice` off by clearing its $B0 register (voices past 8
    /// are ignored).
    pub fn voice_off(&mut self, voice: usize) -> (r: Vec<RegWrite>)
        ensures
            voice >= 9 ==> *final(self) == *old(self) && r@ == Seq::<RegWrite>::empty(),
            voice < 9 ==> {
                &&& final(self).algorithm == old(self).algorithm
                &&& final(self).feedback == old(self).feedback
                &&& final(self).ops == old(self).ops
                &&& final(self).active_notes@ == old(self).active_notes@.update(voice as int, None)
                &&& r@ == seq![w(0, 0xB0 + voice, 0)]
            },
    {
        let mut v: Vec<RegWrite> = Vec::new();
        if voice >= 9 {
            return v;
        }
        v.push(RegWrite { port: 0, addr: 0xB0 + voice as u8, data: 0 });
        self.active_notes[voice] = None;
        assert(v@ =~= seq![w(0, 0xB0 + voice, 0)]);
        v
    }

    /// Forgets every note and reloads the patch into channel 0.
    pub fn reset(&mut self) -> (r: Vec<RegWrite>)
        ensures
            final(self).algorithm == old(self).algorithm,
            final(self).feedback == old(self).feedback,
            final(self).ops == old(self).ops,
            forall|i: int| 0 <= i < 9 ==> final(self).active_notes@[i] is None,
            r@ == patch_writes(*old(self), 0),
    {
        self.active_notes = [None, None, None, None, None, None, None, None, None];
        self.patch_writes(0)
    }
}

/// The adjustable parameters of the YM3812, in display order.
pub open spec fn ym3812_params() -> Seq<ParamSpec> {
    ym3812_global_params() + ym3812_operator_params(0) + ym3812_operator_params(1)
}

/// The parameters of operator `op` (counted from 0) of the YM3812.
pub open spec fn ym3812_operator_params(op: u32) -> Seq<ParamSpec> {
    seq![
        ParamSpec { id: spec_op_param(op, 0) as u32, name: "Level"@, group: spec_operator_group(op), kind: KindSpec::Continuous { min: 0, max: 63, default: if op == 1 { 0 } else { 20 } } },
        ParamSpec { id: spec_op_param(op, 1) as u32, name: "Attack"@, group: spec_operator_group(op), kind: KindSpec::Discrete { min: 0, max: 15, default: 15, labels: None } },
        ParamSpec { id: spec_op_param(op, 2) as u32, name: "Decay"@, group: spec_operator_group(op), kind: KindSpec::Discrete { min: 0, max: 15, default: 0, labels: None } },
        ParamSpec { id: spec_op_param(op, 3) as u32, name: "Sustain"@, group: spec_operator_group(op), kind: KindSpec::Discrete { min: 0, max: 15, default: 0, labels: None } },
        ParamSpec { id: spec_op_param(op, 4) as u32, name: "Release"@, group: spec_operator_group(op), kind: KindSpec::Discrete { min: 0, max: 15, default: 7, labels: None } },
        ParamSpec { id: spec_op_param(op, 5) as u32, name: "Multiply"@, group: spec_operator_group(op), kind: KindSpec::Discrete { min: 0, max: 15, default: 1, labels: None } },
        ParamSpec { id: spec_op_param(op, 6) as u32, name: "Key Scale"@, group: spec_operator_group(op), kind: KindSpec::Discrete { min: 0, max: 3, default: 0, labels: None } },
    ]
}

fn ym3812_operator_param_info(op: u32) -> (r: Vec<ParamInfo>)
    requires
        op < 2,
    ensures
        params_view(r@) == ym3812_operator_params(op),
{
    let group = operator_group(op);
    let mut r: Vec<ParamInfo> = Vec::new();
    r.push(ParamInfo::continuous(op_param(op, 0), "Level", group, 0, 63, if op == 1 { 0 } else { 20 }));
    r.push(ParamInfo::discrete(op_param(op, 1), "Attack", group, 0, 15, 15, None));
    r.push(ParamInfo::discrete(op_param(op, 2), "Decay", group, 0, 15, 0, None));
    r.push(ParamInfo::discrete(op_param(op, 3), "Sustain", group, 0, 15, 0, None));
    r.push(ParamInfo::discrete(op_param(op, 4), "Release", group, 0, 15, 7, None));
    r.push(ParamInfo::discrete(op_param(op, 5), "Multiply", group, 0, 15, 1, None));
    r.push(ParamInfo::discrete(op_param(op, 6), "Key Scale", group, 0, 3, 0, None));
    assert(params_view(r@) =~= ym3812_operator_params(op));
    r
}

/// The adjustable parameters of the YM3812: id, name, group and range.
pub fn ym3812_param_info() -> (r: Vec<ParamInfo>)
    ensures
        params_view(r@) == ym3812_params(),
{
    let mut r: Vec<ParamInfo> = Vec::new();
    let names8: [&str; 2] = ["FM", "Additive"];
    assert(names8@ == seq!["FM", "Additive"]);
    let labels8 = label_list(&names8);
    assert(strings_view(labels8@) =~= seq!["FM"@, "Additive"@]);
    r.push(ParamInfo::discrete(0, "Connection", "Global", 0, 1, 0, Some(labels8)));
    r.push(ParamInfo::discrete(1, "Feedback", "Global", 0, 7, 0, None));
    let mut ops0 = ym3812_operator_param_info(0);
    r.append(&mut ops0);
    let mut ops1 = ym3812_operator_param_info(1);
    r.append(&mut ops1);
    assert(params_view(r@) =~= ym3812_params());
    r
}

/// The chip-wide parameters of the table.
pub open spec fn ym3812_global_params() -> Seq<ParamSpec> {
    seq![
        ParamSpec { id: 0, name: "Connection"@, group: "Global"@, kind: KindSpec::Discrete { min: 0, max: 1, default: 0, labels: Some(seq!["FM"@, "Additive"@]) } },
        ParamSpec { id: 1, name: "Feedback"@, group: "Global"@, kind: KindSpec::Discrete { min: 0, max: 7, default: 0, labels: None } },
    ]
}

proof fn lemma_ym3812_operator_params_sound(op: u32)
    requires
        op < 2,
    ensures
        params_sound(ym3812_operator_params(op)),
        param_ids_within(ym3812_operator_params(op), 100 + op * 100, 200 + op * 100),
{
}

pub proof fn lemma_ym3812_params_sound()
    ensures
        params_sound(ym3812_params()),
{
    assert(params_sound(ym3812_global_params()));
    assert(param_ids_within(ym3812_global_params(), 0, 100));
    lemma_ym3812_operator_params_sound(0);
    lemma_params_concat(ym3812_global_params(), ym3812_operator_params(0), 100);
    assert(param_ids_within(ym3812_global_params() + ym3812_operator_params(0), 0, 200));
    lemma_ym3812_operator_params_sound(1);
    lemma_params_concat(ym3812_global_params() + ym3812_operator_params(0), ym3812_operator_params(1), 200);
    assert(param_ids_within(ym3812_global_params() + ym3812_operator_params(0) + ym3812_operator_params(1), 0, 300));
}

} // verus!

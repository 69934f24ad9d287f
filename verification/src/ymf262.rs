//! Register programming of the YMF262 (OPL3): the two-operator patch
//! shadow state, parameter ids, and the register writes that patch
//! changes, key-ons and key-offs make. Channels 0-8 are on port 0 and
//! channels 9-17 on port 1. The chip itself is driven by the caller.

use vstd::prelude::*;
use crate::chip::{KindSpec, ParamInfo, ParamSpec, ParamValue, label_list, lemma_params_concat, operator_group, param_ids_within, params_sound, params_view, spec_operator_group, strings_view};
use crate::fm::{RegWrite, cap, min_u8, op_param, spec_op_param, split_op_param, w};
use crate::ym3812::{opl2_op_offsets, opl_base};

verus! {

/// Settings of one OPL3 operator.
#[derive(Debug, Clone, Copy, PartialEq, Eq, Structural)]
pub struct Opl3Op {
    pub tl: u8,
    pub ar: u8,
    pub dr: u8,
    pub sl: u8,
    pub rr: u8,
    pub mul: u8,
}

/// The patch shared by all channels, and the note each channel plays.
#[derive(Debug, Clone, Copy)]
pub struct Ymf262Regs {
    /// 0 FM, 1 additive.
    pub algorithm: u8,
    pub feedback: u8,
    pub ops: [Opl3Op; 2],
    pub active_notes: [Option<u8>; 18],
}

/// The port of channel `ch` and its number on that port.
pub open spec fn port_of(ch: u8) -> (u8, u8) {
    if ch < 9 {
        (0, ch)
    } else {
        (1, (ch - 9) as u8)
    }
}

/// The four writes that load operator `o` at offset `off` of `port`.
pub open spec fn opl3_op_writes(o: Opl3Op, port: u8, off: int) -> Seq<RegWrite> {
    seq![
        w(port, 0x20 + off, (o.mul & 0x0F) as int),
        w(port, 0x40 + off, (o.tl & 0x3F) as int),
        w(port, 0x60 + off, ((o.ar << 4u8) | (o.dr & 0x0F)) as int),
        w(port, 0x80 + off, ((o.sl << 4u8) | (o.rr & 0x0F)) as int),
    ]
}

/// The writes that load the patch into channel `ch`, with both outputs on.
pub open spec fn patch_writes(r: Ymf262Regs, ch: u8) -> Seq<RegWrite> {
    let (port, local) = port_of(ch);
    opl3_op_writes(r.ops@[0], port, opl_base(local)) + opl3_op_writes(
        r.ops@[1],
        port,
        opl_base(local) + 3,
    ) + seq![w(port, 0xC0 + local, (0x30u8 | (r.feedback << 1u8) | r.algorithm) as int)]
}

/// The write that switches the chip to OPL3 mode.
pub open spec fn opl3_mode_write() -> RegWrite {
    w(1, 0x05, 0x01)
}

/// Operator `o` with parameter `off` set from `v`, within its range.
pub open spec fn opl3_op_set(o: Opl3Op, off: int, v: u8) -> Opl3Op {
    if off == 0 {
        Opl3Op { tl: cap(v, 63), ..o }
    } else if off == 1 {
        Opl3Op { ar: cap(v, 15), ..o }
    } else if off == 2 {
        Opl3Op { dr: cap(v, 15), ..o }
    } else if off == 3 {
        Opl3Op { sl: cap(v, 15), ..o }
    } else if off == 4 {
        Opl3Op { rr: cap(v, 15), ..o }
    } else {
        Opl3Op { mul: cap(v, 15), ..o }
    }
}

/// Parameter `off` of an operator.
pub open spec fn opl3_op_get(o: Opl3Op, off: int) -> u8 {
    if off == 0 {
        o.tl
    } else if off == 1 {
        o.ar
    } else if off == 2 {
        o.dr
    } else if off == 3 {
        o.sl
    } else if off == 4 {
        o.rr
    } else {
        o.mul
    }
}

/// The largest value operator parameter `off` takes.
pub open spec fn opl3_op_limit(off: int) -> u8 {
    if off == 0 {
        63
    } else if off == 1 {
        15
    } else if off == 2 {
        15
    } else if off == 3 {
        15
    } else if off == 4 {
        15
    } else {
        15
    }
}

/// The value a parameter reads back as (the four-operator switch and
/// unknown ids as 0).
pub open spec fn spec_get_param(r: Ymf262Regs, id: u32) -> u8 {
    if id == 0 {
        r.algorithm
    } else if id == 1 {
        r.feedback
    } else {
        match split_op_param(id, 300) {
            Some((op, off)) => if op < 2 && off < 6 {
                opl3_op_get(r.ops@[op], off)
            } else {
                0
            },
            None => 0,
        }
    }
}

fn push_op(v: &mut Vec<RegWrite>, o: Opl3Op, port: u8, off: u8)
    requires
        off <= 21,
    ensures
        final(v)@ == old(v)@ + opl3_op_writes(o, port, off as int),
{
    v.push(RegWrite { port, addr: 0x20 + off, data: o.mul & 0x0F });
    v.push(RegWrite { port, addr: 0x40 + off, data: o.tl & 0x3F });
    v.push(RegWrite { port, addr: 0x60 + off, data: (o.ar << 4u8) | (o.dr & 0x0F) });
    v.push(RegWrite { port, addr: 0x80 + off, data: (o.sl << 4u8) | (o.rr & 0x0F) });
    assert(final(v)@ =~= old(v)@ + opl3_op_writes(o, port, off as int));
}

impl Ymf262Regs {
    /// The default patch: levels 20 and 0, attack 15, release 7, multiple 1.
    pub fn new() -> (r: Self)
        ensures
            r.algorithm == 0 && r.feedback == 0,
            r.ops@ == seq![
                Opl3Op { tl: 20, ar: 15, dr: 0, sl: 0, rr: 7, mul: 1 },
                Opl3Op { tl: 0, ar: 15, dr: 0, sl: 0, rr: 7, mul: 1 },
            ],
            forall|i: int| 0 <= i < 18 ==> r.active_notes@[i] is None,
    {
        let modulator = Opl3Op { tl: 20, ar: 15, dr: 0, sl: 0, rr: 7, mul: 1 };
        let carrier = Opl3Op { tl: 0, ..modulator };
        let r = Ymf262Regs {
            algorithm: 0,
            feedback: 0,
            ops: [modulator, carrier],
            active_notes: [
                None,
                None,
                None,
                None,
                None,
                None,
                None,
                None,
                None,
                None,
                None,
                None,
                None,
                None,
                None,
                None,
                None,
                None,
            ],
        };
        assert(r.ops@ =~= seq![modulator, carrier]);
        r
    }

    /// The writes that load the patch into channel `ch` (0-17).
    pub fn patch_writes(&self, ch: u8) -> (r: Vec<RegWrite>)
        requires
            ch < 18,
        ensures
            r@ == patch_writes(*self, ch),
    {
        let port: u8 = if ch < 9 {
            0
        } else {
            1
        };
        let local: u8 = if ch < 9 {
            ch
        } else {
            ch - 9
        };
        let offs = opl2_op_offsets(local);
        let mut v: Vec<RegWrite> = Vec::new();
        push_op(&mut v, self.ops[0], port, offs[0]);
        push_op(&mut v, self.ops[1], port, offs[1]);
        v.push(
            RegWrite {
                port,
                addr: 0xC0 + local,
                data: 0x30 | (self.feedback << 1u8) | self.algorithm,
            },
        );
        assert(v@ =~= patch_writes(*self, ch));
        v
    }

    /// The writes that start the chip: OPL3 mode, then the patch into
    /// channel 0.
    pub fn init_writes(&self) -> (r: Vec<RegWrite>)
        ensures
            r@ == seq![opl3_mode_write()] + patch_writes(*self, 0),
    {
        let mut v: Vec<RegWrite> = Vec::new();
        v.push(RegWrite { port: 1, addr: 0x05, data: 0x01 });
        let mut p = self.patch_writes(0);
        v.append(&mut p);
        v
    }

    /// Sets a parameter from its integer value; a change
    /// reloads the patch into channel 0. The four-operator switch does
    /// nothing.
    pub fn set_param(&mut self, param_id: u32, value: ParamValue) -> (r: Vec<RegWrite>)
        ensures
            param_id == 0 ==> *final(self) == (Ymf262Regs { algorithm: cap(value.byte, 1), ..*old(self) })
                && r@ == patch_writes(*final(self), 0),
            param_id == 1 ==> *final(self) == (Ymf262Regs { feedback: cap(value.byte, 7), ..*old(self) })
                && r@ == patch_writes(*final(self), 0),
            param_id > 1 ==> match split_op_param(param_id, 300) {
                Some((op, off)) if op < 2 && off < 6 => {
                    &&& final(self).algorithm == old(self).algorithm
                    &&& final(self).feedback == old(self).feedback
                    &&& final(self).active_notes == old(self).active_notes
                    &&& final(self).ops@ == old(self).ops@.update(
                        op,
                        opl3_op_set(old(self).ops@[op], off, value.byte),
                    )
                    &&& r@ == patch_writes(*final(self), 0)
                },
                _ => *final(self) == *old(self) && r@ == Seq::<RegWrite>::empty(),
            },
            spec_get_param(*final(self), param_id) == if param_id == 0 {
                cap(value.byte, 1)
            } else if param_id == 1 {
                cap(value.byte, 7)
            } else {
                match split_op_param(param_id, 300) {
                    Some((op, off)) => if op < 2 && off < 6 {
                        cap(value.byte, opl3_op_limit(off))
                    } else {
                        0
                    },
                    None => 0,
                }
            },
    {
        if param_id == 0 {
            self.algorithm = min_u8(value.byte, 1);
            self.patch_writes(0)
        } else if param_id == 1 {
            self.feedback = min_u8(value.byte, 7);
            self.patch_writes(0)
        } else if 100 <= param_id && param_id < 300 {
            let op = ((param_id - 100) / 100) as usize;
            let off = (param_id - 100) % 100;
            if op < 2 && off < 6 {
                let mut o = self.ops[op];
                if off == 0 {
                    o.tl = min_u8(value.byte, 63);
                } else if off == 1 {
                    o.ar = min_u8(value.byte, 15);
                } else if off == 2 {
                    o.dr = min_u8(value.byte, 15);
                } else if off == 3 {
                    o.sl = min_u8(value.byte, 15);
                } else if off == 4 {
                    o.rr = min_u8(value.byte, 15);
                } else {
                    o.mul = min_u8(value.byte, 15);
                }
                self.ops[op] = o;
                assert(self.ops@ =~= old(self).ops@.update(op as int, o));
                self.patch_writes(0)
            } else {
                Vec::new()
            }
        } else {
            Vec::new()
        }
    }

    /// The value of a parameter as an integer.
    pub fn get_param(&self, param_id: u32) -> (r: u8)
        ensures
            r == spec_get_param(*self, param_id),
    {
        if param_id == 0 {
            self.algorithm
        } else if param_id == 1 {
            self.feedback
        } else if 100 <= param_id && param_id < 300 {
            let op = ((param_id - 100) / 100) as usize;
            let off = (param_id - 100) % 100;
            if op < 2 && off < 6 {
                let o = self.ops[op];
                if off == 0 {
                    o.tl
                } else if off == 1 {
                    o.ar
                } else if off == 2 {
                    o.dr
                } else if off == 3 {
                    o.sl
                } else if off == 4 {
                    o.rr
                } else {
                    o.mul
                }
            } else {
                0
            }
        } else {
            0
        }
    }

    /// Keys channel `voice` on at F-number `fnum` and block `block`: the
    /// patch is loaded into the channel, then the frequency is written with
    /// the key bit set. Voices past 17 are ignored.
    pub fn voice_on(&mut self, voice: usize, note: u8, fnum: u16, block: u8) -> (r: Vec<RegWrite>)
        ensures
            voice >= 18 ==> *final(self) == *old(self) && r@ == Seq::<RegWrite>::empty(),
            voice < 18 ==> {
                let (port, local) = port_of(voice as u8);
                &&& final(self).algorithm == old(self).algorithm
                &&& final(self).feedback == old(self).feedback
                &&& final(self).ops == old(self).ops
                &&& final(self).active_notes@ == old(self).active_notes@.update(
                    voice as int,
                    Some(note),
                )
                &&& r@ == patch_writes(*old(self), voice as u8) + seq![
                    w(port, 0xA0 + local, (fnum & 0xFF) as int),
                    w(
                        port,
                        0xB0 + local,
                        (0x20u8 | ((block & 0x07) << 2u8) | (((fnum >> 8u16) as u8) & 0x03)) as int,
                    ),
                ]
            },
    {
        if voice >= 18 {
            return Vec::new();
        }
        let ch = voice as u8;
        let port: u8 = if ch < 9 {
            0
        } else {
            1
        };
        let local: u8 = if ch < 9 {
            ch
        } else {
            ch - 9
        };
        let mut v = self.patch_writes(ch);
        v.push(RegWrite { port, addr: 0xA0 + local, data: (fnum & 0xFF) as u8 });
        v.push(
            RegWrite {
                port,
                addr: 0xB0 + local,
                data: 0x20 | ((block & 0x07) << 2u8) | (((fnum >> 8u16) as u8) & 0x03),
            },
        );
        self.active_notes[voice] = Some(note);
        v
    }

    /// Keys channel `voice` off by clearing its $B0 register (voices past 17
    /// are ignored).
    pub fn voice_off(&mut self, voice: usize) -> (r: Vec<RegWrite>)
        ensures
            voice >= 18 ==> *final(self) == *old(self) && r@ == Seq::<RegWrite>::empty(),
            voice < 18 ==> {
                let (port, local) = port_of(voice as u8);
                &&& final(self).algorithm == old(self).algorithm
                &&& final(self).feedback == old(self).feedback
                &&& final(self).ops == old(self).ops
                &&& final(self).active_notes@ == old(self).active_notes@.update(voice as int, None)
                &&& r@ == seq![w(port, 0xB0 + local, 0)]
            },
    {
        let mut v: Vec<RegWrite> = Vec::new();
        if voice >= 18 {
            return v;
        }
        let ch = voice as u8;
        let port: u8 = if ch < 9 {
            0
        } else {
            1
        };
        let local: u8 = if ch < 9 {
            ch
        } else {
            ch - 9
        };
        v.push(RegWrite { port, addr: 0xB0 + local, data: 0 });
        self.active_notes[voice] = None;
        v
    }

    /// Forgets every note, switches OPL3 mode on again and reloads the patch
    /// into channel 0.
    pub fn reset(&mut self) -> (r: Vec<RegWrite>)
        ensures
            final(self).algorithm == old(self).algorithm,
            final(self).feedback == old(self).feedback,
            final(self).ops == old(self).ops,
            forall|i: int| 0 <= i < 18 ==> final(self).active_notes@[i] is None,
            r@ == seq![opl3_mode_write()] + patch_writes(*old(self), 0),
    {
        self.active_notes = [
            None,
            None,
            None,
            None,
            None,
            None,
            None,
            None,
            None,
            None,
            None,
            None,
            None,
            None,
            None,
            None,
            None,
            None,
        ];
        self.init_writes()
    }
}

/// The adjustable parameters of the YMF262, in display order.
pub open spec fn ymf262_params() -> Seq<ParamSpec> {
    ymf262_global_params() + ymf262_operator_params(0) + ymf262_operator_params(1)
}

/// The parameters of operator `op` (counted from 0) of the YMF262.
pub open spec fn ymf262_operator_params(op: u32) -> Seq<ParamSpec> {
    seq![
        ParamSpec { id: spec_op_param(op, 0) as u32, name: "Level"@, group: spec_operator_group(op), kind: KindSpec::Continuous { min: 0, max: 63, default: if op == 1 { 0 } else { 20 } } },
        ParamSpec { id: spec_op_param(op, 1) as u32, name: "Attack"@, group: spec_operator_group(op), kind: KindSpec::Discrete { min: 0, max: 15, default: 15, labels: None } },
        ParamSpec { id: spec_op_param(op, 2) as u32, name: "Decay"@, group: spec_operator_group(op), kind: KindSpec::Discrete { min: 0, max: 15, default: 0, labels: None } },
        ParamSpec { id: spec_op_param(op, 3) as u32, name: "Sustain"@, group: spec_operator_group(op), kind: KindSpec::Discrete { min: 0, max: 15, default: 0, labels: None } },
        ParamSpec { id: spec_op_param(op, 4) as u32, name: "Release"@, group: spec_operator_group(op), kind: KindSpec::Discrete { min: 0, max: 15, default: 7, labels: None } },
        ParamSpec { id: spec_op_param(op, 5) as u32, name: "Multiply"@, group: spec_operator_group(op), kind: KindSpec::Discrete { min: 0, max: 15, default: 1, labels: None } },
    ]
}

fn ymf262_operator_param_info(op: u32) -> (r: Vec<ParamInfo>)
    requires
        op < 2,
    ensures
        params_view(r@) == ymf262_operator_params(op),
{
    let group = operator_group(op);
    let mut r: Vec<ParamInfo> = Vec::new();
    r.push(ParamInfo::continuous(op_param(op, 0), "Level", group, 0, 63, if op == 1 { 0 } else { 20 }));
    r.push(ParamInfo::discrete(op_param(op, 1), "Attack", group, 0, 15, 15, None));
    r.push(ParamInfo::discrete(op_param(op, 2), "Decay", group, 0, 15, 0, None));
    r.push(ParamInfo::discrete(op_param(op, 3), "Sustain", group, 0, 15, 0, None));
    r.push(ParamInfo::discrete(op_param(op, 4), "Release", group, 0, 15, 7, None));
    r.push(ParamInfo::discrete(op_param(op, 5), "Multiply", group, 0, 15, 1, None));
    assert(params_view(r@) =~= ymf262_operator_params(op));
    r
}

/// The adjustable parameters of the YMF262: id, name, group and range.
pub fn ymf262_param_info() -> (r: Vec<ParamInfo>)
    ensures
        params_view(r@) == ymf262_params(),
{
    let mut r: Vec<ParamInfo> = Vec::new();
    let names9: [&str; 2] = ["FM", "Additive"];
    assert(names9@ == seq!["FM", "Additive"]);
    let labels9 = label_list(&names9);
    assert(strings_view(labels9@) =~= seq!["FM"@, "Additive"@]);
    r.push(ParamInfo::discrete(0, "Connection", "Global", 0, 1, 0, Some(labels9)));
    r.push(ParamInfo::discrete(1, "Feedback", "Global", 0, 7, 0, None));
    r.push(ParamInfo::toggle(2, "4-Op Mode", "Global", false));
    let mut ops0 = ymf262_operator_param_info(0);
    r.append(&mut ops0);
    let mut ops1 = ymf262_operator_param_info(1);
    r.append(&mut ops1);
    assert(params_view(r@) =~= ymf262_params());
    r
}

/// The chip-wide parameters of the table.
pub open spec fn ymf262_global_params() -> Seq<ParamSpec> {
    seq![
        ParamSpec { id: 0, name: "Connection"@, group: "Global"@, kind: KindSpec::Discrete { min: 0, max: 1, default: 0, labels: Some(seq!["FM"@, "Additive"@]) } },
        ParamSpec { id: 1, name: "Feedback"@, group: "Global"@, kind: KindSpec::Discrete { min: 0, max: 7, default: 0, labels: None } },
        ParamSpec { id: 2, name: "4-Op Mode"@, group: "Global"@, kind: KindSpec::Toggle { default: false } },
    ]
}

proof fn lemma_ymf262_operator_params_sound(op: u32)
    requires
        op < 2,
    ensures
        params_sound(ymf262_operator_params(op)),
        param_ids_within(ymf262_operator_params(op), 100 + op * 100, 200 + op * 100),
{
}

pub proof fn lemma_ymf262_params_sound()
    ensures
        params_sound(ymf262_params()),
{
    assert(params_sound(ymf262_global_params()));
    assert(param_ids_within(ymf262_global_params(), 0, 100));
    lemma_ymf262_operator_params_sound(0);
    lemma_params_concat(ymf262_global_params(), ymf262_operator_params(0), 100);
    assert(param_ids_within(ymf262_global_params() + ymf262_operator_params(0), 0, 200));
    lemma_ymf262_operator_params_sound(1);
    lemma_params_concat(ymf262_global_params() + ymf262_operator_params(0), ymf262_operator_params(1), 200);
    assert(param_ids_within(ymf262_global_params() + ymf262_operator_params(0) + ymf262_operator_params(1), 0, 300));
}

} // verus!

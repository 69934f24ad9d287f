//! Register programming of the YM2612 (OPN2): the patch shadow state,
//! parameter ids, and the register writes that patch changes, key-ons and
//! key-offs make. The chip itself is driven by the caller.
//!
//! Channels 0-2 are on port 0 and channels 3-5 on port 1. Operators 1-4
//! of a channel sit at register offsets 0, 8, 4 and 12.

use vstd::prelude::*;
use crate::chip::{KindSpec, ParamInfo, ParamSpec, ParamValue, lemma_params_concat, operator_group, param_ids_within, params_sound, params_view, spec_operator_group};
use crate::fm::{RegWrite, cap, min_u8, op_param, spec_op_param, split_op_param, w};

verus! {

/// Settings of one FM operator.
#[derive(Debug, Clone, Copy, PartialEq, Eq, Structural)]
pub struct OpnOp {
    pub tl: u8,
    pub ar: u8,
    pub d1r: u8,
    pub d2r: u8,
    pub sl: u8,
    pub rr: u8,
    pub mul: u8,
    pub dt: u8,
}

/// The patch shared by all channels, and the note each channel plays.
#[derive(Debug, Clone, Copy)]
pub struct Ym2612Regs {
    pub algorithm: u8,
    pub feedback: u8,
    pub lfo_enable: bool,
    pub lfo_rate: u8,
    pub ops: [OpnOp; 4],
    pub active_notes: [Option<u8>; 6],
}

/// Register offset of operator `op` (0-3) within a channel.
pub open spec fn opn_offset(op: int) -> int {
    if op == 0 {
        0
    } else if op == 1 {
        8
    } else if op == 2 {
        4
    } else {
        12
    }
}

/// The six writes that load operator `o` at register offset `ro`.
pub open spec fn opn_op_writes(o: OpnOp, port: u8, ro: int) -> Seq<RegWrite> {
    seq![
        w(port, 0x30 + ro, ((o.dt << 4u8) | o.mul) as int),
        w(port, 0x40 + ro, o.tl as int),
        w(port, 0x50 + ro, o.ar as int),
        w(port, 0x60 + ro, o.d1r as int),
        w(port, 0x70 + ro, o.d2r as int),
        w(port, 0x80 + ro, ((o.sl << 4u8) | o.rr) as int),
    ]
}

/// The writes that load all four operators into channel `base` of `port`.
pub open spec fn opn_all_ops(r: Ym2612Regs, port: u8, base: int) -> Seq<RegWrite> {
    opn_op_writes(r.ops@[0], port, base) + opn_op_writes(r.ops@[1], port, base + 8)
        + opn_op_writes(r.ops@[2], port, base + 4) + opn_op_writes(r.ops@[3], port, base + 12)
}

/// Feedback and algorithm as register $B0 holds them.
pub open spec fn fb_alg(r: Ym2612Regs) -> int {
    ((r.feedback << 3u8) | r.algorithm) as int
}

/// Key-off of every channel.
pub open spec fn all_keys_off() -> Seq<RegWrite> {
    seq![w(0, 0x28, 0), w(0, 0x28, 1), w(0, 0x28, 2), w(0, 0x28, 4), w(0, 0x28, 5), w(0, 0x28, 6)]
}

/// The default patch loaded into channel 0, then every channel keyed off.
pub open spec fn init_writes(r: Ym2612Regs) -> Seq<RegWrite> {
    seq![w(0, 0xB0, fb_alg(r)), w(0, 0xB4, 0xC0)] + opn_all_ops(r, 0, 0) + all_keys_off()
}

/// Operator `o` with parameter `off` set from `v`, within its range.
pub open spec fn opn_op_set(o: OpnOp, off: int, v: u8) -> OpnOp {
    if off == 0 {
        OpnOp { tl: cap(v, 127), ..o }
    } else if off == 1 {
        OpnOp { ar: cap(v, 31), ..o }
    } else if off == 2 {
        OpnOp { d1r: cap(v, 31), ..o }
    } else if off == 3 {
        OpnOp { d2r: cap(v, 31), ..o }
    } else if off == 4 {
        OpnOp { sl: cap(v, 15), ..o }
    } else if off == 5 {
        OpnOp { rr: cap(v, 15), ..o }
    } else if off == 6 {
        OpnOp { mul: cap(v, 15), ..o }
    } else {
        OpnOp { dt: cap(v, 7), ..o }
    }
}

/// Parameter `off` of an operator.
pub open spec fn opn_op_get(o: OpnOp, off: int) -> u8 {
    if off == 0 {
        o.tl
    } else if off == 1 {
        o.ar
    } else if off == 2 {
        o.d1r
    } else if off == 3 {
        o.d2r
    } else if off == 4 {
        o.sl
    } else if off == 5 {
        o.rr
    } else if off == 6 {
        o.mul
    } else {
        o.dt
    }
}

/// The write that carries parameter `off` of operator `o` at register
/// offset `ro` (channel 0).
pub open spec fn opn_param_write(o: OpnOp, off: int, ro: int) -> RegWrite {
    if off == 0 {
        w(0, 0x40 + ro, o.tl as int)
    } else if off == 1 {
        w(0, 0x50 + ro, o.ar as int)
    } else if off == 2 {
        w(0, 0x60 + ro, o.d1r as int)
    } else if off == 3 {
        w(0, 0x70 + ro, o.d2r as int)
    } else if off == 4 || off == 5 {
        w(0, 0x80 + ro, ((o.sl << 4u8) | o.rr) as int)
    } else {
        w(0, 0x30 + ro, ((o.dt << 4u8) | o.mul) as int)
    }
}

/// Whether two states differ at most in their operators.
pub open spec fn same_globals(a: Ym2612Regs, b: Ym2612Regs) -> bool {
    &&& a.algorithm == b.algorithm
    &&& a.feedback == b.feedback
    &&& a.lfo_enable == b.lfo_enable
    &&& a.lfo_rate == b.lfo_rate
    &&& a.active_notes == b.active_notes
}

/// The largest value operator parameter `off` takes.
pub open spec fn opn_op_limit(off: int) -> u8 {
    if off == 0 {
        127
    } else if off == 1 {
        31
    } else if off == 2 {
        31
    } else if off == 3 {
        31
    } else if off == 4 {
        15
    } else if off == 5 {
        15
    } else if off == 6 {
        15
    } else {
        7
    }
}

/// The value a parameter reads back as (booleans as 0 or 1, unknown ids
/// as 0).
pub open spec fn spec_get_param(r: Ym2612Regs, id: u32) -> u8 {
    if id == 0 {
        r.algorithm
    } else if id == 1 {
        r.feedback
    } else if id == 2 {
        if r.lfo_enable {
            1
        } else {
            0
        }
    } else if id == 3 {
        r.lfo_rate
    } else {
        match split_op_param(id, 500) {
            Some((op, off)) => if op < 4 && off < 8 {
                opn_op_get(r.ops@[op], off)
            } else {
                0
            },
            None => 0,
        }
    }
}

fn push_op(v: &mut Vec<RegWrite>, o: OpnOp, port: u8, ro: u8)
    requires
        ro <= 14,
    ensures
        final(v)@ == old(v)@ + opn_op_writes(o, port, ro as int),
{
    v.push(RegWrite { port, addr: 0x30 + ro, data: (o.dt << 4u8) | o.mul });
    v.push(RegWrite { port, addr: 0x40 + ro, data: o.tl });
    v.push(RegWrite { port, addr: 0x50 + ro, data: o.ar });
    v.push(RegWrite { port, addr: 0x60 + ro, data: o.d1r });
    v.push(RegWrite { port, addr: 0x70 + ro, data: o.d2r });
    v.push(RegWrite { port, addr: 0x80 + ro, data: (o.sl << 4u8) | o.rr });
    assert(final(v)@ =~= old(v)@ + opn_op_writes(o, port, ro as int));
}

impl Ym2612Regs {
    /// The default patch: operator levels 40, 40, 40, 0; attack 31,
    /// release 7, multiple 1; no channel playing.
    pub fn new() -> (r: Self)
        ensures
            r.algorithm == 0 && r.feedback == 0 && !r.lfo_enable && r.lfo_rate == 0,
            r.ops@ == seq![
                OpnOp { tl: 40, ar: 31, d1r: 0, d2r: 0, sl: 0, rr: 7, mul: 1, dt: 0 },
                OpnOp { tl: 40, ar: 31, d1r: 0, d2r: 0, sl: 0, rr: 7, mul: 1, dt: 0 },
                OpnOp { tl: 40, ar: 31, d1r: 0, d2r: 0, sl: 0, rr: 7, mul: 1, dt: 0 },
                OpnOp { tl: 0, ar: 31, d1r: 0, d2r: 0, sl: 0, rr: 7, mul: 1, dt: 0 },
            ],
            forall|i: int| 0 <= i < 6 ==> r.active_notes@[i] is None,
    {
        let op = OpnOp { tl: 40, ar: 31, d1r: 0, d2r: 0, sl: 0, rr: 7, mul: 1, dt: 0 };
        let carrier = OpnOp { tl: 0, ..op };
        let r = Ym2612Regs {
            algorithm: 0,
            feedback: 0,
            lfo_enable: false,
            lfo_rate: 0,
            ops: [op, op, op, carrier],
            active_notes: [None, None, None, None, None, None],
        };
        assert(r.ops@ =~= seq![op, op, op, carrier]);
        r
    }

    /// The writes that load the patch into channel 0 and key every channel off.
    pub fn init_writes(&self) -> (r: Vec<RegWrite>)
        ensures
            r@ == init_writes(*self),
    {
        let mut v: Vec<RegWrite> = Vec::new();
        v.push(RegWrite { port: 0, addr: 0xB0, data: (self.feedback << 3u8) | self.algorithm });
        v.push(RegWrite { port: 0, addr: 0xB4, data: 0xC0 });
        push_op(&mut v, self.ops[0], 0, 0);
        push_op(&mut v, self.ops[1], 0, 8);
        push_op(&mut v, self.ops[2], 0, 4);
        push_op(&mut v, self.ops[3], 0, 12);
        v.push(RegWrite { port: 0, addr: 0x28, data: 0 });
        v.push(RegWrite { port: 0, addr: 0x28, data: 1 });
        v.push(RegWrite { port: 0, addr: 0x28, data: 2 });
        v.push(RegWrite { port: 0, addr: 0x28, data: 4 });
        v.push(RegWrite { port: 0, addr: 0x28, data: 5 });
        v.push(RegWrite { port: 0, addr: 0x28, data: 6 });
        assert(v@ =~= init_writes(*self));
        v
    }

    /// Sets a parameter from its integer value or, for the LFO switch, from
    /// whether it is on; returns the register writes that apply it.
    pub fn set_param(&mut self, param_id: u32, value: ParamValue) -> (r: Vec<RegWrite>)
        ensures
            param_id == 0 ==> *final(self) == (Ym2612Regs { algorithm: cap(value.byte, 7), ..*old(self) })
                && r@ == seq![w(0, 0xB0, fb_alg(*final(self)))],
            param_id == 1 ==> *final(self) == (Ym2612Regs { feedback: cap(value.byte, 7), ..*old(self) })
                && r@ == seq![w(0, 0xB0, fb_alg(*final(self)))],
            param_id == 2 ==> *final(self) == (Ym2612Regs { lfo_enable: value.on, ..*old(self) })
                && r@ == seq![
                w(
                    0,
                    0x22,
                    if value.on {
                        (0x08u8 | old(self).lfo_rate) as int
                    } else {
                        0
                    },
                ),
            ],
            param_id == 3 ==> *final(self) == (Ym2612Regs { lfo_rate: cap(value.byte, 7), ..*old(self) })
                && r@ == if old(self).lfo_enable {
                seq![w(0, 0x22, (0x08u8 | cap(value.byte, 7)) as int)]
            } else {
                Seq::<RegWrite>::empty()
            },
            param_id > 3 ==> match split_op_param(param_id, 500) {
                Some((op, off)) if op < 4 && off < 8 => {
                    let o = opn_op_set(old(self).ops@[op], off, value.byte);
                    &&& same_globals(*final(self), *old(self))
                    &&& final(self).ops@ == old(self).ops@.update(op, o)
                    &&& r@ == seq![opn_param_write(o, off, opn_offset(op))]
                },
                _ => *final(self) == *old(self) && r@ == Seq::<RegWrite>::empty(),
            },
            spec_get_param(*final(self), param_id) == if param_id == 0 || param_id == 1 || param_id == 3 {
                cap(value.byte, 7)
            } else if param_id == 2 {
                if value.on {
                    1u8
                } else {
                    0u8
                }
            } else {
                match split_op_param(param_id, 500) {
                    Some((op, off)) => if op < 4 && off < 8 {
                        cap(value.byte, opn_op_limit(off))
                    } else {
                        0
                    },
                    None => 0,
                }
            },
    {
        let mut v: Vec<RegWrite> = Vec::new();
        if param_id == 0 {
            self.algorithm = min_u8(value.byte, 7);
            v.push(RegWrite { port: 0, addr: 0xB0, data: (self.feedback << 3u8) | self.algorithm });
        } else if param_id == 1 {
            self.feedback = min_u8(value.byte, 7);
            v.push(RegWrite { port: 0, addr: 0xB0, data: (self.feedback << 3u8) | self.algorithm });
        } else if param_id == 2 {
            self.lfo_enable = value.on;
            let data: u8 = if value.on {
                0x08 | self.lfo_rate
            } else {
                0
            };
            v.push(RegWrite { port: 0, addr: 0x22, data });
        } else if param_id == 3 {
            self.lfo_rate = min_u8(value.byte, 7);
            if self.lfo_enable {
                v.push(RegWrite { port: 0, addr: 0x22, data: 0x08 | self.lfo_rate });
            }
        } else if 100 <= param_id && param_id < 500 {
            let op = ((param_id - 100) / 100) as usize;
            let off = (param_id - 100) % 100;
            if op < 4 && off < 8 {
                let mut o = self.ops[op];
                if off == 0 {
                    o.tl = min_u8(value.byte, 127);
                } else if off == 1 {
                    o.ar = min_u8(value.byte, 31);
                } else if off == 2 {
                    o.d1r = min_u8(value.byte, 31);
                } else if off == 3 {
                    o.d2r = min_u8(value.byte, 31);
                } else if off == 4 {
                    o.sl = min_u8(value.byte, 15);
                } else if off == 5 {
                    o.rr = min_u8(value.byte, 15);
                } else if off == 6 {
                    o.mul = min_u8(value.byte, 15);
                } else {
                    o.dt = min_u8(value.byte, 7);
                }
                self.ops[op] = o;
                let ro: u8 = if op == 0 {
                    0
                } else if op == 1 {
                    8
                } else if op == 2 {
                    4
                } else {
                    12
                };
                let wr = if off == 0 {
                    RegWrite { port: 0, addr: 0x40 + ro, data: o.tl }
                } else if off == 1 {
                    RegWrite { port: 0, addr: 0x50 + ro, data: o.ar }
                } else if off == 2 {
                    RegWrite { port: 0, addr: 0x60 + ro, data: o.d1r }
                } else if off == 3 {
                    RegWrite { port: 0, addr: 0x70 + ro, data: o.d2r }
                } else if off == 4 || off == 5 {
                    RegWrite { port: 0, addr: 0x80 + ro, data: (o.sl << 4u8) | o.rr }
                } else {
                    RegWrite { port: 0, addr: 0x30 + ro, data: (o.dt << 4u8) | o.mul }
                };
                v.push(wr);
                assert(self.ops@ =~= old(self).ops@.update(op as int, o));
            }
        }
        assert(v@ =~= v@);
        v
    }

    /// The value of a parameter as an integer.
    pub fn get_param(&self, param_id: u32) -> (r: u8)
        ensures
            r == spec_get_param(*self, param_id),
    {
        if param_id == 0 {
            self.algorithm
        } else if param_id == 1 {
            self.feedback
        } else if param_id == 2 {
            if self.lfo_enable {
                1
            } else {
                0
            }
        } else if param_id == 3 {
            self.lfo_rate
        } else if 100 <= param_id && param_id < 500 {
            let op = ((param_id - 100) / 100) as usize;
            let off = (param_id - 100) % 100;
            if op < 4 && off < 8 {
                let o = self.ops[op];
                if off == 0 {
                    o.tl
                } else if off == 1 {
                    o.ar
                } else if off == 2 {
                    o.d1r
                } else if off == 3 {
                    o.d2r
                } else if off == 4 {
                    o.sl
                } else if off == 5 {
                    o.rr
                } else if off == 6 {
                    o.mul
                } else {
                    o.dt
                }
            } else {
                0
            }
        } else {
            0
        }
    }

    /// Keys channel `voice` on at F-number `fnum` and block `block`: the
    /// patch is loaded into the channel, the carrier's level is limited by
    /// the velocity, and all four operators are keyed. Voices past 5 are
    /// ignored.
    pub fn voice_on(&mut self, voice: usize, note: u8, velocity: u8, fnum: u16, block: u8) -> (r:
        Vec<RegWrite>)
        requires
            velocity <= 127,
            fnum <= 2047,
            block <= 7,
        ensures
            voice >= 6 ==> *final(self) == *old(self) && r@ == Seq::<RegWrite>::empty(),
            voice < 6 ==> {
                let port: u8 = if voice < 3 {
                    0
                } else {
                    1
                };
                let base: int = if voice < 3 {
                    voice as int
                } else {
                    voice - 3
                };
                let o = *old(self);
                &&& same_globals_but_notes(*final(self), o)
                &&& final(self).ops == o.ops
                &&& final(self).active_notes@ == o.active_notes@.update(voice as int, Some(note))
                &&& r@ == seq![
                    w(port, 0xA4 + base, ((block << 3u8) | ((fnum >> 8u16) as u8)) as int),
                    w(port, 0xA0 + base, (fnum & 0xFF) as int),
                ] + opn_all_ops(o, port, base) + seq![
                    w(port, 0xB0 + base, fb_alg(o)),
                    w(port, 0xB4 + base, 0xC0),
                    w(port, 0x40 + base + 12, cap((127 - velocity) as u8, o.ops@[3].tl) as int),
                    w(0, 0x28, (0xF0u8 | (voice as u8)) as int),
                ]
            },
    {
        let mut v: Vec<RegWrite> = Vec::new();
        if voice >= 6 {
            return v;
        }
        let port: u8 = if voice < 3 {
            0
        } else {
            1
        };
        let base: u8 = if voice < 3 {
            voice as u8
        } else {
            (voice - 3) as u8
        };
        v.push(RegWrite { port, addr: 0xA4 + base, data: (block << 3u8) | ((fnum >> 8u16) as u8) });
        v.push(RegWrite { port, addr: 0xA0 + base, data: (fnum & 0xFF) as u8 });
        push_op(&mut v, self.ops[0], port, base);
        push_op(&mut v, self.ops[1], port, base + 8);
        push_op(&mut v, self.ops[2], port, base + 4);
        push_op(&mut v, self.ops[3], port, base + 12);
        v.push(RegWrite { port, addr: 0xB0 + base, data: (self.feedback << 3u8) | self.algorithm });
        v.push(RegWrite { port, addr: 0xB4 + base, data: 0xC0 });
        let velocity_tl: u8 = 127 - velocity;
        v.push(RegWrite { port, addr: 0x40 + base + 12, data: min_u8(velocity_tl, self.ops[3].tl) });
        v.push(RegWrite { port: 0, addr: 0x28, data: 0xF0 | (voice as u8) });
        self.active_notes[voice] = Some(note);
        assert(v@ =~= seq![
            w(port, 0xA4 + base, ((block << 3u8) | ((fnum >> 8u16) as u8)) as int),
            w(port, 0xA0 + base, (fnum & 0xFF) as int),
        ] + opn_all_ops(*old(self), port, base as int) + seq![
            w(port, 0xB0 + base, fb_alg(*old(self))),
            w(port, 0xB4 + base, 0xC0),
            w(port, 0x40 + base + 12, cap((127 - velocity) as u8, old(self).ops@[3].tl) as int),
            w(0, 0x28, (0xF0u8 | (voice as u8)) as int),
        ]);
        v
    }

    /// Keys channel `voice` off (voices past 5 are ignored).
    pub fn voice_off(&mut self, voice: usize) -> (r: Vec<RegWrite>)
        ensures
            voice >= 6 ==> *final(self) == *old(self) && r@ == Seq::<RegWrite>::empty(),
            voice < 6 ==> {
                &&& same_globals_but_notes(*final(self), *old(self))
                &&& final(self).ops == old(self).ops
                &&& final(self).active_notes@ == old(self).active_notes@.update(voice as int, None)
                &&& r@ == seq![w(0, 0x28, voice as int)]
            },
    {
        let mut v: Vec<RegWrite> = Vec::new();
        if voice >= 6 {
            return v;
        }
        v.push(RegWrite { port: 0, addr: 0x28, data: voice as u8 });
        self.active_notes[voice] = None;
        assert(v@ =~= seq![w(0, 0x28, voice as int)]);
        v
    }

    /// Forgets every note and reloads the patch; every channel ends keyed off.
    pub fn reset(&mut self) -> (r: Vec<RegWrite>)
        ensures
            same_globals_but_notes(*final(self), *old(self)),
            final(self).ops == old(self).ops,
            forall|i: int| 0 <= i < 6 ==> final(self).active_notes@[i] is None,
            r@ == init_writes(*old(self)) + all_keys_off(),
    {
        self.active_notes = [None, None, None, None, None, None];
        let mut v = self.init_writes();
        v.push(RegWrite { port: 0, addr: 0x28, data: 0 });
        v.push(RegWrite { port: 0, addr: 0x28, data: 1 });
        v.push(RegWrite { port: 0, addr: 0x28, data: 2 });
        v.push(RegWrite { port: 0, addr: 0x28, data: 4 });
        v.push(RegWrite { port: 0, addr: 0x28, data: 5 });
        v.push(RegWrite { port: 0, addr: 0x28, data: 6 });
        assert(v@ =~= init_writes(*old(self)) + all_keys_off());
        v
    }
}

/// Whether two states share their global settings.
pub open spec fn same_globals_but_notes(a: Ym2612Regs, b: Ym2612Regs) -> bool {
    &&& a.algorithm == b.algorithm
    &&& a.feedback == b.feedback
    &&& a.lfo_enable == b.lfo_enable
    &&& a.lfo_rate == b.lfo_rate
}

/// The adjustable parameters of the YM2612, in display order.
pub open spec fn ym2612_params() -> Seq<ParamSpec> {
    ym2612_global_params() + ym2612_operator_params(0) + ym2612_operator_params(1) + ym2612_operator_params(2) + ym2612_operator_params(3)
}

/// The parameters of operator `op` (counted from 0) of the YM2612.
pub open spec fn ym2612_operator_params(op: u32) -> Seq<ParamSpec> {
    seq![
        ParamSpec { id: spec_op_param(op, 0) as u32, name: "Total Level"@, group: spec_operator_group(op), kind: KindSpec::Continuous { min: 0, max: 127, default: if op == 3 { 0 } else { 40 } } },
        ParamSpec { id: spec_op_param(op, 1) as u32, name: "Attack"@, group: spec_operator_group(op), kind: KindSpec::Discrete { min: 0, max: 31, default: 31, labels: None } },
        ParamSpec { id: spec_op_param(op, 2) as u32, name: "Decay 1"@, group: spec_operator_group(op), kind: KindSpec::Discrete { min: 0, max: 31, default: 0, labels: None } },
        ParamSpec { id: spec_op_param(op, 3) as u32, name: "Decay 2"@, group: spec_operator_group(op), kind: KindSpec::Discrete { min: 0, max: 31, default: 0, labels: None } },
        ParamSpec { id: spec_op_param(op, 4) as u32, name: "Sustain Level"@, group: spec_operator_group(op), kind: KindSpec::Discrete { min: 0, max: 15, default: 0, labels: None } },
        ParamSpec { id: spec_op_param(op, 5) as u32, name: "Release"@, group: spec_operator_group(op), kind: KindSpec::Discrete { min: 0, max: 15, default: 7, labels: None } },
        ParamSpec { id: spec_op_param(op, 6) as u32, name: "Multiply"@, group: spec_operator_group(op), kind: KindSpec::Discrete { min: 0, max: 15, default: 1, labels: None } },
        ParamSpec { id: spec_op_param(op, 7) as u32, name: "Detune"@, group: spec_operator_group(op), kind: KindSpec::Discrete { min: 0, max: 7, default: 0, labels: None } },
    ]
}

fn ym2612_operator_param_info(op: u32) -> (r: Vec<ParamInfo>)
    requires
        op < 4,
    ensures
        params_view(r@) == ym2612_operator_params(op),
{
    let group = operator_group(op);
    let mut r: Vec<ParamInfo> = Vec::new();
    r.push(ParamInfo::continuous(op_param(op, 0), "Total Level", group, 0, 127, if op == 3 { 0 } else { 40 }));
    r.push(ParamInfo::discrete(op_param(op, 1), "Attack", group, 0, 31, 31, None));
    r.push(ParamInfo::discrete(op_param(op, 2), "Decay 1", group, 0, 31, 0, None));
    r.push(ParamInfo::discrete(op_param(op, 3), "Decay 2", group, 0, 31, 0, None));
    r.push(ParamInfo::discrete(op_param(op, 4), "Sustain Level", group, 0, 15, 0, None));
    r.push(ParamInfo::discrete(op_param(op, 5), "Release", group, 0, 15, 7, None));
    r.push(ParamInfo::discrete(op_param(op, 6), "Multiply", group, 0, 15, 1, None));
    r.push(ParamInfo::discrete(op_param(op, 7), "Detune", group, 0, 7, 0, None));
    assert(params_view(r@) =~= ym2612_operator_params(op));
    r
}

/// The adjustable parameters of the YM2612: id, name, group and range.
pub fn ym2612_param_info() -> (r: Vec<ParamInfo>)
    ensures
        params_view(r@) == ym2612_params(),
{
    let mut r: Vec<ParamInfo> = Vec::new();
    r.push(ParamInfo::discrete(0, "Algorithm", "Global", 0, 7, 0, None));
    r.push(ParamInfo::discrete(1, "Feedback", "Global", 0, 7, 0, None));
    r.push(ParamInfo::toggle(2, "LFO", "Global", false));
    r.push(ParamInfo::discrete(3, "LFO Rate", "Global", 0, 7, 0, None));
    let mut ops0 = ym2612_operator_param_info(0);
    r.append(&mut ops0);
    let mut ops1 = ym2612_operator_param_info(1);
    r.append(&mut ops1);
    let mut ops2 = ym2612_operator_param_info(2);
    r.append(&mut ops2);
    let mut ops3 = ym2612_operator_param_info(3);
    r.append(&mut ops3);
    assert(params_view(r@) =~= ym2612_params());
    r
}

/// The chip-wide parameters of the table.
pub open spec fn ym2612_global_params() -> Seq<ParamSpec> {
    seq![
        ParamSpec { id: 0, name: "Algorithm"@, group: "Global"@, kind: KindSpec::Discrete { min: 0, max: 7, default: 0, labels: None } },
        ParamSpec { id: 1, name: "Feedback"@, group: "Global"@, kind: KindSpec::Discrete { min: 0, max: 7, default: 0, labels: None } },
        ParamSpec { id: 2, name: "LFO"@, group: "Global"@, kind: KindSpec::Toggle { default: false } },
        ParamSpec { id: 3, name: "LFO Rate"@, group: "Global"@, kind: KindSpec::Discrete { min: 0, max: 7, default: 0, labels: None } },
    ]
}

proof fn lemma_ym2612_operator_params_sound(op: u32)
    requires
        op < 4,
    ensures
        params_sound(ym2612_operator_params(op)),
        param_ids_within(ym2612_operator_params(op), 100 + op * 100, 200 + op * 100),
{
}

pub proof fn lemma_ym2612_params_sound()
    ensures
        params_sound(ym2612_params()),
{
    assert(params_sound(ym2612_global_params()));
    assert(param_ids_within(ym2612_global_params(), 0, 100));
    lemma_ym2612_operator_params_sound(0);
    lemma_params_concat(ym2612_global_params(), ym2612_operator_params(0), 100);
    assert(param_ids_within(ym2612_global_params() + ym2612_operator_params(0), 0, 200));
    lemma_ym2612_operator_params_sound(1);
    lemma_params_concat(ym2612_global_params() + ym2612_operator_params(0), ym2612_operator_params(1), 200);
    assert(param_ids_within(ym2612_global_params() + ym2612_operator_params(0) + ym2612_operator_params(1), 0, 300));
    lemma_ym2612_operator_params_sound(2);
    lemma_params_concat(ym2612_global_params() + ym2612_operator_params(0) + ym2612_operator_params(1), ym2612_operator_params(2), 300);
    assert(param_ids_within(ym2612_global_params() + ym2612_operator_params(0) + ym2612_operator_params(1) + ym2612_operator_params(2), 0, 400));
    lemma_ym2612_operator_params_sound(3);
    lemma_params_concat(ym2612_global_params() + ym2612_operator_params(0) + ym2612_operator_params(1) + ym2612_operator_params(2), ym2612_operator_params(3), 400);
    assert(param_ids_within(ym2612_global_params() + ym2612_operator_params(0) + ym2612_operator_params(1) + ym2612_operator_params(2) + ym2612_operator_params(3), 0, 500));
}


/// Which of the six writes of an operator carries parameter `off`: the
/// detune/multiple byte for 6 and 7, total level 0, attack 1, decay 2,
/// sustain rate 3, and the sustain-level/release byte for 4 and 5.
pub open spec fn opn_write_slot(off: int) -> int {
    if off == 6 || off == 7 {
        0
    } else if off == 5 {
        5
    } else {
        off + 1
    }
}

/// A key-on reloads every operator at the registers that a parameter
/// change of that operator writes: for each operator `k` and parameter
/// `off`, the reload of channel `base` (on either port) writes the very
/// register and value that `set_param` writes on channel 0, moved by the
/// channel. The register offsets of the four operators are the two bits of
/// the operator number swapped, times four (0, 8, 4, 12), so distinct
/// operators never share a register.
pub proof fn law_reload_matches_set_param(r: Ym2612Regs, port: u8, base: int, k: int, off: int)
    requires
        0 <= base < 3,
        0 <= k < 4,
        0 <= off < 8,
    ensures
        ({
            let pw = opn_param_write(r.ops@[k], off, opn_offset(k));
            opn_all_ops(r, port, base)[6 * k + opn_write_slot(off)] == RegWrite {
                port,
                addr: (pw.addr + base) as u8,
                data: pw.data,
            }
        }),
        opn_offset(k) == 4 * ((k % 2) * 2 + k / 2),
        forall|j: int| 0 <= j < 4 && j != k ==> opn_offset(j) != opn_offset(k),
{
    let ops = r.ops@;
    let a = opn_op_writes(ops[0], port, base);
    let b = opn_op_writes(ops[1], port, base + 8);
    let c = opn_op_writes(ops[2], port, base + 4);
    let d = opn_op_writes(ops[3], port, base + 12);
    let all = opn_all_ops(r, port, base);
    assert(all == a + b + c + d);
    let j = 6 * k + opn_write_slot(off);
    if k == 0 {
        assert(all[j] == a[j]);
    } else if k == 1 {
        assert(all[j] == b[j - 6]);
    } else if k == 2 {
        assert(all[j] == c[j - 12]);
    } else {
        assert(all[j] == d[j - 18]);
    }
}

} // verus!

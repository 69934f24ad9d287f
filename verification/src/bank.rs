//! The control side of a chip bank: one instrument made of several
//! instances of the same chip, whose voices are pooled.
//!
//! Voice `v` of the pool is voice `v % voices_per_chip` of chip
//! `v / voices_per_chip`. Notes go through the voice allocator; each
//! triggered voice remembers its note, velocity and detune for the
//! instrument macro, which ticks once every 735 samples (60 Hz at
//! 44.1 kHz) and retriggers voices at arpeggio offsets. The bank does not
//! touch the chips itself: it answers with the voice commands to perform.

use vstd::prelude::*;
use crate::chip::VoiceMode;
use crate::macros::{step_at, seq_value, InstrumentMacro, MacroSpec, MacroState};
use crate::voice::{empty_slot, no_detune, note_off_effect, note_on_effect, AllocatorView, Detune, VoiceAllocator};

verus! {

/// Samples between two macro ticks.
pub const MACRO_TICK_INTERVAL: u32 = 735;

/// A voice command for the caller to perform on a chip.
#[derive(Debug, Clone, Copy, PartialEq, Eq, Structural)]
pub enum VoiceCommand {
    On { chip: usize, voice: usize, note: u8, velocity: u8, detune_cents: Detune },
    Off { chip: usize, voice: usize },
}

/// What the bank remembers of one pooled voice.
pub struct VoiceTrack {
    pub base_note: Option<u8>,
    pub velocity: u8,
    pub detune: Detune,
    pub macro_active: bool,
    pub macro_ticks: u32,
}

/// Voice routing, bookkeeping and macro timing of a chip bank.
pub struct BankControl {
    voices_per_chip: usize,
    num_chips: usize,
    allocator: VoiceAllocator,
    active_macro: Option<InstrumentMacro>,
    macro_states: Vec<MacroState>,
    voice_base_notes: Vec<Option<u8>>,
    voice_velocities: Vec<u8>,
    voice_detunes: Vec<Detune>,
    macro_sample_counter: u32,
}

/// The chip and local voice of pool voice `v`.
pub open spec fn route(v: int, vpc: int) -> (usize, usize) {
    ((v / vpc) as usize, (v % vpc) as usize)
}

/// The note an arpeggio offset gives, kept within 0-127.
pub open spec fn arp_note(base: u8, arp: i8) -> u8 {
    let n = base + arp;
    if n < 0 {
        0
    } else if n > 127 {
        127
    } else {
        n as u8
    }
}

/// The tracks that the bookkeeping vectors describe.
pub open spec fn tracks_of(
    base: Seq<Option<u8>>,
    vel: Seq<u8>,
    det: Seq<Detune>,
    states: Seq<MacroState>,
) -> Seq<VoiceTrack> {
    Seq::new(
        base.len(),
        |v: int|
            VoiceTrack {
                base_note: base[v],
                velocity: vel[v],
                detune: det[v],
                macro_active: states[v].is_active(),
                macro_ticks: states[v].ticks(),
            },
    )
}

/// The voice commands for a note-on's triggers.
pub open spec fn on_commands(t: Seq<(usize, Detune)>, vpc: int, note: u8, velocity: u8) -> Seq<
    VoiceCommand,
> {
    Seq::new(
        t.len(),
        |i: int|
            VoiceCommand::On {
                chip: route(t[i].0 as int, vpc).0,
                voice: route(t[i].0 as int, vpc).1,
                note,
                velocity,
                detune_cents: t[i].1,
            },
    )
}

/// The voice commands for a note-off's releases.
pub open spec fn off_commands(rel: Seq<usize>, vpc: int) -> Seq<VoiceCommand> {
    Seq::new(
        rel.len(),
        |i: int|
            VoiceCommand::Off { chip: route(rel[i] as int, vpc).0, voice: route(rel[i] as int, vpc).1 },
    )
}

/// The tracks after the first `n` triggers of a note-on.
pub open spec fn apply_on(tracks: Seq<VoiceTrack>, t: Seq<(usize, Detune)>, n: int, note: u8, velocity: u8) -> Seq<
    VoiceTrack,
>
    decreases n,
{
    if n <= 0 {
        tracks
    } else {
        let prev = apply_on(tracks, t, n - 1, note, velocity);
        let (v, d) = t[n - 1];
        if (v as int) < prev.len() {
            prev.update(
                v as int,
                VoiceTrack {
                    base_note: Some(note),
                    velocity,
                    detune: d,
                    macro_active: true,
                    macro_ticks: 0,
                },
            )
        } else {
            prev
        }
    }
}

/// The tracks after the first `n` releases of a note-off.
pub open spec fn apply_off(tracks: Seq<VoiceTrack>, rel: Seq<usize>, n: int) -> Seq<VoiceTrack>
    decreases n,
{
    if n <= 0 {
        tracks
    } else {
        let prev = apply_off(tracks, rel, n - 1);
        let v = rel[n - 1] as int;
        if v < prev.len() {
            prev.update(v, VoiceTrack { base_note: None, macro_active: false, ..prev[v] })
        } else {
            prev
        }
    }
}

/// One macro tick of a track, and the arpeggio offset it gives.
pub open spec fn track_tick(t: VoiceTrack, mac: MacroSpec) -> (VoiceTrack, Option<i8>) {
    if !t.macro_active || mac.is_empty() {
        (t, None)
    } else {
        (
            VoiceTrack { macro_ticks: ((t.macro_ticks + 1) % 0x1_0000_0000) as u32, ..t },
            seq_value(mac.arpeggio, step_at(t.macro_ticks, mac.speed), mac.loop_point),
        )
    }
}

/// One macro tick of the first `n` voices: every voice with a note takes
/// a tick; one whose arpeggio gives an offset is retriggered at it.
pub open spec fn tick_voices(tracks: Seq<VoiceTrack>, mac: MacroSpec, vpc: int, n: int) -> (
    Seq<VoiceTrack>,
    Seq<VoiceCommand>,
)
    decreases n,
{
    if n <= 0 {
        (tracks, seq![])
    } else {
        let (ts, cs) = tick_voices(tracks, mac, vpc, n - 1);
        let v = n - 1;
        let t = ts[v];
        match t.base_note {
            None => (ts, cs),
            Some(b) => {
                let (t2, arp) = track_tick(t, mac);
                let ts2 = ts.update(v, t2);
                match arp {
                    Some(a) => (
                        ts2,
                        cs.push(
                            VoiceCommand::On {
                                chip: route(v, vpc).0,
                                voice: route(v, vpc).1,
                                note: arp_note(b, a),
                                velocity: t.velocity,
                                detune_cents: t.detune,
                            },
                        ),
                    ),
                    None => (ts2, cs),
                }
            },
        }
    }
}

/// `k` macro ticks of the whole pool.
pub open spec fn run_ticks(tracks: Seq<VoiceTrack>, mac: MacroSpec, vpc: int, k: int) -> (
    Seq<VoiceTrack>,
    Seq<VoiceCommand>,
)
    decreases k,
{
    if k <= 0 {
        (tracks, seq![])
    } else {
        let (ts, cs) = run_ticks(tracks, mac, vpc, k - 1);
        let (ts2, cs2) = tick_voices(ts, mac, vpc, ts.len() as int);
        (ts2, cs + cs2)
    }
}

/// Ticking the first `n` voices leaves the others as they were.
proof fn lemma_tick_voices_frame(tracks: Seq<VoiceTrack>, mac: MacroSpec, vpc: int, n: int)
    requires
        0 <= n <= tracks.len(),
    ensures
        tick_voices(tracks, mac, vpc, n).0.len() == tracks.len(),
        forall|j: int|
            n <= j < tracks.len() ==> #[trigger] tick_voices(tracks, mac, vpc, n).0[j] == tracks[j],
    decreases n,
{
    if n > 0 {
        lemma_tick_voices_frame(tracks, mac, vpc, n - 1);
    }
}

/// One macro tick of every pool voice, appending the retriggers to `cmds`.
fn tick_all(
    mac: &InstrumentMacro,
    vpc: usize,
    base: &Vec<Option<u8>>,
    vel: &Vec<u8>,
    det: &Vec<Detune>,
    states: &mut Vec<MacroState>,
    cmds: &mut Vec<VoiceCommand>,
)
    requires
        vpc > 0,
        vel@.len() == base@.len(),
        det@.len() == base@.len(),
        old(states)@.len() == base@.len(),
    ensures
        final(states)@.len() == base@.len(),
        ({
            let (ts, cs) = tick_voices(
                tracks_of(base@, vel@, det@, old(states)@),
                mac@,
                vpc as int,
                base@.len() as int,
            );
            &&& tracks_of(base@, vel@, det@, final(states)@) == ts
            &&& final(cmds)@ == old(cmds)@ + cs
        }),
{
    let ghost t0 = tracks_of(base@, vel@, det@, states@);
    let ghost c0 = cmds@;
    let n = base.len();
    let mut v: usize = 0;
    while v < n
        invariant
            vpc > 0,
            n == base@.len(),
            vel@.len() == n,
            det@.len() == n,
            states@.len() == n,
            v <= n,
            t0.len() == n,
            tracks_of(base@, vel@, det@, states@) == tick_voices(t0, mac@, vpc as int, v as int).0,
            cmds@ == c0 + tick_voices(t0, mac@, vpc as int, v as int).1,
        decreases n - v,
    {
        proof {
            lemma_tick_voices_frame(t0, mac@, vpc as int, v as int);
        }
        let ghost ts = tick_voices(t0, mac@, vpc as int, v as int).0;
        assert(ts[v as int] == tracks_of(base@, vel@, det@, states@)[v as int]);
        match base[v] {
            None => {},
            Some(b) => {
                let mut ms = states[v];
                let out = ms.tick(mac);
                states.set(v, ms);
                assert(tracks_of(base@, vel@, det@, states@) =~= ts.update(
                    v as int,
                    track_tick(ts[v as int], mac@).0,
                ));
                match out.arp_semitones {
                    Some(a) => {
                        let raw: i16 = b as i16 + a as i16;
                        let nn: u8 = if raw < 0 {
                            0
                        } else if raw > 127 {
                            127
                        } else {
                            raw as u8
                        };
                        cmds.push(
                            VoiceCommand::On {
                                chip: v / vpc,
                                voice: v % vpc,
                                note: nn,
                                velocity: vel[v],
                                detune_cents: det[v],
                            },
                        );
                    },
                    None => {},
                }
            },
        }
        v = v + 1;
    }
}

/// Whether a command addresses one of the bank's `num_chips` chips and one
/// of its `vpc` voices.
pub open spec fn addresses_bank(c: VoiceCommand, vpc: int, num_chips: int) -> bool {
    match c {
        VoiceCommand::On { chip, voice, .. } => chip < num_chips && voice < vpc,
        VoiceCommand::Off { chip, voice } => chip < num_chips && voice < vpc,
    }
}

/// Whether every command addresses the bank.
pub open spec fn all_address_bank(cmds: Seq<VoiceCommand>, vpc: int, num_chips: int) -> bool {
    forall|i: int| 0 <= i < cmds.len() ==> addresses_bank(#[trigger] cmds[i], vpc, num_chips)
}

proof fn lemma_route_in_bank(v: int, vpc: int, num_chips: int)
    requires
        0 < vpc <= usize::MAX,
        num_chips <= usize::MAX,
        0 <= v < vpc * num_chips,
    ensures
        route(v, vpc).0 < num_chips,
        route(v, vpc).1 < vpc,
{
    assert(0 <= v / vpc < num_chips && 0 <= v % vpc < vpc) by (nonlinear_arith)
        requires
            vpc > 0,
            0 <= v < vpc * num_chips,
    ;
}

/// The commands of a note-on whose voices are all in the pool address the
/// bank.
proof fn lemma_on_commands_address(t: Seq<(usize, Detune)>, vpc: int, num_chips: int, note: u8, velocity: u8)
    requires
        0 < vpc <= usize::MAX,
        num_chips <= usize::MAX,
        forall|i: int| 0 <= i < t.len() ==> (#[trigger] t[i]).0 < vpc * num_chips,
    ensures
        all_address_bank(on_commands(t, vpc, note, velocity), vpc, num_chips),
{
    assert forall|i: int| 0 <= i < t.len() implies addresses_bank(
        #[trigger] on_commands(t, vpc, note, velocity)[i],
        vpc,
        num_chips,
    ) by {
        lemma_route_in_bank(t[i].0 as int, vpc, num_chips);
    }
}

/// The commands of a note-off whose voices are all in the pool address the
/// bank.
proof fn lemma_off_commands_address(rel: Seq<usize>, vpc: int, num_chips: int)
    requires
        0 < vpc <= usize::MAX,
        num_chips <= usize::MAX,
        forall|i: int| 0 <= i < rel.len() ==> #[trigger] rel[i] < vpc * num_chips,
    ensures
        all_address_bank(off_commands(rel, vpc), vpc, num_chips),
{
    assert forall|i: int| 0 <= i < rel.len() implies addresses_bank(
        #[trigger] off_commands(rel, vpc)[i],
        vpc,
        num_chips,
    ) by {
        lemma_route_in_bank(rel[i] as int, vpc, num_chips);
    }
}

/// A note-on triggers only voices of the pool.
proof fn lemma_triggers_in_pool(old: AllocatorView, new: AllocatorView, note: u8, t: Seq<(usize, Detune)>)
    requires
        note_on_effect(old, new, note, t),
        old.slots.len() > 0,
    ensures
        forall|i: int| 0 <= i < t.len() ==> ((#[trigger] t[i]).0 as int) < old.slots.len(),
{
}

/// A note-off releases only voices of the pool.
proof fn lemma_releases_in_pool(old: AllocatorView, new: AllocatorView, note: u8, rel: Seq<usize>)
    requires
        note_off_effect(old, new, note, rel),
        old.slots.len() > 0,
    ensures
        forall|i: int| 0 <= i < rel.len() ==> (#[trigger] rel[i] as int) < old.slots.len(),
{
}

/// Macro ticks retrigger only voices of the pool.
proof fn lemma_tick_commands_address(tracks: Seq<VoiceTrack>, mac: MacroSpec, vpc: int, num_chips: int, n: int)
    requires
        0 < vpc <= usize::MAX,
        num_chips <= usize::MAX,
        0 <= n <= tracks.len(),
        tracks.len() <= vpc * num_chips,
    ensures
        all_address_bank(tick_voices(tracks, mac, vpc, n).1, vpc, num_chips),
    decreases n,
{
    if n > 0 {
        lemma_tick_commands_address(tracks, mac, vpc, num_chips, n - 1);
        lemma_route_in_bank(n - 1, vpc, num_chips);
    }
}

/// Any number of macro ticks retriggers only voices of the pool.
proof fn lemma_run_commands_address(tracks: Seq<VoiceTrack>, mac: MacroSpec, vpc: int, num_chips: int, k: int)
    requires
        0 < vpc <= usize::MAX,
        num_chips <= usize::MAX,
        tracks.len() <= vpc * num_chips,
    ensures
        run_ticks(tracks, mac, vpc, k).0.len() == tracks.len(),
        all_address_bank(run_ticks(tracks, mac, vpc, k).1, vpc, num_chips),
    decreases k,
{
    if k > 0 {
        lemma_run_commands_address(tracks, mac, vpc, num_chips, k - 1);
        let (ts, cs) = run_ticks(tracks, mac, vpc, k - 1);
        lemma_tick_voices_frame(ts, mac, vpc, ts.len() as int);
        lemma_tick_commands_address(ts, mac, vpc, num_chips, ts.len() as int);
        let cs2 = tick_voices(ts, mac, vpc, ts.len() as int).1;
        assert forall|i: int| 0 <= i < (cs + cs2).len() implies addresses_bank(
            #[trigger] (cs + cs2)[i],
            vpc,
            num_chips,
        ) by {
            if i < cs.len() {
                assert((cs + cs2)[i] == cs[i]);
            } else {
                assert((cs + cs2)[i] == cs2[i - cs.len()]);
            }
        }
    }
}

proof fn lemma_pool_nonempty(vpc: int, n: int)
    requires
        vpc > 0,
        n > 0,
    ensures
        vpc * n > 0,
{
    assert(vpc * n > 0) by (nonlinear_arith)
        requires
            vpc > 0,
            n > 0,
    ;
}

impl BankControl {
    pub closed spec fn spec_voices_per_chip(&self) -> int {
        self.voices_per_chip as int
    }

    pub closed spec fn spec_num_chips(&self) -> int {
        self.num_chips as int
    }

    pub closed spec fn spec_allocator(&self) -> AllocatorView {
        self.allocator@
    }

    pub closed spec fn spec_macro(&self) -> Option<MacroSpec> {
        match self.active_macro {
            Some(m) => Some(m@),
            None => None,
        }
    }

    pub closed spec fn spec_counter(&self) -> u32 {
        self.macro_sample_counter
    }

    pub closed spec fn tracks(&self) -> Seq<VoiceTrack> {
        tracks_of(
            self.voice_base_notes@,
            self.voice_velocities@,
            self.voice_detunes@,
            self.macro_states@,
        )
    }

    /// Whether the pool and the bookkeeping agree in size and the sample
    /// counter is below one tick.
    pub closed spec fn wf(&self) -> bool {
        let total = self.voices_per_chip * self.num_chips;
        &&& self.voices_per_chip > 0
        &&& self.num_chips > 0
        &&& total <= usize::MAX
        &&& self.allocator@.slots.len() == total
        &&& self.macro_states@.len() == total
        &&& self.voice_base_notes@.len() == total
        &&& self.voice_velocities@.len() == total
        &&& self.voice_detunes@.len() == total
        &&& self.macro_sample_counter < MACRO_TICK_INTERVAL
    }

    /// A bank of `num_chips` chips with `voices_per_chip` voices each, in
    /// poly mode, with no macro.
    pub fn new(voices_per_chip: usize, num_chips: usize) -> (r: Self)
        requires
            voices_per_chip > 0,
            num_chips > 0,
            voices_per_chip * num_chips <= usize::MAX,
        ensures
            r.wf(),
            r.spec_voices_per_chip() == voices_per_chip,
            r.spec_num_chips() == num_chips,
            r.spec_allocator().mode == VoiceMode::Poly,
            r.spec_allocator().note_stack.len() == 0,
            r.spec_allocator().slots == Seq::new(
                (voices_per_chip * num_chips) as nat,
                |i: int| empty_slot(),
            ),
            r.spec_allocator().age_counter == 0,
            r.spec_macro() is None,
            r.spec_counter() == 0,
            forall|v: int|
                0 <= v < voices_per_chip * num_chips ==> {
                    let t = #[trigger] r.tracks()[v];
                    &&& t.base_note is None
                    &&& t.velocity == 0
                    &&& t.detune == no_detune()
                    &&& !t.macro_active
                    &&& t.macro_ticks == 0
                },
    {
        let total = voices_per_chip * num_chips;
        let mut macro_states: Vec<MacroState> = Vec::new();
        let mut voice_base_notes: Vec<Option<u8>> = Vec::new();
        let mut voice_velocities: Vec<u8> = Vec::new();
        let mut voice_detunes: Vec<Detune> = Vec::new();
        let mut i: usize = 0;
        while i < total
            invariant
                i <= total,
                macro_states@.len() == i,
                voice_base_notes@.len() == i,
                voice_velocities@.len() == i,
                voice_detunes@.len() == i,
                forall|k: int|
                    0 <= k < i ==> {
                        &&& (#[trigger] macro_states@[k]).ticks() == 0
                        &&& !macro_states@[k].is_active()
                        &&& voice_base_notes@[k] is None
                        &&& voice_velocities@[k] == 0
                        &&& voice_detunes@[k] == no_detune()
                    },
            decreases total - i,
        {
            macro_states.push(MacroState::new());
            voice_base_notes.push(None);
            voice_velocities.push(0);
            voice_detunes.push(Detune { num: 0, den: 1 });
            i = i + 1;
        }
        BankControl {
            voices_per_chip,
            num_chips,
            allocator: VoiceAllocator::new(total),
            active_macro: None,
            macro_states,
            voice_base_notes,
            voice_velocities,
            voice_detunes,
            macro_sample_counter: 0,
        }
    }

    pub fn total_voices(&self) -> (r: usize)
        requires
            self.wf(),
        ensures
            r == self.spec_voices_per_chip() * self.spec_num_chips(),
    {
        self.voices_per_chip * self.num_chips
    }

    pub fn num_chips(&self) -> (r: usize)
        ensures
            r == self.spec_num_chips(),
    {
        self.num_chips
    }

    pub fn voices_per_chip(&self) -> (r: usize)
        ensures
            r == self.spec_voices_per_chip(),
    {
        self.voices_per_chip
    }

    pub fn set_voice_mode(&mut self, mode: VoiceMode)
        requires
            old(self).wf(),
        ensures
            final(self).wf(),
            final(self).spec_allocator().mode == mode,
            final(self).spec_allocator().slots == old(self).spec_allocator().slots,
            final(self).spec_allocator().note_stack == old(self).spec_allocator().note_stack,
            final(self).tracks() == old(self).tracks(),
            final(self).spec_macro() == old(self).spec_macro(),
            final(self).spec_counter() == old(self).spec_counter(),
            final(self).spec_voices_per_chip() == old(self).spec_voices_per_chip(),
            final(self).spec_num_chips() == old(self).spec_num_chips(),
    {
        self.allocator.set_mode(mode);
    }

    pub fn voice_mode(&self) -> (r: VoiceMode)
        ensures
            r == self.spec_allocator().mode,
    {
        self.allocator.mode()
    }

    /// Selects the instrument macro (or none); every voice's macro restarts.
    pub fn set_macro(&mut self, mac: Option<InstrumentMacro>)
        requires
            old(self).wf(),
        ensures
            final(self).wf(),
            final(self).spec_macro() == match mac {
                Some(m) => Some(m@),
                None => None::<MacroSpec>,
            },
            final(self).tracks().len() == old(self).tracks().len(),
            forall|v: int|
                0 <= v < old(self).tracks().len() ==> {
                    let (o, n) = (old(self).tracks()[v], #[trigger] final(self).tracks()[v]);
                    &&& n.base_note == o.base_note
                    &&& n.velocity == o.velocity
                    &&& n.detune == o.detune
                    &&& !n.macro_active
                    &&& n.macro_ticks == 0
                },
            final(self).spec_allocator() == old(self).spec_allocator(),
            final(self).spec_counter() == old(self).spec_counter(),
            final(self).spec_voices_per_chip() == old(self).spec_voices_per_chip(),
            final(self).spec_num_chips() == old(self).spec_num_chips(),
    {
        self.active_macro = mac;
        let n = self.macro_states.len();
        let mut i: usize = 0;
        while i < n
            invariant
                n == self.macro_states@.len(),
                i <= n,
                forall|k: int|
                    0 <= k < i ==> (#[trigger] self.macro_states@[k]).ticks() == 0
                        && !self.macro_states@[k].is_active(),
                forall|k: int|
                    i <= k < n ==> #[trigger] self.macro_states@[k] == old(self).macro_states@[k],
                self.voices_per_chip == old(self).voices_per_chip,
                self.num_chips == old(self).num_chips,
                self.allocator@ == old(self).allocator@,
                self.voice_base_notes@ == old(self).voice_base_notes@,
                self.voice_velocities@ == old(self).voice_velocities@,
                self.voice_detunes@ == old(self).voice_detunes@,
                self.macro_sample_counter == old(self).macro_sample_counter,
                self.active_macro == mac,
            decreases n - i,
        {
            self.macro_states.set(i, MacroState::new());
            i = i + 1;
        }
    }

    /// Records that pool voice `v` plays `note`: its velocity, detune, and
    /// a restarted macro.
    fn mark_on(&mut self, v: usize, note: u8, velocity: u8, detune: Detune)
        requires
            old(self).wf(),
            v < old(self).tracks().len(),
        ensures
            final(self).wf(),
            final(self).tracks() == old(self).tracks().update(
                v as int,
                VoiceTrack {
                    base_note: Some(note),
                    velocity,
                    detune,
                    macro_active: true,
                    macro_ticks: 0,
                },
            ),
            final(self).spec_allocator() == old(self).spec_allocator(),
            final(self).spec_macro() == old(self).spec_macro(),
            final(self).spec_counter() == old(self).spec_counter(),
            final(self).spec_voices_per_chip() == old(self).spec_voices_per_chip(),
            final(self).spec_num_chips() == old(self).spec_num_chips(),
    {
        self.voice_base_notes.set(v, Some(note));
        self.voice_velocities.set(v, velocity);
        self.voice_detunes.set(v, detune);
        let mut ms = self.macro_states[v];
        ms.trigger();
        self.macro_states.set(v, ms);
        assert(self.tracks() =~= old(self).tracks().update(
            v as int,
            VoiceTrack {
                base_note: Some(note),
                velocity,
                detune,
                macro_active: true,
                macro_ticks: 0,
            },
        ));
    }

    /// Records that pool voice `v` was released: no note, macro stopped.
    fn mark_off(&mut self, v: usize)
        requires
            old(self).wf(),
            v < old(self).tracks().len(),
        ensures
            final(self).wf(),
            final(self).tracks() == old(self).tracks().update(
                v as int,
                VoiceTrack { base_note: None, macro_active: false, ..old(self).tracks()[v as int] },
            ),
            final(self).spec_allocator() == old(self).spec_allocator(),
            final(self).spec_macro() == old(self).spec_macro(),
            final(self).spec_counter() == old(self).spec_counter(),
            final(self).spec_voices_per_chip() == old(self).spec_voices_per_chip(),
            final(self).spec_num_chips() == old(self).spec_num_chips(),
    {
        let mut ms = self.macro_states[v];
        ms.release();
        self.macro_states.set(v, ms);
        self.voice_base_notes.set(v, None);
        assert(self.tracks() =~= old(self).tracks().update(
            v as int,
            VoiceTrack { base_note: None, macro_active: false, ..old(self).tracks()[v as int] },
        ));
    }

    /// Plays a note: the allocator picks the voices, each is triggered on
    /// its chip with its detune and remembered for the macro.
    pub fn note_on(&mut self, note: u8, velocity: u8) -> (r: Vec<VoiceCommand>)
        requires
            old(self).wf(),
        ensures
            final(self).wf(),
            final(self).spec_macro() == old(self).spec_macro(),
            final(self).spec_counter() == old(self).spec_counter(),
            final(self).spec_voices_per_chip() == old(self).spec_voices_per_chip(),
            final(self).spec_num_chips() == old(self).spec_num_chips(),
            exists|t: Seq<(usize, Detune)>|
                #[trigger] note_on_effect(
                    old(self).spec_allocator(),
                    final(self).spec_allocator(),
                    note,
                    t,
                ) && r@ == on_commands(t, old(self).spec_voices_per_chip(), note, velocity)
                    && final(self).tracks() == apply_on(
                    old(self).tracks(),
                    t,
                    t.len() as int,
                    note,
                    velocity,
                ),
            all_address_bank(r@, old(self).spec_voices_per_chip(), old(self).spec_num_chips()),
    {
        let ghost old_tracks = self.tracks();
        proof {
            lemma_pool_nonempty(self.voices_per_chip as int, self.num_chips as int);
        }
        let triggers = self.allocator.note_on(note);
        let vpc = self.voices_per_chip;
        let mut cmds: Vec<VoiceCommand> = Vec::new();
        let mut i: usize = 0;
        while i < triggers.len()
            invariant
                self.wf(),
                vpc == self.voices_per_chip,
                vpc > 0,
                i <= triggers@.len(),
                self.voices_per_chip == old(self).voices_per_chip,
                self.num_chips == old(self).num_chips,
                self.spec_macro() == old(self).spec_macro(),
                self.macro_sample_counter == old(self).macro_sample_counter,
                note_on_effect(old(self).spec_allocator(), self.spec_allocator(), note, triggers@),
                cmds@ == on_commands(triggers@.take(i as int), vpc as int, note, velocity),
                self.tracks() == apply_on(old_tracks, triggers@, i as int, note, velocity),
                old_tracks.len() == self.tracks().len(),
            decreases triggers.len() - i,
        {
            let (v, d) = triggers[i];
            cmds.push(
                VoiceCommand::On {
                    chip: v / vpc,
                    voice: v % vpc,
                    note,
                    velocity,
                    detune_cents: d,
                },
            );
            assert(cmds@ =~= on_commands(triggers@.take(i + 1), vpc as int, note, velocity));
            if v < self.voice_base_notes.len() {
                self.mark_on(v, note, velocity, d);
            }
            i = i + 1;
        }
        assert(triggers@.take(triggers@.len() as int) =~= triggers@);
        proof {
            lemma_triggers_in_pool(old(self).spec_allocator(), self.spec_allocator(), note, triggers@);
            lemma_on_commands_address(
                triggers@,
                vpc as int,
                self.num_chips as int,
                note,
                velocity,
            );
        }
        cmds
    }

    /// Releases a note: each voice that played it is keyed off on its chip
    /// and forgotten by the macro. In mono mode, when an earlier held note
    /// remains, voice 0 is retriggered with it (velocity 100, no detune).
    pub fn note_off(&mut self, note: u8) -> (r: Vec<VoiceCommand>)
        requires
            old(self).wf(),
        ensures
            final(self).wf(),
            final(self).spec_macro() == old(self).spec_macro(),
            final(self).spec_counter() == old(self).spec_counter(),
            final(self).spec_voices_per_chip() == old(self).spec_voices_per_chip(),
            final(self).spec_num_chips() == old(self).spec_num_chips(),
            exists|rel: Seq<usize>|
                #[trigger] note_off_effect(
                    old(self).spec_allocator(),
                    final(self).spec_allocator(),
                    note,
                    rel,
                ) && {
                    let after = apply_off(old(self).tracks(), rel, rel.len() as int);
                    let stack = final(self).spec_allocator().note_stack;
                    if rel.len() == 0 && final(self).spec_allocator().mode is Mono && stack.len()
                        > 0 {
                        &&& r@ == off_commands(rel, old(self).spec_voices_per_chip()).push(
                            VoiceCommand::On {
                                chip: 0,
                                voice: 0,
                                note: stack.last(),
                                velocity: 100,
                                detune_cents: no_detune(),
                            },
                        )
                        &&& final(self).tracks() == after.update(
                            0,
                            VoiceTrack {
                                base_note: Some(stack.last()),
                                macro_active: true,
                                macro_ticks: 0,
                                ..after[0]
                            },
                        )
                    } else {
                        &&& r@ == off_commands(rel, old(self).spec_voices_per_chip())
                        &&& final(self).tracks() == after
                    }
                },
            all_address_bank(r@, old(self).spec_voices_per_chip(), old(self).spec_num_chips()),
    {
        let ghost old_tracks = self.tracks();
        proof {
            lemma_pool_nonempty(self.voices_per_chip as int, self.num_chips as int);
        }
        let releases = self.allocator.note_off(note);
        let vpc = self.voices_per_chip;
        let mut cmds: Vec<VoiceCommand> = Vec::new();
        let mut i: usize = 0;
        while i < releases.len()
            invariant
                self.wf(),
                vpc == self.voices_per_chip,
                vpc > 0,
                i <= releases@.len(),
                self.voices_per_chip == old(self).voices_per_chip,
                self.num_chips == old(self).num_chips,
                self.spec_macro() == old(self).spec_macro(),
                self.macro_sample_counter == old(self).macro_sample_counter,
                note_off_effect(old(self).spec_allocator(), self.spec_allocator(), note, releases@),
                cmds@ == off_commands(releases@.take(i as int), vpc as int),
                self.tracks() == apply_off(old_tracks, releases@, i as int),
                old_tracks.len() == self.tracks().len(),
            decreases releases.len() - i,
        {
            let v = releases[i];
            cmds.push(VoiceCommand::Off { chip: v / vpc, voice: v % vpc });
            assert(cmds@ =~= off_commands(releases@.take(i + 1), vpc as int));
            if v < self.macro_states.len() {
                let ghost before = self.tracks();
                self.mark_off(v);
                assert(before[v as int] == apply_off(old_tracks, releases@, i as int)[v as int]);
            }
            i = i + 1;
        }
        assert(releases@.take(releases@.len() as int) =~= releases@);
        proof {
            lemma_releases_in_pool(old(self).spec_allocator(), self.spec_allocator(), note, releases@);
            lemma_off_commands_address(releases@, vpc as int, self.num_chips as int);
        }
        if releases.len() == 0 {
            match self.allocator.mono_retrigger_note() {
                Some(n) => {
                    cmds.push(
                        VoiceCommand::On {
                            chip: 0,
                            voice: 0,
                            note: n,
                            velocity: 100,
                            detune_cents: Detune { num: 0, den: 1 },
                        },
                    );
                    let ghost after = self.tracks();
                    let mut ms = self.macro_states[0];
                    ms.trigger();
                    self.macro_states.set(0, ms);
                    self.voice_base_notes.set(0, Some(n));
                    assert(self.tracks() =~= after.update(
                        0,
                        VoiceTrack {
                            base_note: Some(n),
                            macro_active: true,
                            macro_ticks: 0,
                            ..after[0]
                        },
                    ));
                },
                None => {},
            }
        }
        cmds
    }

    /// Moves the sample clock on by `num_samples`: the macro, when one is
    /// selected, ticks once for every 735 samples that accumulate, and the
    /// voices its arpeggio retriggers are returned in order.
    pub fn advance(&mut self, num_samples: u32) -> (r: Vec<VoiceCommand>)
        requires
            old(self).wf(),
            old(self).spec_counter() + num_samples <= u32::MAX,
        ensures
            final(self).wf(),
            final(self).spec_allocator() == old(self).spec_allocator(),
            final(self).spec_macro() == old(self).spec_macro(),
            final(self).spec_voices_per_chip() == old(self).spec_voices_per_chip(),
            final(self).spec_num_chips() == old(self).spec_num_chips(),
            old(self).spec_macro() is None ==> {
                &&& r@ == Seq::<VoiceCommand>::empty()
                &&& final(self).tracks() == old(self).tracks()
                &&& final(self).spec_counter() == old(self).spec_counter()
            },
            old(self).spec_macro() matches Some(mac) ==> {
                let total = old(self).spec_counter() + num_samples;
                &&& final(self).spec_counter() == total % 735
                &&& (final(self).tracks(), r@) == run_ticks(
                    old(self).tracks(),
                    mac,
                    old(self).spec_voices_per_chip(),
                    total / 735,
                )
            },
            all_address_bank(r@, old(self).spec_voices_per_chip(), old(self).spec_num_chips()),
    {
        let mut cmds: Vec<VoiceCommand> = Vec::new();
        let taken = self.active_macro.take();
        match &taken {
            None => {},
            Some(mac) => {
                let ghost tracks0 = self.tracks();
                let ghost total = self.macro_sample_counter + num_samples;
                self.macro_sample_counter = self.macro_sample_counter + num_samples;
                let mut k: u32 = 0;
                while self.macro_sample_counter >= MACRO_TICK_INTERVAL
                    invariant
                        self.voices_per_chip == old(self).voices_per_chip,
                        self.num_chips == old(self).num_chips,
                        self.allocator@ == old(self).allocator@,
                        self.voice_base_notes@ == old(self).voice_base_notes@,
                        self.voice_velocities@ == old(self).voice_velocities@,
                        self.voice_detunes@ == old(self).voice_detunes@,
                        self.macro_states@.len() == old(self).macro_states@.len(),
                        old(self).wf(),
                        tracks0 == old(self).tracks(),
                        total == old(self).spec_counter() + num_samples,
                        total == k * 735 + self.macro_sample_counter,
                        (self.tracks(), cmds@) == run_ticks(
                            tracks0,
                            mac@,
                            self.voices_per_chip as int,
                            k as int,
                        ),
                    decreases self.macro_sample_counter,
                {
                    self.macro_sample_counter = self.macro_sample_counter - MACRO_TICK_INTERVAL;
                    let ghost prev = self.tracks();
                    tick_all(
                        mac,
                        self.voices_per_chip,
                        &self.voice_base_notes,
                        &self.voice_velocities,
                        &self.voice_detunes,
                        &mut self.macro_states,
                        &mut cmds,
                    );
                    k = k + 1;
                }
                proof {
                    lemma_run_commands_address(
                        tracks0,
                        mac@,
                        self.voices_per_chip as int,
                        self.num_chips as int,
                        k as int,
                    );
                    let c = self.macro_sample_counter as int;
                    assert(total / 735 == k && total % 735 == c) by (nonlinear_arith)
                        requires
                            total == k * 735 + c,
                            0 <= c < 735,
                    ;
                }
            },
        }
        self.active_macro = taken;
        cmds
    }

    /// The name of the selected macro, if any.
    pub fn active_macro_name(&self) -> (r: Option<&str>)
        ensures
            match self.spec_macro() {
                Some(m) => r matches Some(s) && s@ == m.name,
                None => r is None,
            },
    {
        match &self.active_macro {
            Some(m) => Some(m.name.as_str()),
            None => None,
        }
    }
}

/// Every pool voice has its own chip and local voice, within the bank.
pub proof fn law_route_is_one_to_one(vpc: int, num_chips: int, v1: int, v2: int)
    requires
        vpc > 0,
        vpc * num_chips <= usize::MAX,
        0 <= v1 < vpc * num_chips,
        0 <= v2 < vpc * num_chips,
    ensures
        route(v1, vpc).0 < num_chips,
        route(v1, vpc).1 < vpc,
        route(v1, vpc) == route(v2, vpc) ==> v1 == v2,
{
    assert(0 <= v1 / vpc < num_chips && 0 <= v1 % vpc < vpc) by (nonlinear_arith)
        requires
            vpc > 0,
            0 <= v1 < vpc * num_chips,
    ;
    assert(0 <= v2 / vpc < num_chips && 0 <= v2 % vpc < vpc) by (nonlinear_arith)
        requires
            vpc > 0,
            0 <= v2 < vpc * num_chips,
    ;
    assert(num_chips <= vpc * num_chips) by (nonlinear_arith)
        requires
            vpc > 0,
            num_chips > 0,
    ;
    assert(v1 == vpc * (v1 / vpc) + v1 % vpc) by (nonlinear_arith)
        requires
            vpc > 0,
    ;
    assert(v2 == vpc * (v2 / vpc) + v2 % vpc) by (nonlinear_arith)
        requires
            vpc > 0,
    ;
    if route(v1, vpc) == route(v2, vpc) {
        assert(v1 / vpc == v2 / vpc && v1 % vpc == v2 % vpc);
    }
}

proof fn lemma_run_ticks_compose(tracks: Seq<VoiceTrack>, mac: MacroSpec, vpc: int, k1: int, k2: int)
    requires
        k1 >= 0,
        k2 >= 0,
    ensures
        ({
            let (t1, c1) = run_ticks(tracks, mac, vpc, k1);
            let (t2, c2) = run_ticks(t1, mac, vpc, k2);
            let (t, c) = run_ticks(tracks, mac, vpc, k1 + k2);
            t2 == t && c1 + c2 == c
        }),
    decreases k2,
{
    if k2 == 0 {
        let (t1, c1) = run_ticks(tracks, mac, vpc, k1);
        assert(c1 + Seq::<VoiceCommand>::empty() =~= c1);
    } else {
        lemma_run_ticks_compose(tracks, mac, vpc, k1, k2 - 1);
        let (t1, c1) = run_ticks(tracks, mac, vpc, k1);
        let (t2, c2) = run_ticks(t1, mac, vpc, k2 - 1);
        let (t3, c3) = tick_voices(t2, mac, vpc, t2.len() as int);
        assert(c1 + (c2 + c3) =~= (c1 + c2) + c3);
    }
}

/// Advancing the macro clock by `n1` and then by `n2` samples ticks the
/// macro exactly as advancing it by `n1 + n2` at once: the same number of
/// ticks, the same voice states, the same retriggers in the same order,
/// and the same samples left over.
pub proof fn law_advance_splits(tracks: Seq<VoiceTrack>, mac: MacroSpec, vpc: int, counter: int, n1: int, n2: int)
    requires
        0 <= counter < 735,
        n1 >= 0,
        n2 >= 0,
    ensures
        ({
            let c1 = (counter + n1) % 735;
            let (t1, cmds1) = run_ticks(tracks, mac, vpc, (counter + n1) / 735);
            let (t2, cmds2) = run_ticks(t1, mac, vpc, (c1 + n2) / 735);
            let (t, cmds) = run_ticks(tracks, mac, vpc, (counter + n1 + n2) / 735);
            &&& (c1 + n2) % 735 == (counter + n1 + n2) % 735
            &&& t2 == t
            &&& cmds1 + cmds2 == cmds
        }),
{
    let s = counter + n1;
    let q1 = s / 735;
    let c1 = s % 735;
    assert(s == 735 * q1 + c1 && 0 <= c1 < 735) by (nonlinear_arith)
        requires
            s >= 0,
            q1 == s / 735,
            c1 == s % 735,
    ;
    let q2 = (c1 + n2) / 735;
    let c2 = (c1 + n2) % 735;
    assert(c1 + n2 == 735 * q2 + c2 && 0 <= c2 < 735) by (nonlinear_arith)
        requires
            c1 + n2 >= 0,
            q2 == (c1 + n2) / 735,
            c2 == (c1 + n2) % 735,
    ;
    assert((s + n2) / 735 == q1 + q2 && (s + n2) % 735 == c2) by (nonlinear_arith)
        requires
            s + n2 == 735 * (q1 + q2) + c2,
            0 <= c2 < 735,
    ;
    assert(q1 >= 0 && q2 >= 0) by (nonlinear_arith)
        requires
            s >= 0,
            q1 == s / 735,
            c1 + n2 >= 0,
            q2 == (c1 + n2) / 735,
    ;
    lemma_run_ticks_compose(tracks, mac, vpc, q1, q2);
}

} // verus!

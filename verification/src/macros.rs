//! Instrument macro engine.
//!
//! PSG chips are simple square/noise generators; game music makes them
//! sound alive by changing registers at the frame rate (50/60 Hz). An
//! instrument macro is a timed sequence of volume, pitch (arpeggio) and
//! duty values that runs per voice, one step per frame (or per `speed`
//! frames).

use vstd::prelude::*;

verus! {

broadcast use vstd::string::group_string_axioms;

/// A single instrument macro with volume, pitch and duty sequences.
#[derive(Debug, Clone)]
pub struct InstrumentMacro {
    pub name: String,
    /// Volume sequence (0-15 per step). Empty = no volume macro.
    pub volume: Vec<u8>,
    /// Pitch offset in semitones per step (for arpeggio). Empty = no arpeggio.
    pub arpeggio: Vec<i8>,
    /// Duty/waveform index per step. Empty = no duty macro.
    pub duty: Vec<u8>,
    /// Step at which the sequence loops (None = play once, hold last value).
    pub loop_point: Option<usize>,
    /// Ticks per step (1 = every frame, 2 = every other frame, etc.)
    pub speed: u8,
}

/// The mathematical content of an [`InstrumentMacro`].
pub struct MacroSpec {
    pub name: Seq<char>,
    pub volume: Seq<u8>,
    pub arpeggio: Seq<i8>,
    pub duty: Seq<u8>,
    pub loop_point: Option<usize>,
    pub speed: u8,
}

impl View for InstrumentMacro {
    type V = MacroSpec;

    open spec fn view(&self) -> MacroSpec {
        MacroSpec {
            name: self.name@,
            volume: self.volume@,
            arpeggio: self.arpeggio@,
            duty: self.duty@,
            loop_point: self.loop_point,
            speed: self.speed,
        }
    }
}

impl MacroSpec {
    pub open spec fn is_empty(self) -> bool {
        self.volume.len() == 0 && self.arpeggio.len() == 0 && self.duty.len() == 0
    }
}

impl Default for InstrumentMacro {
    fn default() -> (r: Self)
        ensures
            r@.name == "Default"@,
            r@.volume.len() == 0,
            r@.arpeggio.len() == 0,
            r@.duty.len() == 0,
            r@.loop_point is None,
            r@.speed == 1,
    {
        InstrumentMacro {
            name: "Default".to_string(),
            volume: Vec::new(),
            arpeggio: Vec::new(),
            duty: Vec::new(),
            loop_point: None,
            speed: 1,
        }
    }
}

impl InstrumentMacro {
    pub fn is_empty(&self) -> (r: bool)
        ensures
            r == self@.is_empty(),
    {
        self.volume.len() == 0 && self.arpeggio.len() == 0 && self.duty.len() == 0
    }
}

/// Which element of a sequence of length `len` plays at step `step`:
/// the step itself while inside the sequence; past its end, the loop
/// section `[lp, len)` repeats, or the last element is held when there is
/// no valid loop point.
pub open spec fn seq_position(len: int, step: int, loop_point: Option<usize>) -> int {
    if step < len {
        step
    } else if loop_point is Some && (loop_point->0 as int) < len {
        let lp = loop_point->0 as int;
        lp + (step - len) % (len - lp)
    } else {
        len - 1
    }
}

/// The value a sequence gives at a step (None for an empty sequence).
pub open spec fn seq_value<T>(seq: Seq<T>, step: int, loop_point: Option<usize>) -> Option<T> {
    if seq.len() == 0 {
        None
    } else {
        Some(seq[seq_position(seq.len() as int, step, loop_point)])
    }
}

/// The sequence step reached after `tick` ticks at a given speed
/// (a speed of 0 counts as 1).
pub open spec fn step_at(tick: u32, speed: u8) -> int {
    if speed > 0 {
        tick as int / speed as int
    } else {
        tick as int
    }
}

/// Current output from the macro engine for one voice.
#[derive(Debug, Clone, Copy, PartialEq, Eq, Structural)]
pub struct MacroOutput {
    /// Volume override (None = use default)
    pub volume: Option<u8>,
    /// Pitch offset in semitones (None = no arpeggio)
    pub arp_semitones: Option<i8>,
    /// Duty/waveform index (None = use default)
    pub duty: Option<u8>,
}

impl MacroOutput {
    pub open spec fn none() -> MacroOutput {
        MacroOutput { volume: None, arp_semitones: None, duty: None }
    }
}

impl Default for MacroOutput {
    fn default() -> (r: Self)
        ensures
            r == MacroOutput::none(),
    {
        MacroOutput { volume: None, arp_semitones: None, duty: None }
    }
}

/// The output of a macro at a given step.
pub open spec fn output_at(mac: MacroSpec, step: int) -> MacroOutput {
    MacroOutput {
        volume: seq_value(mac.volume, step, mac.loop_point),
        arp_semitones: seq_value(mac.arpeggio, step, mac.loop_point),
        duty: seq_value(mac.duty, step, mac.loop_point),
    }
}

/// What one tick does to a macro state that is `active` with `ticks` ticks
/// taken: the ticks taken afterwards, and the output. An inactive state or
/// an empty macro gives no output and stays put; otherwise the output is
/// the macro at the current step, and one more tick is taken.
pub open spec fn tick_step(active: bool, ticks: u32, mac: MacroSpec) -> (u32, MacroOutput) {
    if !active || mac.is_empty() {
        (ticks, MacroOutput::none())
    } else {
        (((ticks + 1) % 0x1_0000_0000) as u32, output_at(mac, step_at(ticks, mac.speed)))
    }
}

/// The ticks taken after `k` more ticks.
pub open spec fn ticks_after(active: bool, ticks: u32, mac: MacroSpec, k: nat) -> u32
    decreases k,
{
    if k == 0 {
        ticks
    } else {
        tick_step(active, ticks_after(active, ticks, mac, (k - 1) as nat), mac).0
    }
}

/// The outputs of `k` ticks in a row.
pub open spec fn outputs_of_ticks(active: bool, ticks: u32, mac: MacroSpec, k: nat) -> Seq<
    MacroOutput,
>
    decreases k,
{
    if k == 0 {
        Seq::empty()
    } else {
        outputs_of_ticks(active, ticks, mac, (k - 1) as nat).push(
            tick_step(active, ticks_after(active, ticks, mac, (k - 1) as nat), mac).1,
        )
    }
}

/// Per-voice macro playback state.
#[derive(Debug, Clone, Copy)]
pub struct MacroState {
    pub active: bool,
    tick: u32,
}

impl MacroState {
    /// Ticks taken since the last trigger.
    pub closed spec fn ticks(&self) -> u32 {
        self.tick
    }

    /// Whether the macro is running.
    pub closed spec fn is_active(&self) -> bool {
        self.active
    }

    /// The state a trigger leaves: running, at its first tick.
    pub closed spec fn triggered() -> MacroState {
        MacroState { active: true, tick: 0 }
    }

    /// The running state and tick count of the triggered state.
    pub proof fn lemma_triggered()
        ensures
            MacroState::triggered().is_active(),
            MacroState::triggered().ticks() == 0,
    {
    }

    pub fn new() -> (r: Self)
        ensures
            !r.is_active(),
            r.ticks() == 0,
    {
        MacroState { active: false, tick: 0 }
    }

    /// Starts the macro from its first step, whatever the state was.
    pub fn trigger(&mut self)
        ensures
            final(self).is_active(),
            final(self).ticks() == 0,
            *final(self) == MacroState::triggered(),
    {
        self.active = true;
        self.tick = 0;
    }

    pub fn release(&mut self)
        ensures
            !final(self).is_active(),
            final(self).ticks() == old(self).ticks(),
    {
        self.active = false;
    }

    /// Advance one tick and return current modulation values.
    pub fn tick(&mut self, mac: &InstrumentMacro) -> (out: MacroOutput)
        ensures
            final(self).is_active() == old(self).is_active(),
            !old(self).is_active() || mac@.is_empty() ==> out == MacroOutput::none() && final(self).ticks()
                == old(self).ticks(),
            old(self).is_active() && !mac@.is_empty() ==> out == output_at(
                mac@,
                step_at(old(self).ticks(), mac.speed),
            ) && final(self).ticks() == (old(self).ticks() + 1) % 0x1_0000_0000,
            (final(self).ticks(), out) == tick_step(old(self).is_active(), old(self).ticks(), mac@),
    {
        if !self.active || mac.is_empty() {
            return MacroOutput { volume: None, arp_semitones: None, duty: None };
        }
        let step: usize = if mac.speed > 0 {
            (self.tick / mac.speed as u32) as usize
        } else {
            self.tick as usize
        };
        self.tick = self.tick.wrapping_add(1);
        MacroOutput {
            volume: get_seq_value(&mac.volume, step, mac.loop_point),
            arp_semitones: get_seq_value_i8(&mac.arpeggio, step, mac.loop_point),
            duty: get_seq_value(&mac.duty, step, mac.loop_point),
        }
    }
}

impl Default for MacroState {
    fn default() -> (r: Self)
        ensures
            !r.is_active(),
            r.ticks() == 0,
    {
        Self::new()
    }
}

fn seq_index(len: usize, step: usize, loop_point: Option<usize>) -> (r: usize)
    requires
        len > 0,
    ensures
        r == seq_position(len as int, step as int, loop_point),
        r < len,
{
    if step < len {
        step
    } else if let Some(lp) = loop_point {
        if lp < len {
            lp + (step - len) % (len - lp)
        } else {
            len - 1
        }
    } else {
        len - 1
    }
}

fn get_seq_value(seq: &[u8], step: usize, loop_point: Option<usize>) -> (r: Option<u8>)
    ensures
        r == seq_value(seq@, step as int, loop_point),
{
    if seq.len() == 0 {
        return None;
    }
    Some(seq[seq_index(seq.len(), step, loop_point)])
}

fn get_seq_value_i8(seq: &[i8], step: usize, loop_point: Option<usize>) -> (r: Option<i8>)
    ensures
        r == seq_value(seq@, step as int, loop_point),
{
    if seq.len() == 0 {
        return None;
    }
    Some(seq[seq_index(seq.len(), step, loop_point)])
}

/// The built-in instrument macros, in menu order.
pub open spec fn spec_factory_macros() -> Seq<MacroSpec> {
    seq![
        MacroSpec {
            name: "Pluck"@,
            volume: seq![15u8, 13u8, 11u8, 9u8, 7u8, 5u8, 4u8, 3u8, 2u8, 1u8, 0u8],
            arpeggio: Seq::<i8>::empty(),
            duty: Seq::<u8>::empty(),
            loop_point: None,
            speed: 1,
        },
        MacroSpec {
            name: "Minor Arp"@,
            volume: Seq::<u8>::empty(),
            arpeggio: seq![0i8, 3i8, 7i8, 12i8],
            duty: Seq::<u8>::empty(),
            loop_point: Some(0usize),
            speed: 2,
        },
        MacroSpec {
            name: "Major Arp"@,
            volume: Seq::<u8>::empty(),
            arpeggio: seq![0i8, 4i8, 7i8, 12i8],
            duty: Seq::<u8>::empty(),
            loop_point: Some(0usize),
            speed: 2,
        },
        MacroSpec {
            name: "Octave Pulse"@,
            volume: Seq::<u8>::empty(),
            arpeggio: seq![0i8, 12i8],
            duty: Seq::<u8>::empty(),
            loop_point: Some(0usize),
            speed: 1,
        },
        MacroSpec {
            name: "Kick Drum"@,
            volume: seq![15u8, 14u8, 12u8, 8u8, 4u8, 2u8, 1u8, 0u8],
            arpeggio: seq![0i8, -12i8, -24i8, -36i8],
            duty: Seq::<u8>::empty(),
            loop_point: None,
            speed: 1,
        },
        MacroSpec {
            name: "Vibrato"@,
            volume: Seq::<u8>::empty(),
            arpeggio: seq![0i8, 0i8, 0i8, 0i8, 1i8, 0i8, 0i8, 0i8, 0i8, -1i8],
            duty: Seq::<u8>::empty(),
            loop_point: Some(0usize),
            speed: 1,
        },
        MacroSpec {
            name: "Swell"@,
            volume: seq![0u8, 1u8, 2u8, 3u8, 5u8, 7u8, 9u8, 11u8, 13u8, 15u8, 15u8, 15u8, 15u8, 13u8, 11u8, 9u8, 7u8, 5u8, 3u8, 1u8],
            arpeggio: Seq::<i8>::empty(),
            duty: Seq::<u8>::empty(),
            loop_point: Some(0usize),
            speed: 1,
        },
    ]
}

/// The built-in instrument macros.
pub fn factory_macros() -> (r: Vec<InstrumentMacro>)
    ensures
        r@.map_values(|m: InstrumentMacro| m@) == spec_factory_macros(),
{
    let r = vec![
        InstrumentMacro {
            name: "Pluck".to_string(),
            volume: vec![15u8, 13u8, 11u8, 9u8, 7u8, 5u8, 4u8, 3u8, 2u8, 1u8, 0u8],
            arpeggio: Vec::new(),
            duty: Vec::new(),
            loop_point: None,
            speed: 1,
        },
        InstrumentMacro {
            name: "Minor Arp".to_string(),
            volume: Vec::new(),
            arpeggio: vec![0i8, 3i8, 7i8, 12i8],
            duty: Vec::new(),
            loop_point: Some(0usize),
            speed: 2,
        },
        InstrumentMacro {
            name: "Major Arp".to_string(),
            volume: Vec::new(),
            arpeggio: vec![0i8, 4i8, 7i8, 12i8],
            duty: Vec::new(),
            loop_point: Some(0usize),
            speed: 2,
        },
        InstrumentMacro {
            name: "Octave Pulse".to_string(),
            volume: Vec::new(),
            arpeggio: vec![0i8, 12i8],
            duty: Vec::new(),
            loop_point: Some(0usize),
            speed: 1,
        },
        InstrumentMacro {
            name: "Kick Drum".to_string(),
            volume: vec![15u8, 14u8, 12u8, 8u8, 4u8, 2u8, 1u8, 0u8],
            arpeggio: vec![0i8, -12i8, -24i8, -36i8],
            duty: Vec::new(),
            loop_point: None,
            speed: 1,
        },
        InstrumentMacro {
            name: "Vibrato".to_string(),
            volume: Vec::new(),
            arpeggio: vec![0i8, 0i8, 0i8, 0i8, 1i8, 0i8, 0i8, 0i8, 0i8, -1i8],
            duty: Vec::new(),
            loop_point: Some(0usize),
            speed: 1,
        },
        InstrumentMacro {
            name: "Swell".to_string(),
            volume: vec![0u8, 1u8, 2u8, 3u8, 5u8, 7u8, 9u8, 11u8, 13u8, 15u8, 15u8, 15u8, 15u8, 13u8, 11u8, 9u8, 7u8, 5u8, 3u8, 1u8],
            arpeggio: Vec::new(),
            duty: Vec::new(),
            loop_point: Some(0usize),
            speed: 1,
        },
    ];
    assert(r@.map_values(|m: InstrumentMacro| m@) =~= spec_factory_macros());
    r
}

/// A macro is well formed when it advances (speed of at least one), its
/// volumes fit the 4-bit range, and its loop point lies inside every
/// sequence it has.
pub open spec fn well_formed_macro(m: MacroSpec) -> bool {
    &&& m.speed >= 1
    &&& forall|i: int| 0 <= i < m.volume.len() ==> m.volume[i] <= 15
    &&& m.loop_point matches Some(lp) ==> {
        &&& (m.volume.len() == 0 || lp < m.volume.len())
        &&& (m.arpeggio.len() == 0 || lp < m.arpeggio.len())
        &&& (m.duty.len() == 0 || lp < m.duty.len())
    }
}

/// Every built-in macro is well formed.
pub proof fn law_factory_macros_well_formed()
    ensures
        forall|i: int|
            0 <= i < spec_factory_macros().len() ==> well_formed_macro(
                #[trigger] spec_factory_macros()[i],
            ),
{
    let f = spec_factory_macros();
    assert(well_formed_macro(f[0]));
    assert(well_formed_macro(f[1]));
    assert(well_formed_macro(f[2]));
    assert(well_formed_macro(f[3]));
    assert(well_formed_macro(f[4]));
    assert(well_formed_macro(f[5]));
    assert(well_formed_macro(f[6]));
}

/// Past the end of a sequence with a loop point inside it, playback
/// repeats the loop section: the position at `step` and at
/// `step + (len - lp)` agree for every step from the loop point on.
pub proof fn law_loop_repeats(len: int, lp: usize, step: int)
    requires
        0 <= lp < len,
        step >= lp,
    ensures
        seq_position(len, step + (len - lp), Some(lp)) == seq_position(len, step, Some(lp)),
{
    let p = len - lp;
    if step < len {
        assert(step + p - len == step - lp);
        vstd::arithmetic::div_mod::lemma_small_mod((step - lp) as nat, p as nat);
    } else {
        vstd::arithmetic::div_mod::lemma_mod_add_multiples_vanish(step - len, p);
        assert(step + p - len == (step - len) + p);
    }
}

proof fn lemma_outputs_len(active: bool, ticks: u32, mac: MacroSpec, k: nat)
    ensures
        outputs_of_ticks(active, ticks, mac, k).len() == k,
    decreases k,
{
    if k > 0 {
        lemma_outputs_len(active, ticks, mac, (k - 1) as nat);
    }
}

/// After a trigger and `k` ticks of the same non-empty macro, the next
/// tick plays step `k / speed` (a speed of 0 counting as 1) of every
/// sequence, with the one loop point: each step lasts `speed` ticks.
pub proof fn law_macro_output_after_ticks(mac: MacroSpec, k: nat)
    requires
        !mac.is_empty(),
        k < u32::MAX,
    ensures
        ticks_after(true, 0, mac, k) == k,
        outputs_of_ticks(true, 0, mac, k + 1)[k as int] == output_at(
            mac,
            k as int / (if mac.speed > 0 {
                mac.speed as int
            } else {
                1
            }),
        ),
    decreases k,
{
    if k > 0 {
        law_macro_output_after_ticks(mac, (k - 1) as nat);
    }
    lemma_outputs_len(true, 0, mac, k);
    assert(outputs_of_ticks(true, 0, mac, k + 1) == outputs_of_ticks(true, 0, mac, k).push(
        tick_step(true, ticks_after(true, 0, mac, k), mac).1,
    ));
    assert(outputs_of_ticks(true, 0, mac, k + 1)[k as int] == tick_step(
        true,
        ticks_after(true, 0, mac, k),
        mac,
    ).1);
}

/// A trigger restarts playback whatever came before: the state it leaves
/// does not depend on the earlier one (so two triggers act as one), and
/// from it every run of ticks gives what it gives from a fresh trigger,
/// running from tick 0.
pub proof fn law_trigger_restarts(mac: MacroSpec, n: nat)
    ensures
        MacroState::triggered().is_active(),
        MacroState::triggered().ticks() == 0,
        outputs_of_ticks(
            MacroState::triggered().is_active(),
            MacroState::triggered().ticks(),
            mac,
            n,
        ) == outputs_of_ticks(true, 0, mac, n),
{
    MacroState::lemma_triggered();
}

/// The signed (arpeggio) reader and the byte reader pick the same element:
/// reading a signed sequence gives, reinterpreted as a byte, what the byte
/// reader gives on the sequence cast to bytes, and the other way round.
pub proof fn law_signed_reader_agrees(s: Seq<i8>, step: int, loop_point: Option<usize>)
    requires
        step >= 0,
    ensures
        seq_value(s.map_values(|x: i8| x as u8), step, loop_point) == (match seq_value(
            s,
            step,
            loop_point,
        ) {
            Some(x) => Some(x as u8),
            None => None::<u8>,
        }),
        seq_value(s, step, loop_point) == (match seq_value(
            s.map_values(|x: i8| x as u8),
            step,
            loop_point,
        ) {
            Some(b) => Some(b as i8),
            None => None::<i8>,
        }),
{
    let bytes = s.map_values(|x: i8| x as u8);
    assert(bytes.len() == s.len());
    if s.len() > 0 {
        let p = seq_position(s.len() as int, step, loop_point);
        law_position_in_range(s.len() as int, step, loop_point);
        let x = s[p];
        assert(bytes[p] == x as u8);
        assert(((x as u8) as i8) == x) by (bit_vector);
    }
}

/// Without a loop point, once the end is reached the last value holds for
/// every later step.
pub proof fn law_hold_last(len: int, step: int)
    requires
        len > 0,
        step >= len - 1,
    ensures
        seq_position(len, step, None) == len - 1,
{
}

/// Every step plays some element of the sequence.
pub proof fn law_position_in_range(len: int, step: int, loop_point: Option<usize>)
    requires
        len > 0,
        step >= 0,
    ensures
        0 <= seq_position(len, step, loop_point) < len,
{
    if step >= len && loop_point is Some && (loop_point->0 as int) < len {
        let lp = loop_point->0 as int;
        vstd::arithmetic::div_mod::lemma_mod_bound(step - len, len - lp);
    }
}

/// At speed `s`, each sequence step is held for exactly `s` ticks: every
/// tick in `[k*s, k*s + s)` plays step `k`.
pub proof fn law_speed_holds_each_step(speed: u8, k: int, r: int)
    requires
        speed >= 1,
        0 <= r < speed,
        0 <= k * speed + r <= u32::MAX,
    ensures
        step_at((k * speed + r) as u32, speed) == k,
{
    vstd::arithmetic::div_mod::lemma_fundamental_div_mod_converse(
        k * speed + r,
        speed as int,
        k,
        r,
    );
}

} // verus!

//! Voice allocation: which chip voice plays which MIDI note.
//!
//! Poly mode gives each note its own voice, reusing free voices first and
//! stealing the oldest when all are busy. Mono mode plays on voice 0 with
//! last-note priority: releasing the newest held note retriggers the one
//! held before it. Unison mode plays every note on all voices at once,
//! detuned symmetrically around the pitch.

use vstd::prelude::*;

use crate::chip::VoiceMode;

verus! {

/// Tracks which note a voice is playing and when it was triggered.
#[derive(Debug, Clone, Copy, PartialEq, Eq, Structural)]
pub struct VoiceSlot {
    pub note: Option<u8>,
    /// Value of the trigger counter when the voice was last triggered.
    pub age: u64,
}

/// Allocates MIDI notes to chip voices based on the current [`VoiceMode`].
pub struct VoiceAllocator {
    mode: VoiceMode,
    slots: Vec<VoiceSlot>,
    age_counter: u64,
    /// Mono mode: stack of held notes for last-note priority
    note_stack: Vec<u8>,
}

/// The state of a [`VoiceAllocator`].
pub struct AllocatorView {
    pub mode: VoiceMode,
    pub slots: Seq<VoiceSlot>,
    pub age_counter: u64,
    pub note_stack: Seq<u8>,
}

impl View for VoiceAllocator {
    type V = AllocatorView;

    closed spec fn view(&self) -> AllocatorView {
        AllocatorView {
            mode: self.mode,
            slots: self.slots@,
            age_counter: self.age_counter,
            note_stack: self.note_stack@,
        }
    }
}

/// A free voice slot.
pub open spec fn empty_slot() -> VoiceSlot {
    VoiceSlot { note: None, age: 0 }
}

/// The trigger counter after one more note: it counts on and wraps around.
pub open spec fn next_age(counter: u64) -> u64 {
    if counter == u64::MAX {
        0
    } else {
        (counter + 1) as u64
    }
}

/// The held-note stack without any copy of `note`.
pub open spec fn remove_note(stack: Seq<u8>, note: u8) -> Seq<u8> {
    stack.filter(other_than(note))
}

/// The test that keeps every note but `note`.
pub open spec fn other_than(note: u8) -> spec_fn(u8) -> bool {
    |n: u8| n != note
}

/// Mono mode: pressing `note` moves it to the top of the held-note stack.
pub open spec fn stack_after_press(stack: Seq<u8>, note: u8) -> Seq<u8> {
    remove_note(stack, note).push(note)
}

/// Whether `slots[i]` is free and no slot before it is.
pub open spec fn is_first_free(slots: Seq<VoiceSlot>, i: int) -> bool {
    &&& 0 <= i < slots.len()
    &&& slots[i].note is None
    &&& forall|j: int| 0 <= j < i ==> slots[j].note is Some
}

/// Whether `slots[i]` is the first of the oldest slots (smallest age).
pub open spec fn is_first_oldest(slots: Seq<VoiceSlot>, i: int) -> bool {
    &&& 0 <= i < slots.len()
    &&& forall|j: int| 0 <= j < slots.len() ==> slots[i].age <= slots[j].age
    &&& forall|j: int| 0 <= j < i ==> slots[j].age > slots[i].age
}

/// The voice a new poly note takes: the first free voice, or, when all are
/// busy, the first of the oldest.
pub open spec fn poly_voice_choice(slots: Seq<VoiceSlot>, v: int) -> bool {
    if exists|i: int| 0 <= i < slots.len() && slots[i].note is None {
        is_first_free(slots, v)
    } else {
        is_first_oldest(slots, v)
    }
}

/// A detune in cents, held exactly as the fraction `num / den` (with
/// `den >= 1`).
#[derive(Debug, Clone, Copy, PartialEq, Eq, Structural)]
pub struct Detune {
    pub num: i128,
    pub den: u64,
}

/// No detune: zero cents.
pub open spec fn no_detune() -> Detune {
    Detune { num: 0, den: 1 }
}

/// The numerator of the detune of voice `i` of `n` in unison mode with a
/// spread of `d` cents: an even spread from `-d` on the first voice to `+d`
/// on the last, `((i / (n - 1)) - 1/2) * 2 * d = (2i - (n - 1)) * d / (n - 1)`.
pub open spec fn unison_num(i: int, n: int, d: int) -> int {
    if n <= 1 {
        0
    } else {
        (2 * i - (n - 1)) * d
    }
}

/// The denominator of the unison detune of a pool of `n` voices.
pub open spec fn unison_den(n: int) -> int {
    if n <= 1 {
        1
    } else {
        n - 1
    }
}

/// Whether `t` is the unison detune of voice `i` of `n` with spread `d`.
pub open spec fn is_unison_detune(t: Detune, i: int, n: int, d: int) -> bool {
    t.num == unison_num(i, n, d) && t.den == unison_den(n)
}

/// The slots after every slot playing `note` is released.
pub open spec fn release_note(slots: Seq<VoiceSlot>, note: u8) -> Seq<VoiceSlot> {
    Seq::new(
        slots.len(),
        |i: int|
            if slots[i].note == Some(note) {
                VoiceSlot { note: None, age: slots[i].age }
            } else {
                slots[i]
            },
    )
}

/// `r` lists, in increasing order, exactly the slots that play `note`.
pub open spec fn lists_slots_with_note(r: Seq<usize>, slots: Seq<VoiceSlot>, note: u8) -> bool {
    &&& forall|a: int, b: int| 0 <= a < b < r.len() ==> r[a] < r[b]
    &&& forall|i: int|
        0 <= i < slots.len() ==> (r.contains(i as usize) <==> slots[i].note == Some(note))
    &&& forall|k: int| 0 <= k < r.len() ==> r[k] < slots.len()
}

/// What a note-on does to the allocator `old`, giving `new`, and which
/// voices it triggers (`r`).
pub open spec fn note_on_effect(
    old: AllocatorView,
    new: AllocatorView,
    note: u8,
    r: Seq<(usize, Detune)>,
) -> bool {
    &&& new.mode == old.mode
    &&& new.age_counter == next_age(old.age_counter)
    &&& new.slots.len() == old.slots.len()
    &&& match old.mode {
        VoiceMode::Mono => {
            &&& r == seq![(0usize, no_detune())]
            &&& new.slots == old.slots.update(
                0,
                (VoiceSlot { note: Some(note), age: new.age_counter }),
            )
            &&& new.note_stack == stack_after_press(old.note_stack, note)
        },
        VoiceMode::Poly => {
            &&& r.len() == 1
            &&& r[0].1 == no_detune()
            &&& poly_voice_choice(old.slots, r[0].0 as int)
            &&& new.slots == old.slots.update(
                r[0].0 as int,
                (VoiceSlot { note: Some(note), age: new.age_counter }),
            )
            &&& new.note_stack == old.note_stack
        },
        VoiceMode::Unison { detune_cents } => {
            &&& r.len() == old.slots.len()
            &&& forall|i: int|
                0 <= i < r.len() ==> #[trigger] r[i].0 == i && is_unison_detune(
                    r[i].1,
                    i,
                    r.len() as int,
                    detune_cents as int,
                )
            &&& forall|i: int|
                0 <= i < r.len() ==> #[trigger] new.slots[i] == (VoiceSlot {
                    note: Some(note),
                    age: new.age_counter,
                })
            &&& new.note_stack == old.note_stack
        },
    }
}

/// What a note-off does to the allocator `old`, giving `new`, and which
/// voices it releases (`r`).
pub open spec fn note_off_effect(
    old: AllocatorView,
    new: AllocatorView,
    note: u8,
    r: Seq<usize>,
) -> bool {
    &&& new.mode == old.mode
    &&& new.age_counter == old.age_counter
    &&& new.slots.len() == old.slots.len()
    &&& match old.mode {
        VoiceMode::Mono => {
            let stack = remove_note(old.note_stack, note);
            &&& new.note_stack == stack
            &&& stack.len() > 0 ==> r.len() == 0 && new.slots == old.slots.update(
                0,
                (VoiceSlot { note: Some(stack.last()), age: old.slots[0].age }),
            )
            &&& stack.len() == 0 ==> r == seq![0usize] && new.slots == old.slots.update(
                0,
                (VoiceSlot { note: None, age: old.slots[0].age }),
            )
        },
        _ => {
            &&& lists_slots_with_note(r, old.slots, note)
            &&& new.slots == release_note(old.slots, note)
            &&& new.note_stack == old.note_stack
        },
    }
}

impl VoiceAllocator {
    pub fn new(num_voices: usize) -> (r: Self)
        ensures
            r@.mode == VoiceMode::Poly,
            r@.slots == Seq::new(num_voices as nat, |i: int| empty_slot()),
            r@.age_counter == 0,
            r@.note_stack.len() == 0,
    {
        let slots = vec![VoiceSlot { note: None, age: 0 }; num_voices];
        let r = VoiceAllocator { mode: VoiceMode::Poly, slots, age_counter: 0, note_stack: Vec::new() };
        assert(r@.slots =~= Seq::new(num_voices as nat, |i: int| empty_slot()));
        r
    }

    pub fn set_mode(&mut self, mode: VoiceMode)
        ensures
            final(self)@.mode == mode,
            final(self)@.slots == old(self)@.slots,
            final(self)@.age_counter == old(self)@.age_counter,
            final(self)@.note_stack == old(self)@.note_stack,
    {
        self.mode = mode;
    }

    pub fn mode(&self) -> (r: VoiceMode)
        ensures
            r == self@.mode,
    {
        self.mode
    }

    /// Grows the voice pool with free voices, or drops voices from its end.
    pub fn resize(&mut self, num_voices: usize)
        ensures
            final(self)@.slots.len() == num_voices,
            forall|i: int|
                0 <= i < num_voices ==> #[trigger] final(self)@.slots[i] == if i < old(
                    self,
                )@.slots.len() {
                    old(self)@.slots[i]
                } else {
                    empty_slot()
                },
            final(self)@.mode == old(self)@.mode,
            final(self)@.age_counter == old(self)@.age_counter,
            final(self)@.note_stack == old(self)@.note_stack,
    {
        self.slots.resize(num_voices, VoiceSlot { note: None, age: 0 });
        proof {
            if num_voices > old(self)@.slots.len() {
                assert forall|i: int| 0 <= i < num_voices implies #[trigger] self@.slots[i]
                    == if i < old(self)@.slots.len() {
                    old(self)@.slots[i]
                } else {
                    empty_slot()
                } by {
                    if i < old(self)@.slots.len() {
                        assert(self@.slots.subrange(0, old(self)@.slots.len() as int)[i]
                            == self@.slots[i]);
                    }
                }
            }
        }
    }

    /// Returns the voices to trigger, each with its detune in cents.
    pub fn note_on(&mut self, note: u8) -> (r: Vec<(usize, Detune)>)
        requires
            old(self)@.mode is Unison || old(self)@.slots.len() > 0,
        ensures
            note_on_effect(old(self)@, final(self)@, note, r@),
    {
        self.age_counter = self.age_counter.wrapping_add(1);
        let mode = self.mode;
        match mode {
            VoiceMode::Mono => {
                self.press_mono(note);
                let r = vec![(0, Detune { num: 0, den: 1 })];
                assert(r@ =~= seq![(0usize, no_detune())]);
                r
            },
            VoiceMode::Poly => {
                let voice = self.find_free_or_steal();
                self.slots.set(voice, VoiceSlot { note: Some(note), age: self.age_counter });
                vec![(voice, Detune { num: 0, den: 1 })]
            },
            VoiceMode::Unison { detune_cents } => {
                let n = self.slots.len();
                let mut result: Vec<(usize, Detune)> = Vec::with_capacity(n);
                let ghost old_len = self.slots@.len();
                let mut i: usize = 0;
                while i < n
                    invariant
                        n == self.slots@.len(),
                        self@.mode == old(self)@.mode,
                        self@.age_counter == next_age(old(self)@.age_counter),
                        self@.note_stack == old(self)@.note_stack,
                        i <= n,
                        result@.len() == i,
                        forall|k: int|
                            0 <= k < i ==> #[trigger] result@[k].0 == k && is_unison_detune(
                                result@[k].1,
                                k,
                                n as int,
                                detune_cents as int,
                            ),
                        forall|k: int|
                            0 <= k < i ==> #[trigger] self.slots@[k] == (VoiceSlot {
                                note: Some(note),
                                age: self.age_counter,
                            }),
                    decreases n - i,
                {
                    let detune = spread_detune(i, n, detune_cents);
                    self.slots.set(i, VoiceSlot { note: Some(note), age: self.age_counter });
                    result.push((i, detune));
                    i = i + 1;
                }
                result
            },
        }
    }

    /// Returns the voices to release.
    pub fn note_off(&mut self, note: u8) -> (r: Vec<usize>)
        requires
            old(self)@.mode is Mono ==> old(self)@.slots.len() > 0,
        ensures
            note_off_effect(old(self)@, final(self)@, note, r@),
    {
        let mode = self.mode;
        match mode {
            VoiceMode::Mono => {
                let mut st = self.stack_without(note);
                std::mem::swap(&mut self.note_stack, &mut st);
                let age = self.slots[0].age;
                if self.note_stack.len() > 0 {
                    let prev_note = self.note_stack[self.note_stack.len() - 1];
                    self.slots.set(0, VoiceSlot { note: Some(prev_note), age });
                    Vec::new()
                } else {
                    self.slots.set(0, VoiceSlot { note: None, age });
                    let r = vec![0];
                    assert(r@ =~= seq![0usize]);
                    r
                }
            },
            _ => {
                let mut released: Vec<usize> = Vec::new();
                let ghost old_slots = self.slots@;
                let n = self.slots.len();
                let mut i: usize = 0;
                while i < n
                    invariant
                        n == self.slots@.len(),
                        n == old_slots.len(),
                        self@.mode == old(self)@.mode,
                        self@.age_counter == old(self)@.age_counter,
                        self@.note_stack == old(self)@.note_stack,
                        i <= n,
                        forall|k: int|
                            0 <= k < i ==> #[trigger] self.slots@[k] == release_note(
                                old_slots,
                                note,
                            )[k],
                        forall|k: int| i <= k < n ==> #[trigger] self.slots@[k] == old_slots[k],
                        forall|a: int, b: int|
                            0 <= a < b < released@.len() ==> released@[a] < released@[b],
                        forall|k: int| 0 <= k < released@.len() ==> released@[k] < i,
                        forall|k: int|
                            0 <= k < i ==> (released@.contains(k as usize) <==> old_slots[k].note
                                == Some(note)),
                    decreases n - i,
                {
                    let slot = self.slots[i];
                    let ghost prev = released@;
                    if slot.note == Some(note) {
                        self.slots.set(i, VoiceSlot { note: None, age: slot.age });
                        released.push(i);
                        proof {
                            assert forall|k: int| 0 <= k <= i implies (released@.contains(
                                k as usize,
                            ) <==> old_slots[k].note == Some(note)) by {
                                if k == i {
                                    assert(released@[prev.len() as int] == i);
                                } else {
                                    if prev.contains(k as usize) {
                                        let j = choose|j: int|
                                            0 <= j < prev.len() && prev[j] == k as usize;
                                        assert(released@[j] == k as usize);
                                    }
                                    if released@.contains(k as usize) {
                                        let j = choose|j: int|
                                            0 <= j < released@.len() && released@[j] == k as usize;
                                        assert(j < prev.len());
                                        assert(prev[j] == k as usize);
                                    }
                                }
                            }
                        }
                    } else {
                        proof {
                            if released@.contains(i) {
                                let j = choose|j: int|
                                    0 <= j < released@.len() && released@[j] == i;
                                assert(released@[j] < i);
                            }
                        }
                    }
                    i = i + 1;
                }
                assert(self.slots@ =~= release_note(old_slots, note));
                released
            },
        }
    }

    /// For mono mode: the note that should be retriggered after a note_off.
    pub fn mono_retrigger_note(&self) -> (r: Option<u8>)
        ensures
            r == if self@.mode is Mono && self@.note_stack.len() > 0 {
                Some(self@.note_stack.last())
            } else {
                None
            },
    {
        match self.mode {
            VoiceMode::Mono => {
                if self.note_stack.len() > 0 {
                    Some(self.note_stack[self.note_stack.len() - 1])
                } else {
                    None
                }
            },
            _ => None,
        }
    }

    fn press_mono(&mut self, note: u8)
        requires
            old(self)@.slots.len() > 0,
        ensures
            final(self)@.mode == old(self)@.mode,
            final(self)@.age_counter == old(self)@.age_counter,
            final(self)@.slots == old(self)@.slots.update(
                0,
                (VoiceSlot { note: Some(note), age: old(self)@.age_counter }),
            ),
            final(self)@.note_stack == stack_after_press(old(self)@.note_stack, note),
    {
        let mut st = self.stack_without(note);
        st.push(note);
        self.note_stack = st;
        self.slots.set(0, VoiceSlot { note: Some(note), age: self.age_counter });
    }

    fn stack_without(&self, note: u8) -> (r: Vec<u8>)
        ensures
            r@ == remove_note(self@.note_stack, note),
    {
        without_note(&self.note_stack, note)
    }

    fn find_free_or_steal(&self) -> (r: usize)
        requires
            self@.slots.len() > 0,
        ensures
            poly_voice_choice(self@.slots, r as int),
    {
        let n = self.slots.len();
        let mut i: usize = 0;
        while i < n
            invariant
                n == self.slots@.len(),
                i <= n,
                forall|j: int| 0 <= j < i ==> self.slots@[j].note is Some,
            decreases n - i,
        {
            if self.slots[i].note.is_none() {
                return i;
            }
            i = i + 1;
        }
        // All busy: steal the oldest (lowest age), the first one on ties.
        let mut best: usize = 0;
        let mut k: usize = 1;
        while k < n
            invariant
                n == self.slots@.len(),
                1 <= k <= n,
                best < k,
                forall|j: int| 0 <= j < k ==> self.slots@[best as int].age <= self.slots@[j].age,
                forall|j: int| 0 <= j < best ==> self.slots@[j].age > self.slots@[best as int].age,
            decreases n - k,
        {
            if self.slots[k].age < self.slots[best].age {
                best = k;
            }
            k = k + 1;
        }
        best
    }
}

/// The held-note stack without any copy of `note`.
fn without_note(stack: &Vec<u8>, note: u8) -> (r: Vec<u8>)
    ensures
        r@ == remove_note(stack@, note),
{
    let mut kept: Vec<u8> = Vec::new();
    let mut i: usize = 0;
    let n = stack.len();
    while i < n
        invariant
            n == stack@.len(),
            i <= n,
            kept@ == remove_note(stack@.take(i as int), note),
        decreases n - i,
    {
        let x = stack[i];
        proof {
            reveal(Seq::filter);
            assert(stack@.take(i + 1).drop_last() =~= stack@.take(i as int));
            assert(stack@.take(i + 1).last() == x);
        }
        if x != note {
            kept.push(x);
        }
        i = i + 1;
    }
    assert(stack@.take(n as int) =~= stack@);
    kept
}

/// The detune of voice `i` of `n` for a unison spread of `d` cents.
fn spread_detune(i: usize, n: usize, d: i16) -> (r: Detune)
    requires
        i < n,
    ensures
        is_unison_detune(r, i as int, n as int, d as int),
{
    if n == 1 {
        return Detune { num: 0, den: 1 };
    }
    let span: u64 = (n - 1) as u64;
    let pos: i128 = 2 * (i as i128) - (span as i128);
    proof {
        lemma_spread_bound(pos as int, span as int, d as int);
    }
    let num: i128 = pos * (d as i128);
    Detune { num, den: span }
}

proof fn lemma_spread_bound(pos: int, span: int, d: int)
    requires
        1 <= span <= 0xffff_ffff_ffff_ffff,
        -span <= pos <= span,
        -0x8000 <= d <= 0x7fff,
    ensures
        -0x1_0000_0000_0000_0000_0000 <= pos * d <= 0x1_0000_0000_0000_0000_0000,
{
    let a = if pos >= 0 { pos } else { -pos };
    let b = if d >= 0 { d } else { -d };
    assert(a * b <= 0xffff_ffff_ffff_ffff * 0x8000) by (nonlinear_arith)
        requires
            0 <= a <= span,
            span <= 0xffff_ffff_ffff_ffff,
            0 <= b <= 0x8000,
    ;
    assert(a * b == if pos * d >= 0 { pos * d } else { -(pos * d) }) by (nonlinear_arith)
        requires
            a == if pos >= 0 { pos } else { -pos },
            b == if d >= 0 { d } else { -d },
    ;
}

/// The poly voice choice is a function of the slots: at most one voice
/// meets it.
pub proof fn law_poly_choice_unique(slots: Seq<VoiceSlot>, v1: int, v2: int)
    requires
        poly_voice_choice(slots, v1),
        poly_voice_choice(slots, v2),
    ensures
        v1 == v2,
{
    if exists|i: int| 0 <= i < slots.len() && slots[i].note is None {
        if v1 < v2 {
            assert(slots[v1].note is Some);
        } else if v2 < v1 {
            assert(slots[v2].note is Some);
        }
    } else {
        if v1 < v2 {
            assert(slots[v1].age > slots[v2].age);
        } else if v2 < v1 {
            assert(slots[v2].age > slots[v1].age);
        }
    }
}

/// Poly mode never steals a sounding voice while a free one exists, and
/// when all are busy it takes one triggered no later than any other.
pub proof fn law_poly_steals_only_oldest(slots: Seq<VoiceSlot>, v: int)
    requires
        poly_voice_choice(slots, v),
    ensures
        0 <= v < slots.len(),
        (exists|i: int| 0 <= i < slots.len() && slots[i].note is None) ==> slots[v].note is None,
        (forall|i: int| 0 <= i < slots.len() ==> slots[i].note is Some) ==> forall|j: int|
            0 <= j < slots.len() ==> slots[v].age <= slots[j].age,
{
}

/// Unison detune is symmetric around the centre: voice `i` and voice
/// `n-1-i` are detuned by opposite amounts, the outer voices by exactly the
/// full spread `-d` and `+d`, and no voice by more than the spread.
pub proof fn law_unison_symmetric(i: int, n: int, d: int)
    requires
        0 <= i < n,
    ensures
        unison_den(n) >= 1,
        unison_num(i, n, d) == -unison_num(n - 1 - i, n, d),
        n >= 2 ==> unison_num(0, n, d) == -d * unison_den(n) && unison_num(n - 1, n, d) == d
            * unison_den(n),
        -((if d >= 0 { d } else { -d }) * unison_den(n)) <= unison_num(i, n, d) <= (if d >= 0 {
            d
        } else {
            -d
        }) * unison_den(n),
{
    if n >= 2 {
        let span = n - 1;
        let pos = 2 * i - span;
        assert(unison_num(i, n, d) == -unison_num(n - 1 - i, n, d)) by (nonlinear_arith)
            requires
                unison_num(i, n, d) == (2 * i - span) * d,
                unison_num(n - 1 - i, n, d) == (2 * (n - 1 - i) - span) * d,
                span == n - 1,
        ;
        assert((2 * 0 - span) * d == -d * span) by (nonlinear_arith);
        assert((2 * (n - 1) - span) * d == d * span) by (nonlinear_arith)
            requires
                span == n - 1,
        ;
        let a = if pos >= 0 { pos } else { -pos };
        let b = if d >= 0 { d } else { -d };
        assert(a * b <= b * span) by (nonlinear_arith)
            requires
                0 <= a <= span,
                0 <= b,
        ;
        assert(a * b == if pos * d >= 0 { pos * d } else { -(pos * d) }) by (nonlinear_arith)
            requires
                a == if pos >= 0 { pos } else { -pos },
                b == if d >= 0 { d } else { -d },
        ;
    }
}

/// Mono last-note priority: with `a` held and `b` pressed on top of it,
/// releasing `b` leaves `a` as the note to sound.
pub proof fn law_mono_last_note_priority(stack: Seq<u8>, a: u8, b: u8)
    requires
        a != b,
    ensures
        remove_note(stack_after_press(stack_after_press(stack, a), b), b).len() > 0,
        remove_note(stack_after_press(stack_after_press(stack, a), b), b).last() == a,
{
    let s1 = stack_after_press(stack, a);
    let s2 = stack_after_press(s1, b);
    reveal(Seq::filter);
    assert(s2.drop_last() =~= remove_note(s1, b));
    assert(remove_note(s2, b) =~= remove_note(remove_note(s1, b), b));
    assert(s1.drop_last() =~= remove_note(stack, a));
    assert(remove_note(s1, b) == remove_note(remove_note(stack, a), b).push(a));
    lemma_remove_note_idempotent(remove_note(s1, b), b);
}

/// Removing a note twice is the same as removing it once.
proof fn lemma_remove_note_idempotent(s: Seq<u8>, note: u8)
    ensures
        remove_note(remove_note(s, note), note) == remove_note(s, note),
    decreases s.len(),
{
    reveal(Seq::filter);
    if s.len() > 0 {
        lemma_remove_note_idempotent(s.drop_last(), note);
        if s.last() != note {
            assert(remove_note(s, note).drop_last() =~= remove_note(s.drop_last(), note));
        }
    }
}

/// Pressing a note never leaves the same note twice on the held-note
/// stack, so releasing it removes it completely.
pub proof fn law_stack_has_no_duplicates(stack: Seq<u8>, note: u8)
    requires
        stack.no_duplicates(),
    ensures
        stack_after_press(stack, note).no_duplicates(),
        !remove_note(stack_after_press(stack, note), note).contains(note),
{
    let r = remove_note(stack, note);
    stack.lemma_filter_len(other_than(note));
    lemma_filter_sub(stack, note);
    assert forall|i: int, j: int|
        0 <= i < r.push(note).len() && 0 <= j < r.push(note).len() && i != j implies r.push(
        note,
    )[i] != r.push(note)[j] by {
        if i < r.len() && j < r.len() {
        } else if i < r.len() {
            stack.lemma_filter_pred(other_than(note), i);
        } else {
            stack.lemma_filter_pred(other_than(note), j);
        }
    }
    lemma_no_note_after_remove(r.push(note), note);
}

proof fn lemma_no_note_after_remove(s: Seq<u8>, note: u8)
    ensures
        !remove_note(s, note).contains(note),
{
    if remove_note(s, note).contains(note) {
        let i = choose|i: int| 0 <= i < remove_note(s, note).len() && remove_note(s, note)[i] == note;
        s.lemma_filter_pred(other_than(note), i);
    }
}

/// Filtering keeps the elements of a duplicate-free sequence distinct.
proof fn lemma_filter_sub(s: Seq<u8>, note: u8)
    requires
        s.no_duplicates(),
    ensures
        remove_note(s, note).no_duplicates(),
    decreases s.len(),
{
    reveal(Seq::filter);
    if s.len() > 0 {
        let d = s.drop_last();
        assert(d.no_duplicates());
        lemma_filter_sub(d, note);
        if s.last() != note {
            let r = remove_note(d, note);
            assert forall|i: int| 0 <= i < r.len() implies r[i] != s.last() by {
                d.lemma_filter_contains_rev(other_than(note), r[i]);
                d.lemma_filter_pred(other_than(note), i);
                if r[i] == s.last() {
                    assert(r.contains(r[i]));
                    let k = choose|k: int| 0 <= k < d.len() && d[k] == r[i];
                    assert(s[k] == s[s.len() - 1]);
                }
            }
        }
    }
}

} // verus!

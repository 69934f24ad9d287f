//! The on-screen piano keyboard's layout and its pointer handling: which
//! MIDI note each key plays, where it sits among the white keys, and which
//! notes a press, a drag or a release turns on and off; and the notes that
//! typed keys of the computer keyboard hold.

use vstd::prelude::*;
use crate::midi_input::MidiMessage;

verus! {

/// A keyboard of whole octaves starting at `base_octave` (MIDI note
/// `base_octave * 12`).
#[derive(Debug, Clone, Copy, PartialEq, Eq, Structural)]
pub struct PianoKeyboard {
    pub base_octave: u8,
    pub num_octaves: u8,
}

/// The notes a pointer event turns on and off.
#[derive(Debug, Clone, Copy, PartialEq, Eq, Structural)]
pub struct KeyboardResult {
    pub note_on: Option<u8>,
    pub note_off: Option<u8>,
}

/// One key: its note, its colour, and its place counted in white keys from
/// the left edge (for a black key, the number of white keys to its left:
/// it straddles the border after them).
#[derive(Debug, Clone, Copy, PartialEq, Eq, Structural)]
pub struct KeyLayout {
    pub midi_note: u8,
    pub is_black: bool,
    pub white_index: u32,
}

/// Semitones of the white keys within an octave.
pub open spec fn white_semitones() -> Seq<u8> {
    seq![0u8, 2, 4, 5, 7, 9, 11]
}

/// Semitones of the black keys within an octave.
pub open spec fn black_semitones() -> Seq<u8> {
    seq![1u8, 3, 6, 8, 10]
}

/// For each black key of an octave, the number of white keys of that
/// octave to its left.
pub open spec fn black_slots() -> Seq<u32> {
    seq![1u32, 2, 4, 5, 6]
}

/// The `j`-th white key of octave `o` of the keyboard.
pub open spec fn white_key(kb: PianoKeyboard, o: int, j: int) -> KeyLayout {
    KeyLayout {
        midi_note: ((kb.base_octave + o) * 12 + white_semitones()[j]) as u8,
        is_black: false,
        white_index: (o * 7 + j) as u32,
    }
}

/// The `j`-th black key of octave `o` of the keyboard.
pub open spec fn black_key(kb: PianoKeyboard, o: int, j: int) -> KeyLayout {
    KeyLayout {
        midi_note: ((kb.base_octave + o) * 12 + black_semitones()[j]) as u8,
        is_black: true,
        white_index: (o * 7 + black_slots()[j]) as u32,
    }
}

const WHITE_SEMITONES: [u8; 7] = [0, 2, 4, 5, 7, 9, 11];

const BLACK_SEMITONES: [u8; 5] = [1, 3, 6, 8, 10];

const BLACK_SLOTS: [u32; 5] = [1, 2, 4, 5, 6];

impl PianoKeyboard {
    pub fn new(base_octave: u8, num_octaves: u8) -> (r: Self)
        ensures
            r.base_octave == base_octave,
            r.num_octaves == num_octaves,
    {
        PianoKeyboard { base_octave, num_octaves }
    }

    /// The keys, white ones first from left to right, then black ones from
    /// left to right (so that a search from the end meets a black key
    /// before the white keys under it). Every note must fit in a byte.
    pub fn key_layout(&self) -> (r: Vec<KeyLayout>)
        requires
            (self.base_octave + self.num_octaves) * 12 <= 256,
        ensures
            r.len() == 12 * self.num_octaves,
            forall|o: int, j: int|
                0 <= o < self.num_octaves && 0 <= j < 7 ==> #[trigger] r@[o * 7 + j]
                    == white_key(*self, o, j),
            forall|o: int, j: int|
                0 <= o < self.num_octaves && 0 <= j < 5 ==> #[trigger] r@[7
                    * self.num_octaves + o * 5 + j] == black_key(*self, o, j),
    {
        let n = self.num_octaves;
        let ghost kb = *self;
        let ws: &[u8] = &WHITE_SEMITONES;
        let bs: &[u8] = &BLACK_SEMITONES;
        let slots: &[u32] = &BLACK_SLOTS;
        assert(ws@ =~= white_semitones());
        assert(bs@ =~= black_semitones());
        assert(slots@ =~= black_slots());
        let mut keys: Vec<KeyLayout> = Vec::new();
        let mut o: u8 = 0;
        while o < n
            invariant
                kb == *self,
                n == kb.num_octaves,
                (kb.base_octave + n) * 12 <= 256,
                0 <= o <= n,
                ws@ == white_semitones(),
                keys.len() == o * 7,
                forall|oo: int, j: int|
                    0 <= oo < o && 0 <= j < 7 ==> #[trigger] keys@[oo * 7 + j] == white_key(
                        kb,
                        oo,
                        j,
                    ),
            decreases n - o,
        {
            let mut j: usize = 0;
            while j < 7
                invariant
                    kb == *self,
                    n == kb.num_octaves,
                    (kb.base_octave + n) * 12 <= 256,
                    0 <= o < n,
                    0 <= j <= 7,
                    ws@ == white_semitones(),
                    keys.len() == o * 7 + j,
                    forall|oo: int, jj: int|
                        0 <= oo < o && 0 <= jj < 7 ==> #[trigger] keys@[oo * 7 + jj] == white_key(
                            kb,
                            oo,
                            jj,
                        ),
                    forall|jj: int|
                        0 <= jj < j ==> #[trigger] keys@[o * 7 + jj] == white_key(kb, o as int, jj),
                decreases 7 - j,
            {
                let note: u8 = (self.base_octave + o) * 12 + ws[j];
                keys.push(KeyLayout { midi_note: note, is_black: false, white_index: o as u32 * 7 + j as u32 });
                j = j + 1;
            }
            o = o + 1;
        }
        let mut o: u8 = 0;
        while o < n
            invariant
                kb == *self,
                n == kb.num_octaves,
                (kb.base_octave + n) * 12 <= 256,
                0 <= o <= n,
                bs@ == black_semitones(),
                slots@ == black_slots(),
                keys.len() == n * 7 + o * 5,
                forall|oo: int, j: int|
                    0 <= oo < n && 0 <= j < 7 ==> #[trigger] keys@[oo * 7 + j] == white_key(
                        kb,
                        oo,
                        j,
                    ),
                forall|oo: int, j: int|
                    0 <= oo < o && 0 <= j < 5 ==> #[trigger] keys@[7 * n + oo * 5 + j]
                        == black_key(kb, oo, j),
            decreases n - o,
        {
            let mut j: usize = 0;
            while j < 5
                invariant
                    kb == *self,
                    n == kb.num_octaves,
                    (kb.base_octave + n) * 12 <= 256,
                    0 <= o < n,
                    0 <= j <= 5,
                    bs@ == black_semitones(),
                    slots@ == black_slots(),
                    keys.len() == n * 7 + o * 5 + j,
                    forall|oo: int, jj: int|
                        0 <= oo < n && 0 <= jj < 7 ==> #[trigger] keys@[oo * 7 + jj] == white_key(
                            kb,
                            oo,
                            jj,
                        ),
                    forall|oo: int, jj: int|
                        0 <= oo < o && 0 <= jj < 5 ==> #[trigger] keys@[7 * n + oo * 5 + jj]
                            == black_key(kb, oo, jj),
                    forall|jj: int|
                        0 <= jj < j ==> #[trigger] keys@[7 * n + o * 5 + jj] == black_key(
                            kb,
                            o as int,
                            jj,
                        ),
                decreases 5 - j,
            {
                let note: u8 = (self.base_octave + o) * 12 + bs[j];
                keys.push(KeyLayout { midi_note: note, is_black: true, white_index: o as u32 * 7 + slots[j] });
                j = j + 1;
            }
            o = o + 1;
        }
        keys
    }

    /// One frame of pointer handling. While the pointer is down on a key
    /// other than the one it holds, that key's note turns on and the held
    /// one, if any, turns off (a glissando). When the pointer is up, the
    /// held note turns off. Otherwise nothing changes.
    pub fn pointer(
        &self,
        pointer_down: bool,
        hit_note: Option<u8>,
        mouse_note: &mut Option<u8>,
    ) -> (r: KeyboardResult)
        ensures
            pointer_down && hit_note is Some && *old(mouse_note) != hit_note ==> {
                &&& r.note_on == hit_note
                &&& r.note_off == *old(mouse_note)
                &&& *final(mouse_note) == hit_note
            },
            pointer_down && (hit_note is None || *old(mouse_note) == hit_note) ==> {
                &&& r.note_on is None
                &&& r.note_off is None
                &&& *final(mouse_note) == *old(mouse_note)
            },
            !pointer_down ==> {
                &&& r.note_on is None
                &&& r.note_off == *old(mouse_note)
                &&& *final(mouse_note) is None
            },
    {
        let mut result = KeyboardResult { note_on: None, note_off: None };
        if pointer_down {
            if let Some(note) = hit_note {
                if *mouse_note != Some(note) {
                    if let Some(prev) = *mouse_note {
                        result.note_off = Some(prev);
                    }
                    result.note_on = Some(note);
                    *mouse_note = Some(note);
                }
            }
        } else if mouse_note.is_some() {
            result.note_off = *mouse_note;
            *mouse_note = None;
        }
        result
    }
}

/// A key of the computer keyboard pressed or released in one frame: its
/// note, whether it went down, and whether it is an auto-repeat.
pub type KeyPress = (u8, bool, bool);

/// Whether the frame's events also press `note` (not as a repeat).
pub open spec fn pressed_in_frame(events: Seq<KeyPress>, note: u8) -> bool {
    exists|i: int| 0 <= i < events.len() && #[trigger] events[i] == (note, true, false)
}

/// One event of a frame applied to the held notes: a new press holds the
/// note and plays it at velocity 100; a release of a held note lets it go
/// and stops it, unless the same frame also presses it; repeats and
/// everything else change nothing.
pub open spec fn key_step(held: Seq<u8>, frame: Seq<KeyPress>, e: KeyPress) -> (Seq<u8>, Seq<MidiMessage>) {
    let (note, pressed, repeat) = e;
    if repeat {
        (held, Seq::empty())
    } else if pressed && !held.contains(note) {
        (held.push(note), seq![MidiMessage::NoteOn { note, velocity: 100 }])
    } else if !pressed && held.contains(note) && !pressed_in_frame(frame, note) {
        (held.filter(|n: u8| n != note), seq![MidiMessage::NoteOff { note }])
    } else {
        (held, Seq::empty())
    }
}

/// The first `k` events of a frame applied in order.
pub open spec fn key_run(held: Seq<u8>, frame: Seq<KeyPress>, k: int) -> (Seq<u8>, Seq<MidiMessage>)
    decreases k,
{
    if k <= 0 {
        (held, Seq::empty())
    } else {
        let (h, out) = key_run(held, frame, k - 1);
        let (h2, out2) = key_step(h, frame, frame[k - 1]);
        (h2, out + out2)
    }
}

fn held_contains(held: &Vec<u8>, note: u8) -> (r: bool)
    ensures
        r == held@.contains(note),
{
    let mut i: usize = 0;
    while i < held.len()
        invariant
            i <= held.len(),
            forall|j: int| 0 <= j < i ==> held@[j] != note,
        decreases held.len() - i,
    {
        if held[i] == note {
            return true;
        }
        i = i + 1;
    }
    false
}

fn release(held: &mut Vec<u8>, note: u8)
    ensures
        final(held)@ == old(held)@.filter(|n: u8| n != note),
{
    let mut kept: Vec<u8> = Vec::new();
    let mut i: usize = 0;
    while i < held.len()
        invariant
            i <= held.len(),
            kept@ == held@.take(i as int).filter(|n: u8| n != note),
        decreases held.len() - i,
    {
        proof {
            reveal_with_fuel(Seq::filter, 1);
            assert(held@.take(i + 1).drop_last() =~= held@.take(i as int));
        }
        if held[i] != note {
            kept.push(held[i]);
        }
        i = i + 1;
        assert(kept@ =~= held@.take(i as int).filter(|n: u8| n != note));
    }
    assert(held@.take(held.len() as int) =~= held@);
    *held = kept;
}

fn frame_presses(events: &[KeyPress], note: u8) -> (r: bool)
    ensures
        r == pressed_in_frame(events@, note),
{
    let mut i: usize = 0;
    while i < events.len()
        invariant
            i <= events.len(),
            forall|j: int| 0 <= j < i ==> events@[j] != (note, true, false),
        decreases events.len() - i,
    {
        let (n, p, r) = events[i];
        if n == note && p && !r {
            return true;
        }
        i = i + 1;
    }
    false
}

/// Applies one frame of computer-keyboard events to the held notes and
/// returns the notes to start and stop, in order.
pub fn computer_keys(held: &mut Vec<u8>, events: &[KeyPress]) -> (r: Vec<MidiMessage>)
    ensures
        (final(held)@, r@) == key_run(old(held)@, events@, events@.len() as int),
{
    let mut out: Vec<MidiMessage> = Vec::new();
    let mut i: usize = 0;
    while i < events.len()
        invariant
            i <= events.len(),
            (held@, out@) == key_run(old(held)@, events@, i as int),
        decreases events.len() - i,
    {
        let (note, pressed, repeat) = events[i];
        let ghost before = (held@, out@);
        if !repeat {
            if pressed && !held_contains(held, note) {
                held.push(note);
                out.push(MidiMessage::NoteOn { note, velocity: 100 });
            } else if !pressed && held_contains(held, note) && !frame_presses(events, note) {
                release(held, note);
                out.push(MidiMessage::NoteOff { note });
            }
        }
        i = i + 1;
        proof {
            let (h, o) = key_run(old(held)@, events@, i - 1);
            let (h2, o2) = key_step(h, events@, events@[i - 1]);
            assert(before == (h, o));
            assert(held@ =~= h2);
            assert(out@ =~= o + o2);
        }
    }
    out
}

/// Holding keys never holds a note twice: if no note is held twice before
/// a frame, none is after it.
pub proof fn law_held_notes_distinct(held: Seq<u8>, frame: Seq<KeyPress>, k: int)
    requires
        held.no_duplicates(),
        0 <= k <= frame.len(),
    ensures
        key_run(held, frame, k).0.no_duplicates(),
    decreases k,
{
    if k > 0 {
        law_held_notes_distinct(held, frame, k - 1);
        let h = key_run(held, frame, k - 1).0;
        let (note, pressed, repeat) = frame[k - 1];
        if !repeat && !pressed && h.contains(note) && !pressed_in_frame(frame, note) {
            lemma_filter_distinct(h, note);
        }
    }
}

proof fn lemma_filter_distinct(h: Seq<u8>, note: u8)
    requires
        h.no_duplicates(),
    ensures
        h.filter(|n: u8| n != note).no_duplicates(),
    decreases h.len(),
{
    reveal_with_fuel(Seq::filter, 1);
    if h.len() > 0 {
        lemma_filter_distinct(h.drop_last(), note);
        assert(h.drop_last().no_duplicates());
        let f0 = h.drop_last().filter(|n: u8| n != note);
        if h.last() != note {
            assert(h.filter(|n: u8| n != note) =~= f0.push(h.last()));
            assert(!f0.contains(h.last())) by {
                if f0.contains(h.last()) {
                    h.drop_last().lemma_filter_contains_rev(|n: u8| n != note, h.last());
                    let j = choose|j: int| 0 <= j < h.drop_last().len() && h.drop_last()[j] == h.last();
                    assert(h[j] == h[h.len() - 1]);
                }
            }
        } else {
            assert(h.filter(|n: u8| n != note) =~= f0);
        }
    }
}

} // verus!

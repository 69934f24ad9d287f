//! Standard MIDI files built from scratch: the variable-length quantity
//! encoding of delta times, and two single-track demo songs (a melody and
//! a chord progression).

use vstd::prelude::*;

verus! {

/// The leading bytes of a variable-length quantity for `v` (at least 1):
/// seven bits per byte, most significant first, every byte with its top
/// bit set.
pub open spec fn vlq_prefix(v: nat) -> Seq<u8>
    decreases v,
{
    if v < 128 {
        seq![(v + 128) as u8]
    } else {
        vlq_prefix(v / 128).push((v % 128 + 128) as u8)
    }
}

/// The variable-length quantity for `v`: seven bits per byte, most
/// significant first; every byte but the last has its top bit set.
pub open spec fn vlq(v: nat) -> Seq<u8> {
    if v < 128 {
        seq![v as u8]
    } else {
        vlq_prefix(v / 128).push((v % 128) as u8)
    }
}

/// The number a sequence of variable-length bytes stands for: the low
/// seven bits of each byte, most significant first.
pub open spec fn vlq_decode(s: Seq<u8>) -> nat
    decreases s.len(),
{
    if s.len() == 0 {
        0
    } else {
        vlq_decode(s.drop_last()) * 128 + (s.last() % 128) as nat
    }
}

fn push_vlq_prefix(buf: &mut Vec<u8>, v: u32)
    requires
        v > 0,
    ensures
        final(buf)@ == old(buf)@ + vlq_prefix(v as nat),
    decreases v,
{
    if v >= 128 {
        push_vlq_prefix(buf, v / 128);
    }
    let low: u8 = (v % 128) as u8;
    let byte: u8 = low | 0x80;
    assert(byte == low + 128) by (bit_vector)
        requires
            low < 128,
            byte == low | 0x80,
    ;
    let ghost before = buf@;
    buf.push(byte);
    proof {
        if v >= 128 {
            assert(vlq_prefix(v as nat) == vlq_prefix((v / 128) as nat).push((v % 128 + 128) as u8));
        }
        assert(buf@ =~= old(buf)@ + vlq_prefix(v as nat));
    }
}

/// Appends `value` as a variable-length quantity, the encoding of delta
/// times in a MIDI track.
pub fn write_variable_length(buf: &mut Vec<u8>, value: u32)
    ensures
        final(buf)@ == old(buf)@ + vlq(value as nat),
{
    if value < 128 {
        buf.push(value as u8);
        assert(buf@ =~= old(buf)@ + vlq(value as nat));
        return;
    }
    push_vlq_prefix(buf, value / 128);
    let ghost before = buf@;
    buf.push((value % 128) as u8);
    assert(buf@ =~= old(buf)@ + vlq(value as nat));
}

proof fn lemma_vlq_prefix(v: nat)
    requires
        v > 0,
    ensures
        vlq_prefix(v).len() >= 1,
        vlq_decode(vlq_prefix(v)) == v,
        forall|i: int| 0 <= i < vlq_prefix(v).len() ==> #[trigger] vlq_prefix(v)[i] >= 128,
        v < 128 ==> vlq_prefix(v).len() == 1,
        v < 0x4000 ==> vlq_prefix(v).len() <= 2,
        v < 0x20_0000 ==> vlq_prefix(v).len() <= 3,
        v < 0x1000_0000 ==> vlq_prefix(v).len() <= 4,
    decreases v,
{
    let s = vlq_prefix(v);
    if v < 128 {
        assert(s.drop_last() =~= Seq::<u8>::empty());
        assert(s.last() == (v + 128) as u8);
        assert((v + 128) % 128 == v % 128);
        assert(vlq_decode(s.drop_last()) == 0);
        assert(vlq_decode(s) == vlq_decode(s.drop_last()) * 128 + (s.last() % 128) as nat);
    } else {
        lemma_vlq_prefix(v / 128);
        assert(s.drop_last() =~= vlq_prefix(v / 128));
        let low = v % 128;
        assert(s.last() == (low + 128) as u8);
        assert((low + 128) % 128 == low);
        assert(v == (v / 128) * 128 + low);
        assert(vlq_decode(s) == vlq_decode(s.drop_last()) * 128 + (s.last() % 128) as nat);
    }
}

/// Decoding a variable-length quantity gives back the number encoded; all
/// its bytes but the last have the top bit set, the last has it clear, and
/// a 32-bit value takes at most five bytes.
pub proof fn law_variable_length_round_trip(v: u32)
    ensures
        vlq_decode(vlq(v as nat)) == v,
        vlq(v as nat).last() < 128,
        forall|i: int| 0 <= i < vlq(v as nat).len() - 1 ==> #[trigger] vlq(v as nat)[i] >= 128,
        1 <= vlq(v as nat).len() <= 5,
{
    let s = vlq(v as nat);
    if v < 128 {
        assert(s.drop_last() =~= Seq::<u8>::empty());
        assert(vlq_decode(s.drop_last()) == 0);
        assert(vlq_decode(s) == vlq_decode(s.drop_last()) * 128 + (s.last() % 128) as nat);
    } else {
        lemma_vlq_prefix((v / 128) as nat);
        assert(s.drop_last() =~= vlq_prefix((v / 128) as nat));
        assert(v == (v / 128) * 128 + v % 128);
        assert(vlq_decode(s) == vlq_decode(s.drop_last()) * 128 + (s.last() % 128) as nat);
    }
}

/// A 32-bit number as four bytes, most significant first.
pub open spec fn be32(v: u32) -> Seq<u8> {
    seq![(v / 0x100_0000) as u8, (v / 0x1_0000 % 256) as u8, (v / 256 % 256) as u8, (v % 256) as u8]
}

/// A format-0 MIDI file with one track and 480 ticks per beat.
pub open spec fn single_track_file(track: Seq<u8>) -> Seq<u8> {
    seq![0x4Du8, 0x54, 0x68, 0x64, 0, 0, 0, 6, 0, 0, 0, 1, 0x01, 0xE0] + seq![
        0x4Du8,
        0x54,
        0x72,
        0x6B,
    ] + be32(track.len() as u32) + track
}

/// A track that sets the tempo (three bytes of microseconds per beat),
/// plays `events` and ends.
pub open spec fn tempo_track(tempo: Seq<u8>, events: Seq<u8>) -> Seq<u8> {
    seq![0x00u8, 0xFF, 0x51, 0x03] + tempo + events + seq![0x00u8, 0xFF, 0x2F, 0x00]
}

/// Notes played one after another: each starts at once, with the given
/// velocity, and stops after its duration in ticks.
pub open spec fn melody_events(notes: Seq<(u8, u16)>, velocity: u8) -> Seq<u8>
    decreases notes.len(),
{
    if notes.len() == 0 {
        Seq::empty()
    } else {
        let (note, duration) = notes.last();
        melody_events(notes.drop_last(), velocity) + seq![0x00u8, 0x90, note, velocity] + vlq(
            duration as nat,
        ) + seq![0x80u8, note, 0]
    }
}

/// The demo melody: a simplified "Ode to Joy" in C major, as (note,
/// duration in ticks).
pub open spec fn demo_melody() -> Seq<(u8, u16)> {
    seq![
        (64u8, 480u16),
        (64, 480),
        (65, 480),
        (67, 480),
        (67, 480),
        (65, 480),
        (64, 480),
        (62, 480),
        (60, 480),
        (60, 480),
        (62, 480),
        (64, 480),
        (64, 720),
        (62, 240),
        (62, 960),
    ]
}

/// The notes of a chord starting together at once, with velocity 90.
pub open spec fn chord_on_events(notes: Seq<u8>) -> Seq<u8>
    decreases notes.len(),
{
    if notes.len() == 0 {
        Seq::empty()
    } else {
        chord_on_events(notes.drop_last()) + seq![0x00u8, 0x90, notes.last(), 90]
    }
}

/// The notes of a chord stopping together after `duration` ticks.
pub open spec fn chord_off_events(notes: Seq<u8>, duration: u16) -> Seq<u8>
    decreases notes.len(),
{
    if notes.len() == 0 {
        Seq::empty()
    } else if notes.len() == 1 {
        vlq(duration as nat) + seq![0x80u8, notes[0], 0]
    } else {
        chord_off_events(notes.drop_last(), duration) + seq![0x00u8, 0x80, notes.last(), 0]
    }
}

/// Chords played one after another.
pub open spec fn chord_events(chords: Seq<(Seq<u8>, u16)>) -> Seq<u8>
    decreases chords.len(),
{
    if chords.len() == 0 {
        Seq::empty()
    } else {
        let (notes, duration) = chords.last();
        chord_events(chords.drop_last()) + chord_on_events(notes) + chord_off_events(
            notes,
            duration,
        )
    }
}

/// The demo chord progression C - Am - F - G - C (the last with the octave,
/// held twice as long).
pub open spec fn demo_chords() -> Seq<(Seq<u8>, u16)> {
    seq![
        (seq![60u8, 64, 67], 1920u16),
        (seq![57u8, 60, 64], 1920),
        (seq![53u8, 57, 60], 1920),
        (seq![55u8, 59, 62], 1920),
        (seq![60u8, 64, 67, 72], 3840),
    ]
}

/// The file holding one track.
fn wrap_track(track: &Vec<u8>) -> (r: Vec<u8>)
    ensures
        r@ == single_track_file(track@),
{
    let mut data: Vec<u8> = Vec::new();
    let header: [u8; 18] = [
        0x4D,
        0x54,
        0x68,
        0x64,
        0,
        0,
        0,
        6,
        0,
        0,
        0,
        1,
        0x01,
        0xE0,
        0x4D,
        0x54,
        0x72,
        0x6B,
    ];
    let mut i: usize = 0;
    while i < 18
        invariant
            i <= 18,
            data@ == header@.subrange(0, i as int),
        decreases 18 - i,
    {
        data.push(header[i]);
        i = i + 1;
        assert(data@ =~= header@.subrange(0, i as int));
    }
    #[verifier::truncate]
    let len: u32 = track.len() as u32;
    data.push((len / 0x100_0000) as u8);
    data.push((len / 0x1_0000 % 256) as u8);
    data.push((len / 256 % 256) as u8);
    data.push((len % 256) as u8);
    let mut j: usize = 0;
    while j < track.len()
        invariant
            j <= track.len(),
            data@ == header@ + be32(len) + track@.subrange(0, j as int),
        decreases track.len() - j,
    {
        data.push(track[j]);
        j = j + 1;
        assert(data@ =~= header@ + be32(len) + track@.subrange(0, j as int));
    }
    assert(header@ =~= seq![0x4Du8, 0x54, 0x68, 0x64, 0, 0, 0, 6, 0, 0, 0, 1, 0x01, 0xE0] + seq![
        0x4Du8,
        0x54,
        0x72,
        0x6B,
    ]);
    assert(track@.subrange(0, track.len() as int) =~= track@);
    assert(data@ =~= single_track_file(track@));
    data
}

/// Appends bytes.
fn push_all(buf: &mut Vec<u8>, bytes: &[u8])
    ensures
        final(buf)@ == old(buf)@ + bytes@,
{
    let mut i: usize = 0;
    while i < bytes.len()
        invariant
            i <= bytes.len(),
            buf@ == old(buf)@ + bytes@.subrange(0, i as int),
        decreases bytes.len() - i,
    {
        buf.push(bytes[i]);
        i = i + 1;
        assert(buf@ =~= old(buf)@ + bytes@.subrange(0, i as int));
    }
    assert(bytes@.subrange(0, bytes.len() as int) =~= bytes@);
}

const MELODY: [(u8, u16); 15] = [
    (64, 480),
    (64, 480),
    (65, 480),
    (67, 480),
    (67, 480),
    (65, 480),
    (64, 480),
    (62, 480),
    (60, 480),
    (60, 480),
    (62, 480),
    (64, 480),
    (64, 720),
    (62, 240),
    (62, 960),
];

/// The demo melody as a MIDI file: tempo 120 BPM (500000 µs per beat),
/// each note at velocity 100.
pub fn demo_melody_midi() -> (r: Vec<u8>)
    ensures
        r@ == single_track_file(
            tempo_track(seq![0x07u8, 0xA1, 0x20], melody_events(demo_melody(), 100)),
        ),
{
    let melody: &[(u8, u16)] = &MELODY;
    assert(melody@ =~= demo_melody());
    let mut track: Vec<u8> = Vec::new();
    push_all(&mut track, &[0x00, 0xFF, 0x51, 0x03, 0x07, 0xA1, 0x20]);
    let ghost start = track@;
    assert(start =~= seq![0x00u8, 0xFF, 0x51, 0x03] + seq![0x07u8, 0xA1, 0x20]);
    let mut i: usize = 0;
    while i < melody.len()
        invariant
            i <= melody.len(),
            melody@ == demo_melody(),
            track@ == start + melody_events(melody@.subrange(0, i as int), 100),
        decreases melody.len() - i,
    {
        let (note, duration) = melody[i];
        push_all(&mut track, &[0x00, 0x90, note, 100]);
        write_variable_length(&mut track, duration as u32);
        push_all(&mut track, &[0x80, note, 0]);
        proof {
            let prev = melody@.subrange(0, i as int);
            let next = melody@.subrange(0, i + 1);
            assert(next.drop_last() =~= prev);
            assert(next.last() == (note, duration));
        }
        i = i + 1;
        assert(track@ =~= start + melody_events(melody@.subrange(0, i as int), 100));
    }
    push_all(&mut track, &[0x00, 0xFF, 0x2F, 0x00]);
    assert(melody@.subrange(0, melody.len() as int) =~= melody@);
    assert(track@ =~= tempo_track(seq![0x07u8, 0xA1, 0x20], melody_events(demo_melody(), 100)));
    wrap_track(&track)
}

/// Plays one chord: all its notes start at once and stop together after
/// `duration` ticks.
fn push_chord(track: &mut Vec<u8>, notes: &[u8], duration: u16)
    requires
        notes.len() >= 1,
    ensures
        final(track)@ == old(track)@ + chord_on_events(notes@) + chord_off_events(notes@, duration),
{
    let mut i: usize = 0;
    while i < notes.len()
        invariant
            i <= notes.len(),
            track@ == old(track)@ + chord_on_events(notes@.subrange(0, i as int)),
        decreases notes.len() - i,
    {
        push_all(track, &[0x00, 0x90, notes[i], 90]);
        proof {
            assert(notes@.subrange(0, i + 1).drop_last() =~= notes@.subrange(0, i as int));
        }
        i = i + 1;
        assert(track@ =~= old(track)@ + chord_on_events(notes@.subrange(0, i as int)));
    }
    assert(notes@.subrange(0, notes.len() as int) =~= notes@);
    let ghost on = track@;
    let mut i: usize = 0;
    while i < notes.len()
        invariant
            i <= notes.len(),
            notes.len() >= 1,
            on == old(track)@ + chord_on_events(notes@),
            track@ == on + chord_off_events(notes@.subrange(0, i as int), duration),
        decreases notes.len() - i,
    {
        if i == 0 {
            write_variable_length(track, duration as u32);
            push_all(track, &[0x80, notes[0], 0]);
        } else {
            push_all(track, &[0x00, 0x80, notes[i], 0]);
            proof {
                assert(notes@.subrange(0, i + 1).drop_last() =~= notes@.subrange(0, i as int));
            }
        }
        i = i + 1;
        assert(track@ =~= on + chord_off_events(notes@.subrange(0, i as int), duration));
    }
    assert(notes@.subrange(0, notes.len() as int) =~= notes@);
}

/// The demo chord progression as a MIDI file: tempo 90 BPM (666667 µs per
/// beat), each note at velocity 90.
pub fn demo_chord_midi() -> (r: Vec<u8>)
    ensures
        r@ == single_track_file(tempo_track(seq![0x0Au8, 0x2C, 0x2B], chord_events(demo_chords()))),
{
    let ghost chords = demo_chords();
    let mut track: Vec<u8> = Vec::new();
    push_all(&mut track, &[0x00, 0xFF, 0x51, 0x03, 0x0A, 0x2C, 0x2B]);
    let ghost start = track@;
    assert(start =~= seq![0x00u8, 0xFF, 0x51, 0x03] + seq![0x0Au8, 0x2C, 0x2B]);
    assert(chords.take(0) =~= Seq::<(Seq<u8>, u16)>::empty());
    assert(chord_events(chords.take(0)) == Seq::<u8>::empty());
    let c0: [u8; 3] = [60, 64, 67];
    assert(c0@ == seq![60u8, 64, 67]);
    push_chord(&mut track, &c0, 1920);
    proof {
        assert(chords.take(1).drop_last() =~= chords.take(0));
        assert(chords.take(1).last() == (c0@, 1920u16));
    }
    assert(track@ =~= start + chord_events(chords.take(1)));
    let c1: [u8; 3] = [57, 60, 64];
    assert(c1@ == seq![57u8, 60, 64]);
    push_chord(&mut track, &c1, 1920);
    proof {
        assert(chords.take(2).drop_last() =~= chords.take(1));
        assert(chords.take(2).last() == (c1@, 1920u16));
    }
    assert(track@ =~= start + chord_events(chords.take(2)));
    let c2: [u8; 3] = [53, 57, 60];
    assert(c2@ == seq![53u8, 57, 60]);
    push_chord(&mut track, &c2, 1920);
    proof {
        assert(chords.take(3).drop_last() =~= chords.take(2));
        assert(chords.take(3).last() == (c2@, 1920u16));
    }
    assert(track@ =~= start + chord_events(chords.take(3)));
    let c3: [u8; 3] = [55, 59, 62];
    assert(c3@ == seq![55u8, 59, 62]);
    push_chord(&mut track, &c3, 1920);
    proof {
        assert(chords.take(4).drop_last() =~= chords.take(3));
        assert(chords.take(4).last() == (c3@, 1920u16));
    }
    assert(track@ =~= start + chord_events(chords.take(4)));
    let c4: [u8; 4] = [60, 64, 67, 72];
    assert(c4@ == seq![60u8, 64, 67, 72]);
    push_chord(&mut track, &c4, 3840);
    proof {
        assert(chords.take(5).drop_last() =~= chords.take(4));
        assert(chords.take(5).last() == (c4@, 3840u16));
    }
    assert(track@ =~= start + chord_events(chords.take(5)));
    push_all(&mut track, &[0x00, 0xFF, 0x2F, 0x00]);
    assert(chords.take(5) =~= chords);
    assert(track@ =~= tempo_track(seq![0x0Au8, 0x2C, 0x2B], chord_events(demo_chords())));
    wrap_track(&track)
}

} // verus!

//! Standard MIDI files: merging tracks into one time-stamped note stream,
//! and a player that hands the notes out as their time comes.
//!
//! A file is parsed by midly into tracks of events with delta times in
//! ticks. The merge walks every track, accumulates its ticks, converts
//! them to microseconds at the tempo in force (tempo changes carry over
//! from one track to the next) and keeps the note-on and note-off events.
//! The result is sorted by time, stably.

use vstd::prelude::*;

verus! {

// ---------------------------------------------------------------------------
// Data
// ---------------------------------------------------------------------------

/// A single MIDI event with an absolute timestamp in microseconds.
#[derive(Debug, Clone, Copy, PartialEq, Eq, Structural)]
pub struct TimedMidiEvent {
    pub time_us: u64,
    pub note: u8,
    pub velocity: u8,
    pub is_on: bool,
}

/// Parsed MIDI file ready for playback.
pub struct MidiSequence {
    pub events: Vec<TimedMidiEvent>,
    pub duration_us: u64,
    pub name: String,
}

/// The timing field of a MIDI file header.
#[derive(Debug, Clone, Copy, PartialEq, Eq, Structural)]
pub enum MidiTiming {
    /// Ticks per beat.
    Metrical(u16),
    /// SMPTE frames per second and ticks per frame.
    Timecode(u8, u8),
}

/// What the merge reads of one track event.
#[derive(Debug, Clone, Copy, PartialEq, Eq, Structural)]
pub enum MidiEventKind {
    NoteOn { key: u8, vel: u8 },
    NoteOff { key: u8 },
    /// Set tempo, in microseconds per beat.
    Tempo(u32),
    /// Any other event: it only advances time.
    Other,
}

/// One event of a track, with its delta time in ticks.
#[derive(Debug, Clone, Copy, PartialEq, Eq, Structural)]
pub struct MidiTrackEvent {
    pub delta: u32,
    pub kind: MidiEventKind,
}

/// Why a MIDI file could not be turned into a sequence.
#[derive(Debug, Clone, Copy, PartialEq, Eq, Structural)]
pub enum MidiError {
    /// The bytes are not a standard MIDI file.
    Parse,
    /// A tick count, or a tick count times the tempo, does not fit in 64 bits.
    TimeOverflow,
}

// ---------------------------------------------------------------------------
// Specification of the merge
// ---------------------------------------------------------------------------

/// 120 beats per minute.
pub open spec fn default_tempo() -> nat {
    500_000
}

/// Ticks per beat; SMPTE timing counts frames per second times ticks per frame.
pub open spec fn spec_ticks_per_beat(t: MidiTiming) -> nat {
    match t {
        MidiTiming::Metrical(tpb) => tpb as nat,
        MidiTiming::Timecode(fps, sub) => (fps * sub) as nat,
    }
}

/// Microseconds from the start at `ticks`, with `tempo` microseconds per
/// beat; zero when there are no ticks per beat.
pub open spec fn spec_ticks_to_us(ticks: nat, tempo: nat, tpb: nat) -> nat {
    if tpb == 0 {
        0
    } else {
        ticks * tempo / tpb
    }
}

/// Whether the conversion's product fits in 64 bits.
pub open spec fn time_fits(ticks: nat, tempo: nat, tpb: nat) -> bool {
    tpb == 0 || ticks * tempo <= u64::MAX
}

/// The note event, if any, that an event kind produces at `time`.
pub open spec fn note_of(kind: MidiEventKind, time: u64) -> Option<TimedMidiEvent> {
    match kind {
        MidiEventKind::NoteOn { key, vel } => Some(
            TimedMidiEvent { time_us: time, note: key, velocity: vel, is_on: vel > 0 },
        ),
        MidiEventKind::NoteOff { key } => Some(
            TimedMidiEvent { time_us: time, note: key, velocity: 0, is_on: false },
        ),
        _ => None,
    }
}

/// Running state of the merge: the track's tick, the tempo, and the notes
/// collected so far; `None` once a time overflowed.
pub type MergeState = Option<(nat, nat, Seq<TimedMidiEvent>)>;

/// What one event does to the running state.
pub open spec fn track_step(tpb: nat, st: MergeState, ev: MidiTrackEvent) -> MergeState {
    match st {
        None => None,
        Some((tick0, tempo, out)) => {
            let tick = (tick0 + ev.delta) as nat;
            if tick > u64::MAX || !time_fits(tick, tempo, tpb) {
                None
            } else {
                let time = spec_ticks_to_us(tick, tempo, tpb) as u64;
                let tempo2 = match ev.kind {
                    MidiEventKind::Tempo(t) => t as nat,
                    _ => tempo,
                };
                let out2 = match note_of(ev.kind, time) {
                    Some(n) => out.push(n),
                    None => out,
                };
                Some((tick, tempo2, out2))
            }
        },
    }
}

/// The state after the first `n` events of a track.
pub open spec fn run_track(tpb: nat, track: Seq<MidiTrackEvent>, n: int, start: MergeState) -> MergeState
    decreases n,
{
    if n <= 0 {
        start
    } else {
        track_step(tpb, run_track(tpb, track, n - 1, start), track[n - 1])
    }
}

/// Tempo and notes after the first `k` tracks. Each track starts at tick
/// zero with the tempo that the previous tracks left.
pub open spec fn run_tracks(tpb: nat, tracks: Seq<Seq<MidiTrackEvent>>, k: int) -> Option<
    (nat, Seq<TimedMidiEvent>),
>
    decreases k,
{
    if k <= 0 {
        Some((default_tempo(), Seq::empty()))
    } else {
        match run_tracks(tpb, tracks, k - 1) {
            None => None,
            Some((tempo, out)) => match run_track(
                tpb,
                tracks[k - 1],
                tracks[k - 1].len() as int,
                Some((0, tempo, out)),
            ) {
                None => None,
                Some((_, t, o)) => Some((t, o)),
            },
        }
    }
}

/// The notes of all tracks, in track order, or `None` on overflow.
pub open spec fn merged_notes(timing: MidiTiming, tracks: Seq<Seq<MidiTrackEvent>>) -> Option<
    Seq<TimedMidiEvent>,
> {
    match run_tracks(spec_ticks_per_beat(timing), tracks, tracks.len() as int) {
        None => None,
        Some((_, out)) => Some(out),
    }
}

/// Inserts `e` after every element whose time is not later than its own.
pub open spec fn insert_by_time(s: Seq<TimedMidiEvent>, e: TimedMidiEvent) -> Seq<TimedMidiEvent>
    decreases s.len(),
{
    if s.len() == 0 {
        seq![e]
    } else if s.last().time_us <= e.time_us {
        s.push(e)
    } else {
        insert_by_time(s.drop_last(), e).push(s.last())
    }
}

/// The stable sort of `s` by time.
pub open spec fn sort_by_time(s: Seq<TimedMidiEvent>) -> Seq<TimedMidiEvent>
    decreases s.len(),
{
    if s.len() == 0 {
        s
    } else {
        insert_by_time(sort_by_time(s.drop_last()), s.last())
    }
}

/// The events of the sequence built from a file's timing and tracks.
pub open spec fn sequence_events(timing: MidiTiming, tracks: Seq<Seq<MidiTrackEvent>>) -> Option<
    Seq<TimedMidiEvent>,
> {
    match merged_notes(timing, tracks) {
        None => None,
        Some(notes) => Some(sort_by_time(notes)),
    }
}

/// The time of the last event, or zero.
pub open spec fn spec_duration(events: Seq<TimedMidiEvent>) -> u64 {
    if events.len() == 0 {
        0
    } else {
        events.last().time_us
    }
}

/// The contents of nested track vectors.
pub open spec fn tracks_view(tracks: Seq<Vec<MidiTrackEvent>>) -> Seq<Seq<MidiTrackEvent>> {
    Seq::new(tracks.len(), |i: int| tracks[i]@)
}

/// Whether `r` is the sequence built from `timing` and `tracks` under `name`.
pub open spec fn builds(
    timing: MidiTiming,
    tracks: Seq<Seq<MidiTrackEvent>>,
    name: String,
    r: Result<MidiSequence, MidiError>,
) -> bool {
    match sequence_events(timing, tracks) {
        None => r == Err::<MidiSequence, MidiError>(MidiError::TimeOverflow),
        Some(evs) => r matches Ok(s) && s.events@ == evs && s.duration_us == spec_duration(evs)
            && s.name == name,
    }
}

// ---------------------------------------------------------------------------
// Lemmas
// ---------------------------------------------------------------------------

proof fn lemma_track_stays_none(
    tpb: nat,
    track: Seq<MidiTrackEvent>,
    m: int,
    n: int,
    start: MergeState,
)
    requires
        0 <= m <= n,
        run_track(tpb, track, m, start) is None,
    ensures
        run_track(tpb, track, n, start) is None,
    decreases n - m,
{
    if m < n {
        lemma_track_stays_none(tpb, track, m, n - 1, start);
    }
}

proof fn lemma_tracks_stay_none(tpb: nat, tracks: Seq<Seq<MidiTrackEvent>>, k: int, n: int)
    requires
        0 <= k <= n,
        run_tracks(tpb, tracks, k) is None,
    ensures
        run_tracks(tpb, tracks, n) is None,
    decreases n - k,
{
    if k < n {
        lemma_tracks_stay_none(tpb, tracks, k, n - 1);
    }
}

// ---------------------------------------------------------------------------
// Merge
// ---------------------------------------------------------------------------

fn ticks_per_beat(timing: MidiTiming) -> (r: u64)
    ensures
        r == spec_ticks_per_beat(timing),
{
    match timing {
        MidiTiming::Metrical(tpb) => tpb as u64,
        MidiTiming::Timecode(fps, sub) => {
            assert((fps as u64) * (sub as u64) <= 255 * 255) by (nonlinear_arith)
                requires
                    fps <= 255,
                    sub <= 255,
            ;
            (fps as u64) * (sub as u64)
        },
    }
}

/// Microseconds at `ticks` with `tempo_us_per_beat`; zero when there are
/// no ticks per beat.
pub fn ticks_to_us(ticks: u64, tempo_us_per_beat: u64, ticks_per_beat: u64) -> (r: u64)
    requires
        time_fits(ticks as nat, tempo_us_per_beat as nat, ticks_per_beat as nat),
    ensures
        r == spec_ticks_to_us(ticks as nat, tempo_us_per_beat as nat, ticks_per_beat as nat),
{
    if ticks_per_beat == 0 {
        return 0;
    }
    ticks * tempo_us_per_beat / ticks_per_beat
}

/// The notes of all tracks with their absolute times, in track order.
fn merge_tracks(timing: MidiTiming, tracks: &Vec<Vec<MidiTrackEvent>>) -> (r: Option<
    Vec<TimedMidiEvent>,
>)
    ensures
        match merged_notes(timing, tracks_view(tracks@)) {
            None => r is None,
            Some(notes) => r matches Some(v) && v@ == notes,
        },
{
    let ghost tv = tracks_view(tracks@);
    let tpb = ticks_per_beat(timing);
    let mut events: Vec<TimedMidiEvent> = Vec::new();
    let mut tempo: u64 = 500_000;
    let mut i: usize = 0;
    while i < tracks.len()
        invariant
            tv == tracks_view(tracks@),
            tpb == spec_ticks_per_beat(timing),
            i <= tracks.len(),
            run_tracks(tpb as nat, tv, i as int) == Some((tempo as nat, events@)),
        decreases tracks.len() - i,
    {
        let track = &tracks[i];
        assert(tv[i as int] == track@);
        let ghost tempo0 = tempo as nat;
        let ghost events0 = events@;
        let mut abs_tick: u64 = 0;
        let mut j: usize = 0;
        while j < track.len()
            invariant
                tv == tracks_view(tracks@),
                tpb == spec_ticks_per_beat(timing),
                i < tracks.len(),
                track@ == tv[i as int],
                run_tracks(tpb as nat, tv, i as int) == Some((tempo0, events0)),
                j <= track.len(),
                run_track(tpb as nat, track@, j as int, Some((0, tempo0, events0))) == Some(
                    (abs_tick as nat, tempo as nat, events@),
                ),
            decreases track.len() - j,
        {
            let ev = track[j];
            let tick = match abs_tick.checked_add(ev.delta as u64) {
                Some(t) => t,
                None => {
                    proof {
                        lemma_track_stays_none(
                            tpb as nat,
                            track@,
                            j + 1,
                            track@.len() as int,
                            Some((0, tempo0, events0)),
                        );
                        lemma_tracks_stay_none(tpb as nat, tv, i + 1, tv.len() as int);
                    }
                    return None;
                },
            };
            if tpb != 0 && tick.checked_mul(tempo).is_none() {
                proof {
                    lemma_track_stays_none(
                        tpb as nat,
                        track@,
                        j + 1,
                        track@.len() as int,
                        Some((0, tempo0, events0)),
                    );
                    lemma_tracks_stay_none(tpb as nat, tv, i + 1, tv.len() as int);
                }
                return None;
            }
            let time_us = ticks_to_us(tick, tempo, tpb);
            match ev.kind {
                MidiEventKind::Tempo(t) => {
                    tempo = t as u64;
                },
                MidiEventKind::NoteOn { key, vel } => {
                    events.push(
                        TimedMidiEvent { time_us, note: key, velocity: vel, is_on: vel > 0 },
                    );
                },
                MidiEventKind::NoteOff { key } => {
                    events.push(TimedMidiEvent { time_us, note: key, velocity: 0, is_on: false });
                },
                MidiEventKind::Other => {},
            }
            abs_tick = tick;
            j = j + 1;
        }
        i = i + 1;
    }
    Some(events)
}

// ---------------------------------------------------------------------------
// Stable sort by time
// ---------------------------------------------------------------------------

/// Inserting behind a suffix of later events: the suffix stays behind.
proof fn lemma_insert_split(s: Seq<TimedMidiEvent>, e: TimedMidiEvent, k: int)
    requires
        0 <= k <= s.len(),
        forall|m: int| k <= m < s.len() ==> s[m].time_us > e.time_us,
    ensures
        insert_by_time(s, e) == insert_by_time(s.take(k), e) + s.skip(k),
    decreases s.len() - k,
{
    if k == s.len() {
        assert(s.take(k) =~= s);
        assert(insert_by_time(s.take(k), e) + s.skip(k) =~= insert_by_time(s, e));
    } else {
        lemma_insert_split(s, e, k + 1);
        let t = s.take(k + 1);
        assert(t.last() == s[k]);
        assert(t.drop_last() =~= s.take(k));
        assert(insert_by_time(t, e) == insert_by_time(s.take(k), e).push(s[k]));
        assert(insert_by_time(s.take(k), e).push(s[k]) + s.skip(k + 1) =~= insert_by_time(
            s.take(k),
            e,
        ) + s.skip(k));
    }
}

/// Whether the times never decrease.
pub open spec fn sorted_by_time(s: Seq<TimedMidiEvent>) -> bool {
    forall|i: int, j: int| 0 <= i <= j < s.len() ==> s[i].time_us <= s[j].time_us
}

/// The events stamped `t`.
pub open spec fn at_time(t: u64) -> spec_fn(TimedMidiEvent) -> bool {
    |x: TimedMidiEvent| x.time_us == t
}

proof fn lemma_insert_keeps_events(s: Seq<TimedMidiEvent>, e: TimedMidiEvent)
    ensures
        insert_by_time(s, e).len() == s.len() + 1,
        insert_by_time(s, e).to_multiset() =~= s.to_multiset().insert(e),
        insert_by_time(s, e).last() == (if s.len() > 0 && s.last().time_us > e.time_us {
            s.last()
        } else {
            e
        }),
    decreases s.len(),
{
    broadcast use vstd::seq_lib::to_multiset_build;

    if s.len() > 0 && s.last().time_us > e.time_us {
        let dl = s.drop_last();
        lemma_insert_keeps_events(dl, e);
        assert(dl.push(s.last()) =~= s);
        assert(insert_by_time(s, e).to_multiset() =~= dl.to_multiset().insert(e).insert(
            s.last(),
        ));
        assert(s.to_multiset() =~= dl.to_multiset().insert(s.last()));
    } else if s.len() == 0 {
        assert(seq![e] =~= s.push(e));
    }
}

proof fn lemma_insert_sorted(s: Seq<TimedMidiEvent>, e: TimedMidiEvent)
    requires
        sorted_by_time(s),
    ensures
        sorted_by_time(insert_by_time(s, e)),
    decreases s.len(),
{
    if s.len() > 0 && s.last().time_us > e.time_us {
        let dl = s.drop_last();
        lemma_insert_sorted(dl, e);
        lemma_insert_keeps_events(dl, e);
        let r = insert_by_time(dl, e);
        assert(r.last().time_us <= s.last().time_us);
        assert forall|i: int, j: int|
            0 <= i <= j < r.push(s.last()).len() implies r.push(s.last())[i].time_us <= r.push(
            s.last(),
        )[j].time_us by {
            if j == r.len() && i < j {
                assert(r[i].time_us <= r[r.len() - 1].time_us);
            }
        }
    }
}

proof fn lemma_insert_stable(s: Seq<TimedMidiEvent>, e: TimedMidiEvent, t: u64)
    ensures
        insert_by_time(s, e).filter(at_time(t)) == (if e.time_us == t {
            s.filter(at_time(t)).push(e)
        } else {
            s.filter(at_time(t))
        }),
    decreases s.len(),
{
    broadcast use vstd::seq::Seq::lemma_filter_push;

    if s.len() == 0 {
        assert(seq![e] =~= s.push(e));
    } else if s.last().time_us > e.time_us {
        let dl = s.drop_last();
        lemma_insert_stable(dl, e, t);
        assert(dl.push(s.last()) =~= s);
    }
}

/// The merged notes come out in time order.
pub proof fn law_sorted_in_time_order(s: Seq<TimedMidiEvent>)
    ensures
        sorted_by_time(sort_by_time(s)),
    decreases s.len(),
{
    if s.len() > 0 {
        law_sorted_in_time_order(s.drop_last());
        lemma_insert_sorted(sort_by_time(s.drop_last()), s.last());
    }
}

/// Sorting neither loses nor adds an event.
pub proof fn law_sort_keeps_events(s: Seq<TimedMidiEvent>)
    ensures
        sort_by_time(s).to_multiset() == s.to_multiset(),
    decreases s.len(),
{
    broadcast use vstd::seq_lib::to_multiset_build;

    if s.len() > 0 {
        law_sort_keeps_events(s.drop_last());
        lemma_insert_keeps_events(sort_by_time(s.drop_last()), s.last());
        assert(s.drop_last().push(s.last()) =~= s);
    }
}

/// Events with the same time stay in the order of the tracks.
pub proof fn law_sort_is_stable(s: Seq<TimedMidiEvent>, t: u64)
    ensures
        sort_by_time(s).filter(at_time(t)) == s.filter(at_time(t)),
    decreases s.len(),
{
    broadcast use vstd::seq::Seq::lemma_filter_push;

    if s.len() > 0 {
        law_sort_is_stable(s.drop_last(), t);
        lemma_insert_stable(sort_by_time(s.drop_last()), s.last(), t);
        assert(s.drop_last().push(s.last()) =~= s);
    } else {
        assert(sort_by_time(s) == s);
    }
}

/// Sorts by time; events with equal times keep their order.
pub fn sort_events_by_time(v: &Vec<TimedMidiEvent>) -> (r: Vec<TimedMidiEvent>)
    ensures
        r@ == sort_by_time(v@),
{
    let mut out: Vec<TimedMidiEvent> = Vec::new();
    let mut i: usize = 0;
    assert(v@.take(0) =~= Seq::<TimedMidiEvent>::empty());
    while i < v.len()
        invariant
            i <= v.len(),
            out@ == sort_by_time(v@.take(i as int)),
        decreases v.len() - i,
    {
        let e = v[i];
        let ghost s = out@;
        proof {
            let t = v@.take(i + 1);
            assert(t.drop_last() =~= v@.take(i as int));
            assert(t.last() == e);
        }
        let mut k: usize = out.len();
        out.push(e);
        assert(s.take(k as int) =~= s);
        assert(out@ =~= s.take(k as int).push(e) + s.skip(k as int));
        while k > 0 && out[k - 1].time_us > e.time_us
            invariant
                k <= s.len(),
                out@.len() == s.len() + 1,
                out@ == s.take(k as int).push(e) + s.skip(k as int),
                forall|m: int| k <= m < s.len() ==> s[m].time_us > e.time_us,
            decreases k,
        {
            let a = out[k - 1];
            assert(a == s[k - 1]);
            out.set(k - 1, e);
            out.set(k, a);
            assert(out@ =~= s.take(k - 1).push(e) + s.skip(k - 1));
            k = k - 1;
        }
        proof {
            lemma_insert_split(s, e, k as int);
            if k > 0 {
                assert(s.take(k as int).last() == s[k - 1]);
            }
            assert(insert_by_time(s.take(k as int), e) == s.take(k as int).push(e));
        }
        i = i + 1;
    }
    assert(v@.take(v.len() as int) =~= v@);
    out
}

// ---------------------------------------------------------------------------
// Reading a file with midly
// ---------------------------------------------------------------------------

#[verifier::external_type_specification]
#[verifier::external_body]
pub struct ExSmf<'a>(midly::Smf<'a>);

#[verifier::external_type_specification]
#[verifier::external_body]
pub struct ExMidlyError(midly::Error);

/// The tracks of a file that midly parsed, each event reduced to what the
/// merge reads of it.
pub uninterp spec fn smf_tracks(smf: midly::Smf<'_>) -> Seq<Seq<MidiTrackEvent>>;

/// The timing field of the header of a file that midly parsed.
pub uninterp spec fn smf_timing(smf: midly::Smf<'_>) -> MidiTiming;

/// Timing and tracks of the file that `data` holds, as `midly::Smf::parse`
/// reads it, or `None` where it refuses the bytes.
pub uninterp spec fn smf_parse_result(data: Seq<u8>) -> Option<
    (MidiTiming, Seq<Seq<MidiTrackEvent>>),
>;

/// Calls `midly::Smf::parse`. The contract claims only that the outcome is
/// a function of the bytes, named `smf_parse_result`.
#[verifier::external_body]
fn smf_parse<'a>(data: &'a [u8]) -> (r: Result<midly::Smf<'a>, midly::Error>)
    ensures
        r is Ok <==> smf_parse_result(data@) is Some,
        r matches Ok(smf) ==> smf_parse_result(data@) == Some((smf_timing(smf), smf_tracks(smf))),
{
    midly::Smf::parse(data)
}

/// Reads `header.timing` of a parsed file.
#[verifier::external_body]
fn smf_header_timing(smf: &midly::Smf) -> (r: MidiTiming)
    ensures
        r == smf_timing(*smf),
{
    match smf.header.timing {
        midly::Timing::Metrical(tpb) => MidiTiming::Metrical(tpb.as_int()),
        midly::Timing::Timecode(fps, sub) => MidiTiming::Timecode(fps.as_int(), sub),
    }
}

/// The number of tracks of a parsed file.
#[verifier::external_body]
fn smf_track_count(smf: &midly::Smf) -> (r: usize)
    ensures
        r == smf_tracks(*smf).len(),
{
    smf.tracks.len()
}

/// The number of events of track `i` of a parsed file.
#[verifier::external_body]
fn smf_track_len(smf: &midly::Smf, i: usize) -> (r: usize)
    requires
        i < smf_tracks(*smf).len(),
    ensures
        r == smf_tracks(*smf)[i as int].len(),
{
    smf.tracks[i].len()
}

/// Event `j` of track `i` of a parsed file, reduced to its delta time and
/// to what the merge reads of its kind.
#[verifier::external_body]
fn smf_event(smf: &midly::Smf, i: usize, j: usize) -> (r: MidiTrackEvent)
    requires
        i < smf_tracks(*smf).len(),
        j < smf_tracks(*smf)[i as int].len(),
    ensures
        r == smf_tracks(*smf)[i as int][j as int],
{
    let ev = &smf.tracks[i][j];
    let kind = match ev.kind {
        midly::TrackEventKind::Midi { message: midly::MidiMessage::NoteOn { key, vel }, .. } =>
            MidiEventKind::NoteOn { key: key.as_int(), vel: vel.as_int() },
        midly::TrackEventKind::Midi { message: midly::MidiMessage::NoteOff { key, .. }, .. } =>
            MidiEventKind::NoteOff { key: key.as_int() },
        midly::TrackEventKind::Meta(midly::MetaMessage::Tempo(t)) => MidiEventKind::Tempo(t.as_int()),
        _ => MidiEventKind::Other,
    };
    MidiTrackEvent { delta: ev.delta.as_int(), kind }
}

/// Copies the tracks of a parsed file into plain vectors.
fn smf_contents(smf: &midly::Smf) -> (r: (MidiTiming, Vec<Vec<MidiTrackEvent>>))
    ensures
        r.0 == smf_timing(*smf),
        tracks_view(r.1@) == smf_tracks(*smf),
{
    let ghost model = smf_tracks(*smf);
    let timing = smf_header_timing(smf);
    let n = smf_track_count(smf);
    let mut tracks: Vec<Vec<MidiTrackEvent>> = Vec::new();
    let mut i: usize = 0;
    while i < n
        invariant
            model == smf_tracks(*smf),
            n == model.len(),
            i <= n,
            tracks@.len() == i,
            forall|k: int| 0 <= k < i ==> #[trigger] tracks@[k]@ == model[k],
        decreases n - i,
    {
        let len = smf_track_len(smf, i);
        let mut track: Vec<MidiTrackEvent> = Vec::new();
        let mut j: usize = 0;
        while j < len
            invariant
                model == smf_tracks(*smf),
                i < model.len(),
                len == model[i as int].len(),
                j <= len,
                track@ == model[i as int].take(j as int),
            decreases len - j,
        {
            track.push(smf_event(smf, i, j));
            assert(track@ =~= model[i as int].take(j + 1));
            j = j + 1;
        }
        assert(track@ =~= model[i as int]);
        tracks.push(track);
        i = i + 1;
    }
    assert(tracks_view(tracks@) =~= model);
    (timing, tracks)
}

// ---------------------------------------------------------------------------
// Sequences
// ---------------------------------------------------------------------------

impl MidiSequence {
    /// Builds the sequence from a file's timing and tracks: the note events
    /// of all tracks with their times in microseconds, sorted by time
    /// (stably), and the time of the last one as the duration.
    pub fn from_tracks(timing: MidiTiming, tracks: &Vec<Vec<MidiTrackEvent>>, name: String) -> (r:
        Result<MidiSequence, MidiError>)
        ensures
            builds(timing, tracks_view(tracks@), name, r),
    {
        match merge_tracks(timing, tracks) {
            None => Err(MidiError::TimeOverflow),
            Some(notes) => {
                let events = sort_events_by_time(&notes);
                let duration_us = if events.len() == 0 {
                    0
                } else {
                    events[events.len() - 1].time_us
                };
                Ok(MidiSequence { events, duration_us, name })
            },
        }
    }

    /// Parses the bytes of a standard MIDI file into a sequence named `name`.
    pub fn parse(data: &[u8], name: String) -> (r: Result<MidiSequence, MidiError>)
        ensures
            match smf_parse_result(data@) {
                None => r == Err::<MidiSequence, MidiError>(MidiError::Parse),
                Some((timing, tracks)) => builds(timing, tracks, name, r),
            },
    {
        match smf_parse(data) {
            Err(_) => Err(MidiError::Parse),
            Ok(smf) => {
                let (timing, tracks) = smf_contents(&smf);
                Self::from_tracks(timing, &tracks, name)
            },
        }
    }
}

// ---------------------------------------------------------------------------
// The clock
// ---------------------------------------------------------------------------

#[verifier::external_type_specification]
#[verifier::external_body]
pub struct ExInstant(std::time::Instant);

/// Reads the monotonic clock (`Instant::now`). Nothing is promised of the
/// instant it gives.
#[verifier::external_body]
fn instant_now() -> std::time::Instant {
    std::time::Instant::now()
}

/// The time since `t` (`Instant::elapsed`); it depends on the clock.
#[verifier::external_body]
fn instant_elapsed(t: &std::time::Instant) -> std::time::Duration {
    t.elapsed()
}

/// Whole microseconds of a duration (`Duration::as_micros`).
#[verifier::external_body]
fn duration_as_micros(d: &std::time::Duration) -> u128 {
    d.as_micros()
}

// ---------------------------------------------------------------------------
// Player
// ---------------------------------------------------------------------------

/// The index of the first event at or after `from` that is later than
/// `now`, or the end.
pub open spec fn next_cursor(evs: Seq<TimedMidiEvent>, from: int, now: u64) -> int
    decreases evs.len() - from,
{
    if from >= evs.len() || evs[from].time_us > now {
        from
    } else {
        next_cursor(evs, from + 1, now)
    }
}

/// The events that a poll at `now` hands out when the cursor is at `from`.
pub open spec fn due_events(evs: Seq<TimedMidiEvent>, from: int, now: u64) -> Seq<
    TimedMidiEvent,
> {
    if 0 <= from < evs.len() {
        evs.subrange(from, next_cursor(evs, from, now))
    } else {
        Seq::empty()
    }
}

proof fn lemma_next_cursor_bounds(evs: Seq<TimedMidiEvent>, from: int, now: u64)
    requires
        0 <= from,
    ensures
        from <= next_cursor(evs, from, now),
        from <= evs.len() ==> next_cursor(evs, from, now) <= evs.len(),
        forall|m: int| from <= m < next_cursor(evs, from, now) ==> evs[m].time_us <= now,
        next_cursor(evs, from, now) < evs.len() ==> evs[next_cursor(evs, from, now)].time_us
            > now,
    decreases evs.len() - from,
{
    if !(from >= evs.len() || evs[from].time_us > now) {
        lemma_next_cursor_bounds(evs, from + 1, now);
    }
}

proof fn lemma_subrange_push(evs: Seq<TimedMidiEvent>, a: int, b: int)
    requires
        0 <= a <= b < evs.len(),
    ensures
        evs.subrange(a, b + 1) == evs.subrange(a, b).push(evs[b]),
{
    assert(evs.subrange(a, b + 1) =~= evs.subrange(a, b).push(evs[b]));
}

proof fn lemma_next_cursor_later(evs: Seq<TimedMidiEvent>, from: int, t1: u64, t2: u64)
    requires
        0 <= from,
        t1 <= t2,
    ensures
        next_cursor(evs, next_cursor(evs, from, t1), t2) == next_cursor(evs, from, t2),
    decreases evs.len() - from,
{
    if !(from >= evs.len() || evs[from].time_us > t1) {
        lemma_next_cursor_later(evs, from + 1, t1, t2);
    }
}

/// Plays a MidiSequence by feeding events at the right time.
pub struct MidiPlayer {
    sequence: Option<MidiSequence>,
    cursor: usize,
    start_time: Option<std::time::Instant>,
    /// The position, in microseconds into the sequence, at the start time.
    start_offset: u64,
    paused_at: Option<u64>,
    playing: bool,
}

impl MidiPlayer {
    /// The loaded sequence.
    pub closed spec fn spec_sequence(&self) -> Option<MidiSequence> {
        self.sequence
    }

    /// The index of the next event to hand out.
    pub closed spec fn spec_cursor(&self) -> int {
        self.cursor as int
    }

    /// Whether playback has a start time on the clock.
    pub closed spec fn spec_started(&self) -> bool {
        self.start_time is Some
    }

    /// The position, in microseconds into the sequence, at the start time:
    /// the paused position when playback resumed, else zero.
    pub closed spec fn spec_start_offset(&self) -> u64 {
        self.start_offset
    }

    /// Where playback was paused, in microseconds into the sequence.
    pub closed spec fn spec_paused_at(&self) -> Option<u64> {
        self.paused_at
    }

    /// Whether the player is playing.
    pub closed spec fn spec_playing(&self) -> bool {
        self.playing
    }

    /// A player with nothing loaded.
    pub fn new() -> (r: Self)
        ensures
            r.spec_sequence() is None,
            r.spec_cursor() == 0,
            !r.spec_started(),
            r.spec_paused_at() is None,
            r.spec_start_offset() == 0,
            !r.spec_playing(),
    {
        MidiPlayer {
            sequence: None,
            cursor: 0,
            start_time: None,
            start_offset: 0,
            paused_at: None,
            playing: false,
        }
    }

    /// Loads a sequence, stopped at its start.
    pub fn load(&mut self, seq: MidiSequence)
        ensures
            final(self).spec_sequence() == Some(seq),
            final(self).spec_cursor() == 0,
            !final(self).spec_started(),
            final(self).spec_paused_at() is None,
            final(self).spec_start_offset() == 0,
            !final(self).spec_playing(),
    {
        *self = MidiPlayer {
            sequence: Some(seq),
            cursor: 0,
            start_time: None,
            start_offset: 0,
            paused_at: None,
            playing: false,
        };
    }

    /// What `play` does to the player `old`, giving `new` (the start time
    /// on the clock aside): with nothing loaded, nothing; otherwise it plays
    /// on from the paused cursor, or from the first event when not paused.
    pub open spec fn play_effect(old: MidiPlayer, new: MidiPlayer) -> bool {
        &&& old.spec_sequence() is None ==> new == old
        &&& old.spec_sequence() is Some ==> {
            &&& new.spec_playing()
            &&& new.spec_started()
            &&& new.spec_paused_at() is None
            &&& new.spec_sequence() == old.spec_sequence()
            &&& new.spec_cursor() == if old.spec_paused_at() is Some {
                old.spec_cursor()
            } else {
                0
            }
            &&& new.spec_start_offset() == match old.spec_paused_at() {
                Some(p) => p,
                None => 0,
            }
        }
    }

    /// What pausing the player `old` at `now_us` microseconds into the
    /// sequence does, giving `new`: unless playing, nothing; otherwise it
    /// stops playing and remembers `now_us`, keeping the cursor.
    pub open spec fn pause_effect(old: MidiPlayer, new: MidiPlayer, now_us: u64) -> bool {
        &&& !old.spec_playing() ==> new == old
        &&& old.spec_playing() ==> {
            &&& !new.spec_playing()
            &&& new.spec_paused_at() == Some(now_us)
            &&& new.spec_sequence() == old.spec_sequence()
            &&& new.spec_cursor() == old.spec_cursor()
            &&& new.spec_started() == old.spec_started()
            &&& new.spec_start_offset() == old.spec_start_offset()
        }
    }

    /// Starts playing, from where it was paused or else from the start. With
    /// nothing loaded it does nothing. The start time is now; the position
    /// then runs on from the paused position (or from zero) with the clock.
    pub fn play(&mut self)
        ensures
            MidiPlayer::play_effect(*old(self), *final(self)),
    {
        if self.sequence.is_none() {
            return;
        }
        let paused = self.paused_at;
        self.paused_at = None;
        let now = instant_now();
        self.start_time = Some(now);
        match paused {
            Some(p) => {
                self.start_offset = p;
            },
            None => {
                self.start_offset = 0;
                self.cursor = 0;
            },
        }
        self.playing = true;
    }

    /// Pauses at `now_us` microseconds into the sequence, keeping the
    /// position; does nothing unless playing.
    pub fn pause_at(&mut self, now_us: u64)
        ensures
            MidiPlayer::pause_effect(*old(self), *final(self), now_us),
    {
        if self.playing {
            self.paused_at = Some(now_us);
            self.playing = false;
        }
    }

    /// Pauses at the time on the clock since playback started, keeping the
    /// position; does nothing unless playing.
    pub fn pause(&mut self)
        ensures
            exists|now_us: u64| #[trigger]
                MidiPlayer::pause_effect(*old(self), *final(self), now_us) && (!old(
                    self,
                ).spec_started() ==> now_us == 0) && (old(self).spec_started() ==> now_us >= old(
                    self,
                ).spec_start_offset()),
    {
        let now_us = self.elapsed_us();
        self.pause_at(now_us);
    }

    /// Stops and rewinds; the sequence stays loaded.
    pub fn stop(&mut self)
        ensures
            !final(self).spec_playing(),
            final(self).spec_cursor() == 0,
            !final(self).spec_started(),
            final(self).spec_paused_at() is None,
            final(self).spec_start_offset() == 0,
            final(self).spec_sequence() == old(self).spec_sequence(),
    {
        self.playing = false;
        self.cursor = 0;
        self.start_time = None;
        self.start_offset = 0;
        self.paused_at = None;
    }

    pub fn is_playing(&self) -> (r: bool)
        ensures
            r == self.spec_playing(),
    {
        self.playing
    }

    pub fn has_sequence(&self) -> (r: bool)
        ensures
            r == self.spec_sequence() is Some,
    {
        self.sequence.is_some()
    }

    /// The name of the loaded sequence, or the empty string.
    pub fn sequence_name(&self) -> (r: &str)
        ensures
            r@ == match self.spec_sequence() {
                Some(s) => s.name@,
                None => Seq::<char>::empty(),
            },
    {
        match &self.sequence {
            Some(s) => s.name.as_str(),
            None => {
                proof {
                    reveal_strlit("");
                }
                ""
            },
        }
    }

    /// The duration of the loaded sequence, or zero.
    pub fn duration_us(&self) -> (r: u64)
        ensures
            r == match self.spec_sequence() {
                Some(s) => s.duration_us,
                None => 0,
            },
    {
        match &self.sequence {
            Some(s) => s.duration_us,
            None => 0,
        }
    }

    /// Microseconds into the sequence: while playing, the position at the
    /// start time plus the time on the clock since then; else where it was
    /// paused, else zero.
    pub fn position_us(&self) -> (r: u64)
        ensures
            !self.spec_playing() ==> r == match self.spec_paused_at() {
                Some(p) => p,
                None => 0,
            },
            self.spec_playing() && !self.spec_started() ==> r == 0,
            self.spec_playing() && self.spec_started() ==> r >= self.spec_start_offset(),
    {
        if self.playing {
            self.elapsed_us()
        } else {
            match self.paused_at {
                Some(p) => p,
                None => 0,
            }
        }
    }

    /// Hands out the events that are due at `now_us` microseconds into the
    /// sequence, in order, and moves past them; playback ends when none is
    /// left.
    pub fn poll_at(&mut self, now_us: u64) -> (r: Vec<TimedMidiEvent>)
        ensures
            !old(self).spec_playing() || old(self).spec_sequence() is None ==> {
                &&& r@ == Seq::<TimedMidiEvent>::empty()
                &&& *final(self) == *old(self)
            },
            old(self).spec_playing() ==> (old(self).spec_sequence() matches Some(s) ==> {
                let k = next_cursor(s.events@, old(self).spec_cursor(), now_us);
                &&& r@ == due_events(s.events@, old(self).spec_cursor(), now_us)
                &&& final(self).spec_cursor() == k
                &&& final(self).spec_playing() == (k < s.events@.len())
                &&& final(self).spec_sequence() == old(self).spec_sequence()
                &&& final(self).spec_started() == old(self).spec_started()
                &&& final(self).spec_paused_at() == old(self).spec_paused_at()
                &&& final(self).spec_start_offset() == old(self).spec_start_offset()
            }),
    {
        let mut fired: Vec<TimedMidiEvent> = Vec::new();
        if !self.playing {
            return fired;
        }
        let len = match &self.sequence {
            Some(s) => s.events.len(),
            None => {
                return fired;
            },
        };
        let ghost evs = self.sequence.unwrap().events@;
        let ghost c0 = self.cursor as int;
        proof {
            lemma_next_cursor_bounds(evs, c0, now_us);
        }
        let mut cursor = self.cursor;
        while cursor < len && self.event_time(cursor) <= now_us
            invariant
                self.sequence matches Some(s) && s.events@ == evs,
                len == evs.len(),
                0 <= c0 <= cursor,
                cursor <= len || cursor == c0,
                next_cursor(evs, c0, now_us) == next_cursor(evs, cursor as int, now_us),
                c0 < len ==> fired@ == evs.subrange(c0, cursor as int),
                c0 >= len ==> fired@ == Seq::<TimedMidiEvent>::empty(),
            decreases len - cursor,
        {
            let e = self.event_at(cursor);
            proof {
                lemma_subrange_push(evs, c0, cursor as int);
            }
            fired.push(e);
            cursor = cursor + 1;
        }
        self.cursor = cursor;
        if cursor >= len {
            self.playing = false;
        }
        fired
    }

    /// The time of event `i` of the loaded sequence.
    fn event_time(&self, i: usize) -> (r: u64)
        requires
            self.spec_sequence() matches Some(s) && i < s.events@.len(),
        ensures
            self.spec_sequence() matches Some(s) && r == s.events@[i as int].time_us,
    {
        match &self.sequence {
            Some(s) => s.events[i].time_us,
            None => 0,
        }
    }

    /// Event `i` of the loaded sequence.
    fn event_at(&self, i: usize) -> (r: TimedMidiEvent)
        requires
            self.spec_sequence() matches Some(s) && i < s.events@.len(),
        ensures
            self.spec_sequence() matches Some(s) && r == s.events@[i as int],
    {
        match &self.sequence {
            Some(s) => s.events[i],
            None => TimedMidiEvent { time_us: 0, note: 0, velocity: 0, is_on: false },
        }
    }

    /// Poll for events that should fire now: those due at the time on the
    /// clock since playback started.
    pub fn poll(&mut self) -> (r: Vec<TimedMidiEvent>)
        ensures
            !old(self).spec_playing() || old(self).spec_sequence() is None ==> {
                &&& r@ == Seq::<TimedMidiEvent>::empty()
                &&& *final(self) == *old(self)
            },
            old(self).spec_playing() ==> (old(self).spec_sequence() matches Some(s) ==> exists|
                now_us: u64,
            |
                {
                    let k = #[trigger] next_cursor(s.events@, old(self).spec_cursor(), now_us);
                    &&& r@ == due_events(s.events@, old(self).spec_cursor(), now_us)
                    &&& final(self).spec_cursor() == k
                    &&& final(self).spec_playing() == (k < s.events@.len())
                    &&& final(self).spec_sequence() == old(self).spec_sequence()
                    &&& final(self).spec_started() == old(self).spec_started()
                    &&& final(self).spec_paused_at() == old(self).spec_paused_at()
                    &&& final(self).spec_start_offset() == old(self).spec_start_offset()
                    &&& (old(self).spec_started() ==> now_us >= old(self).spec_start_offset())
                    &&& (!old(self).spec_started() ==> now_us == 0)
                }),
    {
        let now_us = self.elapsed_us();
        let r = self.poll_at(now_us);
        r
    }

    /// The position in microseconds: the position at the start time plus
    /// the microseconds on the clock since then (at most `u64::MAX`), or
    /// zero when playback has no start time.
    fn elapsed_us(&self) -> (r: u64)
        ensures
            !self.spec_started() ==> r == 0,
            self.spec_started() ==> r >= self.spec_start_offset(),
    {
        match &self.start_time {
            Some(t) => {
                let d = instant_elapsed(t);
                let since = duration_as_micros(&d) as u64;
                self.start_offset.saturating_add(since)
            },
            None => 0,
        }
    }
}

impl Default for MidiPlayer {
    fn default() -> (r: Self)
        ensures
            r.spec_sequence() is None,
            r.spec_cursor() == 0,
            !r.spec_started(),
            r.spec_paused_at() is None,
            r.spec_start_offset() == 0,
            !r.spec_playing(),
    {
        Self::new()
    }
}

/// Polling at `t1` and then at a later `t2` hands out exactly the events
/// that one poll at `t2` would: each event once, in sequence order.
pub proof fn law_polls_deliver_in_order(evs: Seq<TimedMidiEvent>, from: int, t1: u64, t2: u64)
    requires
        0 <= from <= evs.len(),
        t1 <= t2,
    ensures
        due_events(evs, from, t1) + due_events(evs, next_cursor(evs, from, t1), t2) == due_events(
            evs,
            from,
            t2,
        ),
{
    lemma_next_cursor_bounds(evs, from, t1);
    lemma_next_cursor_bounds(evs, from, t2);
    let k1 = next_cursor(evs, from, t1);
    lemma_next_cursor_bounds(evs, k1, t2);
    lemma_next_cursor_later(evs, from, t1, t2);
    if from < evs.len() {
        if k1 < evs.len() {
            assert(evs.subrange(from, k1) + evs.subrange(k1, next_cursor(evs, k1, t2))
                =~= evs.subrange(from, next_cursor(evs, from, t2)));
        } else {
            assert(evs.subrange(from, k1) + Seq::<TimedMidiEvent>::empty() =~= evs.subrange(
                from,
                next_cursor(evs, from, t2),
            ));
        }
    } else {
        assert(Seq::<TimedMidiEvent>::empty() + Seq::<TimedMidiEvent>::empty() =~= Seq::<
            TimedMidiEvent,
        >::empty());
    }
}


/// The cursor after polls at the times `ts`, in order, starting at `from`.
pub open spec fn cursor_after(evs: Seq<TimedMidiEvent>, from: int, ts: Seq<u64>) -> int
    decreases ts.len(),
{
    if ts.len() == 0 {
        from
    } else {
        next_cursor(evs, cursor_after(evs, from, ts.drop_last()), ts.last())
    }
}

/// What poll number `i` of the polls at the times `ts` hands out.
pub open spec fn poll_number(evs: Seq<TimedMidiEvent>, from: int, ts: Seq<u64>, i: int) -> Seq<
    TimedMidiEvent,
> {
    due_events(evs, cursor_after(evs, from, ts.take(i)), ts[i])
}

/// Everything that polls at the times `ts`, in order, hand out together.
pub open spec fn delivered(evs: Seq<TimedMidiEvent>, from: int, ts: Seq<u64>) -> Seq<
    TimedMidiEvent,
>
    decreases ts.len(),
{
    if ts.len() == 0 {
        Seq::empty()
    } else {
        delivered(evs, from, ts.drop_last()) + due_events(
            evs,
            cursor_after(evs, from, ts.drop_last()),
            ts.last(),
        )
    }
}

/// Clock readings that never go backwards.
pub open spec fn nondecreasing(ts: Seq<u64>) -> bool {
    forall|i: int, j: int| 0 <= i <= j < ts.len() ==> ts[i] <= ts[j]
}

/// The number of events due at `t`: those with a time at or before it.
pub open spec fn count_due(evs: Seq<TimedMidiEvent>, t: u64) -> nat
    decreases evs.len(),
{
    if evs.len() == 0 {
        0
    } else {
        count_due(evs.drop_last(), t) + if evs.last().time_us <= t {
            1nat
        } else {
            0nat
        }
    }
}

/// Any number of polls at clock readings that never go backwards hand out,
/// together, exactly the events from the cursor up to where one poll at the
/// last reading would stop: in sequence order, none skipped or repeated.
/// Each poll hands out only events due by its own reading.
pub proof fn law_polls_deliver_prefix(evs: Seq<TimedMidiEvent>, from: int, ts: Seq<u64>)
    requires
        0 <= from <= evs.len(),
        nondecreasing(ts),
    ensures
        from <= cursor_after(evs, from, ts) <= evs.len(),
        ts.len() > 0 ==> cursor_after(evs, from, ts) == next_cursor(evs, from, ts.last()),
        delivered(evs, from, ts) == evs.subrange(from, cursor_after(evs, from, ts)),
        forall|i: int, m: int|
            0 <= i < ts.len() && 0 <= m < poll_number(evs, from, ts, i).len() ==> (
            #[trigger] poll_number(evs, from, ts, i)[m]).time_us <= ts[i],
    decreases ts.len(),
{
    if ts.len() == 0 {
        assert(evs.subrange(from, from) =~= Seq::<TimedMidiEvent>::empty());
        return;
    }
    let rest = ts.drop_last();
    let t = ts.last();
    assert(nondecreasing(rest));
    law_polls_deliver_prefix(evs, from, rest);
    let c = cursor_after(evs, from, rest);
    lemma_next_cursor_bounds(evs, c, t);
    let k = next_cursor(evs, c, t);
    if rest.len() > 0 {
        assert(rest.last() <= t);
        lemma_next_cursor_later(evs, from, rest.last(), t);
    }
    if c < evs.len() {
        assert(evs.subrange(from, c) + evs.subrange(c, k) =~= evs.subrange(from, k));
    } else {
        assert(evs.subrange(from, c) + Seq::<TimedMidiEvent>::empty() =~= evs.subrange(from, k));
    }
    assert forall|i: int, m: int|
        0 <= i < ts.len() && 0 <= m < poll_number(evs, from, ts, i).len() implies (
        #[trigger] poll_number(evs, from, ts, i)[m]).time_us <= ts[i] by {
        if i < rest.len() {
            assert(ts.take(i) =~= rest.take(i));
            assert(poll_number(evs, from, ts, i) == poll_number(evs, from, rest, i));
        } else {
            assert(ts.take(i) =~= rest);
            assert(poll_number(evs, from, ts, i) == due_events(evs, c, t));
            if c < evs.len() {
                assert(poll_number(evs, from, ts, i)[m] == evs[c + m]);
            }
        }
    }
}

/// A count of `k` events that meet the test before index `k` and fail it
/// from there on is `k`.
proof fn lemma_count_due_split(evs: Seq<TimedMidiEvent>, t: u64, k: int)
    requires
        0 <= k <= evs.len(),
        forall|m: int| 0 <= m < k ==> #[trigger] evs[m].time_us <= t,
        forall|m: int| k <= m < evs.len() ==> #[trigger] evs[m].time_us > t,
    ensures
        count_due(evs, t) == k,
    decreases evs.len(),
{
    if evs.len() > 0 {
        let init = evs.drop_last();
        if k == evs.len() {
            assert(evs.last().time_us <= t) by {
                assert(evs[evs.len() - 1].time_us <= t);
            }
            assert forall|m: int| 0 <= m < k - 1 implies #[trigger] init[m].time_us <= t by {
                assert(init[m] == evs[m]);
            }
            lemma_count_due_split(init, t, k - 1);
        } else {
            assert(evs[evs.len() - 1].time_us > t);
            assert forall|m: int| 0 <= m < k implies #[trigger] init[m].time_us <= t by {
                assert(init[m] == evs[m]);
            }
            assert forall|m: int| k <= m < init.len() implies #[trigger] init[m].time_us > t by {
                assert(init[m] == evs[m]);
            }
            lemma_count_due_split(init, t, k);
        }
    }
}

/// For events in time order, a poll from the start stops after exactly the
/// events due at its reading: the cursor is the number of events with a
/// time at or before it.
pub proof fn law_sorted_poll_counts_due(evs: Seq<TimedMidiEvent>, t: u64)
    requires
        sorted_by_time(evs),
    ensures
        next_cursor(evs, 0, t) == count_due(evs, t),
{
    lemma_next_cursor_bounds(evs, 0, t);
    let k = next_cursor(evs, 0, t);
    assert forall|m: int| k <= m < evs.len() implies #[trigger] evs[m].time_us > t by {
        assert(evs[k].time_us <= evs[m].time_us);
    }
    lemma_count_due_split(evs, t, k);
}

/// For events in time order, polls from the start at readings that never
/// go backwards have handed out, after the last one, exactly the events due
/// at that reading, in order.
pub proof fn law_sorted_polls_deliver_due(evs: Seq<TimedMidiEvent>, ts: Seq<u64>)
    requires
        sorted_by_time(evs),
        nondecreasing(ts),
        ts.len() > 0,
    ensures
        cursor_after(evs, 0, ts) == count_due(evs, ts.last()),
        delivered(evs, 0, ts) == evs.subrange(0, count_due(evs, ts.last()) as int),
{
    law_polls_deliver_prefix(evs, 0, ts);
    law_sorted_poll_counts_due(evs, ts.last());
}


/// Pausing and then playing again resumes where playback stopped: the
/// player plays on from the cursor it had, so no event handed out before
/// the pause is handed out again. Playing when not paused starts again from
/// the first event.
pub proof fn law_pause_then_play_resumes(
    p0: MidiPlayer,
    p1: MidiPlayer,
    p2: MidiPlayer,
    q: u64,
)
    requires
        p0.spec_playing(),
        p0.spec_sequence() is Some,
        MidiPlayer::pause_effect(p0, p1, q),
        MidiPlayer::play_effect(p1, p2),
    ensures
        p1.spec_paused_at() == Some(q),
        p2.spec_playing(),
        p2.spec_sequence() == p0.spec_sequence(),
        p2.spec_cursor() == p0.spec_cursor(),
        p2.spec_paused_at() is None,
        p2.spec_started(),
        p2.spec_start_offset() == q,
{
}

/// Playing a loaded player that is not paused starts from the first event.
pub proof fn law_play_unpaused_restarts(p1: MidiPlayer, p2: MidiPlayer)
    requires
        p1.spec_sequence() is Some,
        p1.spec_paused_at() is None,
        MidiPlayer::play_effect(p1, p2),
    ensures
        p2.spec_playing(),
        p2.spec_cursor() == 0,
{
}

} // verus!

//! SID tunes: the file header, and the key events in the SID register
//! writes that a 6502 emulation of the tune's play routine produces.

use vstd::prelude::*;
use crate::text::push_char;
use crate::vgm_extract::{KeyEvent, KeyPitch};
use vstd::string::StrSliceExecFns;

verus! {

broadcast use vstd::string::group_string_axioms;

// ---------------------------------------------------------------------------
// Header
// ---------------------------------------------------------------------------

/// The header of a PSID or RSID file, and the program data after it.
pub struct SidHeader {
    pub version: u16,
    pub header_len: u16,
    pub load_addr: u16,
    pub init_addr: u16,
    pub play_addr: u16,
    pub songs: u16,
    pub default_song: u16,
    pub name: String,
    pub author: String,
    /// Program data after the header.
    pub data: Vec<u8>,
}

/// What a SID file tells of itself: title, author, and its songs.
#[derive(Debug, Clone)]
pub struct SidInfo {
    pub name: String,
    pub author: String,
    pub songs: u16,
    pub default_song: u16,
}

impl SidInfo {
    /// The title, author, song count and default song of a parsed header.
    pub fn from_header(header: &SidHeader) -> (r: SidInfo)
        ensures
            r.name@ == header.name@,
            r.author@ == header.author@,
            r.songs == header.songs,
            r.default_song == header.default_song,
    {
        SidInfo {
            name: header.name.clone(),
            author: header.author.clone(),
            songs: header.songs,
            default_song: header.default_song,
        }
    }
}

/// Why bytes are not a SID file.
#[derive(Debug, Clone, Copy, PartialEq, Eq, Structural)]
pub enum SidError {
    /// Shorter than the 0x76-byte header.
    TooShort,
    /// Does not start with `PSID` or `RSID`.
    BadMagic,
}

impl SidError {
    /// Human-readable description of the error.
    pub fn message(&self) -> (r: &'static str)
        ensures
            r@ == match self {
                SidError::TooShort => "SID file too short"@,
                SidError::BadMagic => "Not a SID file (bad magic)"@,
            },
    {
        match self {
            SidError::TooShort => "SID file too short",
            SidError::BadMagic => "Not a SID file (bad magic)",
        }
    }
}

/// The characters that `String::from_utf8_lossy` decodes from bytes:
/// invalid sequences become U+FFFD.
pub uninterp spec fn utf8_lossy(bytes: Seq<u8>) -> Seq<char>;

/// Decodes bytes as UTF-8, replacing invalid sequences
/// (`String::from_utf8_lossy`); the result is named `utf8_lossy`.
#[verifier::external_body]
fn decode_lossy(bytes: &[u8]) -> (r: String)
    ensures
        r@ == utf8_lossy(bytes@),
{
    String::from_utf8_lossy(bytes).into_owned()
}

/// `s` without its trailing NUL characters.
pub open spec fn trim_trailing_nul(s: Seq<char>) -> Seq<char>
    decreases s.len(),
{
    if s.len() > 0 && s.last() == '\0' {
        trim_trailing_nul(s.drop_last())
    } else {
        s
    }
}

/// A big-endian 16-bit field.
pub open spec fn be16(raw: Seq<u8>, i: int) -> u16 {
    (raw[i] as u16 * 256 + raw[i + 1] as u16) as u16
}

/// A text field of the header: the bytes decoded, NULs at the end dropped.
pub open spec fn text_field(raw: Seq<u8>, from: int, to: int) -> Seq<char> {
    trim_trailing_nul(utf8_lossy(raw.subrange(from, to)))
}

/// Whether `raw` starts with `PSID` or `RSID`.
pub open spec fn sid_magic(raw: Seq<u8>) -> bool {
    (raw[0] == 0x50 || raw[0] == 0x52) && raw[1] == 0x53 && raw[2] == 0x49 && raw[3] == 0x44
}

/// Whether `r` is what parsing `raw` gives.
pub open spec fn parses_sid(raw: Seq<u8>, r: Result<SidHeader, SidError>) -> bool {
    if raw.len() < 0x76 {
        r == Err::<SidHeader, SidError>(SidError::TooShort)
    } else if !sid_magic(raw) {
        r == Err::<SidHeader, SidError>(SidError::BadMagic)
    } else {
        r matches Ok(h) && {
            &&& h.version == be16(raw, 4)
            &&& h.header_len == be16(raw, 6)
            &&& h.load_addr == be16(raw, 8)
            &&& h.init_addr == be16(raw, 10)
            &&& h.play_addr == be16(raw, 12)
            &&& h.songs == be16(raw, 14)
            &&& h.default_song == be16(raw, 16)
            &&& h.name@ == text_field(raw, 0x16, 0x36)
            &&& h.author@ == text_field(raw, 0x36, 0x56)
            &&& h.data@ == if (h.header_len as int) < raw.len() {
                raw.subrange(h.header_len as int, raw.len() as int)
            } else {
                Seq::<u8>::empty()
            }
        }
    }
}

fn read_be16(raw: &[u8], i: usize) -> (r: u16)
    requires
        i + 1 < raw@.len(),
    ensures
        r == be16(raw@, i as int),
{
    (raw[i] as u16) * 256 + (raw[i + 1] as u16)
}

proof fn lemma_trim_prefix(s: Seq<char>, k: int)
    requires
        0 <= k <= s.len(),
        forall|j: int| k <= j < s.len() ==> s[j] == '\0',
    ensures
        trim_trailing_nul(s) == trim_trailing_nul(s.take(k)),
    decreases s.len() - k,
{
    if k < s.len() {
        assert(s.drop_last().take(k) =~= s.take(k));
        lemma_trim_prefix(s.drop_last(), k);
    } else {
        assert(s.take(k) =~= s);
    }
}

/// Decodes a text field: lossy UTF-8, trailing NULs dropped.
fn read_text(raw: &[u8], from: usize, to: usize) -> (r: String)
    requires
        from <= to <= raw@.len(),
    ensures
        r@ == text_field(raw@, from as int, to as int),
{
    let mut field: Vec<u8> = Vec::new();
    let mut i = from;
    while i < to
        invariant
            from <= i <= to <= raw@.len(),
            field@ == raw@.subrange(from as int, i as int),
        decreases to - i,
    {
        field.push(raw[i]);
        assert(field@ =~= raw@.subrange(from as int, i + 1));
        i = i + 1;
    }
    let decoded = decode_lossy(field.as_slice());
    let s = decoded.as_str();
    let n = s.unicode_len();
    let mut k = n;
    while k > 0 && s.get_char(k - 1) == '\0'
        invariant
            k <= n,
            n == s@.len(),
            forall|j: int| k <= j < n ==> s@[j] == '\0',
        decreases k,
    {
        k = k - 1;
    }
    proof {
        lemma_trim_prefix(s@, k as int);
        if k > 0 {
            assert(s@.take(k as int).last() == s@[k - 1]);
        }
        assert(trim_trailing_nul(s@.take(k as int)) == s@.take(k as int));
    }
    let mut out = String::new();
    let mut j: usize = 0;
    while j < k
        invariant
            j <= k <= n,
            n == s@.len(),
            out@ == s@.take(j as int),
        decreases k - j,
    {
        let c = s.get_char(j);
        push_char(&mut out, c);
        assert(out@ =~= s@.take(j + 1));
        j = j + 1;
    }
    out
}

impl SidHeader {
    /// Parses the header of a SID file.
    pub fn parse(raw: &[u8]) -> (r: Result<SidHeader, SidError>)
        ensures
            parses_sid(raw@, r),
    {
        if raw.len() < 0x76 {
            return Err(SidError::TooShort);
        }
        if !((raw[0] == 0x50 || raw[0] == 0x52) && raw[1] == 0x53 && raw[2] == 0x49 && raw[3]
            == 0x44) {
            return Err(SidError::BadMagic);
        }
        let version = read_be16(raw, 4);
        let header_len = read_be16(raw, 6);
        let load_addr = read_be16(raw, 8);
        let init_addr = read_be16(raw, 10);
        let play_addr = read_be16(raw, 12);
        let songs = read_be16(raw, 14);
        let default_song = read_be16(raw, 16);
        let name = read_text(raw, 0x16, 0x36);
        let author = read_text(raw, 0x36, 0x56);
        let start = header_len as usize;
        let mut data: Vec<u8> = Vec::new();
        if start < raw.len() {
            let mut i = start;
            while i < raw.len()
                invariant
                    start <= i <= raw@.len(),
                    data@ == raw@.subrange(start as int, i as int),
                decreases raw.len() - i,
            {
                data.push(raw[i]);
                assert(data@ =~= raw@.subrange(start as int, i + 1));
                i = i + 1;
            }
        }
        Ok(
            SidHeader {
                version,
                header_len,
                load_addr,
                init_addr,
                play_addr,
                songs,
                default_song,
                name,
                author,
                data,
            },
        )
    }
}

// ---------------------------------------------------------------------------
// Register writes
// ---------------------------------------------------------------------------

/// A write to a SID register ($D400 + `reg`) during frame `frame`.
#[derive(Debug, Clone, Copy, PartialEq, Eq, Structural)]
pub struct SidWrite {
    pub frame: u32,
    pub reg: u8,
    pub value: u8,
}

/// Where the program is loaded: the header's load address, or, when that
/// is 0, the first two data bytes (little-endian); `None` when they are
/// missing.
pub open spec fn spec_load_address(load_addr: u16, data: Seq<u8>) -> Option<int> {
    if load_addr != 0 {
        Some(load_addr as int)
    } else if data.len() >= 2 {
        Some(data[0] + data[1] * 256)
    } else {
        None
    }
}

/// The program bytes: the data after the embedded load address, if any.
pub open spec fn spec_payload(load_addr: u16, data: Seq<u8>) -> Seq<u8> {
    if load_addr == 0 {
        data.skip(2)
    } else {
        data
    }
}

/// Byte `i` of the 64 KiB memory image that runs a tune loaded at `la`:
/// the program (cut at the end of memory), an RTS at $FFF0, the three
/// interrupt vectors pointing at it, and the return address $FFEF pushed
/// on the stack (at $01FE-$01FF); zero elsewhere.
pub open spec fn image_byte(payload: Seq<u8>, la: int, i: int) -> u8 {
    if i == 0xFFF0 {
        0x60
    } else if i == 0xFFFA || i == 0xFFFC || i == 0xFFFE {
        0xF0
    } else if i == 0xFFFB || i == 0xFFFD || i == 0xFFFF {
        0xFF
    } else if i == 0x01FF {
        0xFF
    } else if i == 0x01FE {
        0xEF
    } else if la <= i < la + payload.len() {
        payload[i - la]
    } else {
        0
    }
}

/// Where a tune is loaded.
pub fn sid_load_address(header: &SidHeader) -> (r: Option<u16>)
    ensures
        match spec_load_address(header.load_addr, header.data@) {
            Some(a) => r == Some(a as u16),
            None => r is None,
        },
{
    if header.load_addr != 0 {
        Some(header.load_addr)
    } else if header.data.len() >= 2 {
        Some(header.data[0] as u16 + header.data[1] as u16 * 256)
    } else {
        None
    }
}

/// The memory a tune runs in, before its init routine is called; `None`
/// when the file gives no load address.
pub fn sid_memory_image(header: &SidHeader) -> (r: Option<Vec<u8>>)
    ensures
        match spec_load_address(header.load_addr, header.data@) {
            None => r is None,
            Some(la) => r matches Some(m) && m@.len() == 0x1_0000 && forall|i: int|
                0 <= i < 0x1_0000 ==> #[trigger] m@[i] == image_byte(
                    spec_payload(header.load_addr, header.data@),
                    la,
                    i,
                ),
        },
{
    let la = match sid_load_address(header) {
        Some(a) => a,
        None => return None,
    };
    let offset: usize = if header.load_addr == 0 {
        2
    } else {
        0
    };
    let ghost payload = spec_payload(header.load_addr, header.data@);
    assert(payload =~= header.data@.subrange(offset as int, header.data@.len() as int));
    let mut mem: Vec<u8> = Vec::new();
    let mut i: usize = 0;
    while i < 0x1_0000
        invariant
            i <= 0x1_0000,
            offset <= header.data@.len(),
            payload == header.data@.subrange(offset as int, header.data@.len() as int),
            mem@.len() == i,
            forall|k: int|
                0 <= k < i ==> #[trigger] mem@[k] == (if la <= k < la + payload.len() {
                    payload[k - la]
                } else {
                    0u8
                }),
        decreases 0x1_0000 - i,
    {
        let b: u8 = if la as usize <= i && i - (la as usize) < header.data.len() - offset {
            header.data[offset + (i - la as usize)]
        } else {
            0
        };
        mem.push(b);
        i = i + 1;
    }
    mem.set(0xFFF0, 0x60);
    mem.set(0xFFFA, 0xF0);
    mem.set(0xFFFB, 0xFF);
    mem.set(0xFFFC, 0xF0);
    mem.set(0xFFFD, 0xFF);
    mem.set(0xFFFE, 0xF0);
    mem.set(0xFFFF, 0xFF);
    mem.set(0x01FF, 0xFF);
    mem.set(0x01FE, 0xEF);
    Some(mem)
}

/// The SID register write that a store of `value` at `addr` during frame
/// `frame` is, if `addr` is one of the SID's registers ($D400-$D41C).
pub fn sid_capture(frame: u32, addr: u16, value: u8) -> (r: Option<SidWrite>)
    ensures
        r == (if 0xD400 <= addr <= 0xD41C {
            Some(SidWrite { frame, reg: (addr - 0xD400) as u8, value })
        } else {
            None
        }),
{
    if 0xD400 <= addr && addr <= 0xD41C {
        Some(SidWrite { frame, reg: (addr - 0xD400) as u8, value })
    } else {
        None
    }
}

/// Voice 0's settings at the end of the tune: control register (waveform
/// in the high nibble), 12-bit pulse width, attack/decay and
/// sustain/release registers.
#[derive(Debug, Clone, Copy, PartialEq, Eq, Structural)]
pub struct SidVoiceRegs {
    pub control: u8,
    pub pulse_width: u16,
    pub attack_decay: u8,
    pub sustain_release: u8,
}

/// Shadow state of the three voices: frequency, control, pulse width and
/// ADSR registers, and the frequency each gated voice was keyed with.
pub struct SidTracker {
    pub freq_lo: Seq<u8>,
    pub freq_hi: Seq<u8>,
    pub control: Seq<u8>,
    pub pw_lo: Seq<u8>,
    pub pw_hi: Seq<u8>,
    pub ad: Seq<u8>,
    pub sr: Seq<u8>,
    pub active: Seq<Option<u16>>,
}

pub open spec fn zeros3() -> Seq<u8> {
    seq![0u8, 0, 0]
}

pub open spec fn sid_initial() -> SidTracker {
    SidTracker {
        freq_lo: zeros3(),
        freq_hi: zeros3(),
        control: zeros3(),
        pw_lo: zeros3(),
        pw_hi: zeros3(),
        ad: zeros3(),
        sr: zeros3(),
        active: seq![None, None, None],
    }
}

/// 50 Hz frames: 20 000 microseconds each.
pub open spec fn frame_time(frame: u32) -> u64 {
    (frame * 20_000) as u64
}

/// One write's effect. Registers 0-6, 7-13 and 14-20 belong to voices 0,
/// 1 and 2 (frequency low and high, pulse width low and high, control,
/// attack/decay, sustain/release); others are ignored. A control write
/// whose bit 0 rises starts a note at the voice's frequency; one whose
/// bit 0 falls ends it.
pub open spec fn sid_step(s: SidTracker, w: SidWrite) -> (SidTracker, Seq<KeyEvent>) {
    let voice = (w.reg / 7) as int;
    let local = w.reg % 7;
    let v = w.value;
    if voice >= 3 {
        (s, seq![])
    } else if local == 0 {
        (SidTracker { freq_lo: s.freq_lo.update(voice, v), ..s }, seq![])
    } else if local == 1 {
        (SidTracker { freq_hi: s.freq_hi.update(voice, v), ..s }, seq![])
    } else if local == 2 {
        (SidTracker { pw_lo: s.pw_lo.update(voice, v), ..s }, seq![])
    } else if local == 3 {
        (SidTracker { pw_hi: s.pw_hi.update(voice, v & 0x0F), ..s }, seq![])
    } else if local == 5 {
        (SidTracker { ad: s.ad.update(voice, v), ..s }, seq![])
    } else if local == 6 {
        (SidTracker { sr: s.sr.update(voice, v), ..s }, seq![])
    } else {
        let old_gate = s.control[voice] & 1;
        let new_gate = v & 1;
        let s1 = SidTracker { control: s.control.update(voice, v), ..s };
        if old_gate == 0 && new_gate == 1 {
            let freq = ((s.freq_hi[voice] as u16) << 8u16) | (s.freq_lo[voice] as u16);
            (
                SidTracker { active: s.active.update(voice, Some(freq)), ..s1 },
                seq![
                    KeyEvent {
                        time_us: frame_time(w.frame),
                        channel: voice as u8,
                        pitch: KeyPitch::Register(freq as u32),
                        velocity: 100,
                        is_on: true,
                    },
                ],
            )
        } else if old_gate == 1 && new_gate == 0 {
            match s.active[voice] {
                Some(f) => (
                    SidTracker { active: s.active.update(voice, None), ..s1 },
                    seq![
                        KeyEvent {
                            time_us: frame_time(w.frame),
                            channel: voice as u8,
                            pitch: KeyPitch::Register(f as u32),
                            velocity: 0,
                            is_on: false,
                        },
                    ],
                ),
                None => (s1, seq![]),
            }
        } else {
            (s1, seq![])
        }
    }
}

pub open spec fn sid_run(writes: Seq<SidWrite>, n: int) -> (SidTracker, Seq<KeyEvent>)
    decreases n,
{
    if n <= 0 {
        (sid_initial(), seq![])
    } else {
        let (s, ev) = sid_run(writes, n - 1);
        let (s2, e2) = sid_step(s, writes[n - 1]);
        (s2, ev + e2)
    }
}

/// The key events of a tune's writes, and voice 0's settings at the end.
pub open spec fn sid_analysis(writes: Seq<SidWrite>) -> (Seq<KeyEvent>, SidVoiceRegs) {
    let (s, ev) = sid_run(writes, writes.len() as int);
    (
        ev,
        SidVoiceRegs {
            control: s.control[0],
            pulse_width: ((s.pw_hi[0] as u16) << 8u16) | (s.pw_lo[0] as u16),
            attack_decay: s.ad[0],
            sustain_release: s.sr[0],
        },
    )
}

fn zeros(n: usize) -> (r: Vec<u8>)
    ensures
        r@ == Seq::new(n as nat, |i: int| 0u8),
{
    let mut v: Vec<u8> = Vec::new();
    let mut k: usize = 0;
    while k < n
        invariant
            k <= n,
            v@ == Seq::new(k as nat, |i: int| 0u8),
        decreases n - k,
    {
        v.push(0);
        assert(v@ =~= Seq::new((k + 1) as nat, |i: int| 0u8));
        k = k + 1;
    }
    v
}

/// Finds the key events in a tune's SID writes (gate bits of the three
/// voices), and voice 0's settings at the end.
pub fn analyze_sid_writes(writes: &Vec<SidWrite>) -> (r: (Vec<KeyEvent>, SidVoiceRegs))
    ensures
        (r.0@, r.1) == sid_analysis(writes@),
{
    let mut freq_lo = zeros(3);
    let mut freq_hi = zeros(3);
    let mut control = zeros(3);
    let mut pw_lo = zeros(3);
    let mut pw_hi = zeros(3);
    let mut ad = zeros(3);
    let mut sr = zeros(3);
    let mut active: Vec<Option<u16>> = Vec::new();
    active.push(None);
    active.push(None);
    active.push(None);
    assert(freq_lo@ =~= zeros3());
    assert(active@ =~= sid_initial().active);
    let mut events: Vec<KeyEvent> = Vec::new();
    let mut i: usize = 0;
    while i < writes.len()
        invariant
            i <= writes.len(),
            freq_lo@.len() == 3 && freq_hi@.len() == 3 && control@.len() == 3,
            pw_lo@.len() == 3 && pw_hi@.len() == 3 && ad@.len() == 3 && sr@.len() == 3,
            active@.len() == 3,
            sid_run(writes@, i as int).0 == (SidTracker {
                freq_lo: freq_lo@,
                freq_hi: freq_hi@,
                control: control@,
                pw_lo: pw_lo@,
                pw_hi: pw_hi@,
                ad: ad@,
                sr: sr@,
                active: active@,
            }),
            sid_run(writes@, i as int).1 == events@,
        decreases writes.len() - i,
    {
        let w = writes[i];
        let ghost before = events@;
        let voice = (w.reg / 7) as usize;
        let local = w.reg % 7;
        let v = w.value;
        if voice < 3 {
            if local == 0 {
                freq_lo.set(voice, v);
            } else if local == 1 {
                freq_hi.set(voice, v);
            } else if local == 2 {
                pw_lo.set(voice, v);
            } else if local == 3 {
                pw_hi.set(voice, v & 0x0F);
            } else if local == 5 {
                ad.set(voice, v);
            } else if local == 6 {
                sr.set(voice, v);
            } else {
                let old_gate = control[voice] & 1;
                let new_gate = v & 1;
                control.set(voice, v);
                if old_gate == 0 && new_gate == 1 {
                    let freq: u16 = ((freq_hi[voice] as u16) << 8u16) | (freq_lo[voice] as u16);
                    events.push(
                        KeyEvent {
                            time_us: w.frame as u64 * 20_000,
                            channel: voice as u8,
                            pitch: KeyPitch::Register(freq as u32),
                            velocity: 100,
                            is_on: true,
                        },
                    );
                    active.set(voice, Some(freq));
                } else if old_gate == 1 && new_gate == 0 {
                    match active[voice] {
                        Some(f) => {
                            events.push(
                                KeyEvent {
                                    time_us: w.frame as u64 * 20_000,
                                    channel: voice as u8,
                                    pitch: KeyPitch::Register(f as u32),
                                    velocity: 0,
                                    is_on: false,
                                },
                            );
                            active.set(voice, None);
                        },
                        None => {},
                    }
                }
            }
        }
        proof {
            let (s2, e2) = sid_step(sid_run(writes@, i as int).0, w);
            assert(s2.freq_lo =~= freq_lo@);
            assert(s2.freq_hi =~= freq_hi@);
            assert(s2.control =~= control@);
            assert(s2.pw_lo =~= pw_lo@);
            assert(s2.pw_hi =~= pw_hi@);
            assert(s2.ad =~= ad@);
            assert(s2.sr =~= sr@);
            assert(s2.active =~= active@);
            assert(events@ =~= before + e2);
        }
        i = i + 1;
    }
    let regs = SidVoiceRegs {
        control: control[0],
        pulse_width: ((pw_hi[0] as u16) << 8u16) | (pw_lo[0] as u16),
        attack_decay: ad[0],
        sustain_release: sr[0],
    };
    (events, regs)
}

/// The waveform named by the high nibble of a control register: 1
/// triangle, 2 sawtooth, 4 pulse, 8 noise, anything else mixed.
pub open spec fn spec_waveform_name(control: u8) -> Seq<char> {
    let w = (control >> 4u8) & 0x0F;
    if w == 1 {
        "Triangle"@
    } else if w == 2 {
        "Sawtooth"@
    } else if w == 4 {
        "Pulse"@
    } else if w == 8 {
        "Noise"@
    } else {
        "Mixed"@
    }
}

/// The synthesizer's waveform parameter for a control register: triangle
/// 0, sawtooth 1, pulse 2, noise 3; a mixed waveform plays as sawtooth.
pub open spec fn spec_waveform_param(control: u8) -> u8 {
    let w = (control >> 4u8) & 0x0F;
    if w == 1 {
        0
    } else if w == 2 {
        1
    } else if w == 4 {
        2
    } else if w == 8 {
        3
    } else {
        1
    }
}

/// The name of the waveform in a control register.
pub fn waveform_name(control: u8) -> (r: &'static str)
    ensures
        r@ == spec_waveform_name(control),
{
    match (control >> 4u8) & 0x0F {
        1 => "Triangle",
        2 => "Sawtooth",
        4 => "Pulse",
        8 => "Noise",
        _ => "Mixed",
    }
}

/// The waveform parameter for a control register.
pub fn waveform_param(control: u8) -> (r: u8)
    ensures
        r == spec_waveform_param(control),
{
    match (control >> 4u8) & 0x0F {
        1 => 0,
        2 => 1,
        4 => 2,
        8 => 3,
        _ => 1,
    }
}


/// For a control register that selects one waveform (one bit of its high
/// nibble: triangle, sawtooth, pulse or noise, bits 4 to 7), the waveform
/// parameter is the position of that bit within the nibble: triangle 0,
/// sawtooth 1, pulse 2, noise 3. So different single waveforms give
/// different parameters, and the parameter names the waveform the control
/// register selects.
pub proof fn law_waveform_param_is_the_selected_bit(control: u8, other: u8)
    requires
        ({
            let w = (control >> 4u8) & 0x0F;
            w == 1 || w == 2 || w == 4 || w == 8
        }),
        ({
            let w = (other >> 4u8) & 0x0F;
            w == 1 || w == 2 || w == 4 || w == 8
        }),
    ensures
        spec_waveform_param(control) < 4,
        (1u8 << spec_waveform_param(control)) == (control >> 4u8) & 0x0F,
        spec_waveform_param(control) == spec_waveform_param(other) <==> (control >> 4u8) & 0x0F
            == (other >> 4u8) & 0x0F,
        spec_waveform_name(control) == (if spec_waveform_param(control) == 0 {
            "Triangle"@
        } else if spec_waveform_param(control) == 1 {
            "Sawtooth"@
        } else if spec_waveform_param(control) == 2 {
            "Pulse"@
        } else {
            "Noise"@
        }),
{
    assert((1u8 << 0u8) == 1u8) by (bit_vector);
    assert((1u8 << 1u8) == 2u8) by (bit_vector);
    assert((1u8 << 2u8) == 4u8) by (bit_vector);
    assert((1u8 << 3u8) == 8u8) by (bit_vector);
}

} // verus!

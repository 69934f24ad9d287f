//! Name tables used by stored patches: chip keys, voice-mode keys and
//! file-name sanitising; and the bank's list of stored patches, kept in
//! order of their names.

use vstd::prelude::*;

use crate::chip::{ChipId, VoiceMode};
use crate::text::{ascii_alphanumeric, char_alphanumeric, is_alphanumeric, push_char, str_equal};

verus! {

broadcast use vstd::string::group_string_axioms;

/// The key under which a patch file records its chip.
pub open spec fn spec_chip_key(id: ChipId) -> Seq<char> {
    match id {
        ChipId::Sn76489 => "sn76489"@,
        ChipId::Ym2612 => "ym2612"@,
        ChipId::Sid6581 => "sid6581"@,
        ChipId::Ay8910 => "ay8910"@,
        ChipId::Ricoh2a03 => "2a03"@,
        ChipId::Pokey => "pokey"@,
        ChipId::Ym2151 => "ym2151"@,
        ChipId::Ym3812 => "ym3812"@,
        ChipId::Ymf262 => "ymf262"@,
        ChipId::Scc => "scc"@,
        ChipId::NamcoWsg => "namco_wsg"@,
    }
}

/// The chip a patch key names, if any.
pub open spec fn spec_chip_from_key(key: Seq<char>) -> Option<ChipId> {
    if key == "sn76489"@ {
        Some(ChipId::Sn76489)
    } else if key == "ym2612"@ {
        Some(ChipId::Ym2612)
    } else if key == "sid6581"@ {
        Some(ChipId::Sid6581)
    } else if key == "ay8910"@ {
        Some(ChipId::Ay8910)
    } else if key == "2a03"@ {
        Some(ChipId::Ricoh2a03)
    } else if key == "pokey"@ {
        Some(ChipId::Pokey)
    } else if key == "ym2151"@ {
        Some(ChipId::Ym2151)
    } else if key == "ym3812"@ {
        Some(ChipId::Ym3812)
    } else if key == "ymf262"@ {
        Some(ChipId::Ymf262)
    } else if key == "scc"@ {
        Some(ChipId::Scc)
    } else if key == "namco_wsg"@ {
        Some(ChipId::NamcoWsg)
    } else {
        None
    }
}

pub fn chip_id_to_str(id: ChipId) -> (r: &'static str)
    ensures
        r@ == spec_chip_key(id),
{
    match id {
        ChipId::Sn76489 => "sn76489",
        ChipId::Ym2612 => "ym2612",
        ChipId::Sid6581 => "sid6581",
        ChipId::Ay8910 => "ay8910",
        ChipId::Ricoh2a03 => "2a03",
        ChipId::Pokey => "pokey",
        ChipId::Ym2151 => "ym2151",
        ChipId::Ym3812 => "ym3812",
        ChipId::Ymf262 => "ymf262",
        ChipId::Scc => "scc",
        ChipId::NamcoWsg => "namco_wsg",
    }
}

pub fn str_to_chip_id(s: &str) -> (r: Option<ChipId>)
    ensures
        r == spec_chip_from_key(s@),
{
    if str_equal(s, "sn76489") {
        Some(ChipId::Sn76489)
    } else if str_equal(s, "ym2612") {
        Some(ChipId::Ym2612)
    } else if str_equal(s, "sid6581") {
        Some(ChipId::Sid6581)
    } else if str_equal(s, "ay8910") {
        Some(ChipId::Ay8910)
    } else if str_equal(s, "2a03") {
        Some(ChipId::Ricoh2a03)
    } else if str_equal(s, "pokey") {
        Some(ChipId::Pokey)
    } else if str_equal(s, "ym2151") {
        Some(ChipId::Ym2151)
    } else if str_equal(s, "ym3812") {
        Some(ChipId::Ym3812)
    } else if str_equal(s, "ymf262") {
        Some(ChipId::Ymf262)
    } else if str_equal(s, "scc") {
        Some(ChipId::Scc)
    } else if str_equal(s, "namco_wsg") {
        Some(ChipId::NamcoWsg)
    } else {
        None
    }
}

/// Reading back the key of a chip gives that chip: every chip survives a
/// save and load of its patch key.
pub proof fn law_chip_key_round_trip(id: ChipId)
    ensures
        spec_chip_from_key(spec_chip_key(id)) == Some(id),
{
    reveal_strlit("sn76489");
    reveal_strlit("ym2612");
    reveal_strlit("sid6581");
    reveal_strlit("ay8910");
    reveal_strlit("2a03");
    reveal_strlit("pokey");
    reveal_strlit("ym2151");
    reveal_strlit("ym3812");
    reveal_strlit("ymf262");
    reveal_strlit("scc");
    reveal_strlit("namco_wsg");
    match id {
        ChipId::Sn76489 => {
        },
        ChipId::Ym2612 => {
            assert("ym2612"@.len() != "sn76489"@.len());
        },
        ChipId::Sid6581 => {
            assert("sid6581"@[1] != "sn76489"@[1]);
            assert("sid6581"@.len() != "ym2612"@.len());
        },
        ChipId::Ay8910 => {
            assert("ay8910"@.len() != "sn76489"@.len());
            assert("ay8910"@[0] != "ym2612"@[0]);
            assert("ay8910"@.len() != "sid6581"@.len());
        },
        ChipId::Ricoh2a03 => {
            assert("2a03"@.len() != "sn76489"@.len());
            assert("2a03"@.len() != "ym2612"@.len());
            assert("2a03"@.len() != "sid6581"@.len());
            assert("2a03"@.len() != "ay8910"@.len());
        },
        ChipId::Pokey => {
            assert("pokey"@.len() != "sn76489"@.len());
            assert("pokey"@.len() != "ym2612"@.len());
            assert("pokey"@.len() != "sid6581"@.len());
            assert("pokey"@.len() != "ay8910"@.len());
            assert("pokey"@.len() != "2a03"@.len());
        },
        ChipId::Ym2151 => {
            assert("ym2151"@.len() != "sn76489"@.len());
            assert("ym2151"@[3] != "ym2612"@[3]);
            assert("ym2151"@.len() != "sid6581"@.len());
            assert("ym2151"@[0] != "ay8910"@[0]);
            assert("ym2151"@.len() != "2a03"@.len());
            assert("ym2151"@.len() != "pokey"@.len());
        },
        ChipId::Ym3812 => {
            assert("ym3812"@.len() != "sn76489"@.len());
            assert("ym3812"@[2] != "ym2612"@[2]);
            assert("ym3812"@.len() != "sid6581"@.len());
            assert("ym3812"@[0] != "ay8910"@[0]);
            assert("ym3812"@.len() != "2a03"@.len());
            assert("ym3812"@.len() != "pokey"@.len());
            assert("ym3812"@[2] != "ym2151"@[2]);
        },
        ChipId::Ymf262 => {
            assert("ymf262"@.len() != "sn76489"@.len());
            assert("ymf262"@[2] != "ym2612"@[2]);
            assert("ymf262"@.len() != "sid6581"@.len());
            assert("ymf262"@[0] != "ay8910"@[0]);
            assert("ymf262"@.len() != "2a03"@.len());
            assert("ymf262"@.len() != "pokey"@.len());
            assert("ymf262"@[2] != "ym2151"@[2]);
            assert("ymf262"@[2] != "ym3812"@[2]);
        },
        ChipId::Scc => {
            assert("scc"@.len() != "sn76489"@.len());
            assert("scc"@.len() != "ym2612"@.len());
            assert("scc"@.len() != "sid6581"@.len());
            assert("scc"@.len() != "ay8910"@.len());
            assert("scc"@.len() != "2a03"@.len());
            assert("scc"@.len() != "pokey"@.len());
            assert("scc"@.len() != "ym2151"@.len());
            assert("scc"@.len() != "ym3812"@.len());
            assert("scc"@.len() != "ymf262"@.len());
        },
        ChipId::NamcoWsg => {
            assert("namco_wsg"@.len() != "sn76489"@.len());
            assert("namco_wsg"@.len() != "ym2612"@.len());
            assert("namco_wsg"@.len() != "sid6581"@.len());
            assert("namco_wsg"@.len() != "ay8910"@.len());
            assert("namco_wsg"@.len() != "2a03"@.len());
            assert("namco_wsg"@.len() != "pokey"@.len());
            assert("namco_wsg"@.len() != "ym2151"@.len());
            assert("namco_wsg"@.len() != "ym3812"@.len());
            assert("namco_wsg"@.len() != "ymf262"@.len());
            assert("namco_wsg"@.len() != "scc"@.len());
        },
    }
}

/// Distinct chips have distinct patch keys.
pub proof fn law_chip_key_injective(a: ChipId, b: ChipId)
    requires
        spec_chip_key(a) == spec_chip_key(b),
    ensures
        a == b,
{
    law_chip_key_round_trip(a);
    law_chip_key_round_trip(b);
}

/// The key under which a patch file records its voice mode.
pub open spec fn spec_voice_mode_key(mode: VoiceMode) -> Seq<char> {
    match mode {
        VoiceMode::Poly => "poly"@,
        VoiceMode::Mono => "mono"@,
        VoiceMode::Unison { .. } => "unison"@,
    }
}

/// The voice mode a patch key names; anything unknown reads as poly.
pub open spec fn spec_voice_mode_from_key(key: Seq<char>, unison_detune_cents: i16) -> VoiceMode {
    if key == "mono"@ {
        VoiceMode::Mono
    } else if key == "unison"@ {
        VoiceMode::Unison { detune_cents: unison_detune_cents }
    } else {
        VoiceMode::Poly
    }
}

pub fn voice_mode_to_str(mode: VoiceMode) -> (r: &'static str)
    ensures
        r@ == spec_voice_mode_key(mode),
{
    match mode {
        VoiceMode::Poly => "poly",
        VoiceMode::Mono => "mono",
        VoiceMode::Unison { .. } => "unison",
    }
}

/// Reads a stored voice-mode key; the unison detune is stored beside it.
pub fn voice_mode_from_str(key: &str, unison_detune_cents: i16) -> (r: VoiceMode)
    ensures
        r == spec_voice_mode_from_key(key@, unison_detune_cents),
{
    if str_equal(key, "mono") {
        VoiceMode::Mono
    } else if str_equal(key, "unison") {
        VoiceMode::Unison { detune_cents: unison_detune_cents }
    } else {
        VoiceMode::Poly
    }
}

/// A voice mode survives a save and load of its key (with its detune
/// stored beside it).
pub proof fn law_voice_mode_round_trip(mode: VoiceMode)
    ensures
        spec_voice_mode_from_key(
            spec_voice_mode_key(mode),
            match mode {
                VoiceMode::Unison { detune_cents } => detune_cents,
                _ => 0,
            },
        ) == mode,
{
    reveal_strlit("poly");
    reveal_strlit("mono");
    reveal_strlit("unison");
    assert("poly"@[0] != "mono"@[0]);
    assert("poly"@.len() != "unison"@.len());
    assert("mono"@.len() != "unison"@.len());
}

/// A character kept in a file name: letters and digits, `-` and `_`.
pub open spec fn keeps_char(c: char) -> bool {
    char_alphanumeric(c) || c == '-' || c == '_'
}

/// Replaces every character that is not kept in a file name by `_`.
pub open spec fn spec_sanitize(name: Seq<char>) -> Seq<char> {
    Seq::new(name.len(), |i: int| if keeps_char(name[i]) { name[i] } else { '_' })
}

/// An ASCII character kept in a file name: an ASCII letter or digit, `-`
/// or `_`.
pub open spec fn ascii_kept(c: char) -> bool {
    ascii_alphanumeric(c) || c == '-' || c == '_'
}

/// The name with every character that is not a letter, a digit, `-` or `_`
/// replaced by `_`; in particular, ASCII letters and digits are kept and
/// every other ASCII character but `-` and `_` (such as `/`, `.` or a
/// space) becomes `_`.
pub fn sanitize_filename(name: &str) -> (r: String)
    ensures
        r@ == spec_sanitize(name@),
        forall|i: int|
            0 <= i < name@.len() && (name@[i] as u32) < 0x80 ==> #[trigger] r@[i] == (if ascii_kept(
                name@[i],
            ) {
                name@[i]
            } else {
                '_'
            }),
{
    let mut out = String::new();
    let mut i: usize = 0;
    let n = name.unicode_len();
    while i < n
        invariant
            n == name@.len(),
            i <= n,
            out@ == spec_sanitize(name@).take(i as int),
            forall|k: int|
                0 <= k < i && (name@[k] as u32) < 0x80 ==> (char_alphanumeric(#[trigger] name@[k])
                    <==> ascii_alphanumeric(name@[k])),
        decreases n - i,
    {
        let c = name.get_char(i);
        let keep = is_alphanumeric(c) || c == '-' || c == '_';
        if keep {
            push_char(&mut out, c);
        } else {
            push_char(&mut out, '_');
        }
        assert(out@ =~= spec_sanitize(name@).take(i + 1));
        i = i + 1;
    }
    assert(out@ =~= spec_sanitize(name@));
    out
}

/// Whether name `a` sorts before name `b`: character by character (by code
/// point), and a proper prefix before the longer name.
pub open spec fn name_lt(a: Seq<char>, b: Seq<char>) -> bool
    decreases a.len(),
{
    if a.len() == 0 {
        b.len() > 0
    } else if b.len() == 0 {
        false
    } else if (a[0] as u32) != (b[0] as u32) {
        (a[0] as u32) < (b[0] as u32)
    } else {
        name_lt(a.drop_first(), b.drop_first())
    }
}

/// Whether name `a` sorts before `b`.
pub fn name_less(a: &str, b: &str) -> (r: bool)
    ensures
        r == name_lt(a@, b@),
{
    let la = a.unicode_len();
    let lb = b.unicode_len();
    let mut i: usize = 0;
    assert(a@.skip(0) =~= a@ && b@.skip(0) =~= b@);
    while i < la && i < lb
        invariant
            la == a@.len(),
            lb == b@.len(),
            i <= la,
            i <= lb,
            name_lt(a@, b@) == name_lt(a@.skip(i as int), b@.skip(i as int)),
        decreases la - i,
    {
        let ca = a.get_char(i) as u32;
        let cb = b.get_char(i) as u32;
        assert(a@.skip(i as int)[0] as u32 == ca && b@.skip(i as int)[0] as u32 == cb);
        if ca != cb {
            return ca < cb;
        }
        assert(a@.skip(i as int).drop_first() =~= a@.skip(i + 1));
        assert(b@.skip(i as int).drop_first() =~= b@.skip(i + 1));
        i = i + 1;
    }
    assert(i == la ==> a@.skip(i as int).len() == 0);
    assert(i == lb ==> b@.skip(i as int).len() == 0);
    la - i == 0 && lb - i > 0
}

/// Inserts `e` after every entry whose name does not sort after its own.
pub open spec fn insert_by_name<P>(s: Seq<(String, P)>, e: (String, P)) -> Seq<(String, P)>
    decreases s.len(),
{
    if s.len() == 0 {
        seq![e]
    } else if !name_lt(e.0@, s.last().0@) {
        s.push(e)
    } else {
        insert_by_name(s.drop_last(), e).push(s.last())
    }
}

/// The stable sort of entries by name.
pub open spec fn sort_by_name<P>(s: Seq<(String, P)>) -> Seq<(String, P)>
    decreases s.len(),
{
    if s.len() == 0 {
        s
    } else {
        insert_by_name(sort_by_name(s.drop_last()), s.last())
    }
}

/// The stored patches a bank knows: each by its name and where it is kept,
/// in order of their names.
pub struct PatchBank<P> {
    patches_dir: P,
    patches: Vec<(String, P)>,
}

impl<P> PatchBank<P> {
    /// The entries, in order.
    pub closed spec fn entries(&self) -> Seq<(String, P)> {
        self.patches@
    }

    /// Where the bank keeps its patches.
    pub closed spec fn dir(&self) -> P {
        self.patches_dir
    }

    /// A bank of the patches kept at `patches_dir`, none known yet.
    pub fn new(patches_dir: P) -> (r: Self)
        ensures
            r.dir() == patches_dir,
            r.entries().len() == 0,
    {
        PatchBank { patches_dir, patches: Vec::new() }
    }

    pub fn patches_dir(&self) -> (r: &P)
        ensures
            *r == self.dir(),
    {
        &self.patches_dir
    }

    /// Replaces the entries with those found by a scan, sorted by name;
    /// entries with equal names keep the order they were found in.
    pub fn set_scanned(&mut self, found: Vec<(String, P)>)
        ensures
            final(self).entries() == sort_by_name(found@),
            final(self).dir() == old(self).dir(),
    {
        let mut rest = found;
        let ghost all = rest@;
        let n = rest.len();
        assert(all.len() == n);
        let mut out: Vec<(String, P)> = Vec::new();
        let mut taken: usize = 0;
        assert(all.take(0) =~= Seq::<(String, P)>::empty());
        while rest.len() > 0
            invariant
                all.len() <= usize::MAX,
                taken + rest@.len() == all.len(),
                rest@ == all.skip(taken as int),
                out@ == sort_by_name(all.take(taken as int)),
            decreases rest@.len(),
        {
            let e = rest.remove(0);
            let ghost s = out@;
            proof {
                let t = all.take(taken + 1);
                assert(t.drop_last() =~= all.take(taken as int));
                assert(t.last() == e);
                assert(rest@ =~= all.skip(taken + 1));
            }
            let mut k: usize = out.len();
            while k > 0 && name_less(e.0.as_str(), out[k - 1].0.as_str())
                invariant
                    k <= s.len(),
                    out@ == s,
                    forall|m: int| k <= m < s.len() ==> name_lt(e.0@, #[trigger] s[m].0@),
                decreases k,
            {
                k = k - 1;
            }
            proof {
                lemma_insert_name_split(s, e, k as int);
                if k > 0 {
                    assert(s.take(k as int).last() == s[k - 1]);
                }
                assert(insert_by_name(s.take(k as int), e) == s.take(k as int).push(e));
            }
            out.insert(k, e);
            assert(out@ =~= s.take(k as int).push(e) + s.skip(k as int));
            taken = taken + 1;
        }
        assert(all.take(taken as int) =~= all);
        self.patches = out;
    }

    /// The entries in order of their names.
    pub fn list(&self) -> (r: &[(String, P)])
        ensures
            r@ == self.entries(),
    {
        self.patches.as_slice()
    }

    /// The entry at `index`, if there is one.
    pub fn get(&self, index: usize) -> (r: Option<&(String, P)>)
        ensures
            index < self.entries().len() ==> r == Some(&self.entries()[index as int]),
            index >= self.entries().len() ==> r is None,
    {
        if index < self.patches.len() {
            Some(&self.patches[index])
        } else {
            None
        }
    }

    /// Whether the factory presets are due: the bank knows no patch.
    pub fn needs_factory_presets(&self) -> (r: bool)
        ensures
            r == (self.entries().len() == 0),
    {
        self.patches.len() == 0
    }
}

/// Inserting behind a suffix of entries that sort after the new one: the
/// suffix stays behind.
proof fn lemma_insert_name_split<P>(s: Seq<(String, P)>, e: (String, P), k: int)
    requires
        0 <= k <= s.len(),
        forall|m: int| k <= m < s.len() ==> name_lt(e.0@, #[trigger] s[m].0@),
    ensures
        insert_by_name(s, e) == insert_by_name(s.take(k), e) + s.skip(k),
    decreases s.len() - k,
{
    if k == s.len() {
        assert(s.take(k) =~= s);
        assert(insert_by_name(s.take(k), e) + s.skip(k) =~= insert_by_name(s, e));
    } else {
        lemma_insert_name_split(s, e, k + 1);
        let t = s.take(k + 1);
        assert(t.last() == s[k]);
        assert(t.drop_last() =~= s.take(k));
        assert(insert_by_name(t, e) == insert_by_name(s.take(k), e).push(s[k]));
        assert(insert_by_name(s.take(k), e).push(s[k]) + s.skip(k + 1) =~= insert_by_name(
            s.take(k),
            e,
        ) + s.skip(k));
    }
}

/// No name sorts before itself, and of two names at most one sorts first.
proof fn lemma_name_lt_asym(a: Seq<char>, b: Seq<char>)
    ensures
        !(name_lt(a, b) && name_lt(b, a)),
    decreases a.len(),
{
    if a.len() > 0 && b.len() > 0 && (a[0] as u32) == (b[0] as u32) {
        lemma_name_lt_asym(a.drop_first(), b.drop_first());
    }
}

/// When `a` sorts before `c`, any `b` sorts after `a` or before `c`.
proof fn lemma_name_lt_split(a: Seq<char>, b: Seq<char>, c: Seq<char>)
    requires
        name_lt(a, c),
    ensures
        name_lt(a, b) || name_lt(b, c),
    decreases a.len(),
{
    if a.len() > 0 && b.len() > 0 && c.len() > 0 {
        let (x, y, z) = (a[0] as u32, b[0] as u32, c[0] as u32);
        if x == y && y == z {
            lemma_name_lt_split(a.drop_first(), b.drop_first(), c.drop_first());
        }
    }
}

/// Whether no entry's name sorts before that of an earlier entry.
pub open spec fn sorted_by_name<P>(s: Seq<(String, P)>) -> bool {
    forall|i: int, j: int| 0 <= i < j < s.len() ==> !name_lt(#[trigger] s[j].0@, #[trigger] s[i].0@)
}

proof fn lemma_insert_name_all<P>(s: Seq<(String, P)>, e: (String, P), p: spec_fn((String, P)) -> bool)
    requires
        forall|i: int| 0 <= i < s.len() ==> p(#[trigger] s[i]),
        p(e),
    ensures
        insert_by_name(s, e).len() == s.len() + 1,
        forall|k: int| 0 <= k < insert_by_name(s, e).len() ==> p(#[trigger] insert_by_name(s, e)[k]),
    decreases s.len(),
{
    if s.len() > 0 && name_lt(e.0@, s.last().0@) {
        let dl = s.drop_last();
        lemma_insert_name_all(dl, e, p);
    }
}

proof fn lemma_insert_name_sorted<P>(s: Seq<(String, P)>, e: (String, P))
    requires
        sorted_by_name(s),
    ensures
        sorted_by_name(insert_by_name(s, e)),
    decreases s.len(),
{
    if s.len() == 0 {
    } else if !name_lt(e.0@, s.last().0@) {
        let r = s.push(e);
        assert forall|i: int, j: int| 0 <= i < j < r.len() implies !name_lt(#[trigger] r[j].0@, #[trigger] r[i].0@) by {
            if j == s.len() && i < s.len() - 1 {
                if name_lt(e.0@, s[i].0@) {
                    lemma_name_lt_split(e.0@, s.last().0@, s[i].0@);
                }
            }
        }
    } else {
        let dl = s.drop_last();
        let last = s.last();
        lemma_insert_name_sorted(dl, e);
        lemma_name_lt_asym(e.0@, last.0@);
        let p = |x: (String, P)| !name_lt(last.0@, x.0@);
        assert forall|i: int| 0 <= i < dl.len() implies p(#[trigger] dl[i]) by {
            assert(s[i] == dl[i]);
        }
        lemma_insert_name_all(dl, e, p);
        let r = insert_by_name(dl, e);
        assert forall|i: int, j: int| 0 <= i < j < r.push(last).len() implies !name_lt(
            #[trigger] r.push(last)[j].0@,
            #[trigger] r.push(last)[i].0@,
        ) by {
            if j == r.len() {
                assert(p(r[i]));
            }
        }
    }
}

/// The bank lists its patches in order of their names.
pub proof fn law_patch_list_sorted<P>(found: Seq<(String, P)>)
    ensures
        sorted_by_name(sort_by_name(found)),
    decreases found.len(),
{
    if found.len() > 0 {
        law_patch_list_sorted(found.drop_last());
        lemma_insert_name_sorted(sort_by_name(found.drop_last()), found.last());
    }
}

/// Sorting the scanned patches neither loses nor adds one.
pub proof fn law_patch_list_keeps_entries<P>(found: Seq<(String, P)>)
    ensures
        sort_by_name(found).to_multiset() == found.to_multiset(),
    decreases found.len(),
{
    broadcast use vstd::seq_lib::to_multiset_build;

    if found.len() > 0 {
        law_patch_list_keeps_entries(found.drop_last());
        lemma_insert_name_keeps(sort_by_name(found.drop_last()), found.last());
        assert(found.drop_last().push(found.last()) =~= found);
    }
}

proof fn lemma_insert_name_keeps<P>(s: Seq<(String, P)>, e: (String, P))
    ensures
        insert_by_name(s, e).to_multiset() =~= s.to_multiset().insert(e),
    decreases s.len(),
{
    broadcast use vstd::seq_lib::to_multiset_build;

    if s.len() == 0 {
        assert(seq![e] =~= s.push(e));
    } else if name_lt(e.0@, s.last().0@) {
        let dl = s.drop_last();
        lemma_insert_name_keeps(dl, e);
        assert(dl.push(s.last()) =~= s);
    }
}

} // verus!

//! Sound-chip identities and the description of their parameters.

use vstd::prelude::*;

verus! {

broadcast use vstd::string::group_string_axioms;

/// Identifies a chip type.
#[derive(Debug, Clone, Copy, PartialEq, Eq, Structural, Hash)]
pub enum ChipId {
    Sn76489,
    Ym2612,
    Sid6581,
    Ay8910,
    Ricoh2a03,
    Pokey,
    Ym2151,
    Ym3812,
    Ymf262,
    Scc,
    NamcoWsg,
}

/// Every chip, in the order the synthesizer presents them.
pub open spec fn spec_all_chips() -> Seq<ChipId> {
    seq![
        ChipId::Sn76489,
        ChipId::Ym2612,
        ChipId::Sid6581,
        ChipId::Ay8910,
        ChipId::Ricoh2a03,
        ChipId::Pokey,
        ChipId::Ym2151,
        ChipId::Ym3812,
        ChipId::Ymf262,
        ChipId::Scc,
        ChipId::NamcoWsg,
    ]
}

const ALL_CHIPS: [ChipId; 11] = [
    ChipId::Sn76489,
    ChipId::Ym2612,
    ChipId::Sid6581,
    ChipId::Ay8910,
    ChipId::Ricoh2a03,
    ChipId::Pokey,
    ChipId::Ym2151,
    ChipId::Ym3812,
    ChipId::Ymf262,
    ChipId::Scc,
    ChipId::NamcoWsg,
];

/// The name shown for a chip in the chip selector.
pub open spec fn spec_display_name(id: ChipId) -> Seq<char> {
    match id {
        ChipId::Sn76489 => "SN76489 (PSG)"@,
        ChipId::Ym2612 => "YM2612 (FM)"@,
        ChipId::Sid6581 => "SID 6581 (C64)"@,
        ChipId::Ay8910 => "AY-3-8910 (PSG)"@,
        ChipId::Ricoh2a03 => "2A03 (NES)"@,
        ChipId::Pokey => "POKEY (Atari)"@,
        ChipId::Ym2151 => "YM2151 (OPM)"@,
        ChipId::Ym3812 => "YM3812 (OPL2)"@,
        ChipId::Ymf262 => "YMF262 (OPL3)"@,
        ChipId::Scc => "SCC (Konami)"@,
        ChipId::NamcoWsg => "Namco WSG"@,
    }
}

/// Voice allocation mode. The unison detune is the spread, in cents, from
/// the centre to the outermost voices.
#[derive(Debug, Clone, Copy, PartialEq, Eq, Structural)]
pub enum VoiceMode {
    Mono,
    Poly,
    Unison { detune_cents: i16 },
}

/// A parameter value as the chips read it: converted to `u8` and to `u16`
/// (saturating), and whether it is at least 0.5 (for switches).
#[derive(Debug, Clone, Copy, PartialEq, Eq, Structural)]
pub struct ParamValue {
    pub byte: u8,
    pub word: u16,
    pub on: bool,
}

/// The 4-bit volume (0 silent, 15 loudest) that a note velocity gives on
/// the chips with a plain volume register: velocity × 15 / 127.
pub fn velocity_to_volume(velocity: u8) -> (r: u8)
    ensures
        r == velocity * 15 / 127,
        velocity <= 127 ==> r <= 15,
{
    ((velocity as u16 * 15) / 127) as u8
}

impl ChipId {
    pub fn all() -> (r: &'static [ChipId])
        ensures
            r@ == spec_all_chips(),
    {
        let r: &'static [ChipId] = &ALL_CHIPS;
        assert(r@ =~= spec_all_chips());
        r
    }

    pub fn display_name(&self) -> (r: &'static str)
        ensures
            r@ == spec_display_name(*self),
    {
        match self {
            ChipId::Sn76489 => "SN76489 (PSG)",
            ChipId::Ym2612 => "YM2612 (FM)",
            ChipId::Sid6581 => "SID 6581 (C64)",
            ChipId::Ay8910 => "AY-3-8910 (PSG)",
            ChipId::Ricoh2a03 => "2A03 (NES)",
            ChipId::Pokey => "POKEY (Atari)",
            ChipId::Ym2151 => "YM2151 (OPM)",
            ChipId::Ym3812 => "YM3812 (OPL2)",
            ChipId::Ymf262 => "YMF262 (OPL3)",
            ChipId::Scc => "SCC (Konami)",
            ChipId::NamcoWsg => "Namco WSG",
        }
    }
}

/// How a parameter is adjusted, with its range. All the chips' ranges and
/// defaults are whole numbers.
#[derive(Debug, Clone)]
pub enum ParamKind {
    /// A knob over [min, max].
    Continuous { min: i32, max: i32, default: i32 },
    /// A selector of whole steps (e.g. algorithm 0-7), optionally with a
    /// label for each step.
    Discrete { min: i32, max: i32, default: i32, labels: Option<Vec<String>> },
    /// An on/off switch.
    Toggle { default: bool },
}

/// Metadata for one adjustable parameter.
#[derive(Debug, Clone)]
pub struct ParamInfo {
    /// Unique id within its chip.
    pub id: u32,
    /// Name shown next to the control.
    pub name: String,
    /// Section it belongs to (e.g. "Operator 1", "Noise").
    pub group: String,
    pub kind: ParamKind,
}

/// The mathematical content of a [`ParamKind`].
pub enum KindSpec {
    Continuous { min: int, max: int, default: int },
    Discrete { min: int, max: int, default: int, labels: Option<Seq<Seq<char>>> },
    Toggle { default: bool },
}

/// The mathematical content of a [`ParamInfo`].
pub struct ParamSpec {
    pub id: u32,
    pub name: Seq<char>,
    pub group: Seq<char>,
    pub kind: KindSpec,
}

/// The texts of a sequence of strings.
pub open spec fn strings_view(s: Seq<String>) -> Seq<Seq<char>> {
    s.map_values(|x: String| x@)
}

impl View for ParamKind {
    type V = KindSpec;

    open spec fn view(&self) -> KindSpec {
        match self {
            ParamKind::Continuous { min, max, default } => KindSpec::Continuous {
                min: *min as int,
                max: *max as int,
                default: *default as int,
            },
            ParamKind::Discrete { min, max, default, labels } => KindSpec::Discrete {
                min: *min as int,
                max: *max as int,
                default: *default as int,
                labels: match labels {
                    Some(l) => Some(strings_view(l@)),
                    None => None,
                },
            },
            ParamKind::Toggle { default } => KindSpec::Toggle { default: *default },
        }
    }
}

impl View for ParamInfo {
    type V = ParamSpec;

    open spec fn view(&self) -> ParamSpec {
        ParamSpec { id: self.id, name: self.name@, group: self.group@, kind: self.kind@ }
    }
}

/// The contents of a parameter table.
pub open spec fn params_view(s: Seq<ParamInfo>) -> Seq<ParamSpec> {
    s.map_values(|p: ParamInfo| p@)
}

/// The default of a kind as a number: a switch's default is 1 (on) or 0.
pub open spec fn kind_default(k: KindSpec) -> int {
    match k {
        KindSpec::Continuous { default, .. } => default,
        KindSpec::Discrete { default, .. } => default,
        KindSpec::Toggle { default } => if default {
            1
        } else {
            0
        },
    }
}

impl ParamKind {
    /// The default value: a range's default, or 1 (on) or 0 for a switch.
    pub fn default_value(&self) -> (r: i32)
        ensures
            r == kind_default(self@),
    {
        match self {
            ParamKind::Continuous { default, .. } => *default,
            ParamKind::Discrete { default, .. } => *default,
            ParamKind::Toggle { default } => if *default {
                1
            } else {
                0
            },
        }
    }
}

/// Owned copies of a list of labels.
pub fn label_list(names: &[&str]) -> (r: Vec<String>)
    ensures
        strings_view(r@) == names@.map_values(|s: &str| s@),
{
    let mut r: Vec<String> = Vec::new();
    let mut i: usize = 0;
    while i < names.len()
        invariant
            i <= names.len(),
            r.len() == i,
            strings_view(r@) == names@.subrange(0, i as int).map_values(|s: &str| s@),
        decreases names.len() - i,
    {
        let name: &str = names[i];
        let owned = name.to_string();
        let ghost before = r@;
        r.push(owned);
        i = i + 1;
        assert forall|k: int| 0 <= k < i implies #[trigger] strings_view(r@)[k]
            == names@.subrange(0, i as int).map_values(|s: &str| s@)[k] by {
            if k < i - 1 {
                assert(r@[k] == before[k]);
                assert(strings_view(before)[k] == names@.subrange(0, i - 1).map_values(
                    |s: &str| s@,
                )[k]);
            }
        }
        assert(strings_view(r@) =~= names@.subrange(0, i as int).map_values(|s: &str| s@));
    }
    assert(names@.subrange(0, names.len() as int) =~= names@);
    r
}

impl ParamInfo {
    /// A knob over [min, max].
    pub fn continuous(id: u32, name: &str, group: &str, min: i32, max: i32, default: i32) -> (r:
        ParamInfo)
        ensures
            r@ == (ParamSpec {
                id,
                name: name@,
                group: group@,
                kind: KindSpec::Continuous { min: min as int, max: max as int, default: default as int },
            }),
    {
        ParamInfo {
            id,
            name: name.to_string(),
            group: group.to_string(),
            kind: ParamKind::Continuous { min, max, default },
        }
    }

    /// A selector of whole steps.
    pub fn discrete(
        id: u32,
        name: &str,
        group: &str,
        min: i32,
        max: i32,
        default: i32,
        labels: Option<Vec<String>>,
    ) -> (r: ParamInfo)
        ensures
            r@ == (ParamSpec {
                id,
                name: name@,
                group: group@,
                kind: KindSpec::Discrete {
                    min: min as int,
                    max: max as int,
                    default: default as int,
                    labels: match labels {
                        Some(l) => Some(strings_view(l@)),
                        None => None,
                    },
                },
            }),
    {
        ParamInfo {
            id,
            name: name.to_string(),
            group: group.to_string(),
            kind: ParamKind::Discrete { min, max, default, labels },
        }
    }

    /// An on/off switch.
    pub fn toggle(id: u32, name: &str, group: &str, default: bool) -> (r: ParamInfo)
        ensures
            r@ == (ParamSpec { id, name: name@, group: group@, kind: KindSpec::Toggle { default } }),
    {
        ParamInfo {
            id,
            name: name.to_string(),
            group: group.to_string(),
            kind: ParamKind::Toggle { default },
        }
    }
}

/// The section name of operator `op` (counted from 0): "Operator 1" and on.
pub open spec fn spec_operator_group(op: u32) -> Seq<char> {
    if op == 0 {
        "Operator 1"@
    } else if op == 1 {
        "Operator 2"@
    } else if op == 2 {
        "Operator 3"@
    } else {
        "Operator 4"@
    }
}

/// The section name of operator `op` (counted from 0).
pub fn operator_group(op: u32) -> (r: &'static str)
    requires
        op < 4,
    ensures
        r@ == spec_operator_group(op),
{
    if op == 0 {
        "Operator 1"
    } else if op == 1 {
        "Operator 2"
    } else if op == 2 {
        "Operator 3"
    } else {
        "Operator 4"
    }
}

/// The parameter table of a chip.
pub open spec fn chip_params(id: ChipId) -> Seq<ParamSpec> {
    match id {
        ChipId::Sn76489 => crate::sn76489::sn76489_params(),
        ChipId::Ym2612 => crate::ym2612::ym2612_params(),
        ChipId::Sid6581 => crate::sid6581::sid_params(),
        ChipId::Ay8910 => crate::ay8910::ay8910_params(),
        ChipId::Ricoh2a03 => crate::ricoh2a03::ricoh2a03_params(),
        ChipId::Pokey => crate::pokey::pokey_params(),
        ChipId::Ym2151 => crate::ym2151::ym2151_params(),
        ChipId::Ym3812 => crate::ym3812::ym3812_params(),
        ChipId::Ymf262 => crate::ymf262::ymf262_params(),
        ChipId::Scc => crate::scc::scc_params(),
        ChipId::NamcoWsg => crate::namco_wsg::namco_wsg_params(),
    }
}

/// The parameter table of a chip type, without an instance of it.
pub fn param_info_for_chip(id: ChipId) -> (r: Vec<ParamInfo>)
    ensures
        params_view(r@) == chip_params(id),
{
    match id {
        ChipId::Sn76489 => crate::sn76489::sn76489_param_info(),
        ChipId::Ym2612 => crate::ym2612::ym2612_param_info(),
        ChipId::Sid6581 => crate::sid6581::sid_param_info(),
        ChipId::Ay8910 => crate::ay8910::ay8910_param_info(),
        ChipId::Ricoh2a03 => crate::ricoh2a03::ricoh2a03_param_info(),
        ChipId::Pokey => crate::pokey::pokey_param_info(),
        ChipId::Ym2151 => crate::ym2151::ym2151_param_info(),
        ChipId::Ym3812 => crate::ym3812::ym3812_param_info(),
        ChipId::Ymf262 => crate::ymf262::ymf262_param_info(),
        ChipId::Scc => crate::scc::scc_param_info(),
        ChipId::NamcoWsg => crate::namco_wsg::namco_wsg_param_info(),
    }
}

/// Whether a parameter's default lies in its range and a labelled
/// selector has one label per step.
pub open spec fn param_spec_sound(p: ParamSpec) -> bool {
    match p.kind {
        KindSpec::Continuous { min, max, default } => min <= default <= max,
        KindSpec::Discrete { min, max, default, labels } => {
            &&& min <= default <= max
            &&& labels matches Some(l) ==> l.len() == max - min + 1
        },
        KindSpec::Toggle { .. } => true,
    }
}

/// Whether a parameter table has distinct ids and sound entries.
pub open spec fn params_sound(s: Seq<ParamSpec>) -> bool {
    &&& forall|i: int, j: int| 0 <= i < j < s.len() ==> #[trigger] s[i].id != #[trigger] s[j].id
    &&& forall|i: int| 0 <= i < s.len() ==> param_spec_sound(#[trigger] s[i])
}

/// Whether every id of a table lies in [lo, hi).
pub open spec fn param_ids_within(s: Seq<ParamSpec>, lo: int, hi: int) -> bool {
    forall|i: int| 0 <= i < s.len() ==> lo <= #[trigger] s[i].id < hi
}

/// Two sound tables whose ids lie in disjoint ranges make a sound table.
pub proof fn lemma_params_concat(a: Seq<ParamSpec>, b: Seq<ParamSpec>, mid: int)
    requires
        params_sound(a),
        params_sound(b),
        forall|i: int| 0 <= i < a.len() ==> #[trigger] a[i].id < mid,
        forall|i: int| 0 <= i < b.len() ==> #[trigger] b[i].id >= mid,
    ensures
        params_sound(a + b),
{
    let s = a + b;
    assert forall|i: int, j: int| 0 <= i < j < s.len() implies #[trigger] s[i].id
        != #[trigger] s[j].id by {
        if j < a.len() {
            assert(s[i] == a[i] && s[j] == a[j]);
        } else if i >= a.len() {
            assert(s[i] == b[i - a.len()] && s[j] == b[j - a.len()]);
        } else {
            assert(s[i] == a[i] && s[j] == b[j - a.len()]);
        }
    }
    assert forall|i: int| 0 <= i < s.len() implies param_spec_sound(#[trigger] s[i]) by {
        if i < a.len() {
            assert(s[i] == a[i]);
        } else {
            assert(s[i] == b[i - a.len()]);
        }
    }
}

/// Every chip's parameter table names each id once, and every default lies
/// in its range, with one label per step where steps are labelled.
pub proof fn law_param_tables_sound(id: ChipId)
    ensures
        params_sound(chip_params(id)),
{
    match id {
        ChipId::Sn76489 => crate::sn76489::lemma_sn76489_params_sound(),
        ChipId::Ym2612 => crate::ym2612::lemma_ym2612_params_sound(),
        ChipId::Sid6581 => crate::sid6581::lemma_sid_params_sound(),
        ChipId::Ay8910 => crate::ay8910::lemma_ay8910_params_sound(),
        ChipId::Ricoh2a03 => crate::ricoh2a03::lemma_ricoh2a03_params_sound(),
        ChipId::Pokey => crate::pokey::lemma_pokey_params_sound(),
        ChipId::Ym2151 => crate::ym2151::lemma_ym2151_params_sound(),
        ChipId::Ym3812 => crate::ym3812::lemma_ym3812_params_sound(),
        ChipId::Ymf262 => crate::ymf262::lemma_ymf262_params_sound(),
        ChipId::Scc => crate::scc::lemma_scc_params_sound(),
        ChipId::NamcoWsg => crate::namco_wsg::lemma_namco_wsg_params_sound(),
    }
}

} // verus!

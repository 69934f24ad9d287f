//! VGM (Video Game Music) file parser.
//!
//! A VGM file is a header followed by a stream of one-byte commands, each
//! with its operand bytes: register writes to sound chips and waits
//! counted in samples at 44100 Hz. Parsing turns the stream into
//! commands stamped with their absolute sample position and counts the
//! writes that go to each supported chip.

use vstd::prelude::*;

verus! {

broadcast use vstd::string::group_string_axioms;

/// VGM file header.
#[derive(Debug, Clone, Copy, PartialEq, Eq, Structural)]
pub struct VgmHeader {
    pub version: u32,
    pub total_samples: u32,
    pub loop_offset: u32,
    pub loop_samples: u32,
    pub rate: u32,
    pub data_offset: u32,
    /// Chip clocks (Hz). Zero = chip not used.
    pub sn76489_clock: u32,
    pub ym2612_clock: u32,
    pub ym2151_clock: u32,
    pub ay8910_clock: u32,
    pub nes_apu_clock: u32,
    pub pokey_clock: u32,
}

/// A single VGM command parsed from the stream.
#[derive(Debug, Clone, Copy, PartialEq, Eq, Structural)]
pub enum VgmCommand {
    /// SN76489 write (single data byte)
    Sn76489Write { data: u8 },
    /// YM2612 port 0 register write
    Ym2612Port0 { reg: u8, data: u8 },
    /// YM2612 port 1 register write
    Ym2612Port1 { reg: u8, data: u8 },
    /// YM2151 register write
    Ym2151Write { reg: u8, data: u8 },
    /// AY-3-8910 register write
    Ay8910Write { reg: u8, data: u8 },
    /// NES APU register write
    NesApuWrite { reg: u8, data: u8 },
    /// POKEY register write
    PokeyWrite { reg: u8, data: u8 },
    /// Wait N samples (at 44100 Hz)
    Wait { samples: u32 },
    /// End of data
    End,
    /// Unknown/unsupported command (skip)
    Unknown { cmd: u8 },
}

/// Timed command with absolute sample position.
#[derive(Debug, Clone, Copy, PartialEq, Eq, Structural)]
pub struct TimedCommand {
    pub sample_pos: u64,
    pub command: VgmCommand,
}

/// One chip that the file writes to.
#[derive(Debug, Clone)]
pub struct ChipUsed {
    pub name: &'static str,
    pub clock: u32,
    pub write_count: usize,
}

/// The content of a [`ChipUsed`].
pub struct ChipUsage {
    pub name: Seq<char>,
    pub clock: u32,
    pub write_count: nat,
}

impl View for ChipUsed {
    type V = ChipUsage;

    open spec fn view(&self) -> ChipUsage {
        ChipUsage { name: self.name@, clock: self.clock, write_count: self.write_count as nat }
    }
}

/// Parsed VGM file.
#[derive(Debug)]
pub struct VgmFile {
    pub header: VgmHeader,
    pub commands: Vec<TimedCommand>,
    /// Which chips are used in this file.
    pub chips_used: Vec<ChipUsed>,
}

/// Why a byte stream is not a VGM file.
#[derive(Debug, Clone, Copy, PartialEq, Eq, Structural)]
pub enum VgmError {
    /// Shorter than the 64-byte minimum header.
    TooShort,
    /// Does not start with the `Vgm ` magic.
    BadMagic,
    /// A gzip-compressed file that does not decompress.
    Decompress,
    /// The waits add up to more samples than a 64-bit sample position
    /// holds.
    TooLarge,
}

impl VgmError {
    /// Human-readable description of the error.
    pub fn message(&self) -> (r: &'static str)
        ensures
            r@ == match self {
                VgmError::TooShort => "VGM file too short"@,
                VgmError::BadMagic => "Not a VGM file (bad magic)"@,
                VgmError::Decompress => "VGZ data does not decompress"@,
                VgmError::TooLarge => "VGM sample positions overflow"@,
            },
    {
        match self {
            VgmError::TooShort => "VGM file too short",
            VgmError::BadMagic => "Not a VGM file (bad magic)",
            VgmError::Decompress => "VGZ data does not decompress",
            VgmError::TooLarge => "VGM sample positions overflow",
        }
    }
}

// ---------------------------------------------------------------------------
// Specification of the format
// ---------------------------------------------------------------------------

/// The byte at `i`, or 0 past the end of the data.
pub open spec fn byte_at(data: Seq<u8>, i: int) -> u8 {
    if 0 <= i < data.len() {
        data[i]
    } else {
        0
    }
}

/// Little-endian 32-bit word at `offset`, or 0 when it does not fit.
pub open spec fn spec_u32_le(data: Seq<u8>, offset: int) -> u32 {
    if offset + 4 > data.len() {
        0
    } else {
        (data[offset] as int + data[offset + 1] as int * 0x100 + data[offset + 2] as int
            * 0x1_0000 + data[offset + 3] as int * 0x100_0000) as u32
    }
}

/// A clock field: the low 31 bits of its word (bit 31 is a flag).
pub open spec fn clock_field(word: u32) -> u32 {
    word & 0x7fff_ffff
}

pub open spec fn spec_header(data: Seq<u8>) -> VgmHeader {
    VgmHeader {
        version: spec_u32_le(data, 0x08),
        total_samples: spec_u32_le(data, 0x18),
        loop_offset: spec_u32_le(data, 0x1c),
        loop_samples: spec_u32_le(data, 0x20),
        rate: spec_u32_le(data, 0x24),
        data_offset: spec_u32_le(data, 0x34),
        sn76489_clock: clock_field(spec_u32_le(data, 0x0c)),
        ym2612_clock: clock_field(spec_u32_le(data, 0x2c)),
        ym2151_clock: clock_field(spec_u32_le(data, 0x30)),
        ay8910_clock: if data.len() > 0x78 {
            clock_field(spec_u32_le(data, 0x74))
        } else {
            0
        },
        nes_apu_clock: if data.len() > 0x84 {
            clock_field(spec_u32_le(data, 0x84))
        } else {
            0
        },
        pokey_clock: if data.len() > 0xb0 {
            clock_field(spec_u32_le(data, 0xb0))
        } else {
            0
        },
    }
}

/// Where the command stream starts: 0x34 plus the data offset, or 0x40
/// when the offset field is zero (older versions).
pub open spec fn data_start(h: VgmHeader) -> int {
    if h.data_offset > 0 {
        0x34 + h.data_offset
    } else {
        0x40
    }
}

/// The command at `pos` and its length in bytes. Operand bytes past the
/// end of the data read as 0.
pub open spec fn decode_command(data: Seq<u8>, pos: int) -> (VgmCommand, int) {
    let cmd = byte_at(data, pos);
    let b1 = byte_at(data, pos + 1);
    let b2 = byte_at(data, pos + 2);
    if cmd == 0x50 {
        (VgmCommand::Sn76489Write { data: b1 }, 2)
    } else if cmd == 0x52 {
        (VgmCommand::Ym2612Port0 { reg: b1, data: b2 }, 3)
    } else if cmd == 0x53 {
        (VgmCommand::Ym2612Port1 { reg: b1, data: b2 }, 3)
    } else if cmd == 0x54 {
        (VgmCommand::Ym2151Write { reg: b1, data: b2 }, 3)
    } else if cmd == 0xa0 {
        (VgmCommand::Ay8910Write { reg: b1, data: b2 }, 3)
    } else if cmd == 0xb4 {
        (VgmCommand::NesApuWrite { reg: b1, data: b2 }, 3)
    } else if cmd == 0xbb {
        (VgmCommand::PokeyWrite { reg: b1, data: b2 }, 3)
    } else if cmd == 0x61 {
        (VgmCommand::Wait { samples: (b1 as int + b2 as int * 0x100) as u32 }, 3)
    } else if cmd == 0x62 {
        (VgmCommand::Wait { samples: 735 }, 1)
    } else if cmd == 0x63 {
        (VgmCommand::Wait { samples: 882 }, 1)
    } else if cmd == 0x66 {
        (VgmCommand::End, 1)
    } else if 0x70 <= cmd <= 0x7f {
        (VgmCommand::Wait { samples: (cmd - 0x70 + 1) as u32 }, 1)
    } else if 0x30 <= cmd <= 0x3f {
        (VgmCommand::Unknown { cmd }, 2)
    } else if (0x40 <= cmd <= 0x4e) || cmd == 0x51 || (0x55 <= cmd <= 0x5f) || (0xa1 <= cmd
        <= 0xbf) {
        (VgmCommand::Unknown { cmd }, 3)
    } else if 0xc0 <= cmd <= 0xdf {
        (VgmCommand::Unknown { cmd }, 4)
    } else if 0xe0 <= cmd {
        (VgmCommand::Unknown { cmd }, 5)
    } else {
        (VgmCommand::Unknown { cmd }, 1)
    }
}

/// The commands from `pos` on, stamped with sample positions counted from
/// `sample`. A wait is stamped with the position after the wait; the
/// stream stops after an end command or at the end of the data.
pub open spec fn commands_from(data: Seq<u8>, pos: int, sample: nat) -> Seq<TimedCommand>
    decreases data.len() - pos,
{
    if pos < 0 || pos >= data.len() {
        seq![]
    } else {
        proof {
            lemma_decode_advance(data, pos);
        }
        let (cmd, adv) = decode_command(data, pos);
        match cmd {
            VgmCommand::End => seq![TimedCommand { sample_pos: sample as u64, command: cmd }],
            VgmCommand::Wait { samples } => {
                let next = (sample + samples) as nat;
                let rest = if pos + adv < data.len() {
                    commands_from(data, pos + adv, next)
                } else {
                    seq![]
                };
                seq![TimedCommand { sample_pos: next as u64, command: cmd }] + rest
            },
            _ => {
                let rest = if pos + adv < data.len() {
                    commands_from(data, pos + adv, sample)
                } else {
                    seq![]
                };
                seq![TimedCommand { sample_pos: sample as u64, command: cmd }] + rest
            },
        }
    }
}

/// Every command is at least one and at most five bytes long.
pub proof fn lemma_decode_advance(data: Seq<u8>, pos: int)
    ensures
        1 <= decode_command(data, pos).1 <= 5,
{
}

/// The whole command stream of a file.
pub open spec fn spec_commands(data: Seq<u8>) -> Seq<TimedCommand> {
    commands_from(data, data_start(spec_header(data)), 0)
}

/// Which of the six supported chips a command writes to (-1 for none):
/// SN76489, YM2612, YM2151, AY-3-8910, NES APU, POKEY.
pub open spec fn write_target(c: VgmCommand) -> int {
    match c {
        VgmCommand::Sn76489Write { .. } => 0,
        VgmCommand::Ym2612Port0 { .. } => 1,
        VgmCommand::Ym2612Port1 { .. } => 1,
        VgmCommand::Ym2151Write { .. } => 2,
        VgmCommand::Ay8910Write { .. } => 3,
        VgmCommand::NesApuWrite { .. } => 4,
        VgmCommand::PokeyWrite { .. } => 5,
        _ => -1,
    }
}

/// Number of commands in `cmds` that write to chip `chip`.
pub open spec fn count_writes(cmds: Seq<TimedCommand>, chip: int) -> nat
    decreases cmds.len(),
{
    if cmds.len() == 0 {
        0
    } else {
        count_writes(cmds.drop_last(), chip) + if write_target(cmds.last().command) == chip {
            1nat
        } else {
            0nat
        }
    }
}

pub open spec fn usage(name: Seq<char>, clock: u32, count: nat) -> ChipUsage {
    ChipUsage { name, clock, write_count: count }
}

/// The chips a file uses, in a fixed order. SN76489, YM2612 and YM2151
/// count only when their header clock is set; the others whenever they
/// are written to.
pub open spec fn spec_chips_used(h: VgmHeader, cmds: Seq<TimedCommand>) -> Seq<ChipUsage> {
    let c0 = count_writes(cmds, 0);
    let c1 = count_writes(cmds, 1);
    let c2 = count_writes(cmds, 2);
    let c3 = count_writes(cmds, 3);
    let c4 = count_writes(cmds, 4);
    let c5 = count_writes(cmds, 5);
    (if h.sn76489_clock > 0 && c0 > 0 {
        seq![usage("SN76489"@, h.sn76489_clock, c0)]
    } else {
        seq![]
    }) + (if h.ym2612_clock > 0 && c1 > 0 {
        seq![usage("YM2612"@, h.ym2612_clock, c1)]
    } else {
        seq![]
    }) + (if h.ym2151_clock > 0 && c2 > 0 {
        seq![usage("YM2151"@, h.ym2151_clock, c2)]
    } else {
        seq![]
    }) + (if c3 > 0 {
        seq![usage("AY-3-8910"@, h.ay8910_clock, c3)]
    } else {
        seq![]
    }) + (if c4 > 0 {
        seq![usage("NES APU"@, h.nes_apu_clock, c4)]
    } else {
        seq![]
    }) + (if c5 > 0 {
        seq![usage("POKEY"@, h.pokey_clock, c5)]
    } else {
        seq![]
    })
}

/// Whether the data is a VGM file: at least 64 bytes, starting `Vgm `.
pub open spec fn is_vgm(data: Seq<u8>) -> bool {
    &&& data.len() >= 64
    &&& data[0] == 0x56 && data[1] == 0x67 && data[2] == 0x6d && data[3] == 0x20
}

/// The sample position after the last command from `pos` on, counting
/// from `sample`: the total of the waits up to the end command or the end
/// of the data.
pub open spec fn stream_end(data: Seq<u8>, pos: int, sample: nat) -> nat
    decreases data.len() - pos,
{
    if pos < 0 || pos >= data.len() {
        sample
    } else {
        proof {
            lemma_decode_advance(data, pos);
        }
        let (cmd, adv) = decode_command(data, pos);
        match cmd {
            VgmCommand::End => sample,
            _ => {
                let next = sample + wait_of(cmd);
                if pos + adv < data.len() {
                    stream_end(data, pos + adv, next)
                } else {
                    next
                }
            },
        }
    }
}

/// Whether every sample position of the file fits in 64 bits: the total
/// of its waits is at most `u64::MAX`.
pub open spec fn waits_fit(data: Seq<u8>) -> bool {
    stream_end(data, data_start(spec_header(data)), 0) <= u64::MAX
}

/// The stream never ends before `sample`.
proof fn lemma_stream_end_ge(data: Seq<u8>, pos: int, sample: nat)
    ensures
        sample <= stream_end(data, pos, sample),
    decreases data.len() - pos,
{
    if 0 <= pos < data.len() {
        lemma_decode_advance(data, pos);
        let (cmd, adv) = decode_command(data, pos);
        if cmd != VgmCommand::End && pos + adv < data.len() {
            lemma_stream_end_ge(data, pos + adv, sample + wait_of(cmd));
        }
    }
}

/// Tone periods of the C major scale C4..C5 for an SN76489 at 3579545 Hz
/// (the clock divided by 32 times each note's frequency, rounded).
const TEST_PERIODS: [u16; 8] = [428, 381, 339, 320, 285, 254, 226, 214];

pub open spec fn spec_test_periods() -> Seq<u16> {
    seq![428u16, 381, 339, 320, 285, 254, 226, 214]
}

/// The commands that play one note of the test melody: latch tone 0's
/// period (low nibble, then the high six bits), set tone 0 to full volume,
/// wait 11025 samples, silence tone 0, wait 2205 samples.
pub open spec fn note_bytes(n: u16) -> Seq<u8> {
    seq![
        0x50u8,
        0x80u8 | ((n & 0x0f) as u8),
        0x50,
        ((n >> 4) & 0x3f) as u8,
        0x50,
        0x90,
        0x61,
        0x11,
        0x2b,
        0x50,
        0x9f,
        0x61,
        0x9d,
        0x08,
    ]
}

/// The first `k` notes of the test melody.
pub open spec fn test_body(k: int) -> Seq<u8>
    decreases k,
{
    if k <= 0 {
        seq![]
    } else {
        test_body(k - 1) + note_bytes(spec_test_periods()[k - 1])
    }
}

/// The 256-byte header of the test file: magic, end-of-file offset,
/// version 1.50, SN76489 clock 3579545 Hz, total samples 105840, noise
/// feedback 0x0009 with a 16-bit shift register, data offset 0x0C.
pub open spec fn test_header_byte(i: int) -> u8 {
    if i == 0 {
        0x56
    } else if i == 1 {
        0x67
    } else if i == 2 {
        0x6d
    } else if i == 3 {
        0x20
    } else if i == 4 {
        0x6d
    } else if i == 5 {
        0x01
    } else if i == 8 {
        0x50
    } else if i == 9 {
        0x01
    } else if i == 0x0c {
        0x99
    } else if i == 0x0d {
        0x9e
    } else if i == 0x0e {
        0x36
    } else if i == 0x18 {
        0x70
    } else if i == 0x19 {
        0x9d
    } else if i == 0x1a {
        0x01
    } else if i == 0x28 {
        0x09
    } else if i == 0x2a {
        16
    } else if i == 0x34 {
        0x0c
    } else {
        0
    }
}

/// The synthetic SN76489 test file: header, eight notes, end command.
pub open spec fn spec_test_vgm() -> Seq<u8> {
    Seq::new(256, |i: int| test_header_byte(i)) + test_body(8) + seq![0x66u8]
}

proof fn lemma_test_body_len(k: int)
    requires
        0 <= k,
    ensures
        test_body(k).len() == 14 * k,
    decreases k,
{
    if k > 0 {
        lemma_test_body_len(k - 1);
    }
}

/// Create a synthetic VGM file for testing: an SN76489 playing a C major
/// scale (eight notes of 11025 samples, each followed by 2205 of silence).
pub fn create_test_vgm_sn76489() -> (r: Vec<u8>)
    ensures
        r@ == spec_test_vgm(),
{
    let mut data: Vec<u8> = vec![0u8; 256];
    let ghost zero_header = data@;
    // Magic
    data.set(0, 0x56);
    data.set(1, 0x67);
    data.set(2, 0x6D);
    data.set(3, 0x20);
    // Version 1.50
    data.set(8, 0x50);
    data.set(9, 0x01);
    // SN76489 clock: 3579545 Hz
    data.set(0x0C, 0x99);
    data.set(0x0D, 0x9E);
    data.set(0x0E, 0x36);
    // SN76489 feedback and shift register width
    data.set(0x28, 0x09);
    data.set(0x2A, 16);
    // Data offset (relative to 0x34): data starts at 0x40
    data.set(0x34, 0x0C);

    let mut k: usize = 0;
    while k < 8
        invariant
            k <= 8,
            data@.len() == 256 + 14 * k,
            data@.subrange(256, data@.len() as int) == test_body(k as int),
            forall|i: int|
                0 <= i < 256 ==> #[trigger] data@[i] == if i == 4 || i == 5 || i == 0x18 || i
                    == 0x19 || i == 0x1a {
                    0u8
                } else {
                    test_header_byte(i)
                },
        decreases 8 - k,
    {
        let n = TEST_PERIODS[k];
        let low = (n & 0x0F) as u8;
        let high = ((n >> 4) & 0x3F) as u8;
        let ghost before = data@;
        // Latch tone 0 period, low nibble; then the high bits
        data.push(0x50);
        data.push(0x80 | low);
        data.push(0x50);
        data.push(high);
        // Tone 0 volume: loudest
        data.push(0x50);
        data.push(0x90);
        // Wait 11025 samples
        data.push(0x61);
        data.push(0x11);
        data.push(0x2B);
        // Tone 0 volume: silent
        data.push(0x50);
        data.push(0x9F);
        // Wait 2205 samples
        data.push(0x61);
        data.push(0x9D);
        data.push(0x08);
        proof {
            assert(n == spec_test_periods()[k as int]);
            assert(data@ =~= before + note_bytes(n));
            assert(data@.subrange(256, data@.len() as int) =~= before.subrange(
                256,
                before.len() as int,
            ) + note_bytes(n));
            assert forall|i: int| 0 <= i < 256 implies #[trigger] data@[i] == before[i] by {}
        }
        k = k + 1;
    }

    // End
    data.push(0x66);

    // Total samples: (11025 + 2205) * 8 = 105840
    data.set(0x18, 0x70);
    data.set(0x19, 0x9D);
    data.set(0x1A, 0x01);
    // End-of-file offset, relative to 4: 369 - 4 = 365
    data.set(0x04, 0x6D);
    data.set(0x05, 0x01);
    proof {
        lemma_test_body_len(8);
        assert(data@ =~= spec_test_vgm()) by {
            assert forall|i: int| 0 <= i < data@.len() implies data@[i] == spec_test_vgm()[i] by {
                if i >= 256 && i < 256 + 112 {
                    assert(data@[i] == data@.subrange(256, 368)[i - 256]);
                }
            }
        }
    }
    data
}

// ---------------------------------------------------------------------------
// Laws of the command stream
// ---------------------------------------------------------------------------

/// The samples a command waits (0 for everything but a wait).
pub open spec fn wait_of(c: VgmCommand) -> nat {
    match c {
        VgmCommand::Wait { samples } => samples as nat,
        _ => 0,
    }
}

/// Each command is stamped with the stamp before it (or `start` for the
/// first) plus the samples it waits.
pub open spec fn stamps_follow_waits(cmds: Seq<TimedCommand>, start: nat) -> bool {
    forall|i: int|
        0 <= i < cmds.len() ==> #[trigger] cmds[i].sample_pos == (if i == 0 {
            start
        } else {
            cmds[i - 1].sample_pos as nat
        }) + wait_of(cmds[i].command)
}

/// Sample positions never go backwards, and none is before `start`.
pub open spec fn stamps_nondecreasing(cmds: Seq<TimedCommand>, start: nat) -> bool {
    &&& forall|i: int| 0 <= i < cmds.len() ==> start <= #[trigger] cmds[i].sample_pos
    &&& forall|i: int, j: int|
        0 <= i <= j < cmds.len() ==> #[trigger] cmds[i].sample_pos <= #[trigger] cmds[j].sample_pos
}

/// An end command, if there is one, is the last command.
pub open spec fn end_is_last(cmds: Seq<TimedCommand>) -> bool {
    forall|i: int| 0 <= i < cmds.len() && #[trigger] cmds[i].command == VgmCommand::End ==> i
        == cmds.len() - 1
}

proof fn lemma_stream_shape(data: Seq<u8>, pos: int, s: nat)
    requires
        stream_end(data, pos, s) <= u64::MAX,
    ensures
        stamps_follow_waits(commands_from(data, pos, s), s),
        stamps_nondecreasing(commands_from(data, pos, s), s),
        end_is_last(commands_from(data, pos, s)),
    decreases data.len() - pos,
{
    let cmds = commands_from(data, pos, s);
    if pos < 0 || pos >= data.len() {
        return;
    }
    lemma_decode_advance(data, pos);
    let (cmd, adv) = decode_command(data, pos);
    let head_stamp: nat = s + wait_of(cmd);
    lemma_stream_end_ge(data, pos, s);
    let rest = if pos + adv < data.len() {
        commands_from(data, pos + adv, head_stamp)
    } else {
        seq![]
    };
    if cmd == VgmCommand::End {
        assert(cmds =~= seq![TimedCommand { sample_pos: s as u64, command: cmd }]);
        return;
    }
    if pos + adv < data.len() {
        lemma_stream_end_ge(data, pos + adv, head_stamp);
        lemma_stream_shape(data, pos + adv, head_stamp);
    }
    let head = TimedCommand { sample_pos: head_stamp as u64, command: cmd };
    assert(cmds =~= seq![head] + rest);
    assert forall|i: int| 0 <= i < cmds.len() implies #[trigger] cmds[i].sample_pos == (if i == 0 {
        s
    } else {
        cmds[i - 1].sample_pos as nat
    }) + wait_of(cmds[i].command) by {
        if i > 0 {
            assert(cmds[i] == rest[i - 1]);
            if i > 1 {
                assert(cmds[i - 1] == rest[i - 2]);
            }
        }
    }
    assert forall|i: int, j: int|
        0 <= i <= j < cmds.len() implies #[trigger] cmds[i].sample_pos
        <= #[trigger] cmds[j].sample_pos by {
        if i > 0 {
            assert(cmds[i] == rest[i - 1]);
        }
        if j > 0 {
            assert(cmds[j] == rest[j - 1]);
        }
    }
    assert forall|i: int| 0 <= i < cmds.len() && #[trigger] cmds[i].command
        == VgmCommand::End implies i == cmds.len() - 1 by {
        if i > 0 {
            assert(cmds[i] == rest[i - 1]);
        }
    }
}

/// The parsed stream keeps time: each command is stamped with the total of
/// the waits up to and including it, so stamps never go backwards; and an
/// end command, when present, closes the stream.
pub proof fn law_stream_keeps_time(data: Seq<u8>)
    requires
        waits_fit(data),
    ensures
        stamps_follow_waits(spec_commands(data), 0),
        stamps_nondecreasing(spec_commands(data), 0),
        end_is_last(spec_commands(data)),
{
    lemma_stream_shape(data, data_start(spec_header(data)), 0);
}

/// What parsing `data` gives: the error for a short or foreign input, or
/// for one whose waits overflow 64-bit sample positions, and otherwise the
/// header, the command stream and the chips used.
pub open spec fn parses_to(data: Seq<u8>, r: Result<VgmFile, VgmError>) -> bool {
    &&& data.len() < 64 ==> r == Err::<VgmFile, VgmError>(VgmError::TooShort)
    &&& data.len() >= 64 && !is_vgm(data) ==> r == Err::<VgmFile, VgmError>(VgmError::BadMagic)
    &&& is_vgm(data) && !waits_fit(data) ==> r == Err::<VgmFile, VgmError>(VgmError::TooLarge)
    &&& r is Ok <==> is_vgm(data) && waits_fit(data)
    &&& r matches Ok(v) ==> {
        &&& v.header == spec_header(data)
        &&& v.commands@ == spec_commands(data)
        &&& v.chips_used@.map_values(|c: ChipUsed| c@) == spec_chips_used(v.header, v.commands@)
    }
}

/// Whether raw file bytes are gzip-compressed: the file name ends in
/// `.vgz`, or the data starts with the gzip magic `1F 8B`.
pub open spec fn is_compressed(raw: Seq<u8>, vgz_extension: bool) -> bool {
    vgz_extension || (raw.len() >= 2 && raw[0] == 0x1f && raw[1] == 0x8b)
}

/// The bytes a gzip stream decompresses to, or None when it does not
/// decompress: what flate2's `GzDecoder`, read to its end, gives.
pub uninterp spec fn gunzip_result(data: Seq<u8>) -> Option<Seq<u8>>;

#[verifier::external_type_specification]
#[verifier::external_body]
pub struct ExIoError(std::io::Error);

/// Decompresses gzip data with flate2's `GzDecoder` (`read_to_end`). The
/// contract claims only that the outcome is a function of the input,
/// named `gunzip_result`.
#[verifier::external_body]
fn gunzip(data: &[u8]) -> (r: Result<Vec<u8>, std::io::Error>)
    ensures
        r is Ok <==> gunzip_result(data@) is Some,
        r matches Ok(v) ==> gunzip_result(data@) == Some(v@),
{
    let mut decoder = flate2::read::GzDecoder::new(data);
    let mut out = Vec::new();
    match std::io::Read::read_to_end(&mut decoder, &mut out) {
        Ok(_) => Ok(out),
        Err(e) => Err(e),
    }
}

// ---------------------------------------------------------------------------
// Parser
// ---------------------------------------------------------------------------

fn read_u32_le(data: &[u8], offset: usize) -> (r: u32)
    ensures
        r == spec_u32_le(data@, offset as int),
{
    if offset > data.len() || data.len() - offset < 4 {
        return 0;
    }
    (data[offset] as u32) + (data[offset + 1] as u32) * 0x100 + (data[offset + 2] as u32)
        * 0x1_0000 + (data[offset + 3] as u32) * 0x100_0000
}

fn parse_header(data: &[u8]) -> (h: VgmHeader)
    ensures
        h == spec_header(data@),
{
    let version = read_u32_le(data, 0x08);
    let total_samples = read_u32_le(data, 0x18);
    let loop_offset = read_u32_le(data, 0x1C);
    let loop_samples = read_u32_le(data, 0x20);
    let rate = read_u32_le(data, 0x24);
    let data_offset = read_u32_le(data, 0x34);

    let sn76489_clock = read_u32_le(data, 0x0C) & 0x7FFFFFFF;
    let ym2612_clock = read_u32_le(data, 0x2C) & 0x7FFFFFFF;
    let ym2151_clock = read_u32_le(data, 0x30) & 0x7FFFFFFF;

    // Extended header fields (v1.51+)
    let ay8910_clock = if data.len() > 0x78 {
        read_u32_le(data, 0x74) & 0x7FFFFFFF
    } else {
        0
    };
    let nes_apu_clock = if data.len() > 0x84 {
        read_u32_le(data, 0x84) & 0x7FFFFFFF
    } else {
        0
    };
    let pokey_clock = if data.len() > 0xB0 {
        read_u32_le(data, 0xB0) & 0x7FFFFFFF
    } else {
        0
    };

    VgmHeader {
        version,
        total_samples,
        loop_offset,
        loop_samples,
        rate,
        data_offset,
        sn76489_clock,
        ym2612_clock,
        ym2151_clock,
        ay8910_clock,
        nes_apu_clock,
        pokey_clock,
    }
}

/// The byte `k` places after `pos`, or 0 past the end of the data.
fn byte_after(data: &[u8], pos: usize, k: usize) -> (r: u8)
    requires
        pos < data@.len(),
    ensures
        r == byte_at(data@, pos + k),
{
    if k < data.len() - pos {
        data[pos + k]
    } else {
        0
    }
}

fn decode(data: &[u8], pos: usize) -> (r: (VgmCommand, usize))
    requires
        pos < data@.len(),
    ensures
        r.0 == decode_command(data@, pos as int).0,
        r.1 == decode_command(data@, pos as int).1,
        1 <= r.1 <= 5,
{
    let cmd = data[pos];
    let b1 = byte_after(data, pos, 1);
    let b2 = byte_after(data, pos, 2);
    if cmd == 0x50 {
        (VgmCommand::Sn76489Write { data: b1 }, 2)
    } else if cmd == 0x52 {
        (VgmCommand::Ym2612Port0 { reg: b1, data: b2 }, 3)
    } else if cmd == 0x53 {
        (VgmCommand::Ym2612Port1 { reg: b1, data: b2 }, 3)
    } else if cmd == 0x54 {
        (VgmCommand::Ym2151Write { reg: b1, data: b2 }, 3)
    } else if cmd == 0xA0 {
        (VgmCommand::Ay8910Write { reg: b1, data: b2 }, 3)
    } else if cmd == 0xB4 {
        (VgmCommand::NesApuWrite { reg: b1, data: b2 }, 3)
    } else if cmd == 0xBB {
        (VgmCommand::PokeyWrite { reg: b1, data: b2 }, 3)
    } else if cmd == 0x61 {
        (VgmCommand::Wait { samples: (b1 as u32) + (b2 as u32) * 0x100 }, 3)
    } else if cmd == 0x62 {
        (VgmCommand::Wait { samples: 735 }, 1)
    } else if cmd == 0x63 {
        (VgmCommand::Wait { samples: 882 }, 1)
    } else if cmd == 0x66 {
        (VgmCommand::End, 1)
    } else if 0x70 <= cmd && cmd <= 0x7F {
        (VgmCommand::Wait { samples: (cmd - 0x70 + 1) as u32 }, 1)
    } else if 0x30 <= cmd && cmd <= 0x3F {
        (VgmCommand::Unknown { cmd }, 2)
    } else if (0x40 <= cmd && cmd <= 0x4E) || cmd == 0x51 || (0x55 <= cmd && cmd <= 0x5F) || (0xA1
        <= cmd && cmd <= 0xBF) {
        (VgmCommand::Unknown { cmd }, 3)
    } else if 0xC0 <= cmd && cmd <= 0xDF {
        (VgmCommand::Unknown { cmd }, 4)
    } else if 0xE0 <= cmd {
        (VgmCommand::Unknown { cmd }, 5)
    } else {
        (VgmCommand::Unknown { cmd }, 1)
    }
}

proof fn lemma_count_push(cmds: Seq<TimedCommand>, tc: TimedCommand, chip: int)
    ensures
        count_writes(cmds.push(tc), chip) == count_writes(cmds, chip) + if write_target(tc.command)
            == chip {
            1nat
        } else {
            0nat
        },
{
    assert(cmds.push(tc).drop_last() =~= cmds);
}

proof fn lemma_count_le_len(cmds: Seq<TimedCommand>, chip: int)
    ensures
        count_writes(cmds, chip) <= cmds.len(),
    decreases cmds.len(),
{
    if cmds.len() > 0 {
        lemma_count_le_len(cmds.drop_last(), chip);
    }
}

/// Decodes the command stream from byte `start` on and counts the writes
/// to each chip; `None` when the waits overflow 64-bit sample positions.
fn parse_stream(data: &[u8], start: u64) -> (r: Option<
    (Vec<TimedCommand>, (usize, usize, usize, usize, usize, usize)),
>)
    ensures
        r is None <==> stream_end(data@, start as int, 0) > u64::MAX,
        r matches Some(p) ==> {
            &&& p.0@ == commands_from(data@, start as int, 0)
            &&& p.1.0 == count_writes(p.0@, 0)
            &&& p.1.1 == count_writes(p.0@, 1)
            &&& p.1.2 == count_writes(p.0@, 2)
            &&& p.1.3 == count_writes(p.0@, 3)
            &&& p.1.4 == count_writes(p.0@, 4)
            &&& p.1.5 == count_writes(p.0@, 5)
        },
{
    let mut commands: Vec<TimedCommand> = Vec::new();
    let ghost full = commands_from(data@, start as int, 0);
    let ghost total = stream_end(data@, start as int, 0);
    let mut pos: usize = 0;
    let mut sample_pos: u64 = 0;
    let mut done = false;
    if start < data.len() as u64 {
        pos = start as usize;
    } else {
        done = true;
        assert(full == Seq::<TimedCommand>::empty());
    }

    // Counters per chip
    let mut sn_count: usize = 0;
    let mut ym2612_count: usize = 0;
    let mut ym2151_count: usize = 0;
    let mut ay_count: usize = 0;
    let mut nes_count: usize = 0;
    let mut pokey_count: usize = 0;

    while !done && pos < data.len()
        invariant
            full == commands_from(data@, start as int, 0),
            total == stream_end(data@, start as int, 0),
            pos <= data@.len(),
            !done ==> stream_end(data@, pos as int, sample_pos as nat) == total,
            done ==> total == sample_pos as nat,
            done ==> commands@ == full,
            !done ==> commands@ + commands_from(data@, pos as int, sample_pos as nat) == full,
            !done ==> commands@.len() <= pos,
            done ==> commands@.len() <= pos + 1,
            sn_count == count_writes(commands@, 0),
            ym2612_count == count_writes(commands@, 1),
            ym2151_count == count_writes(commands@, 2),
            ay_count == count_writes(commands@, 3),
            nes_count == count_writes(commands@, 4),
            pokey_count == count_writes(commands@, 5),
        decreases data@.len() - pos, if done { 0int } else { 1int },
    {
        let ghost before = commands@;
        let (command, advance) = decode(data, pos);
        let ghost rest = commands_from(data@, pos as int, sample_pos as nat);
        proof {
            lemma_count_le_len(commands@, 0);
            lemma_count_le_len(commands@, 1);
            lemma_count_le_len(commands@, 2);
            lemma_count_le_len(commands@, 3);
            lemma_count_le_len(commands@, 4);
            lemma_count_le_len(commands@, 5);
        }
        let mut stamp = sample_pos;
        match command {
            VgmCommand::Sn76489Write { .. } => { sn_count += 1; },
            VgmCommand::Ym2612Port0 { .. } => { ym2612_count += 1; },
            VgmCommand::Ym2612Port1 { .. } => { ym2612_count += 1; },
            VgmCommand::Ym2151Write { .. } => { ym2151_count += 1; },
            VgmCommand::Ay8910Write { .. } => { ay_count += 1; },
            VgmCommand::NesApuWrite { .. } => { nes_count += 1; },
            VgmCommand::PokeyWrite { .. } => { pokey_count += 1; },
            VgmCommand::Wait { samples } => {
                match sample_pos.checked_add(samples as u64) {
                    Some(next) => {
                        stamp = next;
                    },
                    None => {
                        proof {
                            if pos as int + advance < data@.len() {
                                lemma_stream_end_ge(
                                    data@,
                                    pos as int + advance,
                                    (sample_pos + samples) as nat,
                                );
                            }
                        }
                        return None;
                    },
                }
            },
            _ => {},
        }
        let tc = TimedCommand { sample_pos: stamp, command };
        commands.push(tc);
        proof {
            lemma_count_push(before, tc, 0);
            lemma_count_push(before, tc, 1);
            lemma_count_push(before, tc, 2);
            lemma_count_push(before, tc, 3);
            lemma_count_push(before, tc, 4);
            lemma_count_push(before, tc, 5);
        }
        if command == VgmCommand::End {
            done = true;
            assert(rest == seq![tc]);
            assert(commands@ == before + rest);
        } else {
            let ghost next = commands_from(data@, (pos + advance) as int, stamp as nat);
            assert(rest == seq![tc] + next);
            assert(commands@ + next =~= before + rest);
            sample_pos = stamp;
            if advance < data.len() - pos {
                pos = pos + advance;
            } else {
                pos = data.len();
            }
        }
    }
    proof {
        if !done {
            assert(commands_from(data@, pos as int, sample_pos as nat) == Seq::<
                TimedCommand,
            >::empty());
            assert(commands@ + Seq::<TimedCommand>::empty() =~= commands@);
        }
    }

    Some((commands, (sn_count, ym2612_count, ym2151_count, ay_count, nes_count, pokey_count)))
}

impl VgmFile {
    /// Parse VGM data from a byte slice. The sample positions are 64-bit:
    /// where the waits add up to more than `u64::MAX` samples, the answer is
    /// `TooLarge`.
    pub fn parse(data: &[u8]) -> (r: Result<VgmFile, VgmError>)
        ensures
            parses_to(data@, r),
    {
        if data.len() < 64 {
            return Err(VgmError::TooShort);
        }
        if !(data[0] == 0x56 && data[1] == 0x67 && data[2] == 0x6D && data[3] == 0x20) {
            return Err(VgmError::BadMagic);
        }

        let header = parse_header(data);
        let start: u64 = if header.data_offset > 0 {
            0x34 + header.data_offset as u64
        } else {
            0x40
        };

        let (commands, counts) = match parse_stream(data, start) {
            Some(p) => p,
            None => {
                return Err(VgmError::TooLarge);
            },
        };
        let sn_count = counts.0;
        let ym2612_count = counts.1;
        let ym2151_count = counts.2;
        let ay_count = counts.3;
        let nes_count = counts.4;
        let pokey_count = counts.5;

        let mut chips_used: Vec<ChipUsed> = Vec::new();
        if header.sn76489_clock > 0 && sn_count > 0 {
            chips_used.push(
                ChipUsed { name: "SN76489", clock: header.sn76489_clock, write_count: sn_count },
            );
        }
        if header.ym2612_clock > 0 && ym2612_count > 0 {
            chips_used.push(
                ChipUsed { name: "YM2612", clock: header.ym2612_clock, write_count: ym2612_count },
            );
        }
        if header.ym2151_clock > 0 && ym2151_count > 0 {
            chips_used.push(
                ChipUsed { name: "YM2151", clock: header.ym2151_clock, write_count: ym2151_count },
            );
        }
        if ay_count > 0 {
            chips_used.push(
                ChipUsed { name: "AY-3-8910", clock: header.ay8910_clock, write_count: ay_count },
            );
        }
        if nes_count > 0 {
            chips_used.push(
                ChipUsed { name: "NES APU", clock: header.nes_apu_clock, write_count: nes_count },
            );
        }
        if pokey_count > 0 {
            chips_used.push(
                ChipUsed { name: "POKEY", clock: header.pokey_clock, write_count: pokey_count },
            );
        }
        assert(chips_used@.map_values(|c: ChipUsed| c@) =~= spec_chips_used(header, commands@));

        Ok(VgmFile { header, commands, chips_used })
    }

    /// Parses the raw bytes of a VGM or VGZ file. The data is decompressed
    /// first when it is gzip-compressed (by name or by magic). Where the
    /// waits would overflow 64-bit sample positions, the answer is
    /// `TooLarge`.
    pub fn decode(raw: &[u8], vgz_extension: bool) -> (r: Result<VgmFile, VgmError>)
        ensures
            !is_compressed(raw@, vgz_extension) ==> parses_to(raw@, r),
            is_compressed(raw@, vgz_extension) ==> match gunzip_result(raw@) {
                None => r == Err::<VgmFile, VgmError>(VgmError::Decompress),
                Some(d) => parses_to(d, r),
            },
    {
        if vgz_extension || (raw.len() >= 2 && raw[0] == 0x1F && raw[1] == 0x8B) {
            match gunzip(raw) {
                Ok(data) => Self::parse(data.as_slice()),
                Err(_) => Err(VgmError::Decompress),
            }
        } else {
            Self::parse(raw)
        }
    }
}


/// The frame waits of the format: command 0x62 waits one 60 Hz frame and
/// 0x63 one 50 Hz frame of the 44100 Hz sample clock (735 and 882
/// samples), each in a single byte, wherever it stands in the data.
pub proof fn law_frame_waits(data: Seq<u8>, pos: int)
    requires
        0 <= pos < data.len(),
        data[pos] == 0x62 || data[pos] == 0x63,
    ensures
        decode_command(data, pos).1 == 1,
        decode_command(data, pos).0 is Wait,
        data[pos] == 0x62 ==> wait_of(decode_command(data, pos).0) * 60 == 44100,
        data[pos] == 0x63 ==> wait_of(decode_command(data, pos).0) * 50 == 44100,
{
}

} // verus!

//! Decoding of live MIDI input: the channel messages the synthesizer
//! reacts to (notes and pitch bend), on any channel.

use vstd::prelude::*;

verus! {

/// A MIDI message the synthesizer plays.
#[derive(Debug, Clone, Copy, PartialEq, Eq, Structural)]
pub enum MidiMessage {
    NoteOn { note: u8, velocity: u8 },
    NoteOff { note: u8 },
    /// 14-bit bend, 8192 at the centre.
    PitchBend { value: u16 },
}

/// What a raw message means: a note-on with a velocity above 0 plays; a
/// note-off, or a note-on with velocity 0, releases; a pitch bend carries
/// its value, the third byte shifted up seven bits and combined with the
/// second. Messages shorter than three bytes and all other statuses mean
/// nothing.
pub open spec fn spec_parse_midi(data: Seq<u8>) -> Option<MidiMessage> {
    if data.len() < 3 {
        None
    } else {
        let status = data[0] / 16;
        if status == 9 && data[2] > 0 {
            Some(MidiMessage::NoteOn { note: data[1], velocity: data[2] })
        } else if status == 8 || status == 9 {
            Some(MidiMessage::NoteOff { note: data[1] })
        } else if status == 14 {
            Some(MidiMessage::PitchBend { value: ((data[2] as u16) << 7u16) | (data[1] as u16) })
        } else {
            None
        }
    }
}

/// Decodes one raw MIDI message.
pub fn parse_midi(data: &[u8]) -> (r: Option<MidiMessage>)
    ensures
        r == spec_parse_midi(data@),
        data.len() >= 3 && data[0] / 16 == 14 && data[1] < 128 && data[2] < 128 ==> r == Some(
            MidiMessage::PitchBend { value: (data[2] * 128 + data[1]) as u16 },
        ),
{
    if data.len() == 0 {
        return None;
    }
    let b0 = data[0];
    let status: u8 = b0 & 0xF0;
    assert(status == (b0 / 16) * 16) by (bit_vector)
        requires
            status == b0 & 0xF0,
    ;
    if data.len() < 3 {
        return None;
    }
    if status == 0x90 && data[2] > 0 {
        Some(MidiMessage::NoteOn { note: data[1], velocity: data[2] })
    } else if status == 0x80 || status == 0x90 {
        Some(MidiMessage::NoteOff { note: data[1] })
    } else if status == 0xE0 {
        let hi = data[2] as u16;
        let lo = data[1] as u16;
        let value: u16 = (hi << 7u16) | lo;
        assert(hi < 128 && lo < 128 ==> value == hi * 128 + lo) by (bit_vector)
            requires
                hi < 256,
                lo < 256,
                value == (hi << 7u16) | lo,
        ;
        Some(MidiMessage::PitchBend { value })
    } else {
        None
    }
}

} // verus!

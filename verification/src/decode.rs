//! Note decoder: turns a raw MIDI message into a structured note event.

use vstd::prelude::*;

verus! {

/// Status nibble of a note-on message.
pub const STATUS_PRESS: u8 = 9;

/// Status nibble of a note-off message.
pub const STATUS_RELEASE: u8 = 8;

/// The two recognized MIDI note statuses; every other status nibble is
/// ignored upstream.
#[derive(Clone, Copy, Debug, PartialEq, Eq, Structural)]
pub enum Status {
    Press,
    Release,
}

/// A decoded MIDI note event.
#[derive(Clone, Copy, Debug, PartialEq, Eq, Structural)]
pub struct MidiEvent {
    /// 1-based MIDI channel, in [1, 16].
    pub channel: u8,
    /// Whether the note was struck or released.
    pub status: Status,
    /// Raw note number from the second byte, widened so that downstream
    /// subtraction cannot overflow; always in [0, 255].
    pub note: i32,
}

/// Meaning of a raw MIDI message: messages shorter than two bytes and
/// messages whose status nibble is neither note-on nor note-off produce no
/// event; otherwise the channel is the low nibble of the first byte plus
/// one (channels are 1-based), and the note is the second byte.
pub open spec fn spec_decode(m: Seq<u8>) -> Option<MidiEvent> {
    if m.len() < 2 {
        None
    } else if m[0] >> 4 == STATUS_PRESS {
        Some(
            MidiEvent {
                channel: ((m[0] & 0x0F) + 1) as u8,
                status: Status::Press,
                note: m[1] as i32,
            },
        )
    } else if m[0] >> 4 == STATUS_RELEASE {
        Some(
            MidiEvent {
                channel: ((m[0] & 0x0F) + 1) as u8,
                status: Status::Release,
                note: m[1] as i32,
            },
        )
    } else {
        None
    }
}

/// Decode a raw MIDI message into a note event, if it carries one.
pub fn decode(message: &[u8]) -> (r: Option<MidiEvent>)
    ensures
        r == spec_decode(message@),
{
    if message.len() < 2 {
        return None;
    }
    let b0 = message[0];
    let status_nibble = b0 >> 4;
    if status_nibble != STATUS_PRESS && status_nibble != STATUS_RELEASE {
        return None;
    }
    assert(b0 & 0x0F < 16) by (bit_vector);
    let channel = (b0 & 0x0F) + 1;
    let note = message[1] as i32;
    if status_nibble == STATUS_PRESS {
        Some(MidiEvent { channel, status: Status::Press, note })
    } else {
        Some(MidiEvent { channel, status: Status::Release, note })
    }
}

/// A decoded event's channel always lies in [1, 16] and its note in
/// [0, 255].
pub proof fn lemma_decode_ranges(m: Seq<u8>)
    requires
        spec_decode(m) is Some,
    ensures
        1 <= spec_decode(m).unwrap().channel <= 16,
        0 <= spec_decode(m).unwrap().note <= 255,
{
    let b0 = m[0];
    assert(b0 & 0x0F < 16) by (bit_vector);
}

/// Decoding is deterministic and pure: equal raw byte sequences always
/// yield equal outcomes (the same event, or no event for both).
pub proof fn lemma_decode_deterministic(m1: Seq<u8>, m2: Seq<u8>)
    requires
        m1 == m2,
    ensures
        spec_decode(m1) == spec_decode(m2),
{
}

} // verus!

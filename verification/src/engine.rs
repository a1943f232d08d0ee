//! Listener engine: the per-message step the listening loop runs — decode
//! the raw bytes, find the string for the channel, resolve the fret, look
//! the token up and compute the keyboard commands owed, together with the
//! diagnostic record of the event.

use vstd::prelude::*;
use crate::decode::{decode, lemma_decode_ranges, spec_decode, Status};
use crate::dispatch::{dispatch, spec_dispatch, KeyCommand};
use crate::mapping::{spec_string_for_channel, Mapping, MappingModel};
use crate::resolve::{resolve, spec_tuning};
use crate::token::{parse_token, spec_parse_token};

verus! {

/// Structured diagnostic record of one dispatched event.
pub struct Diagnostic {
    /// String index the event resolved to.
    pub gtr_string: usize,
    /// Fret the note resolved to, in [0, 23).
    pub fret: usize,
    /// 1-based MIDI channel of the event.
    pub channel: u8,
    /// Raw note number of the event.
    pub note: i32,
    /// The resolved token exactly as configured; empty means unmapped.
    pub key: String,
    /// Whether the note was struck or released.
    pub action: Status,
}

/// Ghost image of a diagnostic record.
pub struct DiagnosticModel {
    pub gtr_string: int,
    pub fret: int,
    pub channel: u8,
    pub note: int,
    pub key: Seq<char>,
    pub action: Status,
}

impl View for Diagnostic {
    type V = DiagnosticModel;

    open spec fn view(&self) -> DiagnosticModel {
        DiagnosticModel {
            gtr_string: self.gtr_string as int,
            fret: self.fret as int,
            channel: self.channel,
            note: self.note as int,
            key: self.key@,
            action: self.action,
        }
    }
}

/// What processing one raw message amounts to.
pub enum ProcessOutcome {
    /// A message of fewer than two bytes, or one whose status nibble is
    /// neither note-on nor note-off: silently ignored.
    Ignored,
    /// The event's channel is assigned to no string: reported and discarded.
    UnknownChannel { channel: u8 },
    /// The resolved fret lies outside the table: reported and discarded.
    OutOfRangeFret { gtr_string: usize, fret: i32, channel: u8, note: i32 },
    /// The keyboard commands to emit and the record of the event.
    Dispatched { commands: Vec<KeyCommand>, diag: Diagnostic },
}

/// Ghost image of a processing outcome.
pub enum OutcomeModel {
    Ignored,
    UnknownChannel { channel: u8 },
    OutOfRangeFret { gtr_string: int, fret: int, channel: u8, note: int },
    Dispatched { commands: Seq<KeyCommand>, diag: DiagnosticModel },
}

impl View for ProcessOutcome {
    type V = OutcomeModel;

    open spec fn view(&self) -> OutcomeModel {
        match self {
            ProcessOutcome::Ignored => OutcomeModel::Ignored,
            ProcessOutcome::UnknownChannel { channel } => OutcomeModel::UnknownChannel {
                channel: *channel,
            },
            ProcessOutcome::OutOfRangeFret { gtr_string, fret, channel, note } => {
                OutcomeModel::OutOfRangeFret {
                    gtr_string: *gtr_string as int,
                    fret: *fret as int,
                    channel: *channel,
                    note: *note as int,
                }
            },
            ProcessOutcome::Dispatched { commands, diag } => OutcomeModel::Dispatched {
                commands: commands@,
                diag: diag@,
            },
        }
    }
}

/// The outcome owed for one raw message against a mapping: no event for an
/// unrecognized message; an unknown-channel report when no string has the
/// event's channel; an out-of-range report when the note falls outside the
/// string's playable frets; otherwise the commands for the configured token
/// and the event's status, with the full diagnostic record.
pub open spec fn spec_process(m: MappingModel, message: Seq<u8>) -> OutcomeModel {
    match spec_decode(message) {
        None => OutcomeModel::Ignored,
        Some(ev) => match spec_string_for_channel(m.channels, ev.channel) {
            None => OutcomeModel::UnknownChannel { channel: ev.channel },
            Some(s) => {
                let fret = ev.note - spec_tuning(s);
                if 0 <= fret < crate::NUM_FRETS {
                    let key = m.keymap[s][fret];
                    OutcomeModel::Dispatched {
                        commands: spec_dispatch(spec_parse_token(key), ev.status),
                        diag: DiagnosticModel {
                            gtr_string: s,
                            fret: fret,
                            channel: ev.channel,
                            note: ev.note as int,
                            key: key,
                            action: ev.status,
                        },
                    }
                } else {
                    OutcomeModel::OutOfRangeFret {
                        gtr_string: s,
                        fret: fret,
                        channel: ev.channel,
                        note: ev.note as int,
                    }
                }
            },
        },
    }
}

/// Process one raw MIDI message against the mapping table.
pub fn process_message(mapping: &Mapping, message: &[u8]) -> (r: ProcessOutcome)
    requires
        mapping@.wf(),
    ensures
        r@ == spec_process(mapping@, message@),
{
    let ev = match decode(message) {
        Some(ev) => ev,
        None => {
            return ProcessOutcome::Ignored;
        },
    };
    proof {
        lemma_decode_ranges(message@);
    }
    let gtr_string = match mapping.string_for_channel(ev.channel) {
        Some(s) => s,
        None => {
            return ProcessOutcome::UnknownChannel { channel: ev.channel };
        },
    };
    let fret = resolve(gtr_string, ev.note);
    if !(0 <= fret && fret < 23) {
        return ProcessOutcome::OutOfRangeFret {
            gtr_string,
            fret,
            channel: ev.channel,
            note: ev.note,
        };
    }
    let fret_ix = fret as usize;
    let key = mapping.token_at(gtr_string, fret_ix);
    let token = parse_token(key.as_str());
    let commands = dispatch(token, ev.status);
    let diag = Diagnostic {
        gtr_string,
        fret: fret_ix,
        channel: ev.channel,
        note: ev.note,
        key: key.clone(),
        action: ev.status,
    };
    ProcessOutcome::Dispatched { commands, diag }
}

} // verus!

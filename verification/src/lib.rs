//! Fretboard-to-keyboard mapping engine for a guitar-style MIDI controller.
//!
//! Raw MIDI note-on/note-off messages are decoded into (channel, status,
//! note) events, translated through per-string tuning notes into a
//! (string, fret) coordinate, looked up in an immutable mapping table, and
//! turned into a sequence of logical keyboard commands (key down, key up,
//! click) together with a structured diagnostic record. The surrounding
//! process wires these pure steps to the actual MIDI input and keyboard
//! emulation devices.

use vstd::prelude::*;

pub mod decode;
pub mod device;
pub mod dispatch;
pub mod engine;
pub mod mapping;
pub mod resolve;
pub mod token;

verus! {

/// Number of frets modelled per string: 22 plus the open string.
pub const NUM_FRETS: usize = 23;

/// Number of strings of the fretboard abstraction.
pub const NUM_STRINGS: usize = 6;

} // verus!

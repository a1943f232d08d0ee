//! Coordinate resolver: per-string tuning notes and fret computation.

use vstd::prelude::*;

verus! {

/// Tuning note of string `s` (the note sounding at fret 0), high string
/// first: standard six-string tuning E B G D A E.
pub open spec fn spec_tuning(s: int) -> int {
    if s == 0 {
        64
    } else if s == 1 {
        59
    } else if s == 2 {
        55
    } else if s == 3 {
        50
    } else if s == 4 {
        45
    } else {
        40
    }
}

/// MIDI note number sounding when string `s` is played open.
pub fn tuning_note(s: usize) -> (r: i32)
    requires
        s < crate::NUM_STRINGS,
    ensures
        r == spec_tuning(s as int),
{
    if s == 0 {
        64
    } else if s == 1 {
        59
    } else if s == 2 {
        55
    } else if s == 3 {
        50
    } else if s == 4 {
        45
    } else {
        40
    }
}

/// Fret offset of `note` on string `gtr_string`: the played note minus the
/// string's open-string tuning note. The result may fall outside the
/// playable range [0, 23); callers must check it before indexing a mapping.
pub fn resolve(gtr_string: usize, note: i32) -> (r: i32)
    requires
        gtr_string < crate::NUM_STRINGS,
        note >= 0,
    ensures
        r == note - spec_tuning(gtr_string as int),
{
    note - tuning_note(gtr_string)
}

/// Checked fret resolution: the fret as a table index when it is playable,
/// `None` exactly when the resolved fret falls outside [0, 23).
pub fn checked_fret(gtr_string: usize, note: i32) -> (r: Option<usize>)
    requires
        gtr_string < crate::NUM_STRINGS,
        note >= 0,
    ensures
        r matches Some(f) ==> f == note - spec_tuning(gtr_string as int),
        r is Some <==> 0 <= note - spec_tuning(gtr_string as int) < crate::NUM_FRETS,
{
    let fret = resolve(gtr_string, note);
    if 0 <= fret && fret < 23 {
        Some(fret as usize)
    } else {
        None
    }
}

} // verus!

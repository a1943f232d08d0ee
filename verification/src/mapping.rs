//! Mapping table: the immutable (string, fret) -> token table and the
//! channel -> string lookup, built once from tabular configuration data.

use vstd::prelude::*;
use vstd::string::StrSliceExecFns;

verus! {

/// Why a configuration table was rejected.
#[derive(Clone, Copy, Debug, PartialEq, Eq, Structural)]
pub enum ConfigError {
    /// The table does not hold exactly one row per string.
    WrongRowCount,
    /// Some row does not hold exactly one channel column plus one column
    /// per fret.
    WrongColumnCount,
    /// Some row's channel column does not parse as an integer in [1, 16].
    BadChannel,
    /// The configuration text is not well-formed tabular data.
    Unreadable,
}

/// Mathematical content of a mapping: the channel assigned to each string
/// (the position is the string index) and the token of every
/// (string, fret) cell.
pub struct MappingModel {
    pub channels: Seq<u8>,
    pub keymap: Seq<Seq<Seq<char>>>,
}

impl MappingModel {
    /// Shape invariant: one channel in [1, 16] per string, and a fully
    /// populated table of one token per (string, fret) coordinate.
    pub open spec fn wf(self) -> bool {
        &&& self.channels.len() == crate::NUM_STRINGS
        &&& self.keymap.len() == crate::NUM_STRINGS
        &&& forall|s: int|
            0 <= s < crate::NUM_STRINGS ==> (#[trigger] self.keymap[s]).len() == crate::NUM_FRETS
        &&& forall|s: int|
            0 <= s < crate::NUM_STRINGS ==> 1 <= #[trigger] self.channels[s] <= 16
    }
}

/// The fretboard-to-keyboard mapping table, immutable once built.
pub struct Mapping {
    /// MIDI channel of each string; the index is the string index.
    pub midi_channels: Vec<u8>,
    /// Token of each (string, fret) coordinate, one row per string.
    pub keymap: Vec<Vec<String>>,
}

impl View for Mapping {
    type V = MappingModel;

    open spec fn view(&self) -> MappingModel {
        MappingModel { channels: self.midi_channels@, keymap: self.keymap.deep_view() }
    }
}

/// Whether `c` is a decimal digit.
pub open spec fn spec_is_digit(c: char) -> bool {
    48 <= c as u32 <= 57
}

/// Value of a non-empty run of decimal digits, most significant first.
pub open spec fn spec_digits_val(s: Seq<char>) -> int
    decreases s.len(),
{
    if s.len() == 0 {
        0
    } else {
        spec_digits_val(s.drop_last()) * 10 + (s.last() as u32 - 48)
    }
}

/// Whether `s` is one or more decimal digits.
pub open spec fn spec_is_digits(s: Seq<char>) -> bool {
    s.len() > 0 && forall|i: int| 0 <= i < s.len() ==> spec_is_digit(#[trigger] s[i])
}

/// The digit run of a cell: what follows an optional leading '+'.
pub open spec fn spec_cell_digits(s: Seq<char>) -> Seq<char> {
    if s.len() > 0 && s[0] == '+' {
        s.skip(1)
    } else {
        s
    }
}

/// The unsigned integer a cell denotes: an optional leading '+' followed by
/// one or more decimal digits, as Rust's integer parsing accepts.
pub open spec fn spec_cell_value(s: Seq<char>) -> Option<int> {
    if spec_is_digits(spec_cell_digits(s)) {
        Some(spec_digits_val(spec_cell_digits(s)))
    } else {
        None
    }
}

/// The channel a cell denotes: its integer value when that value lies in
/// [1, 16], and nothing otherwise.
pub open spec fn spec_parse_channel(s: Seq<char>) -> Option<u8> {
    match spec_cell_value(s) {
        Some(v) => if 1 <= v <= 16 {
            Some(v as u8)
        } else {
            None
        },
        None => None,
    }
}

/// Parse a channel cell into a channel number in [1, 16].
pub fn parse_channel(cell: &str) -> (r: Option<u8>)
    ensures
        r == spec_parse_channel(cell@),
{
    let len = cell.unicode_len();
    let start: usize = if len > 0 && cell.get_char(0) == '+' {
        1
    } else {
        0
    };
    let ghost digits = cell@.skip(start as int);
    proof {
        if !(cell@.len() > 0 && cell@[0] == '+') {
            assert(digits =~= cell@);
        }
        assert(digits == spec_cell_digits(cell@));
    }
    if start == len {
        // no digits at all
        return None;
    }
    let mut acc: u32 = 0;
    let mut j: usize = start;
    while j < len
        invariant
            start <= j <= len,
            len == cell@.len(),
            start < len,
            digits == cell@.skip(start as int),
            digits == spec_cell_digits(cell@),
            forall|k: int| start <= k < j ==> spec_is_digit(#[trigger] cell@[k]),
            acc <= 16 ==> acc == spec_digits_val(cell@.subrange(start as int, j as int)),
            acc > 16 ==> spec_digits_val(cell@.subrange(start as int, j as int)) > 16,
        decreases len - j,
    {
        let c = cell.get_char(j);
        let code = c as u32;
        if code < 48 || code > 57 {
            // a non-digit makes the whole cell unparsable
            proof {
                assert(digits[j - start] == cell@[j as int]);
                assert(!spec_is_digit(digits[j - start]));
                assert(!spec_is_digits(digits));
            }
            return None;
        }
        proof {
            let pre = cell@.subrange(start as int, j as int);
            let post = cell@.subrange(start as int, j + 1 as int);
            assert(post.drop_last() =~= pre);
            assert(post.last() == cell@[j as int]);
        }
        if acc <= 16 {
            acc = acc * 10 + (code - 48);
        }
        j = j + 1;
    }
    proof {
        assert forall|i: int| 0 <= i < digits.len() implies spec_is_digit(#[trigger] digits[i]) by {
            assert(digits[i] == cell@[start + i]);
        }
        assert(spec_is_digits(digits));
        assert(digits =~= cell@.subrange(start as int, len as int));
    }
    if 1 <= acc && acc <= 16 {
        Some(acc as u8)
    } else {
        None
    }
}

/// Whether a table is acceptable: exactly one row per string, exactly one
/// channel column plus one column per fret in every row, and a channel
/// cell that parses as an integer in [1, 16] in every row.
pub open spec fn spec_rows_valid(rows: Seq<Seq<Seq<char>>>) -> bool {
    &&& rows.len() == crate::NUM_STRINGS
    &&& forall|i: int|
        0 <= i < crate::NUM_STRINGS ==> (#[trigger] rows[i]).len() == crate::NUM_FRETS + 1
    &&& forall|i: int|
        0 <= i < crate::NUM_STRINGS ==> spec_parse_channel(#[trigger] rows[i][0]) is Some
}

/// The mapping a table denotes, or the error it is rejected with: a wrong
/// row count is reported first, then a wrong column count, then an
/// unparsable channel cell.
pub open spec fn spec_from_rows(rows: Seq<Seq<Seq<char>>>) -> Result<MappingModel, ConfigError> {
    if rows.len() != crate::NUM_STRINGS {
        Err(ConfigError::WrongRowCount)
    } else if exists|i: int|
        0 <= i < crate::NUM_STRINGS && (#[trigger] rows[i]).len() != crate::NUM_FRETS + 1 {
        Err(ConfigError::WrongColumnCount)
    } else if exists|i: int|
        0 <= i < crate::NUM_STRINGS && spec_parse_channel(#[trigger] rows[i][0]) is None {
        Err(ConfigError::BadChannel)
    } else {
        Ok(
            MappingModel {
                channels: Seq::new(
                    crate::NUM_STRINGS as nat,
                    |i: int| spec_parse_channel(rows[i][0]).unwrap(),
                ),
                keymap: Seq::new(
                    crate::NUM_STRINGS as nat,
                    |s: int| Seq::new(crate::NUM_FRETS as nat, |f: int| rows[s][f + 1]),
                ),
            },
        )
    }
}

/// How a built mapping (or a rejection) relates to the table it came from.
pub open spec fn spec_build_outcome(
    rows: Seq<Seq<Seq<char>>>,
    r: Result<Mapping, ConfigError>,
) -> bool {
    match spec_from_rows(rows) {
        Ok(model) => r matches Ok(m) && m@ == model,
        Err(e) => r matches Err(e2) && e2 == e,
    }
}

impl Mapping {
    /// Build the mapping table from tabular configuration data: one row per
    /// string, whose first cell is the string's MIDI channel and whose
    /// remaining cells are the tokens of frets 0 through 22. Construction
    /// succeeds if and only if the table has exactly 6 rows of exactly 24
    /// columns whose channel cells parse as integers in [1, 16].
    pub fn from_rows(rows: &Vec<Vec<String>>) -> (r: Result<Mapping, ConfigError>)
        ensures
            spec_build_outcome(rows.deep_view(), r),
            r is Ok <==> spec_rows_valid(rows.deep_view()),
            r matches Ok(m) ==> m@.wf(),
    {
        let ghost rv = rows.deep_view();
        if rows.len() != crate::NUM_STRINGS {
            return Err(ConfigError::WrongRowCount);
        }
        let mut i: usize = 0;
        while i < crate::NUM_STRINGS
            invariant
                i <= 6,
                rows@.len() == 6,
                rv == rows.deep_view(),
                forall|k: int| 0 <= k < i ==> (#[trigger] rv[k]).len() == 24,
            decreases 6 - i,
        {
            if rows[i].len() != crate::NUM_FRETS + 1 {
                assert(rv[i as int].len() != 24);
                return Err(ConfigError::WrongColumnCount);
            }
            assert(rv[i as int].len() == 24);
            i = i + 1;
        }
        let mut midi_channels: Vec<u8> = Vec::new();
        let mut i: usize = 0;
        while i < crate::NUM_STRINGS
            invariant
                i <= 6,
                rows@.len() == 6,
                rv == rows.deep_view(),
                forall|k: int| 0 <= k < 6 ==> (#[trigger] rv[k]).len() == 24,
                midi_channels@.len() == i,
                forall|k: int|
                    0 <= k < i ==> spec_parse_channel(rv[k][0]) == Some(
                        #[trigger] midi_channels@[k],
                    ),
            decreases 6 - i,
        {
            assert(rows@[i as int]@.len() == 24);
            match parse_channel(rows[i][0].as_str()) {
                Some(c) => midi_channels.push(c),
                None => {
                    assert(spec_parse_channel(rv[i as int][0]) is None);
                    return Err(ConfigError::BadChannel);
                },
            }
            i = i + 1;
        }
        let mut keymap: Vec<Vec<String>> = Vec::new();
        let mut s: usize = 0;
        while s < crate::NUM_STRINGS
            invariant
                s <= 6,
                rows@.len() == 6,
                rv == rows.deep_view(),
                forall|k: int| 0 <= k < 6 ==> (#[trigger] rv[k]).len() == 24,
                keymap@.len() == s,
                forall|k: int| 0 <= k < s ==> (#[trigger] keymap@[k])@.len() == 23,
                forall|k: int, f: int|
                    0 <= k < s && 0 <= f < 23 ==> (#[trigger] keymap@[k]@[f])@ == rv[k][f + 1],
            decreases 6 - s,
        {
            proof {
                assert(rv[s as int] == rows@[s as int].deep_view());
                assert(rows@[s as int]@.len() == 24);
            }
            let mut row: Vec<String> = Vec::new();
            let mut f: usize = 0;
            while f < crate::NUM_FRETS
                invariant
                    f <= 23,
                    rows@.len() == 6,
                    s < 6,
                    rv == rows.deep_view(),
                    rows@[s as int]@.len() == 24,
                    rv[s as int] == rows@[s as int].deep_view(),
                    row@.len() == f,
                    forall|k: int| 0 <= k < f ==> (#[trigger] row@[k])@ == rv[s as int][k + 1],
                decreases 23 - f,
            {
                let ghost row0 = row@;
                let cell = rows[s][f + 1].clone();
                proof {
                    assert(rv[s as int][f + 1] == rows@[s as int]@[f + 1]@);
                }
                row.push(cell);
                proof {
                    assert forall|k: int| 0 <= k < f + 1 implies (#[trigger] row@[k])@ == rv[s as int][k
                        + 1] by {
                        if k < f {
                            assert(row@[k] == row0[k]);
                        }
                    }
                }
                f = f + 1;
            }
            let ghost keymap0 = keymap@;
            keymap.push(row);
            proof {
                assert forall|k: int| 0 <= k < s + 1 implies (#[trigger] keymap@[k])@.len()
                    == 23 by {
                    if k < s {
                        assert(keymap@[k] == keymap0[k]);
                    }
                }
                assert forall|k: int, f: int| 0 <= k < s + 1 && 0 <= f < 23 implies (
                #[trigger] keymap@[k]@[f])@ == rv[k][f + 1] by {
                    if k < s {
                        assert(keymap@[k] == keymap0[k]);
                    }
                }
            }
            s = s + 1;
        }
        let m = Mapping { midi_channels, keymap };
        proof {
            assert(!(exists|i: int| 0 <= i < 6 && (#[trigger] rv[i]).len() != 24));
            assert forall|i: int| 0 <= i < 6 implies spec_parse_channel(
                #[trigger] rv[i][0],
            ) is Some by {
                assert(spec_parse_channel(rv[i][0]) == Some(midi_channels@[i]));
            }
            assert(spec_from_rows(rv) is Ok);
            let model = spec_from_rows(rv).unwrap();
            assert(m@.channels =~= model.channels);
            assert forall|k: int| 0 <= k < 6 implies #[trigger] m@.keymap[k] == model.keymap[k] by {
                assert(m@.keymap[k] == keymap@[k].deep_view());
                assert forall|f: int| 0 <= f < 23 implies #[trigger] keymap@[k].deep_view()[f]
                    == model.keymap[k][f] by {
                    assert(keymap@[k].deep_view()[f] == keymap@[k]@[f]@);
                    assert(model.keymap[k][f] == rv[k][f + 1]);
                }
                assert(keymap@[k].deep_view() =~= model.keymap[k]);
            }
            assert(m@.keymap =~= model.keymap);
            assert(m@ == model);
        }
        Ok(m)
    }

    /// The string index a channel is assigned to: the first position of the
    /// channel in the per-string channel column, if there is one.
    pub fn string_for_channel(&self, channel: u8) -> (r: Option<usize>)
        requires
            self@.wf(),
        ensures
            r matches Some(s) ==> 0 <= s < crate::NUM_STRINGS && spec_string_for_channel(
                self@.channels,
                channel,
            ) == Some(s as int),
            r is None ==> spec_string_for_channel(self@.channels, channel) is None,
            r matches Some(s) ==> self@.channels[s as int] == channel && forall|k: int|
                0 <= k < s ==> self@.channels[k] != channel,
            r is None ==> forall|k: int|
                0 <= k < crate::NUM_STRINGS ==> self@.channels[k] != channel,
    {
        let mut i: usize = 0;
        while i < crate::NUM_STRINGS
            invariant
                i <= 6,
                self.midi_channels@.len() == 6,
                self@.channels == self.midi_channels@,
                forall|k: int| 0 <= k < i ==> self@.channels[k] != channel,
            decreases 6 - i,
        {
            if self.midi_channels[i] == channel {
                proof {
                    lemma_first_channel_position(self@.channels, channel, i as int);
                }
                return Some(i);
            }
            i = i + 1;
        }
        proof {
            lemma_channel_absent(self@.channels, channel);
        }
        None
    }

    /// The token configured at a (string, fret) coordinate, returned
    /// exactly as the table holds it; the empty token means "unmapped".
    pub fn token_at(&self, gtr_string: usize, fret: usize) -> (r: &String)
        requires
            self@.wf(),
            gtr_string < crate::NUM_STRINGS,
            fret < crate::NUM_FRETS,
        ensures
            r@ == self@.keymap[gtr_string as int][fret as int],
    {
        proof {
            assert(self.keymap@.len() == 6);
            assert(self.keymap.deep_view()[gtr_string as int].len() == 23);
            assert(self.keymap@[gtr_string as int]@.len() == 23);
        }
        &self.keymap[gtr_string][fret]
    }
}

/// The string a channel is assigned to: the first position of the channel
/// in the channel column, if the channel occurs there at all.
pub open spec fn spec_string_for_channel(channels: Seq<u8>, channel: u8) -> Option<int>
    decreases channels.len(),
{
    if channels.len() == 0 {
        None
    } else if channels[0] == channel {
        Some(0)
    } else {
        match spec_string_for_channel(channels.drop_first(), channel) {
            Some(i) => Some(i + 1),
            None => None,
        }
    }
}

proof fn lemma_first_channel_position(channels: Seq<u8>, channel: u8, i: int)
    requires
        0 <= i < channels.len(),
        channels[i] == channel,
        forall|k: int| 0 <= k < i ==> channels[k] != channel,
    ensures
        spec_string_for_channel(channels, channel) == Some(i),
    decreases i,
{
    if i == 0 {
    } else {
        assert(channels[0] != channel);
        let rest = channels.drop_first();
        assert(rest[i - 1] == channels[i]);
        assert forall|k: int| 0 <= k < i - 1 implies rest[k] != channel by {
            assert(rest[k] == channels[k + 1]);
        }
        lemma_first_channel_position(rest, channel, i - 1);
    }
}

proof fn lemma_channel_absent(channels: Seq<u8>, channel: u8)
    requires
        forall|k: int| 0 <= k < channels.len() ==> channels[k] != channel,
    ensures
        spec_string_for_channel(channels, channel) is None,
    decreases channels.len(),
{
    if channels.len() > 0 {
        let rest = channels.drop_first();
        assert forall|k: int| 0 <= k < rest.len() implies rest[k] != channel by {
            assert(rest[k] == channels[k + 1]);
        }
        lemma_channel_absent(rest, channel);
    }
}

/// Round trip: querying every (string, fret) coordinate of a mapping built
/// from a table reproduces the table's token cells exactly.
pub proof fn lemma_mapping_round_trip(rows: Seq<Seq<Seq<char>>>, s: int, f: int)
    requires
        spec_from_rows(rows) is Ok,
        0 <= s < crate::NUM_STRINGS,
        0 <= f < crate::NUM_FRETS,
    ensures
        spec_from_rows(rows).unwrap().keymap[s][f] == rows[s][f + 1],
{
}

/// The records that reading a text as comma-separated values yields, after
/// the header line: each record as its list of fields, or nothing when the
/// text is malformed. Reading is a pure function of the text.
pub uninterp spec fn csv_rows_of(s: Seq<char>) -> Option<Seq<Seq<Seq<char>>>>;

/// Relies on csv::Reader::from_reader and csv::Reader::records: the records
/// of the comma-separated text after its header line, each as its list of
/// fields; `None` exactly when the reader reports a malformed record.
#[verifier::external_body]
fn parse_csv_rows(text: &str) -> (r: Option<Vec<Vec<String>>>)
    ensures
        match r {
            Some(rows) => csv_rows_of(text@) == Some(rows.deep_view()),
            None => csv_rows_of(text@) is None,
        },
{
    let mut reader = csv::Reader::from_reader(text.as_bytes());
    let mut rows: Vec<Vec<String>> = Vec::new();
    for record in reader.records() {
        match record {
            Ok(rec) => rows.push(rec.iter().map(String::from).collect()),
            Err(_) => return None,
        }
    }
    Some(rows)
}

/// Load the mapping table from configuration text: the text is read as
/// comma-separated values (whose first line is a header) and the resulting
/// table is validated and built as `Mapping::from_rows` states.
pub fn load_fretboard_mapping(csv_text: &str) -> (r: Result<Mapping, ConfigError>)
    ensures
        match csv_rows_of(csv_text@) {
            Some(rows) => spec_build_outcome(rows, r) && (r is Ok <==> spec_rows_valid(rows)),
            None => r matches Err(e) && e == ConfigError::Unreadable,
        },
        r matches Ok(m) ==> m@.wf(),
{
    match parse_csv_rows(csv_text) {
        Some(rows) => Mapping::from_rows(&rows),
        None => Err(ConfigError::Unreadable),
    }
}

} // verus!

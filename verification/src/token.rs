//! Key token taxonomy: the closed set of logical keys a mapping cell can
//! name, and the decoding of a cell's text into that set.

use vstd::prelude::*;
use vstd::string::StrSliceExecFns;

verus! {

/// Modifier keys, held down and released independently.
#[derive(Clone, Copy, Debug, PartialEq, Eq, Structural)]
pub enum ModifierKind {
    Shift,
    Control,
    Alt,
    Meta,
}

/// Whitespace, control and navigation keys, acted on only when pressed.
#[derive(Clone, Copy, Debug, PartialEq, Eq, Structural)]
pub enum WhitespaceKind {
    Space,
    Tab,
    Backspace,
    Enter,
    Escape,
    ArrowLeft,
    ArrowUp,
    ArrowRight,
    ArrowDown,
}

/// The logical key a mapping cell resolves to.
#[derive(Clone, Copy, Debug, PartialEq, Eq, Structural)]
pub enum KeyToken {
    Modifier(ModifierKind),
    Whitespace(WhitespaceKind),
    Character(char),
    Unmapped,
}

/// Meaning of a mapping cell: the fixed two-letter codes name the modifier
/// and whitespace keys, the empty cell is unmapped, and any other cell is
/// the single-character key given by its first character.
pub open spec fn spec_parse_token(s: Seq<char>) -> KeyToken {
    if s == "SH"@ {
        KeyToken::Modifier(ModifierKind::Shift)
    } else if s == "CT"@ {
        KeyToken::Modifier(ModifierKind::Control)
    } else if s == "AL"@ {
        KeyToken::Modifier(ModifierKind::Alt)
    } else if s == "CM"@ {
        KeyToken::Modifier(ModifierKind::Meta)
    } else if s == "SP"@ {
        KeyToken::Whitespace(WhitespaceKind::Space)
    } else if s == "TA"@ {
        KeyToken::Whitespace(WhitespaceKind::Tab)
    } else if s == "BA"@ {
        KeyToken::Whitespace(WhitespaceKind::Backspace)
    } else if s == "EN"@ {
        KeyToken::Whitespace(WhitespaceKind::Enter)
    } else if s == "ES"@ {
        KeyToken::Whitespace(WhitespaceKind::Escape)
    } else if s == "LE"@ {
        KeyToken::Whitespace(WhitespaceKind::ArrowLeft)
    } else if s == "UP"@ {
        KeyToken::Whitespace(WhitespaceKind::ArrowUp)
    } else if s == "RI"@ {
        KeyToken::Whitespace(WhitespaceKind::ArrowRight)
    } else if s == "DO"@ {
        KeyToken::Whitespace(WhitespaceKind::ArrowDown)
    } else if s.len() == 0 {
        KeyToken::Unmapped
    } else {
        KeyToken::Character(s[0])
    }
}

/// Character-wise equality of two string slices.
pub fn str_eq(a: &str, b: &str) -> (r: bool)
    ensures
        r == (a@ == b@),
{
    let a_len = a.unicode_len();
    let b_len = b.unicode_len();
    if a_len != b_len {
        return false;
    }
    let mut i: usize = 0;
    while i < a_len
        invariant
            i <= a_len,
            a_len == a@.len(),
            a_len == b@.len(),
            forall|k: int| 0 <= k < i ==> a@[k] == b@[k],
        decreases a_len - i,
    {
        if a.get_char(i) != b.get_char(i) {
            return false;
        }
        i = i + 1;
    }
    proof {
        assert(a@ =~= b@);
    }
    true
}

/// Decode a mapping cell into its key token.
pub fn parse_token(token: &str) -> (r: KeyToken)
    ensures
        r == spec_parse_token(token@),
{
    if str_eq(token, "SH") {
        KeyToken::Modifier(ModifierKind::Shift)
    } else if str_eq(token, "CT") {
        KeyToken::Modifier(ModifierKind::Control)
    } else if str_eq(token, "AL") {
        KeyToken::Modifier(ModifierKind::Alt)
    } else if str_eq(token, "CM") {
        KeyToken::Modifier(ModifierKind::Meta)
    } else if str_eq(token, "SP") {
        KeyToken::Whitespace(WhitespaceKind::Space)
    } else if str_eq(token, "TA") {
        KeyToken::Whitespace(WhitespaceKind::Tab)
    } else if str_eq(token, "BA") {
        KeyToken::Whitespace(WhitespaceKind::Backspace)
    } else if str_eq(token, "EN") {
        KeyToken::Whitespace(WhitespaceKind::Enter)
    } else if str_eq(token, "ES") {
        KeyToken::Whitespace(WhitespaceKind::Escape)
    } else if str_eq(token, "LE") {
        KeyToken::Whitespace(WhitespaceKind::ArrowLeft)
    } else if str_eq(token, "UP") {
        KeyToken::Whitespace(WhitespaceKind::ArrowUp)
    } else if str_eq(token, "RI") {
        KeyToken::Whitespace(WhitespaceKind::ArrowRight)
    } else if str_eq(token, "DO") {
        KeyToken::Whitespace(WhitespaceKind::ArrowDown)
    } else {
        let n = token.unicode_len();
        if n == 0 {
            KeyToken::Unmapped
        } else {
            KeyToken::Character(token.get_char(0))
        }
    }
}

} // verus!

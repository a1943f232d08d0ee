use kitara::decode::{decode, MidiEvent, Status};
use kitara::device::{contains_str, select_port};
use kitara::dispatch::{dispatch, KeyCommand};
use kitara::mapping::parse_channel;
use kitara::resolve::{checked_fret, resolve, tuning_note};
use kitara::token::{parse_token, KeyToken, ModifierKind, WhitespaceKind};

#[test]
fn decode_press() {
    let r = decode(&[0x90, 64, 0x00]);
    assert_eq!(r, Some(MidiEvent { channel: 1, status: Status::Press, note: 64 }));
}

#[test]
fn decode_release() {
    let r = decode(&[0x85, 10]);
    assert_eq!(r, Some(MidiEvent { channel: 6, status: Status::Release, note: 10 }));
}

#[test]
fn decode_highest_channel() {
    let r = decode(&[0x9F, 20, 0x40]);
    assert_eq!(r, Some(MidiEvent { channel: 16, status: Status::Press, note: 20 }));
}

#[test]
fn decode_short_message() {
    assert_eq!(decode(&[0x90]), None);
    assert_eq!(decode(&[]), None);
}

#[test]
fn decode_unrecognized_status() {
    assert_eq!(decode(&[0xB0, 64, 0x00]), None);
    assert_eq!(decode(&[0x00, 64]), None);
    assert_eq!(decode(&[0xF0, 64]), None);
}

#[test]
fn decode_deterministic() {
    let msg = [0x91, 59, 0x7F];
    assert_eq!(decode(&msg), decode(&msg));
}

#[test]
fn tuning_notes_high_to_low() {
    let expected = [64, 59, 55, 50, 45, 40];
    for (s, want) in expected.iter().enumerate() {
        assert_eq!(tuning_note(s), *want);
    }
}

#[test]
fn resolve_open_string() {
    assert_eq!(resolve(0, 64), 0);
}

#[test]
fn resolve_third_fret() {
    assert_eq!(resolve(0, 67), 3);
}

#[test]
fn resolve_below_open() {
    assert_eq!(resolve(1, 58), -1);
}

#[test]
fn resolve_low_string() {
    assert_eq!(resolve(5, 62), 22);
}

#[test]
fn checked_fret_in_range() {
    assert_eq!(checked_fret(0, 64), Some(0));
    assert_eq!(checked_fret(0, 86), Some(22));
}

#[test]
fn checked_fret_out_of_range() {
    assert_eq!(checked_fret(0, 63), None);
    assert_eq!(checked_fret(0, 87), None);
    assert_eq!(checked_fret(5, 30), None);
}

#[test]
fn parse_token_modifiers() {
    assert_eq!(parse_token("SH"), KeyToken::Modifier(ModifierKind::Shift));
    assert_eq!(parse_token("CT"), KeyToken::Modifier(ModifierKind::Control));
    assert_eq!(parse_token("AL"), KeyToken::Modifier(ModifierKind::Alt));
    assert_eq!(parse_token("CM"), KeyToken::Modifier(ModifierKind::Meta));
}

#[test]
fn parse_token_whitespace_and_control() {
    assert_eq!(parse_token("SP"), KeyToken::Whitespace(WhitespaceKind::Space));
    assert_eq!(parse_token("TA"), KeyToken::Whitespace(WhitespaceKind::Tab));
    assert_eq!(parse_token("BA"), KeyToken::Whitespace(WhitespaceKind::Backspace));
    assert_eq!(parse_token("EN"), KeyToken::Whitespace(WhitespaceKind::Enter));
    assert_eq!(parse_token("ES"), KeyToken::Whitespace(WhitespaceKind::Escape));
    assert_eq!(parse_token("LE"), KeyToken::Whitespace(WhitespaceKind::ArrowLeft));
    assert_eq!(parse_token("UP"), KeyToken::Whitespace(WhitespaceKind::ArrowUp));
    assert_eq!(parse_token("RI"), KeyToken::Whitespace(WhitespaceKind::ArrowRight));
    assert_eq!(parse_token("DO"), KeyToken::Whitespace(WhitespaceKind::ArrowDown));
}

#[test]
fn parse_token_characters_and_unmapped() {
    assert_eq!(parse_token(""), KeyToken::Unmapped);
    assert_eq!(parse_token("a"), KeyToken::Character('a'));
    assert_eq!(parse_token("xyz"), KeyToken::Character('x'));
    // a two-letter cell that is no known code is an ordinary character token
    assert_eq!(parse_token("SX"), KeyToken::Character('S'));
}

#[test]
fn dispatch_modifier_press_and_release() {
    let token = KeyToken::Modifier(ModifierKind::Shift);
    assert_eq!(dispatch(token, Status::Press), vec![KeyCommand::KeyDown(token)]);
    assert_eq!(dispatch(token, Status::Release), vec![KeyCommand::KeyUp(token)]);
}

#[test]
fn dispatch_whitespace_click_on_press_only() {
    let token = KeyToken::Whitespace(WhitespaceKind::Space);
    assert_eq!(dispatch(token, Status::Press), vec![KeyCommand::KeyClick(token)]);
    assert_eq!(dispatch(token, Status::Release), vec![]);
}

#[test]
fn dispatch_character_click_on_press_only() {
    let token = KeyToken::Character('q');
    assert_eq!(dispatch(token, Status::Press), vec![KeyCommand::KeyClick(token)]);
    assert_eq!(dispatch(token, Status::Release), vec![]);
}

#[test]
fn dispatch_unmapped_emits_nothing() {
    assert_eq!(dispatch(KeyToken::Unmapped, Status::Press), vec![]);
    assert_eq!(dispatch(KeyToken::Unmapped, Status::Release), vec![]);
}

#[test]
fn parse_channel_accepts_range() {
    assert_eq!(parse_channel("1"), Some(1));
    assert_eq!(parse_channel("16"), Some(16));
    assert_eq!(parse_channel("+3"), Some(3));
    assert_eq!(parse_channel("007"), Some(7));
}

#[test]
fn parse_channel_rejects_out_of_range() {
    assert_eq!(parse_channel("0"), None);
    assert_eq!(parse_channel("17"), None);
    assert_eq!(parse_channel("999999999999999999999"), None);
}

#[test]
fn parse_channel_rejects_malformed() {
    assert_eq!(parse_channel(""), None);
    assert_eq!(parse_channel("+"), None);
    assert_eq!(parse_channel("3a"), None);
    assert_eq!(parse_channel("-3"), None);
    assert_eq!(parse_channel(" 3"), None);
}

#[test]
fn contains_str_basic() {
    assert!(contains_str("hello world", "lo wo"));
    assert!(contains_str("abc", ""));
    assert!(contains_str("abc", "abc"));
    assert!(!contains_str("abc", "abcd"));
    assert!(!contains_str("abc", "ac"));
}

#[test]
fn select_port_picks_matching_port() {
    let names = vec!["Foo MIDI".to_string(), "Bar-kitara-Device".to_string()];
    assert_eq!(select_port(&names, "kitara"), Some(1));
}

#[test]
fn select_port_ignores_case() {
    let names = vec!["Foo MIDI".to_string(), "Bar-KITARA-Device".to_string()];
    assert_eq!(select_port(&names, "Kitara"), Some(1));
    let names2 = vec!["foo midi".to_string()];
    assert_eq!(select_port(&names2, "FOO"), Some(0));
}

#[test]
fn select_port_first_of_several_matches() {
    let names = vec![
        "other".to_string(),
        "kitara one".to_string(),
        "kitara two".to_string(),
    ];
    assert_eq!(select_port(&names, "kitara"), Some(1));
}

#[test]
fn select_port_none_when_no_match() {
    let names = vec!["Foo MIDI".to_string(), "Bar Device".to_string()];
    assert_eq!(select_port(&names, "kitara"), None);
}

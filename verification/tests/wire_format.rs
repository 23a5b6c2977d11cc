//! The character-level wire encoders, exercised directly.

use slack_client::strutil::chars_to_string;
use slack_client::strutil::push_chars;
use slack_client::strutil::str_eq;
use slack_client::wire::push_bool;
use slack_client::wire::push_dec_u32;
use slack_client::wire::push_form_escaped;
use slack_client::wire::push_json_string;
use slack_client::wire::utf8_bytes_of_char;

fn collected(v: Vec<char>) -> String {
    chars_to_string(&v)
}

#[test]
fn utf8_of_ascii_is_one_byte() {
    assert_eq!(utf8_bytes_of_char('A'), vec![0x41]);
}

#[test]
fn utf8_of_latin_is_two_bytes() {
    assert_eq!(utf8_bytes_of_char('\u{e9}'), vec![0xC3, 0xA9]);
}

#[test]
fn utf8_of_bmp_is_three_bytes() {
    assert_eq!(utf8_bytes_of_char('\u{20ac}'), vec![0xE2, 0x82, 0xAC]);
}

#[test]
fn utf8_of_emoji_is_four_bytes() {
    assert_eq!(utf8_bytes_of_char('\u{1F601}'), vec![0xF0, 0x9F, 0x98, 0x81]);
}

#[test]
fn utf8_matches_the_standard_encoder() {
    for c in ['A', '\u{e9}', '\u{20ac}', '\u{1F601}', '\u{7f}', '\u{80}', '\u{7ff}', '\u{800}'] {
        let mut reference = [0u8; 4];
        let expected = c.encode_utf8(&mut reference).as_bytes().to_vec();
        assert_eq!(utf8_bytes_of_char(c), expected, "character {:?}", c);
    }
}

#[test]
fn decimal_rendering_has_no_leading_zeros() {
    let mut out: Vec<char> = Vec::new();
    push_dec_u32(&mut out, 0);
    push_chars(&mut out, " ");
    push_dec_u32(&mut out, 105);
    push_chars(&mut out, " ");
    push_dec_u32(&mut out, 4294967295);
    assert_eq!(collected(out), "0 105 4294967295");
}

#[test]
fn form_escaping_keeps_safe_characters() {
    let mut out: Vec<char> = Vec::new();
    push_form_escaped(&mut out, "AZaz09*-._");
    assert_eq!(collected(out), "AZaz09*-._");
}

#[test]
fn form_escaping_replaces_space_and_percent_encodes() {
    let mut out: Vec<char> = Vec::new();
    push_form_escaped(&mut out, "a b%c");
    assert_eq!(collected(out), "a+b%25c");
}

#[test]
fn json_string_escapes_quotes_and_controls() {
    let mut out: Vec<char> = Vec::new();
    push_json_string(&mut out, "a\"b\\c\n\t\r\u{8}\u{c}\u{1}");
    assert_eq!(collected(out), "\"a\\\"b\\\\c\\n\\t\\r\\b\\f\\u0001\"");
}

#[test]
fn json_string_parses_back_with_the_reference_decoder() {
    let original = "quote \" backslash \\ control \u{1f} text \u{1F601}";
    let mut out: Vec<char> = Vec::new();
    push_json_string(&mut out, original);
    let decoded: serde_json::Value = serde_json::from_str(&collected(out)).unwrap();
    assert_eq!(decoded.as_str(), Some(original));
}

#[test]
fn bool_rendering_is_canonical() {
    let mut out: Vec<char> = Vec::new();
    push_bool(&mut out, true);
    push_chars(&mut out, ",");
    push_bool(&mut out, false);
    assert_eq!(collected(out), "true,false");
}

#[test]
fn str_eq_agrees_with_equality() {
    assert!(str_eq("", ""));
    assert!(str_eq("abc", "abc"));
    assert!(str_eq("\u{1F601}", "\u{1F601}"));
    assert!(!str_eq("abc", "abd"));
    assert!(!str_eq("abc", "ab"));
    assert!(!str_eq("a", "\u{e9}"));
}

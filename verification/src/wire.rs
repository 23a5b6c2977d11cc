//! The wire formats the service expects, as verified character-level
//! encoders: `application/x-www-form-urlencoded` escaping (non-ASCII
//! characters are percent-encoded byte-wise over their UTF-8 encoding),
//! JSON string escaping, decimal rendering of integers, and the
//! canonical text form of booleans.

use vstd::prelude::*;
use vstd::string::StrSliceExecFns;
use vstd::utf8::char_is_scalar;
use vstd::utf8::encode_scalar;
use crate::strutil::push_chars;

verus! {

/// The lowercase hexadecimal digit for a value below sixteen.
pub open spec fn spec_hex_lower(v: int) -> char {
    if v == 0 {
        '0'
    } else if v == 1 {
        '1'
    } else if v == 2 {
        '2'
    } else if v == 3 {
        '3'
    } else if v == 4 {
        '4'
    } else if v == 5 {
        '5'
    } else if v == 6 {
        '6'
    } else if v == 7 {
        '7'
    } else if v == 8 {
        '8'
    } else if v == 9 {
        '9'
    } else if v == 10 {
        'a'
    } else if v == 11 {
        'b'
    } else if v == 12 {
        'c'
    } else if v == 13 {
        'd'
    } else if v == 14 {
        'e'
    } else {
        'f'
    }
}

/// The uppercase hexadecimal digit for a value below sixteen.
pub open spec fn spec_hex_upper(v: int) -> char {
    if v < 10 {
        spec_hex_lower(v)
    } else if v == 10 {
        'A'
    } else if v == 11 {
        'B'
    } else if v == 12 {
        'C'
    } else if v == 13 {
        'D'
    } else if v == 14 {
        'E'
    } else {
        'F'
    }
}

fn hex_lower_digit(v: u32) -> (c: char)
    requires
        v < 16,
    ensures
        c == spec_hex_lower(v as int),
{
    if v == 0 {
        '0'
    } else if v == 1 {
        '1'
    } else if v == 2 {
        '2'
    } else if v == 3 {
        '3'
    } else if v == 4 {
        '4'
    } else if v == 5 {
        '5'
    } else if v == 6 {
        '6'
    } else if v == 7 {
        '7'
    } else if v == 8 {
        '8'
    } else if v == 9 {
        '9'
    } else if v == 10 {
        'a'
    } else if v == 11 {
        'b'
    } else if v == 12 {
        'c'
    } else if v == 13 {
        'd'
    } else if v == 14 {
        'e'
    } else {
        'f'
    }
}

fn hex_upper_digit(v: u8) -> (c: char)
    requires
        v < 16,
    ensures
        c == spec_hex_upper(v as int),
{
    if v < 10 {
        hex_lower_digit(v as u32)
    } else if v == 10 {
        'A'
    } else if v == 11 {
        'B'
    } else if v == 12 {
        'C'
    } else if v == 13 {
        'D'
    } else if v == 14 {
        'E'
    } else {
        'F'
    }
}

/// The UTF-8 encoding of a single character, as vstd specifies it.
pub fn utf8_bytes_of_char(c: char) -> (r: Vec<u8>)
    ensures
        r@ == encode_scalar(c as u32),
{
    proof {
        char_is_scalar(c);
    }
    let u = c as u32;
    let mut r: Vec<u8> = Vec::new();
    if u < 0x80 {
        r.push(#[verifier::truncate] ((u & 0x7F) as u8));
    } else if u < 0x800 {
        r.push(0xC0 | #[verifier::truncate] (((u >> 6) & 0x1F) as u8));
        r.push(0x80 | #[verifier::truncate] ((u & 0x3F) as u8));
    } else if u < 0x10000 {
        r.push(0xE0 | #[verifier::truncate] (((u >> 12) & 0x0F) as u8));
        r.push(0x80 | #[verifier::truncate] (((u >> 6) & 0x3F) as u8));
        r.push(0x80 | #[verifier::truncate] ((u & 0x3F) as u8));
    } else {
        r.push(0xF0 | #[verifier::truncate] (((u >> 18) & 0x7) as u8));
        r.push(0x80 | #[verifier::truncate] (((u >> 12) & 0x3F) as u8));
        r.push(0x80 | #[verifier::truncate] (((u >> 6) & 0x3F) as u8));
        r.push(0x80 | #[verifier::truncate] ((u & 0x3F) as u8));
    }
    proof {
        assert(r@ =~= encode_scalar(u));
    }
    r
}

/// The percent-encoded form of one byte: `%` followed by two uppercase
/// hexadecimal digits.
pub open spec fn spec_pct_byte(b: u8) -> Seq<char> {
    seq!['%', spec_hex_upper(b as int / 16), spec_hex_upper(b as int % 16)]
}

/// The percent-encoded form of a byte sequence.
pub open spec fn spec_pct_bytes(bs: Seq<u8>) -> Seq<char>
    decreases bs.len(),
{
    if bs.len() == 0 {
        Seq::empty()
    } else {
        spec_pct_bytes(bs.drop_last()) + spec_pct_byte(bs.last())
    }
}

/// True for the characters the form-urlencoded serializer leaves
/// unchanged: ASCII alphanumerics and `*`, `-`, `.`, `_`.
pub open spec fn spec_form_safe(c: char) -> bool {
    let u = c as u32;
    ('0' as u32 <= u && u <= '9' as u32) || ('A' as u32 <= u && u <= 'Z' as u32) || ('a' as u32
        <= u && u <= 'z' as u32) || c == '*' || c == '-' || c == '.' || c == '_'
}

/// The form-urlencoded escaping of one character: safe characters stand
/// unchanged, a space becomes `+`, and every other character is
/// percent-encoded byte-wise over its UTF-8 encoding.
pub open spec fn spec_form_escape_char(c: char) -> Seq<char> {
    if spec_form_safe(c) {
        seq![c]
    } else if c == ' ' {
        seq!['+']
    } else {
        spec_pct_bytes(encode_scalar(c as u32))
    }
}

/// The form-urlencoded escaping of a character sequence.
pub open spec fn spec_form_escape(s: Seq<char>) -> Seq<char>
    decreases s.len(),
{
    if s.len() == 0 {
        Seq::empty()
    } else {
        spec_form_escape(s.drop_last()) + spec_form_escape_char(s.last())
    }
}

/// Appends the percent-encoded form of every byte of `bs` to `out`.
fn push_pct_bytes(out: &mut Vec<char>, bs: &Vec<u8>)
    ensures
        final(out)@ == old(out)@ + spec_pct_bytes(bs@),
{
    let ghost out0: Seq<char> = out@;
    let mut j: usize = 0;
    while j < bs.len()
        invariant
            j <= bs@.len(),
            out@ == out0 + spec_pct_bytes(bs@.take(j as int)),
        decreases bs@.len() - j,
    {
        let b = bs[j];
        out.push('%');
        out.push(hex_upper_digit(b / 16));
        out.push(hex_upper_digit(b % 16));
        proof {
            assert(bs@.take(j as int + 1).drop_last() =~= bs@.take(j as int));
            assert(out@ =~= out0 + spec_pct_bytes(bs@.take(j as int + 1)));
        }
        j += 1;
    }
    proof {
        assert(bs@.take(bs@.len() as int) =~= bs@);
    }
}

/// Appends the form-urlencoded escaping of `s` to `out`.
pub fn push_form_escaped(out: &mut Vec<char>, s: &str)
    ensures
        final(out)@ == old(out)@ + spec_form_escape(s@),
{
    let ghost out0: Seq<char> = out@;
    let n = s.unicode_len();
    let mut i: usize = 0;
    while i < n
        invariant
            n == s@.len(),
            i <= n,
            out@ == out0 + spec_form_escape(s@.take(i as int)),
        decreases n - i,
    {
        let c = s.get_char(i);
        let u = c as u32;
        let safe = ('0' as u32 <= u && u <= '9' as u32) || ('A' as u32 <= u && u <= 'Z' as u32)
            || ('a' as u32 <= u && u <= 'z' as u32) || c == '*' || c == '-' || c == '.' || c == '_';
        if safe {
            out.push(c);
        } else if c == ' ' {
            out.push('+');
        } else {
            let bytes = utf8_bytes_of_char(c);
            push_pct_bytes(out, &bytes);
        }
        proof {
            assert(s@.take(i as int + 1).drop_last() =~= s@.take(i as int));
            assert(s@.take(i as int + 1).last() == s@[i as int]);
            assert(out@ =~= out0 + spec_form_escape(s@.take(i as int + 1)));
        }
        i += 1;
    }
    proof {
        assert(s@.take(n as int) =~= s@);
    }
}

/// The JSON escaping of one character inside a string literal: quote and
/// backslash take a backslash escape, the named control characters take
/// their short escapes, every other control character takes a `\u00`
/// escape with lowercase hexadecimal digits, and all other characters
/// stand unchanged.
pub open spec fn spec_json_escape_char(c: char) -> Seq<char> {
    if c == '"' {
        seq!['\\', '"']
    } else if c == '\\' {
        seq!['\\', '\\']
    } else if c == '\u{8}' {
        seq!['\\', 'b']
    } else if c == '\u{9}' {
        seq!['\\', 't']
    } else if c == '\u{a}' {
        seq!['\\', 'n']
    } else if c == '\u{c}' {
        seq!['\\', 'f']
    } else if c == '\u{d}' {
        seq!['\\', 'r']
    } else if (c as u32) < 0x20 {
        seq!['\\', 'u', '0', '0', spec_hex_lower(c as u32 as int / 16), spec_hex_lower(
            c as u32 as int % 16,
        )]
    } else {
        seq![c]
    }
}

/// The JSON escaping of a character sequence.
pub open spec fn spec_json_escape(s: Seq<char>) -> Seq<char>
    decreases s.len(),
{
    if s.len() == 0 {
        Seq::empty()
    } else {
        spec_json_escape(s.drop_last()) + spec_json_escape_char(s.last())
    }
}

/// A JSON string literal: the escaped characters between double quotes.
pub open spec fn spec_json_string(s: Seq<char>) -> Seq<char> {
    seq!['"'] + spec_json_escape(s) + seq!['"']
}

/// Appends the JSON string literal holding `s` to `out`.
pub fn push_json_string(out: &mut Vec<char>, s: &str)
    ensures
        final(out)@ == old(out)@ + spec_json_string(s@),
{
    let ghost out0: Seq<char> = out@;
    out.push('"');
    let n = s.unicode_len();
    let mut i: usize = 0;
    while i < n
        invariant
            n == s@.len(),
            i <= n,
            out@ == out0 + seq!['"'] + spec_json_escape(s@.take(i as int)),
        decreases n - i,
    {
        let c = s.get_char(i);
        if c == '"' {
            out.push('\\');
            out.push('"');
        } else if c == '\\' {
            out.push('\\');
            out.push('\\');
        } else if c == '\u{8}' {
            out.push('\\');
            out.push('b');
        } else if c == '\u{9}' {
            out.push('\\');
            out.push('t');
        } else if c == '\u{a}' {
            out.push('\\');
            out.push('n');
        } else if c == '\u{c}' {
            out.push('\\');
            out.push('f');
        } else if c == '\u{d}' {
            out.push('\\');
            out.push('r');
        } else {
            let u = c as u32;
            if u < 0x20 {
                out.push('\\');
                out.push('u');
                out.push('0');
                out.push('0');
                out.push(hex_lower_digit(u / 16));
                out.push(hex_lower_digit(u % 16));
            } else {
                out.push(c);
            }
        }
        proof {
            assert(s@.take(i as int + 1).drop_last() =~= s@.take(i as int));
            assert(s@.take(i as int + 1).last() == s@[i as int]);
            assert(out@ =~= out0 + seq!['"'] + spec_json_escape(s@.take(i as int + 1)));
        }
        i += 1;
    }
    out.push('"');
    proof {
        assert(s@.take(n as int) =~= s@);
        assert(out@ =~= out0 + spec_json_string(s@));
    }
}

/// The decimal rendering of a non-negative integer, most significant
/// digit first, with no leading zeros.
pub open spec fn spec_dec(n: int) -> Seq<char>
    decreases n,
{
    if n < 10 {
        seq![spec_hex_lower(n)]
    } else {
        spec_dec(n / 10) + seq![spec_hex_lower(n % 10)]
    }
}

/// Appends the decimal rendering of `n` to `out`.
pub fn push_dec_u32(out: &mut Vec<char>, n: u32)
    ensures
        final(out)@ == old(out)@ + spec_dec(n as int),
    decreases n,
{
    if n < 10 {
        out.push(hex_lower_digit(n));
    } else {
        push_dec_u32(out, n / 10);
        out.push(hex_lower_digit(n % 10));
        proof {
            assert(old(out)@ + spec_dec(n as int / 10) + seq![spec_hex_lower(n as int % 10)]
                =~= old(out)@ + spec_dec(n as int));
        }
    }
}

/// The canonical text form of a boolean.
pub open spec fn spec_bool_chars(b: bool) -> Seq<char> {
    if b {
        "true"@
    } else {
        "false"@
    }
}

/// Appends the canonical text form of `b` to `out`.
pub fn push_bool(out: &mut Vec<char>, b: bool)
    ensures
        final(out)@ == old(out)@ + spec_bool_chars(b),
{
    if b {
        push_chars(out, "true");
    } else {
        push_chars(out, "false");
    }
}

} // verus!

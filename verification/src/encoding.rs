//! Text encodings used on the wire: JSON string literals for the request
//! payloads, and percent-encoded URL path segments for the replace endpoint.

use vstd::prelude::*;
use vstd::string::StrSliceExecFns;
use vstd::string::StringSliceAdditionalSpecFns;

verus! {

/// The uppercase hex digit for a nibble, as percent-encoding writes it.
pub open spec fn hex_upper_digit(n: u8) -> char {
    if n < 10 {
        ((0x30 + n) as u8) as char
    } else {
        ((0x37 + n) as u8) as char
    }
}

/// The lowercase hex digit for a nibble, as JSON `\u00..` escapes write it.
pub open spec fn hex_lower_digit(n: u8) -> char {
    if n < 10 {
        ((0x30 + n) as u8) as char
    } else {
        ((0x57 + n) as u8) as char
    }
}

/// How one character stands inside a JSON string literal: quote and
/// backslash get a backslash escape, the C0 controls get their short escape
/// or a `\u00..` escape with lowercase hex, everything else stands as is.
pub open spec fn json_escape_char(c: char) -> Seq<char> {
    if c == '"' {
        seq!['\\', '"']
    } else if c == '\\' {
        seq!['\\', '\\']
    } else if c == '\u{08}' {
        seq!['\\', 'b']
    } else if c == '\u{09}' {
        seq!['\\', 't']
    } else if c == '\u{0a}' {
        seq!['\\', 'n']
    } else if c == '\u{0c}' {
        seq!['\\', 'f']
    } else if c == '\u{0d}' {
        seq!['\\', 'r']
    } else if (c as u32) < 0x20 {
        seq![
            '\\',
            'u',
            '0',
            '0',
            hex_lower_digit(((c as u32) / 16) as u8),
            hex_lower_digit(((c as u32) % 16) as u8),
        ]
    } else {
        seq![c]
    }
}

/// The body of a JSON string literal holding `s`: every character escaped
/// as JSON demands.
pub open spec fn json_escaped(s: Seq<char>) -> Seq<char>
    decreases s.len(),
{
    if s.len() == 0 {
        Seq::empty()
    } else {
        json_escaped(s.drop_last()) + json_escape_char(s.last())
    }
}

/// The JSON string literal holding `s`: quoted and escaped.
pub open spec fn json_string_of(s: Seq<char>) -> Seq<char> {
    seq!['"'] + json_escaped(s) + seq!['"']
}

/// Relies on serde_json::to_string for a string slice: it writes the JSON
/// string literal for `s` — an opening double quote, each character with
/// quote, backslash and the C0 controls escaped (short escapes for `\b`,
/// `\t`, `\n`, `\f`, `\r`, lowercase `\u00..` for the rest) and every other
/// character unchanged, and a closing double quote.  Serializing a string
/// cannot fail.
#[verifier::external_body]
pub(crate) fn json_quote(s: &str) -> (r: String)
    ensures
        r@ == json_string_of(s@),
{
    serde_json::to_string(s).unwrap()
}

/// Whether the path percent-encode set escapes this byte: the C0 controls,
/// DEL and every non-ASCII byte, space, double quote, `#`, `<`, `>`, `?`,
/// backtick, `{`, `}` and `/`.
pub open spec fn path_escapes(b: u8) -> bool {
    b <= 0x20 || b >= 0x7f || b == 0x22 || b == 0x23 || b == 0x2f || b == 0x3c || b == 0x3e || b
        == 0x3f || b == 0x60 || b == 0x7b || b == 0x7d
}

/// One byte of the percent-encoded form: `%XX` with uppercase hex for an
/// escaped byte, the byte itself (an ASCII character) otherwise.
pub open spec fn path_escape_byte(b: u8) -> Seq<char> {
    if path_escapes(b) {
        seq!['%', hex_upper_digit(b / 16), hex_upper_digit(b % 16)]
    } else {
        seq![b as char]
    }
}

/// The percent-encoded form of a byte sequence, byte by byte.
pub open spec fn path_encoded_bytes(bs: Seq<u8>) -> Seq<char>
    decreases bs.len(),
{
    if bs.len() == 0 {
        Seq::empty()
    } else {
        path_encoded_bytes(bs.drop_last()) + path_escape_byte(bs.last())
    }
}

/// The percent-encoded URL path segment for `s`: its UTF-8 bytes, each
/// escaped as the path set demands.
pub open spec fn path_encoded(s: Seq<char>) -> Seq<char> {
    path_encoded_bytes(vstd::utf8::encode_utf8(s))
}

/// Relies on String::from_utf8: a vector of bytes that are valid UTF-8
/// becomes the string whose characters decode them, and ASCII bytes decode
/// each to its own character; on ASCII input it cannot fail.
#[verifier::external_body]
fn string_from_ascii(bytes: Vec<u8>) -> (r: String)
    requires
        forall|i: int| 0 <= i < bytes@.len() ==> bytes@[i] < 0x80,
    ensures
        r@ == bytes@.map_values(|b: u8| b as char),
{
    String::from_utf8(bytes).unwrap()
}

fn hex_upper_byte(n: u8) -> (r: u8)
    requires
        n < 16,
    ensures
        r as char == hex_upper_digit(n),
        r < 0x80,
{
    if n < 10 {
        0x30 + n
    } else {
        0x37 + n
    }
}

/// Percent-encodes `s` for use as one URL path segment, escaping the path
/// set of [`path_escapes`] and every non-ASCII byte as `%XX` with uppercase
/// hex.
pub fn percent_encode_path_segment(s: &str) -> (r: String)
    ensures
        r@ == path_encoded(s@),
{
    let bytes: Vec<u8> = s.as_bytes_vec();
    let ghost sb: Seq<u8> = s.spec_bytes();
    let n = bytes.len();
    let mut out: Vec<u8> = Vec::new();
    let mut i: usize = 0;
    while i < n
        invariant
            i <= n,
            n == sb.len(),
            bytes@ == sb,
            forall|k: int| 0 <= k < out@.len() ==> out@[k] < 0x80,
            out@.map_values(|b: u8| b as char) == path_encoded_bytes(sb.take(i as int)),
        decreases n - i,
    {
        let b = bytes[i];
        let ghost prev: Seq<u8> = out@;
        if b <= 0x20 || b >= 0x7f || b == 0x22 || b == 0x23 || b == 0x2f || b == 0x3c || b == 0x3e
            || b == 0x3f || b == 0x60 || b == 0x7b || b == 0x7d {
            out.push(0x25);
            out.push(hex_upper_byte(b / 16));
            out.push(hex_upper_byte(b % 16));
        } else {
            out.push(b);
        }
        proof {
            assert(sb.take(i as int + 1).drop_last() =~= sb.take(i as int));
            assert(sb.take(i as int + 1).last() == sb[i as int]);
            assert(out@.map_values(|x: u8| x as char) =~= prev.map_values(|x: u8| x as char)
                + path_escape_byte(sb[i as int]));
            assert(out@.map_values(|x: u8| x as char) == path_encoded_bytes(
                sb.take(i as int + 1),
            ));
        }
        i += 1;
    }
    proof {
        assert(sb.take(n as int) =~= sb);
    }
    string_from_ascii(out)
}

} // verus!

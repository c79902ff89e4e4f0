//! Text encodings that requests are built from: percent-encoding for URLs
//! and JSON string literals for request bodies.

use vstd::prelude::*;
use vstd::utf8::encode_utf8;

verus! {

/// Upper-case hexadecimal digits.
pub open spec fn upper_hex() -> Seq<char> {
    seq!['0', '1', '2', '3', '4', '5', '6', '7', '8', '9', 'A', 'B', 'C', 'D', 'E', 'F']
}

/// Lower-case hexadecimal digits.
pub open spec fn lower_hex() -> Seq<char> {
    seq!['0', '1', '2', '3', '4', '5', '6', '7', '8', '9', 'a', 'b', 'c', 'd', 'e', 'f']
}

/// The bytes that percent-encoding keeps: ASCII letters, digits and
/// `-`, `_`, `.`, `~`.
pub open spec fn is_unreserved_byte(b: u8) -> bool {
    ||| 97 <= b <= 122
    ||| 65 <= b <= 90
    ||| 48 <= b <= 57
    ||| b == 45
    ||| b == 95
    ||| b == 46
    ||| b == 126
}

/// Percent-encoding of bytes: a kept byte stands as its ASCII character,
/// any other as `%` and two upper-case hex digits.
pub open spec fn percent_encoded(bytes: Seq<u8>) -> Seq<char>
    decreases bytes.len(),
{
    if bytes.len() == 0 {
        Seq::<char>::empty()
    } else {
        let b = bytes[0];
        let head = if is_unreserved_byte(b) {
            seq![b as char]
        } else {
            seq!['%', upper_hex()[b as int / 16], upper_hex()[b as int % 16]]
        };
        head + percent_encoded(bytes.drop_first())
    }
}

/// `urlencoding::encode` of a text: percent-encoding of its UTF-8 bytes.
pub open spec fn url_encoded(s: Seq<char>) -> Seq<char> {
    percent_encoded(encode_utf8(s))
}

/// Relies on `urlencoding::encode`: every UTF-8 byte is percent-encoded
/// with upper-case hex digits, except ASCII letters, digits and `-`, `_`,
/// `.`, `~`, which stay as they are.
#[verifier::external_body]
pub(crate) fn url_encode(s: &str) -> (r: String)
    ensures
        r@ == url_encoded(s@),
{
    urlencoding::encode(s).into_owned()
}

/// How serde_json writes one character inside a string: `"` and `\\`
/// behind a backslash, the short escapes for backspace, tab, line feed,
/// form feed and carriage return, `\u00` and two lower-case hex digits for
/// other control characters below 0x20, anything else as it is.
pub open spec fn json_escaped_char(c: char) -> Seq<char> {
    let v = c as int;
    if c == '"' {
        seq!['\\', '"']
    } else if c == '\\' {
        seq!['\\', '\\']
    } else if v == 8 {
        seq!['\\', 'b']
    } else if v == 9 {
        seq!['\\', 't']
    } else if v == 10 {
        seq!['\\', 'n']
    } else if v == 12 {
        seq!['\\', 'f']
    } else if v == 13 {
        seq!['\\', 'r']
    } else if v < 32 {
        seq!['\\', 'u', '0', '0', lower_hex()[v / 16], lower_hex()[v % 16]]
    } else {
        seq![c]
    }
}

pub open spec fn json_escaped(s: Seq<char>) -> Seq<char>
    decreases s.len(),
{
    if s.len() == 0 {
        Seq::<char>::empty()
    } else {
        json_escaped_char(s[0]) + json_escaped(s.drop_first())
    }
}

/// The compact JSON string literal of a text: quoted, and escaped as
/// serde_json does.
pub open spec fn json_string_of(s: Seq<char>) -> Seq<char> {
    seq!['"'] + json_escaped(s) + seq!['"']
}

/// Relies on `serde_json::to_string` on a `str`: the quoted, escaped JSON
/// string. Serializing a `str` into memory has no failing path.
#[verifier::external_body]
pub(crate) fn json_quote(s: &str) -> (r: String)
    ensures
        r@ == json_string_of(s@),
{
    match serde_json::to_string(s) {
        Ok(text) => text,
        Err(_) => String::new(),
    }
}

} // verus!

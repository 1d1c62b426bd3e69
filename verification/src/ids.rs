//! Resource identifiers: UUID recognition, done by the `uuid` crate.
use vstd::prelude::*;

verus! {

/// An ASCII hexadecimal digit.
pub open spec fn is_hex_digit(c: char) -> bool {
    ('0' <= c && c <= '9') || ('a' <= c && c <= 'f') || ('A' <= c && c <= 'F')
}

/// The hyphenated form of a UUID: 36 characters, hyphens at positions 8,
/// 13, 18 and 23, hexadecimal digits elsewhere.
pub open spec fn hyphenated_uuid(s: Seq<char>) -> bool {
    &&& s.len() == 36
    &&& forall|i: int|
        0 <= i < 36 ==> if i == 8 || i == 13 || i == 18 || i == 23 {
            s[i] == '-'
        } else {
            is_hex_digit(#[trigger] s[i])
        }
}

/// 32 hexadecimal digits: the simple form of a UUID.
pub open spec fn simple_uuid(s: Seq<char>) -> bool {
    s.len() == 32 && forall|i: int| 0 <= i < 32 ==> is_hex_digit(#[trigger] s[i])
}

/// An ASCII capital letter in lower case; any other character as it is.
pub open spec fn ascii_lower(c: char) -> char {
    if 'A' <= c && c <= 'Z' {
        (c as int + 32) as char
    } else {
        c
    }
}

/// The texts `uuid::Uuid::parse_str` accepts: the simple form, the
/// hyphenated form, the hyphenated form in braces, and `urn:uuid:` (in any
/// ASCII case) followed by the hyphenated form; hexadecimal digits in
/// either case.
pub open spec fn uuid_parses(s: Seq<char>) -> bool {
    ||| simple_uuid(s)
    ||| hyphenated_uuid(s)
    ||| s.len() == 38 && s[0] == '{' && s[37] == '}' && hyphenated_uuid(s.subrange(1, 37))
    ||| s.len() == 45 && s.take(9).map_values(|c: char| ascii_lower(c)) == "urn:uuid:"@
        && hyphenated_uuid(s.skip(9))
}

/// Whether a string is a UUID.
///
/// Trusted: calls `uuid::Uuid::parse_str`, whose parser (`try_parse` in
/// the crate's `parser.rs`) dispatches on the byte length: 32 bytes must
/// all be hexadecimal digits (`decode_hex32` accepts `0`-`9`, `a`-`f`,
/// `A`-`F`); 36 bytes must be the hyphenated form (hyphens at 8, 13, 18,
/// 23, hexadecimal digits elsewhere); 38 bytes must be that form between
/// `{` and `}`; 45 bytes must start with `urn:uuid:` compared without
/// ASCII case and continue with that form; every other length is refused.
/// Every accepted byte is ASCII, so counting characters instead of bytes
/// gives the same answer.
#[verifier::external_body]
pub(crate) fn parses_as_uuid(s: &str) -> (r: bool)
    ensures
        r == uuid_parses(s@),
{
    uuid::Uuid::parse_str(s).is_ok()
}

/// A fresh random identifier in hyphenated form.
///
/// Trusted: calls `uuid::Uuid::new_v4` and renders it with `to_string`,
/// which goes through `LowerHex` to the crate's `format_hyphenated`: 32
/// lowercase hexadecimal digits with hyphens at positions 8, 13, 18 and
/// 23. Which identifier comes out is not claimed: it is random.
#[verifier::external_body]
pub(crate) fn new_id() -> (r: String)
    ensures
        hyphenated_uuid(r@),
{
    uuid::Uuid::new_v4().to_string()
}

} // verus!

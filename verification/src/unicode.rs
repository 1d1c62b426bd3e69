//! Unicode case mapping and character classes, as the standard library
//! provides them.
use vstd::prelude::*;

verus! {

/// What `str::to_lowercase` gives for `s`: the Unicode lowercase mapping.
pub uninterp spec fn lowercase(s: Seq<char>) -> Seq<char>;

/// What `str::to_uppercase` gives for `s`: the Unicode uppercase mapping.
pub uninterp spec fn uppercase(s: Seq<char>) -> Seq<char>;

/// What `char::is_uppercase` gives: the Unicode `Uppercase` property.
pub uninterp spec fn is_upper(c: char) -> bool;

/// What `char::is_lowercase` gives: the Unicode `Lowercase` property.
pub uninterp spec fn is_lower(c: char) -> bool;

/// What `char::is_alphanumeric` gives: the Unicode `Alphabetic` property
/// or a numeric general category.
pub uninterp spec fn is_alnum(c: char) -> bool;

/// The lowercase form of a string.
///
/// Trusted: calls `str::to_lowercase`. The contract names the result; the
/// Unicode case tables are left to the standard library.
#[verifier::external_body]
pub(crate) fn to_lowercase(s: &str) -> (r: String)
    ensures
        r@ == lowercase(s@),
{
    s.to_lowercase()
}

/// An ASCII lowercase letter.
pub open spec fn is_ascii_lower(c: char) -> bool {
    'a' <= c && c <= 'z'
}

/// An ASCII lowercase letter in upper case; any other character as it is.
pub open spec fn ascii_upper(c: char) -> char {
    if is_ascii_lower(c) {
        (c as int - 32) as char
    } else {
        c
    }
}

/// Every character is ASCII.
pub open spec fn all_ascii(s: Seq<char>) -> bool {
    forall|i: int| 0 <= i < s.len() ==> (#[trigger] s[i] as int) < 0x80
}

/// Every character is an ASCII capital letter, an ASCII digit or `_`.
pub open spec fn upper_word(s: Seq<char>) -> bool {
    forall|i: int|
        0 <= i < s.len() ==> ('A' <= #[trigger] s[i] && s[i] <= 'Z') || ('0' <= s[i] && s[i] <= '9')
            || s[i] == '_'
}

/// The uppercase form of a string.
///
/// Trusted: calls `str::to_uppercase`, which maps each character by the
/// Unicode Character Database (`UnicodeData.txt`, and `SpecialCasing.txt`
/// where one character becomes several), and leaves a character without an
/// uppercase mapping as it is. The contract names the result and states two
/// facts of those tables: ASCII capitals, digits and `_` have no uppercase
/// mapping, so a string of them comes back unchanged; and no uppercase
/// mapping yields an ASCII lowercase letter (`a` to `z` themselves map to
/// `A` to `Z`, and no other ASCII character has an uppercase mapping, so
/// ASCII text maps character by character to ASCII upper case). The rest
/// of the tables is left to the standard library.
#[verifier::external_body]
pub(crate) fn to_uppercase(s: &str) -> (r: String)
    ensures
        r@ == uppercase(s@),
        all_ascii(s@) ==> r@ == s@.map_values(|c: char| ascii_upper(c)),
        forall|i: int| 0 <= i < r@.len() ==> !is_ascii_lower(#[trigger] r@[i]),
        upper_word(s@) ==> r@ == s@,
{
    s.to_uppercase()
}

/// Whether a character is uppercase.
///
/// Trusted: calls `char::is_uppercase`.
#[verifier::external_body]
pub(crate) fn char_is_uppercase(c: char) -> (r: bool)
    ensures
        r == is_upper(c),
{
    c.is_uppercase()
}

/// Whether a character is lowercase.
///
/// Trusted: calls `char::is_lowercase`.
#[verifier::external_body]
pub(crate) fn char_is_lowercase(c: char) -> (r: bool)
    ensures
        r == is_lower(c),
{
    c.is_lowercase()
}

/// Whether a character is alphanumeric.
///
/// Trusted: calls `char::is_alphanumeric`.
#[verifier::external_body]
pub(crate) fn char_is_alphanumeric(c: char) -> (r: bool)
    ensures
        r == is_alnum(c),
{
    c.is_alphanumeric()
}

/// An ASCII letter or digit, as `char::is_ascii_alphanumeric` tests.
pub open spec fn is_ascii_alnum(c: char) -> bool {
    ('a' <= c && c <= 'z') || ('A' <= c && c <= 'Z') || ('0' <= c && c <= '9')
}

/// An ASCII letter, as `char::is_ascii_alphabetic` tests.
pub open spec fn is_ascii_alpha(c: char) -> bool {
    ('a' <= c && c <= 'z') || ('A' <= c && c <= 'Z')
}

/// Whether `c` is an ASCII letter or digit.
pub fn ascii_alnum(c: char) -> (r: bool)
    ensures
        r == is_ascii_alnum(c),
{
    ('a' <= c && c <= 'z') || ('A' <= c && c <= 'Z') || ('0' <= c && c <= '9')
}

/// Whether `c` is an ASCII letter.
pub fn ascii_alpha(c: char) -> (r: bool)
    ensures
        r == is_ascii_alpha(c),
{
    ('a' <= c && c <= 'z') || ('A' <= c && c <= 'Z')
}

} // verus!

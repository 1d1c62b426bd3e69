//! Regular-expression matching, done by the `regex` crate.
use vstd::prelude::*;

verus! {

/// What compiling `pattern` with `regex::Regex::new` and testing `text`
/// with `Regex::is_match` gives: `None` when the pattern does not compile,
/// otherwise whether some part of `text` matches.
pub uninterp spec fn regex_match(pattern: Seq<char>, text: Seq<char>) -> Option<bool>;

/// Tests `text` against the regular expression `pattern`.
///
/// Trusted: compiles the pattern with `regex::Regex::new` and calls
/// `Regex::is_match`. The contract claims only that the outcome is a
/// function of the pattern and the text; which texts match is left to the
/// `regex` crate.
#[verifier::external_body]
pub(crate) fn regex_is_match(pattern: &str, text: &str) -> (r: Option<bool>)
    ensures
        r == regex_match(pattern@, text@),
{
    match regex::Regex::new(pattern) {
        Ok(re) => Some(re.is_match(text)),
        Err(_) => None,
    }
}

} // verus!

//! Regular-expression search, done by the `regex` crate.

use regex::Regex;
use vstd::prelude::*;

verus! {

/// The grammar of an acceptable email address, matched without regard to
/// letter case. From the first character of the address to its last: word
/// characters and hyphens in runs separated by single dots, an `@`, any
/// number of dot-terminated labels of word characters and hyphens, a last
/// label of one word character and up to 66 further word characters or
/// hyphens, a dot, and a top-level segment of two to six letters of `a` to
/// `z` that a dot and a country code of two such letters may follow. It is
/// the `regex` crate that says what a word character is and which characters
/// are a letter in another case.
pub const EMAIL_PATTERN: &'static str =
    r"(?i)^([\w-]+(?:\.[\w-]+)*)@((?:[\w-]+\.)*\w[\w-]{0,66})\.([a-z]{2,6}(?:\.[a-z]{2})?)$";

/// What the `regex` crate answers when `pattern` is compiled with its default
/// options and searched for in `text`: `None` when the pattern does not
/// compile, otherwise whether a match exists anywhere in `text`.
pub uninterp spec fn regex_search(pattern: Seq<char>, text: Seq<char>) -> Option<bool>;

/// Compiles `pattern` with `regex::Regex::new` and asks `Regex::is_match`
/// for `text`. Trusted: the answer is taken to depend on the two texts alone,
/// which is all that the contract claims of it. The pattern is compiled anew
/// at each call.
#[verifier::external_body]
pub(crate) fn search(pattern: &str, text: &str) -> (found: Option<bool>)
    ensures
        found == regex_search(pattern@, text@),
{
    match Regex::new(pattern) {
        Ok(re) => Some(re.is_match(text)),
        Err(_) => None,
    }
}

} // verus!

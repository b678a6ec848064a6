//! Searching a text for a regular expression, as the `regex` crate does it.

use vstd::prelude::*;

verus! {

/// The error of `regex::Regex::new`: the pattern is malformed or compiles to
/// a program over the size limit.
#[verifier::external_type_specification]
#[verifier::external_body]
pub struct ExRegexError(regex::Error);

/// What the `regex` crate answers when `text` is searched for `pattern`:
/// `None` where `Regex::new` refuses the pattern, and otherwise whether
/// `Regex::is_match` finds a match anywhere in the text.
pub uninterp spec fn regex_search(pattern: Seq<char>, text: Seq<char>) -> Option<bool>;

/// Compiles `pattern` with `regex::Regex::new` and asks `Regex::is_match`
/// whether `text` holds a match. Both are functions of their arguments
/// alone; the contract gives the answer its name and claims nothing else.
#[verifier::external_body]
pub(crate) fn search(pattern: &str, text: &str) -> (found: Result<bool, regex::Error>)
    ensures
        match found {
            Ok(matched) => regex_search(pattern@, text@) == Some(matched),
            Err(_) => regex_search(pattern@, text@) is None,
        },
{
    match regex::Regex::new(pattern) {
        Ok(compiled) => Ok(compiled.is_match(text)),
        Err(error) => Err(error),
    }
}

/// Whether `text` holds a match of `pattern`, or `None` where the pattern
/// does not compile.
pub fn is_match(pattern: &str, text: &str) -> (found: Option<bool>)
    ensures
        found == regex_search(pattern@, text@),
{
    match search(pattern, text) {
        Ok(matched) => Some(matched),
        Err(_) => None,
    }
}

} // verus!

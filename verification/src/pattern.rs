//! Regular expressions, through the `regex` crate.
use vstd::prelude::*;

verus! {

/// Whether `regex::Regex::new` refuses the pattern.
pub uninterp spec fn regex_rejects(pattern: Seq<char>) -> bool;

/// Whether `regex::Regex::is_match` finds a match of the (compiled) pattern in `text`.
pub uninterp spec fn regex_is_match(pattern: Seq<char>, text: Seq<char>) -> bool;

/// Compiles `pattern` with `regex::Regex::new` and, when it compiles, tells with `is_match`
/// whether it matches somewhere in `text`. A refused pattern gives the error's message (the
/// message itself is not stated).
#[verifier::external_body]
pub fn regex_match(pattern: &str, text: &str) -> (r: Result<bool, String>)
    ensures
        match r {
            Ok(b) => !regex_rejects(pattern@) && b == regex_is_match(pattern@, text@),
            Err(_) => regex_rejects(pattern@),
        },
{
    match regex::Regex::new(pattern) {
        Ok(re) => Ok(re.is_match(text)),
        Err(e) => Err(e.to_string()),
    }
}

} // verus!

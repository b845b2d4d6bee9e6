//! Searching a string with a regular expression.
//!
//! The search is the `regex` crate's. What it finds is not restated here: it
//! has a name, and the one contract that Verus takes on trust says that the
//! search returns what the name stands for.

use vstd::prelude::*;
use vstd::utf8::*;

verus! {

/// The error with which `regex::Regex::new` turns a pattern down.
#[verifier::external_type_specification]
#[verifier::external_body]
pub struct ExPatternError(regex::Error);

/// Whether `regex::Regex::new` accepts `pattern`.
pub uninterp spec fn regex_accepts(pattern: Seq<char>) -> bool;

/// The byte offset in `haystack` at which the first match of `pattern`
/// starts, as `regex::Regex::find` reports it for the expression that
/// `regex::Regex::new` compiles from `pattern`. `None` where nothing matches.
pub uninterp spec fn regex_find_start(pattern: Seq<char>, haystack: Seq<char>) -> Option<int>;

/// An optional offset as a mathematical integer.
pub open spec fn offset_of(at: Option<usize>) -> Option<int> {
    match at {
        Some(at) => Some(at as int),
        None => None,
    }
}

/// Compiles `pattern` with `regex::Regex::new` and searches `haystack` with
/// `regex::Regex::find`, keeping the start of the match.
///
/// Taken on trust: the call fails exactly where the pattern is not accepted,
/// and otherwise returns the offset that `regex_find_start` names. Of which
/// offset that is, only what `regex::Match::start` documents of every match
/// is claimed: it lies in the haystack, on a character boundary.
///
/// The expression is compiled anew on every call and nothing of it is kept,
/// so that what a call returns rests on its two arguments alone.
#[verifier::external_body]
pub(crate) fn first_match_start(pattern: &str, haystack: &str) -> (r: Result<
    Option<usize>,
    regex::Error,
>)
    ensures
        r is Ok <==> regex_accepts(pattern@),
        r matches Ok(at) ==> offset_of(at) == regex_find_start(pattern@, haystack@),
        r matches Ok(Some(at)) ==> at <= encode_utf8(haystack@).len() && is_char_boundary(
            encode_utf8(haystack@),
            at as int,
        ),
{
    regex::Regex::new(pattern).map(|re| re.find(haystack).map(|m| m.start()))
}

} // verus!

//! Scraping a package manifest, read as plain text.
//!
//! The manifest is not parsed as a document. Two fixed markers are searched
//! for, and the text in quotes that follows each on its line is cut out. A
//! line ends at a line feed or at the end of the text. Quotes inside the text
//! are not told from the quote that closes it: the last quote of the line
//! closes.

use crate::text::{
    chars_of, find, find_from, find_in, lemma_rfind_char, rfind_char, rfind_char_in, substring,
};
use vstd::prelude::*;
use vstd::slice::*;

verus! {

/// The text that opens a description field.
pub open spec fn description_marker() -> Seq<char> {
    "description = \""@
}

/// The text that opens the name of a binary target: the target's header and,
/// on the line right after it, the start of its name field.
pub open spec fn bin_marker() -> Seq<char> {
    "[[bin]]\nname = \""@
}

/// The views of an optional string.
pub open spec fn text_of(s: Option<String>) -> Option<Seq<char>> {
    match s {
        Some(s) => Some(s@),
        None => None,
    }
}

/// The rest of the line from index `start` on: the text up to, not
/// including, the next line feed, and up to the end of the text where no
/// line feed follows.
pub open spec fn line_at(text: Seq<char>, start: int) -> Seq<char> {
    match find_from(text, seq!['\n'], start) {
        Some(end) => text.subrange(start, end),
        None => text.subrange(start, text.len() as int),
    }
}

/// The text between the first and the last double quote of `line`. There is
/// none where `line` holds fewer than two double quotes.
pub open spec fn between_quotes(line: Seq<char>) -> Option<Seq<char>> {
    match (find(line, seq!['"']), rfind_char(line, '"')) {
        (Some(open), Some(close)) => if open < close {
            Some(line.subrange(open + 1, close))
        } else {
            None
        },
        _ => None,
    }
}

/// The text of `line` before its last double quote. There is none where
/// `line` holds no double quote.
pub open spec fn before_last_quote(line: Seq<char>) -> Option<Seq<char>> {
    match rfind_char(line, '"') {
        Some(close) => Some(line.take(close)),
        None => None,
    }
}

/// The description that a manifest declares: on the line of the first
/// description marker, from that marker on, the text between the first and
/// the last double quote. The marker's own quote is the first, so a line
/// that no second quote closes declares nothing.
pub open spec fn description_of(manifest: Seq<char>) -> Option<Seq<char>> {
    match find(manifest, description_marker()) {
        Some(start) => between_quotes(line_at(manifest, start)),
        None => None,
    }
}

/// The alternate binary name that a manifest declares: what follows the first
/// binary marker on its line, up to the last double quote of the line. The
/// marker ends in the quote that opens the name, so this is the text inside
/// the quotes, and a name that no quote closes declares nothing.
pub open spec fn alternate_name_of(manifest: Seq<char>) -> Option<Seq<char>> {
    match find(manifest, bin_marker()) {
        Some(start) => before_last_quote(line_at(manifest, start + bin_marker().len())),
        None => None,
    }
}

/// The index at which the line that holds index `start` ends: that of the
/// next line feed, or the length of the text where none follows.
fn line_end(chars: &[char], start: usize) -> (end: usize)
    requires
        start <= chars@.len(),
    ensures
        start <= end <= chars@.len(),
        line_at(chars@, start as int) == chars@.subrange(start as int, end as int),
{
    let feed = vec!['\n'];
    assert(feed@ =~= seq!['\n']);
    match find_in(chars, feed.as_slice(), start) {
        Some(end) => end,
        None => chars.len(),
    }
}

/// The description in a manifest whose characters are `chars`.
pub(crate) fn description_in(manifest: &str, chars: &[char]) -> (r: Option<String>)
    requires
        chars@ == manifest@,
    ensures
        text_of(r) == description_of(manifest@),
{
    let marker = chars_of("description = \"");
    let start = match find_in(chars, marker.as_slice(), 0) {
        Some(start) => start,
        None => {
            return None;
        },
    };
    let end = line_end(chars, start);
    let line = slice_subrange(chars, start, end);
    let quote = vec!['"'];
    assert(quote@ =~= seq!['"']);
    let open = find_in(line, quote.as_slice(), 0);
    let close = rfind_char_in(line, '"');
    match (open, close) {
        (Some(open), Some(close)) => {
            proof {
                lemma_rfind_char(line@, '"');
            }
            if open < close {
                let found = substring(manifest, start + open + 1, start + close);
                assert(found@ =~= line@.subrange(open + 1, close as int));
                Some(found)
            } else {
                None
            }
        },
        _ => None,
    }
}

/// The alternate binary name in a manifest whose characters are `chars`.
pub(crate) fn alternate_name_in(manifest: &str, chars: &[char]) -> (r: Option<String>)
    requires
        chars@ == manifest@,
    ensures
        text_of(r) == alternate_name_of(manifest@),
{
    let marker = chars_of("[[bin]]\nname = \"");
    let at = match find_in(chars, marker.as_slice(), 0) {
        Some(at) => at,
        None => {
            return None;
        },
    };
    let start = at + marker.len();
    let end = line_end(chars, start);
    let line = slice_subrange(chars, start, end);
    match rfind_char_in(line, '"') {
        Some(close) => {
            proof {
                lemma_rfind_char(line@, '"');
            }
            let found = substring(manifest, start, start + close);
            assert(found@ =~= line@.take(close as int));
            Some(found)
        },
        None => None,
    }
}

/// The description that `manifest` declares, if it declares one.
pub fn description(manifest: &str) -> (r: Option<String>)
    ensures
        text_of(r) == description_of(manifest@),
{
    let chars = chars_of(manifest);
    description_in(manifest, chars.as_slice())
}

/// The alternate binary name that `manifest` declares, if it declares one.
pub fn alternate_name(manifest: &str) -> (r: Option<String>)
    ensures
        text_of(r) == alternate_name_of(manifest@),
{
    let chars = chars_of(manifest);
    alternate_name_in(manifest, chars.as_slice())
}

} // verus!

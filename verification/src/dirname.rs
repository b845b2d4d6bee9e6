//! Taking a cached package directory's name apart into package name and
//! version.
//!
//! The directory is named `<name>-<version>`. The version starts at the first
//! place where a hyphen is followed by three groups of one to three digits
//! with dots between them. That place is found by a regular expression, as a
//! byte offset; the rest is slicing.

use crate::pattern::{first_match_start, offset_of, regex_accepts, regex_find_start};
use vstd::prelude::*;
use vstd::string::*;
use vstd::utf8::*;

verus! {

/// The expression that marks where a version starts: a hyphen, then three
/// groups of one to three digits with a dot between them. What counts as a
/// digit is for the `regex` crate to say; it takes any decimal digit of
/// Unicode for one.
pub open spec fn version_pattern() -> Seq<char> {
    "-\\d{1,3}\\.\\d{1,3}\\.\\d{1,3}"@
}

/// The byte offset of the hyphen before the version in `name`: where the
/// first match of the version pattern starts. There is none where nothing
/// matches, nor where the pattern is not accepted.
pub open spec fn version_marker(name: Seq<char>) -> Option<int> {
    if regex_accepts(version_pattern()) {
        regex_find_start(version_pattern(), name)
    } else {
        None
    }
}

/// The text of `s` that lies before byte offset `at` of its UTF-8 encoding.
pub open spec fn text_before(s: Seq<char>, at: int) -> Seq<char> {
    decode_utf8(encode_utf8(s).subrange(0, at))
}

/// The text of `s` that lies at and after byte offset `at` of its UTF-8
/// encoding.
pub open spec fn text_from(s: Seq<char>, at: int) -> Seq<char> {
    decode_utf8(encode_utf8(s).subrange(at, encode_utf8(s).len() as int))
}

/// Whether `name` can be cut at `marker`: the marker is one byte wide and
/// lies inside the name, between two characters.
pub open spec fn can_split(name: Seq<char>, marker: int) -> bool {
    &&& 0 <= marker < encode_utf8(name).len()
    &&& is_char_boundary(encode_utf8(name), marker)
    &&& is_char_boundary(encode_utf8(name), marker + 1)
}

/// Package name and version of a directory name whose version marker is at
/// `marker`: the text before the marker, and the text after it.
pub open spec fn split_at_marker(name: Seq<char>, marker: Option<int>) -> Option<
    (Seq<char>, Seq<char>),
> {
    match marker {
        Some(at) => if can_split(name, at) {
            Some((text_before(name, at), text_from(name, at + 1)))
        } else {
            None
        },
        None => None,
    }
}

/// The views of an optional pair of strings.
pub open spec fn pair_text(p: Option<(String, String)>) -> Option<(Seq<char>, Seq<char>)> {
    match p {
        Some((a, b)) => Some((a@, b@)),
        None => None,
    }
}

/// The two halves of a string cut at a character boundary hold the text
/// before and the text from that boundary.
proof fn lemma_halves(s: &str, at: int, head: &str, tail: &str)
    requires
        is_char_boundary(s.spec_bytes(), at),
        head.spec_bytes() == s.spec_bytes().subrange(0, at),
        tail.spec_bytes() == s.spec_bytes().subrange(at, s.spec_bytes().len() as int),
    ensures
        head@ == text_before(s@, at),
        tail@ == text_from(s@, at),
{
    encode_utf8_decode_utf8(head@);
    encode_utf8_decode_utf8(tail@);
}

/// Where the version pattern first matches in `name`, as a byte offset. A
/// match starts in the name, between two characters.
pub fn find_version_marker(name: &str) -> (r: Option<usize>)
    ensures
        offset_of(r) == version_marker(name@),
        r matches Some(at) ==> at <= encode_utf8(name@).len() && is_char_boundary(
            encode_utf8(name@),
            at as int,
        ),
{
    match first_match_start("-\\d{1,3}\\.\\d{1,3}\\.\\d{1,3}", name) {
        Ok(at) => at,
        Err(_) => None,
    }
}

/// Cuts a directory name at its version marker into package name and
/// version. The marker itself belongs to neither.
pub fn split_dir_name(name: &str, marker: Option<usize>) -> (r: Option<(String, String)>)
    ensures
        pair_text(r) == split_at_marker(name@, offset_of(marker)),
{
    let at = match marker {
        Some(at) => at,
        None => {
            return None;
        },
    };
    if at >= name.as_bytes().len() || !name.is_char_boundary(at) || !name.is_char_boundary(at + 1) {
        return None;
    }
    let (package, marked) = name.split_at(at);
    let (through, version) = name.split_at(at + 1);
    proof {
        lemma_halves(name, at as int, package, marked);
        lemma_halves(name, at + 1, through, version);
    }
    Some((package.to_owned(), version.to_owned()))
}

/// Package name and version of the directory `name`, where its name holds a
/// version. A name in which a marker is found is cut wherever a character
/// of one byte stands at the marker.
pub fn name_and_version(name: &str) -> (r: Option<(String, String)>)
    ensures
        pair_text(r) == split_at_marker(name@, version_marker(name@)),
        r is Some <==> (version_marker(name@) matches Some(at) && at < encode_utf8(name@).len()
            && is_char_boundary(encode_utf8(name@), at + 1)),
{
    split_dir_name(name, find_version_marker(name))
}

} // verus!

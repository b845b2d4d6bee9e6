//! The binary lister: the names found in an install root's binary directory.
//!
//! Reading the directory is the caller's part. It hands over the file names
//! it found, or nothing where the directory could not be read.

use crate::text::{chars_of, ends_in, ends_with, substring};
use vstd::prelude::*;
use vstd::string::*;

verus! {

/// What a read of the binary directory came to. A directory that is missing
/// and one that holds nothing both mean that there are no binaries, and they
/// are told apart all the same.
#[derive(Debug)]
pub enum BinListing {
    /// The directory could not be read.
    Missing,
    /// The directory holds no entry.
    Empty,
    /// The entries of the directory, at least one, as they were read.
    Entries(Vec<String>),
}

/// The binary directory of the install root `root`.
pub open spec fn bin_dir_of(root: Seq<char>) -> Seq<char> {
    root + "/bin"@
}

/// The suffix that marks an executable on some platforms.
pub open spec fn exe_suffix() -> Seq<char> {
    ".exe"@
}

/// The name under which a binary is looked up: the entry's name without the
/// executable suffix where the name ends in it, and the whole name where it
/// does not. The suffix is cut once, and only at the end: a name that holds
/// it further in is looked up as it is.
pub open spec fn stripped(entry: Seq<char>) -> Seq<char> {
    if ends_with(entry, exe_suffix()) {
        entry.take(entry.len() - exe_suffix().len())
    } else {
        entry
    }
}

/// A name with the executable suffix behind it is looked up as the name
/// alone, whatever the name holds.
pub proof fn lemma_suffix_is_stripped(name: Seq<char>)
    ensures
        stripped(name + exe_suffix()) == name,
{
    let suffix = exe_suffix();
    let full = name + suffix;
    assert(full.subrange(full.len() - suffix.len(), full.len() as int) =~= suffix);
    assert(full.take(full.len() - suffix.len()) =~= name);
}

/// The lookup name is the start of the entry's name, and the two differ by
/// nothing or by the executable suffix.
pub proof fn lemma_stripped_is_prefix(entry: Seq<char>)
    ensures
        stripped(entry) == entry || stripped(entry) + exe_suffix() == entry,
{
    let suffix = exe_suffix();
    if ends_with(entry, suffix) {
        let at = entry.len() - suffix.len();
        assert(entry.take(at) + entry.subrange(at, entry.len() as int) =~= entry);
    }
}

/// The binary directory of the install root `root`.
pub fn bin_dir(root: &str) -> (out: String)
    ensures
        out@ == bin_dir_of(root@),
{
    root.to_owned().concat("/bin")
}

/// Sorts out what a read of the binary directory came to. `read` holds the
/// file names that were found, or nothing where the directory could not be
/// read. The names are kept as they are, in the order read, repeats
/// included.
pub fn list_pkgs(read: Option<Vec<String>>) -> (out: BinListing)
    ensures
        match read {
            None => out is Missing,
            Some(names) => if names@.len() == 0 {
                out is Empty
            } else {
                out == BinListing::Entries(names)
            },
        },
{
    match read {
        None => BinListing::Missing,
        Some(names) => if names.len() == 0 {
            BinListing::Empty
        } else {
            BinListing::Entries(names)
        },
    }
}

impl BinListing {
    /// The names of the binaries, where there are any.
    pub fn names(self) -> (out: Option<Vec<String>>)
        ensures
            match self {
                BinListing::Entries(names) => out == Some(names),
                _ => out is None,
            },
    {
        match self {
            BinListing::Entries(names) => Some(names),
            _ => None,
        }
    }
}

/// The name under which the binary `entry` is looked up.
pub fn lookup_key(entry: &str) -> (out: String)
    ensures
        out@ == stripped(entry@),
{
    let chars = chars_of(entry);
    let suffix = chars_of(".exe");
    if ends_in(chars.as_slice(), suffix.as_slice()) {
        substring(entry, 0, chars.len() - suffix.len())
    } else {
        entry.to_owned()
    }
}

} // verus!

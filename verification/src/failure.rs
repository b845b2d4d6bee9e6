//! The conditions that end a run.

use vstd::prelude::*;
use vstd::string::*;

verus! {

/// Why a run cannot go on. Nothing else stops it: a manifest that cannot be
/// read, a directory name without a version and a binary without metadata
/// are passed over where they occur.
#[derive(PartialEq, Eq, Debug, Clone, Copy, Structural)]
pub enum Failure {
    /// No candidate for the install root is a directory that can be read.
    RootNotFound,
    /// No install root holds a binary.
    NoBinariesFound,
    /// No install root's source cache gave a package record.
    NoMetadataFound,
}

/// The message that goes with a failure.
pub open spec fn message_of(e: Failure) -> Seq<char> {
    match e {
        Failure::RootNotFound => "Failed to locate cargo root."@,
        Failure::NoBinariesFound => "Failed to list packages."@,
        Failure::NoMetadataFound => "Failed to get info."@,
    }
}

impl Failure {
    /// The message to show the user.
    pub fn message(&self) -> (out: String)
        ensures
            out@ == message_of(*self),
    {
        match self {
            Failure::RootNotFound => "Failed to locate cargo root.".to_owned(),
            Failure::NoBinariesFound => "Failed to list packages.".to_owned(),
            Failure::NoMetadataFound => "Failed to get info.".to_owned(),
        }
    }
}

} // verus!

//! The package index: from a package or binary name to the version and
//! description recorded for it.

use vstd::hash_map::StringHashMap;
use vstd::prelude::*;

verus! {

/// What the index records for one name.
#[derive(Debug)]
pub struct PackageInfo {
    pub version: String,
    pub description: String,
}

/// What a `PackageInfo` stands for: its version and its description.
pub struct InfoView {
    pub version: Seq<char>,
    pub description: Seq<char>,
}

impl View for PackageInfo {
    type V = InfoView;

    open spec fn view(&self) -> InfoView {
        InfoView { version: self.version@, description: self.description@ }
    }
}

impl Clone for PackageInfo {
    fn clone(&self) -> (out: Self)
        ensures
            out@ == self@,
    {
        PackageInfo { version: self.version.clone(), description: self.description.clone() }
    }
}

/// A mapping from names to package information. A name occurs at most once;
/// inserting under a name that is present replaces what was recorded.
pub struct PackageIndex {
    entries: StringHashMap<PackageInfo>,
}

impl View for PackageIndex {
    type V = Map<Seq<char>, InfoView>;

    closed spec fn view(&self) -> Map<Seq<char>, InfoView> {
        self.entries@.map_values(|info: PackageInfo| info@)
    }
}

impl PackageIndex {
    /// An index that records nothing.
    pub fn new() -> (out: Self)
        ensures
            out@ == Map::<Seq<char>, InfoView>::empty(),
    {
        let out = PackageIndex { entries: StringHashMap::new() };
        assert(out@ =~= Map::<Seq<char>, InfoView>::empty());
        out
    }

    /// Records `info` under `name`, in place of what was recorded there.
    pub fn insert(&mut self, name: String, info: PackageInfo)
        ensures
            final(self)@ == old(self)@.insert(name@, info@),
    {
        self.entries.insert(name, info);
        assert(self@ =~= old(self)@.insert(name@, info@));
    }

    /// What is recorded under `name`.
    pub fn get(&self, name: &str) -> (out: Option<&PackageInfo>)
        ensures
            match out {
                Some(info) => self@.contains_key(name@) && self@[name@] == info@,
                None => !self@.contains_key(name@),
            },
    {
        self.entries.get(name)
    }

    /// Whether anything is recorded under `name`.
    pub fn contains(&self, name: &str) -> (out: bool)
        ensures
            out == self@.contains_key(name@),
    {
        self.entries.contains_key(name)
    }

    /// Whether the index records nothing.
    pub fn is_empty(&self) -> (out: bool)
        ensures
            out == (self@ == Map::<Seq<char>, InfoView>::empty()),
    {
        let out = self.entries.is_empty();
        proof {
            if out {
                assert(self@ =~= Map::<Seq<char>, InfoView>::empty());
            } else {
                let name = choose|name: Seq<char>| self.entries@.contains_key(name);
                assert(self@.contains_key(name));
            }
        }
        out
    }

    /// Adds everything that `other` records. Where both record a name, what
    /// `other` records is kept.
    pub fn extend(&mut self, other: PackageIndex)
        ensures
            final(self)@ == old(self)@.union_prefer_right(other@),
    {
        self.entries.union_prefer_right(other.entries);
        assert(self@ =~= old(self)@.union_prefer_right(other@));
    }
}

} // verus!

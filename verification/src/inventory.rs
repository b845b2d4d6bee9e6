//! Putting together what all install roots hold: the binaries of all of
//! them, and one package index.

use crate::failure::Failure;
use crate::index::{InfoView, PackageIndex};
use crate::lister::list_pkgs;
use crate::locator::texts;
use crate::scanner::{entry_views, get_pkgs_info, scanned, CacheEntry, EntryView};
use vstd::prelude::*;

verus! {

/// What was read under one install root, as it was read.
#[derive(Debug)]
pub struct RootContents {
    /// The file names in the binary directory, or nothing where it could not
    /// be read.
    pub binaries: Option<Vec<String>>,
    /// The cached package directories, or nothing where the source cache
    /// could not be opened.
    pub cache: Option<Vec<CacheEntry>>,
}

/// What a `RootContents` stands for.
pub struct RootView {
    pub binaries: Option<Seq<Seq<char>>>,
    pub cache: Option<Seq<EntryView>>,
}

impl View for RootContents {
    type V = RootView;

    open spec fn view(&self) -> RootView {
        RootView {
            binaries: match self.binaries {
                Some(names) => Some(texts(names@)),
                None => None,
            },
            cache: match self.cache {
                Some(entries) => Some(entry_views(entries@)),
                None => None,
            },
        }
    }
}

/// The binaries of all roots and the index built from all of them.
pub struct Inventory {
    pub binaries: Vec<String>,
    pub index: PackageIndex,
}

/// The views of a list of roots.
pub open spec fn root_views(roots: Seq<RootContents>) -> Seq<RootView> {
    roots.map_values(|r: RootContents| r@)
}

/// The binaries of one root: the names that were read, and none where the
/// directory could not be read.
pub open spec fn binaries_of(root: RootView) -> Seq<Seq<char>> {
    match root.binaries {
        Some(names) => names,
        None => seq![],
    }
}

/// The index of one root: what a scan of its cache builds, and nothing where
/// the cache could not be opened.
pub open spec fn index_of(root: RootView) -> Map<Seq<char>, InfoView> {
    match root.cache {
        Some(entries) => scanned(entries),
        None => Map::empty(),
    }
}

/// The binaries of all roots, root after root, each root's in the order
/// read. Nothing is sorted and no repeat is dropped.
pub open spec fn all_binaries(roots: Seq<RootView>) -> Seq<Seq<char>>
    decreases roots.len(),
{
    if roots.len() == 0 {
        seq![]
    } else {
        all_binaries(roots.drop_last()) + binaries_of(roots.last())
    }
}

/// The index of all roots. Where two roots record a name, what the later
/// root records is kept.
pub open spec fn merged(roots: Seq<RootView>) -> Map<Seq<char>, InfoView>
    decreases roots.len(),
{
    if roots.len() == 0 {
        Map::empty()
    } else {
        merged(roots.drop_last()).union_prefer_right(index_of(roots.last()))
    }
}

/// Whether an index records nothing.
pub open spec fn records_nothing(index: Map<Seq<char>, InfoView>) -> bool {
    index == Map::<Seq<char>, InfoView>::empty()
}

/// Puts together what the install roots hold, in the roots' order. Each
/// root's binaries are what the lister makes of its read, and its index is
/// what the scanner makes of its cache.
///
/// It fails where no root holds a binary, and, if some root does, where no
/// root's cache gave a package record.
pub fn take_inventory(roots: Vec<RootContents>) -> (out: Result<Inventory, Failure>)
    ensures
        match out {
            Ok(found) => {
                &&& texts(found.binaries@) == all_binaries(root_views(roots@))
                &&& found.index@ == merged(root_views(roots@))
                &&& found.binaries@.len() > 0
                &&& !records_nothing(found.index@)
            },
            Err(e) => if all_binaries(root_views(roots@)).len() == 0 {
                e == Failure::NoBinariesFound
            } else {
                e == Failure::NoMetadataFound && records_nothing(merged(root_views(roots@)))
            },
        },
{
    let mut binaries: Vec<String> = Vec::new();
    let mut index = PackageIndex::new();
    let ghost views = root_views(roots@);
    assert(texts(binaries@) =~= all_binaries(views.take(0)));
    for root in it: roots
        invariant
            it.seq() == roots@,
            views == root_views(roots@),
            texts(binaries@) == all_binaries(views.take(it.index() as int)),
            index@ == merged(views.take(it.index() as int)),
    {
        proof {
            let i = it.index() as int;
            assert(views.take(i + 1).drop_last() =~= views.take(i));
            assert(views.take(i + 1).last() == root@);
        }
        let RootContents { binaries: read, cache } = root;
        let ghost before = binaries@;
        match list_pkgs(read).names() {
            Some(mut names) => {
                let ghost added = names@;
                binaries.append(&mut names);
                assert(texts(binaries@) =~= texts(before) + texts(added));
            },
            None => {
                assert(texts(before) + Seq::<Seq<char>>::empty() =~= texts(before));
                assert(read matches Some(names) ==> texts(names@) =~= Seq::<Seq<char>>::empty());
            },
        }
        let scan = match &cache {
            Some(entries) => get_pkgs_info(Some(entries)),
            None => None,
        };
        match scan {
            Some(found) => {
                index.extend(found);
            },
            None => {
                assert(index@.union_prefer_right(Map::<Seq<char>, InfoView>::empty()) =~= index@);
            },
        }
    }
    assert(views.take(roots@.len() as int) =~= views);
    if binaries.len() == 0 {
        Err(Failure::NoBinariesFound)
    } else if index.is_empty() {
        Err(Failure::NoMetadataFound)
    } else {
        Ok(Inventory { binaries, index })
    }
}

} // verus!

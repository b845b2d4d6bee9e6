//! The metadata scanner: from the cached package directories of an install
//! root to the package index.
//!
//! Reading the directories is the caller's part. It hands over, for each
//! package directory, the directory's name and the text of its manifest, or
//! no text where the manifest could not be read. Each entry gives one record
//! or none, whatever the others hold.

use crate::dirname::{find_version_marker, split_at_marker, split_dir_name, version_marker};
use crate::index::{InfoView, PackageIndex, PackageInfo};
use crate::manifest::{
    alternate_name_in, alternate_name_of, description_in, description_of, text_of,
};
use crate::pattern::offset_of;
use crate::text::chars_of;
use vstd::prelude::*;
use vstd::string::*;

verus! {

/// What one cached package directory tells: the package's name and version,
/// from the directory's name, and its description and the alternate name of
/// its binary, from its manifest.
#[derive(Debug)]
pub struct PackageRecord {
    pub name: String,
    pub version: String,
    pub description: String,
    pub alternate: Option<String>,
}

/// What a `PackageRecord` stands for.
pub struct RecordView {
    pub name: Seq<char>,
    pub version: Seq<char>,
    pub description: Seq<char>,
    pub alternate: Option<Seq<char>>,
}

impl View for PackageRecord {
    type V = RecordView;

    open spec fn view(&self) -> RecordView {
        RecordView {
            name: self.name@,
            version: self.version@,
            description: self.description@,
            alternate: text_of(self.alternate),
        }
    }
}

/// One cached package directory as it was read: its name, and the text of
/// its manifest where that could be read.
#[derive(Debug)]
pub struct CacheEntry {
    pub dir_name: String,
    pub manifest: Option<String>,
}

/// What a `CacheEntry` stands for.
pub struct EntryView {
    pub dir_name: Seq<char>,
    pub manifest: Option<Seq<char>>,
}

impl View for CacheEntry {
    type V = EntryView;

    open spec fn view(&self) -> EntryView {
        EntryView { dir_name: self.dir_name@, manifest: text_of(self.manifest) }
    }
}

/// The source cache of the install root `root`. The cached package
/// directories lie two levels below it.
pub open spec fn source_cache_of(root: Seq<char>) -> Seq<char> {
    root + "/registry/src"@
}

/// The manifest of the package directory `package_dir`.
pub open spec fn manifest_of(package_dir: Seq<char>) -> Seq<char> {
    package_dir + "/Cargo.toml"@
}

/// The view of an optional record.
pub open spec fn record_view(r: Option<PackageRecord>) -> Option<RecordView> {
    match r {
        Some(r) => Some(r@),
        None => None,
    }
}

/// The views of a list of entries.
pub open spec fn entry_views(entries: Seq<CacheEntry>) -> Seq<EntryView> {
    entries.map_values(|e: CacheEntry| e@)
}

/// The record of a directory named `dir_name` whose version marker is at
/// `marker` and whose manifest reads `manifest`. There is none where the
/// manifest declares no description, nor where the name cannot be cut at the
/// marker.
pub open spec fn record_of(dir_name: Seq<char>, manifest: Seq<char>, marker: Option<int>) -> Option<
    RecordView,
> {
    match (description_of(manifest), split_at_marker(dir_name, marker)) {
        (Some(description), Some((name, version))) => Some(
            RecordView { name, version, description, alternate: alternate_name_of(manifest) },
        ),
        _ => None,
    }
}

/// What the index records for a record's names.
pub open spec fn info_of(r: RecordView) -> InfoView {
    InfoView { version: r.version, description: r.description }
}

/// The index after a record was added: the package name maps to the record's
/// version and description, and so does the alternate name where there is
/// one.
pub open spec fn with_record(index: Map<Seq<char>, InfoView>, r: RecordView) -> Map<
    Seq<char>,
    InfoView,
> {
    let named = index.insert(r.name, info_of(r));
    match r.alternate {
        Some(alternate) => named.insert(alternate, info_of(r)),
        None => named,
    }
}

/// The index after an entry was scanned. An entry without a manifest, or
/// without a record, leaves the index as it was.
pub open spec fn with_entry(index: Map<Seq<char>, InfoView>, e: EntryView) -> Map<
    Seq<char>,
    InfoView,
> {
    match e.manifest {
        Some(manifest) => match record_of(e.dir_name, manifest, version_marker(e.dir_name)) {
            Some(r) => with_record(index, r),
            None => index,
        },
        None => index,
    }
}

/// The index that a scan of `entries` builds: each entry is added in turn, so
/// that of two records under one name the later one stays.
pub open spec fn scanned(entries: Seq<EntryView>) -> Map<Seq<char>, InfoView>
    decreases entries.len(),
{
    if entries.len() == 0 {
        Map::empty()
    } else {
        with_entry(scanned(entries.drop_last()), entries.last())
    }
}

/// After a record was added, its package name maps to its version and
/// description, whatever the index held before.
pub proof fn lemma_record_is_recorded(index: Map<Seq<char>, InfoView>, r: RecordView)
    ensures
        with_record(index, r).contains_key(r.name),
        with_record(index, r)[r.name] == info_of(r),
{
}

/// After a record with an alternate name was added, the package name and the
/// alternate name map to the same version and description: the record's.
pub proof fn lemma_alternate_shares_info(index: Map<Seq<char>, InfoView>, r: RecordView)
    requires
        r.alternate is Some,
    ensures
        with_record(index, r).contains_key(r.name),
        with_record(index, r).contains_key(r.alternate->0),
        with_record(index, r)[r.name] == info_of(r),
        with_record(index, r)[r.alternate->0] == info_of(r),
{
}

/// Adding a record changes nothing under any other name.
pub proof fn lemma_record_keeps_others(
    index: Map<Seq<char>, InfoView>,
    r: RecordView,
    other: Seq<char>,
)
    requires
        other != r.name,
        r.alternate != Some(other),
    ensures
        with_record(index, r).contains_key(other) == index.contains_key(other),
        index.contains_key(other) ==> with_record(index, r)[other] == index[other],
{
}

/// The source cache of the install root `root`.
pub fn source_cache_dir(root: &str) -> (out: String)
    ensures
        out@ == source_cache_of(root@),
{
    root.to_owned().concat("/registry/src")
}

/// The manifest of the package directory `package_dir`.
pub fn manifest_path(package_dir: &str) -> (out: String)
    ensures
        out@ == manifest_of(package_dir@),
{
    package_dir.to_owned().concat("/Cargo.toml")
}

/// The record of the directory `dir_name` with manifest text `manifest`,
/// given where the version marker was found in the name.
pub fn record_from(dir_name: &str, manifest: &str, marker: Option<usize>) -> (r: Option<
    PackageRecord,
>)
    ensures
        record_view(r) == record_of(dir_name@, manifest@, offset_of(marker)),
{
    let chars = chars_of(manifest);
    let description = match description_in(manifest, chars.as_slice()) {
        Some(description) => description,
        None => {
            return None;
        },
    };
    match split_dir_name(dir_name, marker) {
        Some((name, version)) => {
            let alternate = alternate_name_in(manifest, chars.as_slice());
            Some(PackageRecord { name, version, description, alternate })
        },
        None => None,
    }
}

/// The record of the directory `dir_name` with manifest text `manifest`.
pub fn scan_entry(dir_name: &str, manifest: &str) -> (r: Option<PackageRecord>)
    ensures
        record_view(r) == record_of(dir_name@, manifest@, version_marker(dir_name@)),
{
    record_from(dir_name, manifest, find_version_marker(dir_name))
}

/// Adds a record to the index, under its package name and under its
/// alternate name where it has one.
pub fn add_record(index: &mut PackageIndex, record: PackageRecord)
    ensures
        final(index)@ == with_record(old(index)@, record@),
{
    let PackageRecord { name, version, description, alternate } = record;
    match alternate {
        Some(alternate) => {
            let shared = PackageInfo { version: version.clone(), description: description.clone() };
            index.insert(name, PackageInfo { version, description });
            index.insert(alternate, shared);
        },
        None => {
            index.insert(name, PackageInfo { version, description });
        },
    }
}

/// Scans the cached package directories in order and builds the index.
pub fn build_index(entries: &Vec<CacheEntry>) -> (index: PackageIndex)
    ensures
        index@ == scanned(entry_views(entries@)),
{
    let mut index = PackageIndex::new();
    let ghost views = entry_views(entries@);
    let mut i: usize = 0;
    while i < entries.len()
        invariant
            i <= entries.len(),
            views == entry_views(entries@),
            index@ == scanned(views.take(i as int)),
        decreases entries.len() - i,
    {
        let entry = &entries[i];
        proof {
            assert(views.take(i + 1).drop_last() =~= views.take(i as int));
            assert(views.take(i + 1).last() == entry@);
        }
        match &entry.manifest {
            Some(manifest) => {
                match scan_entry(entry.dir_name.as_str(), manifest.as_str()) {
                    Some(record) => {
                        add_record(&mut index, record);
                    },
                    None => {},
                }
            },
            None => {},
        }
        i += 1;
    }
    assert(views.take(i as int) =~= views);
    index
}

/// The package index of one install root. `cache` holds the root's cached
/// package directories, or nothing where the source cache could not be
/// opened. There is no index where the cache could not be opened, nor where
/// the scan recorded nothing.
pub fn get_pkgs_info(cache: Option<&Vec<CacheEntry>>) -> (r: Option<PackageIndex>)
    ensures
        match r {
            Some(index) => cache matches Some(entries) && index@ == scanned(
                entry_views(entries@),
            ) && index@ != Map::<Seq<char>, InfoView>::empty(),
            None => cache matches Some(entries) ==> scanned(entry_views(entries@)) == Map::<
                Seq<char>,
                InfoView,
            >::empty(),
        },
{
    match cache {
        Some(entries) => {
            let index = build_index(entries);
            if index.is_empty() {
                None
            } else {
                Some(index)
            }
        },
        None => None,
    }
}

} // verus!

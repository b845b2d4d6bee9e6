//! The reporter: each binary with the version and description that the
//! index records for it, and the layout of the listing.

use crate::cli::CliOptions;
use crate::index::{InfoView, PackageIndex};
use crate::lister::{lookup_key, stripped};
use crate::locator::texts;
use vstd::prelude::*;
use vstd::string::*;

verus! {

/// One line of the report.
#[derive(Debug)]
pub struct ReportEntry {
    /// The binary's file name as it was listed.
    pub entry: String,
    /// The binary's name as it is looked up and shown.
    pub name: String,
    pub version: String,
    pub description: String,
}

/// What a `ReportEntry` stands for.
pub struct ReportView {
    pub entry: Seq<char>,
    pub name: Seq<char>,
    pub version: Seq<char>,
    pub description: Seq<char>,
}

impl View for ReportEntry {
    type V = ReportView;

    open spec fn view(&self) -> ReportView {
        ReportView {
            entry: self.entry@,
            name: self.name@,
            version: self.version@,
            description: self.description@,
        }
    }
}

/// What a piece of the listing is, so that each kind can get its own colour.
#[derive(PartialEq, Eq, Debug, Clone, Copy, Structural)]
pub enum Style {
    Plain,
    Name,
    Version,
    Description,
}

/// A piece of the listing.
#[derive(Debug)]
pub struct Span {
    pub text: String,
    pub style: Style,
}

/// What a `Span` stands for.
pub struct SpanView {
    pub text: Seq<char>,
    pub style: Style,
}

impl View for Span {
    type V = SpanView;

    open spec fn view(&self) -> SpanView {
        SpanView { text: self.text@, style: self.style }
    }
}

/// The text that stands in for a version or description that is not known.
pub open spec fn placeholder() -> Seq<char> {
    "n/a"@
}

/// The report line of the binary `entry`: the entry as it is, its lookup
/// name, and what the index records under that name, or the placeholder for
/// both version and description where the index records nothing.
pub open spec fn resolved(index: Map<Seq<char>, InfoView>, entry: Seq<char>) -> ReportView {
    let name = stripped(entry);
    if index.contains_key(name) {
        ReportView {
            entry,
            name,
            version: index[name].version,
            description: index[name].description,
        }
    } else {
        ReportView { entry, name, version: placeholder(), description: placeholder() }
    }
}

/// The views of a list of report entries.
pub open spec fn report_views(entries: Seq<ReportEntry>) -> Seq<ReportView> {
    entries.map_values(|e: ReportEntry| e@)
}

/// The views of a list of spans.
pub open spec fn span_views(spans: Seq<Span>) -> Seq<SpanView> {
    spans.map_values(|s: Span| s@)
}

/// A plain piece of the listing.
pub open spec fn plain(text: Seq<char>) -> SpanView {
    SpanView { text, style: Style::Plain }
}

/// The pieces that show one entry: the lookup name; the version and the
/// description, each after a blank, where they are asked for; a blank; and a
/// line feed where either is asked for.
pub open spec fn entry_spans(e: ReportView, options: CliOptions) -> Seq<SpanView> {
    seq![SpanView { text: e.name, style: Style::Name }] + (if options.print_versions {
        seq![plain(" "@), SpanView { text: e.version, style: Style::Version }]
    } else {
        seq![]
    }) + (if options.print_descs {
        seq![plain(" "@), SpanView { text: e.description, style: Style::Description }]
    } else {
        seq![]
    }) + seq![plain(" "@)] + (if options.print_versions || options.print_descs {
        seq![plain("\n"@)]
    } else {
        seq![]
    })
}

/// The pieces that show all entries, one entry after the other.
pub open spec fn entries_spans(entries: Seq<ReportView>, options: CliOptions) -> Seq<SpanView>
    decreases entries.len(),
{
    if entries.len() == 0 {
        seq![]
    } else {
        entries_spans(entries.drop_last(), options) + entry_spans(entries.last(), options)
    }
}

/// The listing: all entries in order. Where neither versions nor
/// descriptions are asked for, the names stand on one line, which a line
/// feed ends; otherwise each entry has a line of its own.
pub open spec fn listing(entries: Seq<ReportView>, options: CliOptions) -> Seq<SpanView> {
    entries_spans(entries, options) + (if options.print_versions || options.print_descs {
        seq![]
    } else {
        seq![plain("\n"@)]
    })
}

/// The texts of the pieces, one after the other.
pub open spec fn joined(spans: Seq<SpanView>) -> Seq<char>
    decreases spans.len(),
{
    if spans.len() == 0 {
        seq![]
    } else {
        joined(spans.drop_last()) + spans.last().text
    }
}

/// The report line of the binary `entry`. A binary that the index does not
/// know is no error.
pub fn resolve(index: &PackageIndex, entry: &str) -> (out: ReportEntry)
    ensures
        out@ == resolved(index@, entry@),
{
    let name = lookup_key(entry);
    match index.get(name.as_str()) {
        Some(info) => {
            let version = info.version.clone();
            let description = info.description.clone();
            ReportEntry { entry: entry.to_owned(), name, version, description }
        },
        None => ReportEntry {
            entry: entry.to_owned(),
            name,
            version: "n/a".to_owned(),
            description: "n/a".to_owned(),
        },
    }
}

/// The report lines of `binaries`, in their order, one for each.
pub fn report(index: &PackageIndex, binaries: &Vec<String>) -> (out: Vec<ReportEntry>)
    ensures
        out@.len() == binaries@.len(),
        forall|i: int|
            0 <= i < binaries@.len() ==> (#[trigger] out@[i])@ == resolved(index@, binaries@[i]@),
{
    let mut out: Vec<ReportEntry> = Vec::new();
    let mut i: usize = 0;
    while i < binaries.len()
        invariant
            i <= binaries.len(),
            out@.len() == i,
            forall|k: int| 0 <= k < i ==> (#[trigger] out@[k])@ == resolved(index@, binaries@[k]@),
        decreases binaries.len() - i,
    {
        out.push(resolve(index, binaries[i].as_str()));
        i += 1;
    }
    out
}

/// Adds the pieces that show `entry` to the end of `out`.
fn push_entry(out: &mut Vec<Span>, entry: &ReportEntry, options: &CliOptions)
    ensures
        span_views(final(out)@) == span_views(old(out)@) + entry_spans(entry@, *options),
{
    out.push(Span { text: entry.name.clone(), style: Style::Name });
    if options.print_versions {
        out.push(Span { text: " ".to_owned(), style: Style::Plain });
        out.push(Span { text: entry.version.clone(), style: Style::Version });
    }
    if options.print_descs {
        out.push(Span { text: " ".to_owned(), style: Style::Plain });
        out.push(Span { text: entry.description.clone(), style: Style::Description });
    }
    out.push(Span { text: " ".to_owned(), style: Style::Plain });
    if options.print_versions || options.print_descs {
        out.push(Span { text: "\n".to_owned(), style: Style::Plain });
    }
    assert(span_views(out@) =~= span_views(old(out)@) + entry_spans(entry@, *options));
}

/// Lays out the listing of `entries` as `options` ask.
pub fn render(entries: &Vec<ReportEntry>, options: &CliOptions) -> (out: Vec<Span>)
    ensures
        span_views(out@) == listing(report_views(entries@), *options),
{
    let mut out: Vec<Span> = Vec::new();
    let ghost views = report_views(entries@);
    let mut i: usize = 0;
    assert(span_views(out@) =~= entries_spans(views.take(0), *options));
    while i < entries.len()
        invariant
            i <= entries.len(),
            views == report_views(entries@),
            span_views(out@) == entries_spans(views.take(i as int), *options),
        decreases entries.len() - i,
    {
        proof {
            assert(views.take(i + 1).drop_last() =~= views.take(i as int));
            assert(views.take(i + 1).last() == entries[i as int]@);
        }
        push_entry(&mut out, &entries[i], options);
        i += 1;
    }
    assert(views.take(i as int) =~= views);
    if !(options.print_versions || options.print_descs) {
        let ghost before = out@;
        out.push(Span { text: "\n".to_owned(), style: Style::Plain });
        assert(span_views(out@) =~= span_views(before) + seq![plain("\n"@)]);
    } else {
        assert(span_views(out@) + Seq::<SpanView>::empty() =~= span_views(out@));
    }
    out
}

/// The listing as one text, without regard to style.
pub fn plain_text(spans: &Vec<Span>) -> (out: String)
    ensures
        out@ == joined(span_views(spans@)),
{
    let mut out = String::new();
    let ghost views = span_views(spans@);
    let mut i: usize = 0;
    assert(out@ =~= joined(views.take(0)));
    while i < spans.len()
        invariant
            i <= spans.len(),
            views == span_views(spans@),
            out@ == joined(views.take(i as int)),
        decreases spans.len() - i,
    {
        proof {
            assert(views.take(i + 1).drop_last() =~= views.take(i as int));
            assert(views.take(i + 1).last() == spans[i as int]@);
        }
        out.append(spans[i].text.as_str());
        i += 1;
    }
    assert(views.take(i as int) =~= views);
    out
}

} // verus!

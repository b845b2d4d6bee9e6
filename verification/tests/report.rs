use ls_crates::cli::CliOptions;
use ls_crates::failure::Failure;
use ls_crates::index::{PackageIndex, PackageInfo};
use ls_crates::inventory::{take_inventory, RootContents};
use ls_crates::locator::{candidate_roots, determine_pkgs_install_dir, Environment, Probe};
use ls_crates::reporter::{plain_text, render, report, resolve, ReportEntry, Style};
use ls_crates::scanner::CacheEntry;

fn names(v: &[&str]) -> Vec<String> {
    v.iter().map(|s| String::from(*s)).collect()
}

fn entry(dir_name: &str, manifest: Option<&str>) -> CacheEntry {
    CacheEntry { dir_name: String::from(dir_name), manifest: manifest.map(String::from) }
}

fn line(name: &str, version: &str, description: &str) -> ReportEntry {
    ReportEntry {
        entry: String::from(name),
        name: String::from(name),
        version: String::from(version),
        description: String::from(description),
    }
}

fn shown(e: &ReportEntry) -> (String, String, String) {
    (e.name.clone(), e.version.clone(), e.description.clone())
}

fn triple(a: &str, b: &str, c: &str) -> (String, String, String) {
    (String::from(a), String::from(b), String::from(c))
}

fn options(v: bool, d: bool) -> CliOptions {
    CliOptions { print_versions: v, print_descs: d, print_paths: false }
}

fn one_tool() -> PackageIndex {
    let mut index = PackageIndex::new();
    index.insert(
        String::from("tool"),
        PackageInfo { version: String::from("1.2.3"), description: String::from("a tool") },
    );
    index
}

#[test]
fn an_unknown_binary_gets_placeholders() {
    let index = one_tool();
    assert_eq!(shown(&resolve(&index, "stranger")), triple("stranger", "n/a", "n/a"));
    assert_eq!(shown(&resolve(&PackageIndex::new(), "tool")), triple("tool", "n/a", "n/a"));
}

#[test]
fn lookup_uses_the_stripped_name() {
    let index = one_tool();
    assert_eq!(shown(&resolve(&index, "tool.exe")), triple("tool", "1.2.3", "a tool"));
    assert_eq!(shown(&resolve(&index, "tool")), triple("tool", "1.2.3", "a tool"));
    assert_eq!(shown(&resolve(&index, "other.exe")), triple("other", "n/a", "n/a"));
}

#[test]
fn the_listed_name_is_kept_beside_the_lookup_name() {
    let index = one_tool();
    let found = resolve(&index, "tool.exe");
    assert_eq!(found.entry, "tool.exe");
    assert_eq!(found.name, "tool");
    let found = resolve(&index, "stranger");
    assert_eq!(found.entry, "stranger");
    assert_eq!(found.name, "stranger");
}

#[test]
fn a_name_that_holds_the_suffix_further_in_is_looked_up_as_it_is() {
    let mut index = PackageIndex::new();
    index.insert(
        String::from("my.exec"),
        PackageInfo { version: String::from("0.3.0"), description: String::from("runs it") },
    );
    assert_eq!(shown(&resolve(&index, "my.exec")), triple("my.exec", "0.3.0", "runs it"));
    assert_eq!(shown(&resolve(&index, "my.exec.exe")), triple("my.exec", "0.3.0", "runs it"));
    assert_eq!(shown(&resolve(&index, "my")), triple("my", "n/a", "n/a"));
}

#[test]
fn a_root_named_twice_is_listed_once() {
    let env = Environment {
        install_root: Some(String::from("/h/.cargo")),
        cargo_home: None,
        home: Some(String::from("/h")),
    };
    let probes: Vec<Probe> =
        candidate_roots(&env).into_iter().map(|path| Probe { path, is_dir: true }).collect();
    let roots = determine_pkgs_install_dir(probes).unwrap();
    assert_eq!(roots, names(&["/h/.cargo"]));
    let contents: Vec<RootContents> = roots
        .iter()
        .map(|_| RootContents {
            binaries: Some(names(&["alpha"])),
            cache: Some(vec![entry("alpha-0.1.0", Some("description = \"demo\""))]),
        })
        .collect();
    let found = take_inventory(contents).unwrap();
    assert_eq!(found.binaries, names(&["alpha"]));
}

#[test]
fn report_keeps_order_and_repeats() {
    let index = one_tool();
    let out = report(&index, &names(&["zeta", "tool", "zeta"]));
    let out: Vec<(String, String, String)> = out.iter().map(shown).collect();
    assert_eq!(
        out,
        vec![
            triple("zeta", "n/a", "n/a"),
            triple("tool", "1.2.3", "a tool"),
            triple("zeta", "n/a", "n/a")
        ]
    );
    assert!(report(&index, &Vec::new()).is_empty());
}

#[test]
fn end_to_end_listing() {
    let roots = vec![RootContents {
        binaries: Some(names(&["alpha", "beta"])),
        cache: Some(vec![entry(
            "alpha-0.1.0",
            Some("[package]\nname = \"alpha\"\nversion = \"0.1.0\"\ndescription = \"demo\"\n"),
        )]),
    }];
    let found = take_inventory(roots).unwrap();
    let out = report(&found.index, &found.binaries);
    let out: Vec<(String, String, String)> = out.iter().map(shown).collect();
    assert_eq!(out, vec![triple("alpha", "0.1.0", "demo"), triple("beta", "n/a", "n/a")]);
}

#[test]
fn end_to_end_root_not_found() {
    let env = Environment {
        install_root: Some(String::from("/nowhere/override")),
        cargo_home: None,
        home: Some(String::from("/nowhere/home")),
    };
    let probes: Vec<Probe> =
        candidate_roots(&env).into_iter().map(|path| Probe { path, is_dir: false }).collect();
    assert_eq!(probes.len(), 2);
    assert_eq!(determine_pkgs_install_dir(probes), Err(Failure::RootNotFound));
    let env = Environment { install_root: None, cargo_home: None, home: None };
    let probes: Vec<Probe> =
        candidate_roots(&env).into_iter().map(|path| Probe { path, is_dir: true }).collect();
    assert_eq!(determine_pkgs_install_dir(probes), Err(Failure::RootNotFound));
}

#[test]
fn inventory_needs_binaries_then_metadata() {
    let good = "description = \"x\"\n";
    let no_bins = vec![
        RootContents { binaries: None, cache: Some(vec![entry("a-1.0.0", Some(good))]) },
        RootContents { binaries: Some(Vec::new()), cache: None },
    ];
    assert_eq!(take_inventory(no_bins).err(), Some(Failure::NoBinariesFound));
    assert_eq!(take_inventory(Vec::new()).err(), Some(Failure::NoBinariesFound));
    let no_meta = vec![
        RootContents { binaries: Some(names(&["a"])), cache: None },
        RootContents { binaries: None, cache: Some(vec![entry("weird", Some(good))]) },
        RootContents { binaries: None, cache: Some(vec![entry("b-1.0.0", None)]) },
    ];
    assert_eq!(take_inventory(no_meta).err(), Some(Failure::NoMetadataFound));
    let neither = vec![RootContents { binaries: None, cache: None }];
    assert_eq!(take_inventory(neither).err(), Some(Failure::NoBinariesFound));
}

#[test]
fn inventory_merges_roots_in_order() {
    let roots = vec![
        RootContents {
            binaries: Some(names(&["b", "a"])),
            cache: Some(vec![
                entry("a-1.0.0", Some("description = \"first a\"\n")),
                entry("b-1.0.0", Some("description = \"first b\"\n")),
            ]),
        },
        RootContents { binaries: None, cache: None },
        RootContents {
            binaries: Some(names(&["a", "c"])),
            cache: Some(vec![entry("a-2.0.0", Some("description = \"second a\"\n"))]),
        },
    ];
    let found = take_inventory(roots).unwrap();
    assert_eq!(found.binaries, names(&["b", "a", "a", "c"]));
    let a = found.index.get("a").unwrap();
    assert_eq!((a.version.as_str(), a.description.as_str()), ("2.0.0", "second a"));
    let b = found.index.get("b").unwrap();
    assert_eq!((b.version.as_str(), b.description.as_str()), ("1.0.0", "first b"));
    assert!(found.index.get("c").is_none());
}

#[test]
fn names_alone_stand_on_one_line() {
    let entries = vec![line("alpha", "0.1.0", "demo"), line("beta", "n/a", "n/a")];
    assert_eq!(plain_text(&render(&entries, &options(false, false))), "alpha beta \n");
    assert_eq!(plain_text(&render(&Vec::new(), &options(false, false))), "\n");
}

#[test]
fn versions_or_descriptions_give_each_entry_a_line() {
    let entries = vec![line("alpha", "0.1.0", "demo"), line("beta", "n/a", "n/a")];
    assert_eq!(
        plain_text(&render(&entries, &options(true, false))),
        "alpha 0.1.0 \nbeta n/a \n"
    );
    assert_eq!(plain_text(&render(&entries, &options(false, true))), "alpha demo \nbeta n/a \n");
    assert_eq!(
        plain_text(&render(&entries, &options(true, true))),
        "alpha 0.1.0 demo \nbeta n/a n/a \n"
    );
    assert_eq!(plain_text(&render(&Vec::new(), &options(true, true))), "");
}

#[test]
fn pieces_carry_their_style() {
    let entries = vec![line("alpha", "0.1.0", "demo")];
    let spans = render(&entries, &options(true, true));
    let got: Vec<(String, Style)> = spans.iter().map(|s| (s.text.clone(), s.style)).collect();
    assert_eq!(
        got,
        vec![
            (String::from("alpha"), Style::Name),
            (String::from(" "), Style::Plain),
            (String::from("0.1.0"), Style::Version),
            (String::from(" "), Style::Plain),
            (String::from("demo"), Style::Description),
            (String::from(" "), Style::Plain),
            (String::from("\n"), Style::Plain),
        ]
    );
    let spans = render(&entries, &options(false, false));
    let got: Vec<(String, Style)> = spans.iter().map(|s| (s.text.clone(), s.style)).collect();
    assert_eq!(
        got,
        vec![
            (String::from("alpha"), Style::Name),
            (String::from(" "), Style::Plain),
            (String::from("\n"), Style::Plain),
        ]
    );
}

//! The root locator: which directories are install roots.
//!
//! Three sources name a candidate, in this order of priority: an explicit
//! override, the package manager's home, and a directory under the user's
//! home. The caller reads them from its configuration, asks the file system
//! which candidates are directories that can be read, and hands the answers
//! back. Every such candidate is an install root, in priority order.

use crate::failure::Failure;
use vstd::prelude::*;
use vstd::string::*;

verus! {

/// The three sources of a candidate, each present or not.
#[derive(Debug)]
pub struct Environment {
    /// The explicit override of the install root.
    pub install_root: Option<String>,
    /// The package manager's home.
    pub cargo_home: Option<String>,
    /// The user's home directory.
    pub home: Option<String>,
}

/// A candidate together with the file system's answer.
#[derive(Debug)]
pub struct Probe {
    pub path: String,
    /// Whether `path` is a directory that can be read.
    pub is_dir: bool,
}

/// What a `Probe` stands for.
pub struct ProbeView {
    pub path: Seq<char>,
    pub is_dir: bool,
}

impl View for Probe {
    type V = ProbeView;

    open spec fn view(&self) -> ProbeView {
        ProbeView { path: self.path@, is_dir: self.is_dir }
    }
}

/// The texts of a list of strings.
pub open spec fn texts(v: Seq<String>) -> Seq<Seq<char>> {
    v.map_values(|s: String| s@)
}

/// The views of a list of probes.
pub open spec fn probe_views(v: Seq<Probe>) -> Seq<ProbeView> {
    v.map_values(|p: Probe| p@)
}

/// The view of an optional string.
pub open spec fn source_of(s: Option<String>) -> Option<Seq<char>> {
    match s {
        Some(s) => Some(s@),
        None => None,
    }
}

/// The default root under the user's home directory `home`.
pub open spec fn default_root(home: Seq<char>) -> Seq<char> {
    home + "/.cargo"@
}

/// The three sources of `env` in priority order, the last one turned into
/// the default root.
pub open spec fn sources(env: Environment) -> Seq<Option<Seq<char>>> {
    seq![
        source_of(env.install_root),
        source_of(env.cargo_home),
        match env.home {
            Some(home) => Some(default_root(home@)),
            None => None,
        },
    ]
}

/// The candidates after one more source was looked at. A source that is
/// absent adds nothing, and neither does one that names the candidate that
/// was added last.
pub open spec fn keep(before: Seq<Seq<char>>, source: Option<Seq<char>>) -> Seq<Seq<char>> {
    match source {
        Some(path) => if before.len() > 0 && before.last() == path {
            before
        } else {
            before.push(path)
        },
        None => before,
    }
}

/// The candidates that a list of sources gives: the sources that are
/// present, in order, without any that names the same path as the candidate
/// before it. An absent source between two that name one path does not keep
/// them apart.
pub open spec fn collapse(sources: Seq<Option<Seq<char>>>) -> Seq<Seq<char>>
    decreases sources.len(),
{
    if sources.len() == 0 {
        seq![]
    } else {
        keep(collapse(sources.drop_last()), sources.last())
    }
}

/// The paths of the probes that found a directory, in the probes' order.
pub open spec fn existing(probes: Seq<ProbeView>) -> Seq<Seq<char>>
    decreases probes.len(),
{
    if probes.len() == 0 {
        seq![]
    } else if probes.last().is_dir {
        existing(probes.drop_last()).push(probes.last().path)
    } else {
        existing(probes.drop_last())
    }
}

/// `picks` says where each of `roots` stands among `probes`: the places rise,
/// each is a probe that found a directory, and its path is the root.
pub open spec fn picked_in_order(
    probes: Seq<ProbeView>,
    roots: Seq<Seq<char>>,
    picks: Seq<int>,
) -> bool {
    &&& picks.len() == roots.len()
    &&& forall|k: int|
        0 <= k < picks.len() ==> 0 <= #[trigger] picks[k] < probes.len() && probes[picks[k]].is_dir
            && probes[picks[k]].path == roots[k]
    &&& forall|j: int, k: int| 0 <= j < k < picks.len() ==> picks[j] < picks[k]
}

/// Every root that comes out is a candidate that was found to be a
/// directory, and the roots stand in the candidates' order.
pub proof fn lemma_existing_in_order(probes: Seq<ProbeView>) -> (picks: Seq<int>)
    ensures
        picked_in_order(probes, existing(probes), picks),
    decreases probes.len(),
{
    if probes.len() == 0 {
        Seq::empty()
    } else {
        let before = lemma_existing_in_order(probes.drop_last());
        assert forall|k: int| 0 <= k < before.len() implies probes[before[k]]
            == probes.drop_last()[before[k]] by {}
        if probes.last().is_dir {
            before.push(probes.len() - 1)
        } else {
            before
        }
    }
}

/// No candidate that was found to be a directory is left out.
pub proof fn lemma_existing_complete(probes: Seq<ProbeView>, i: int)
    requires
        0 <= i < probes.len(),
        probes[i].is_dir,
    ensures
        existing(probes).contains(probes[i].path),
    decreases probes.len(),
{
    if i == probes.len() - 1 {
        let roots = existing(probes);
        assert(roots[roots.len() - 1] == probes[i].path);
    } else {
        lemma_existing_complete(probes.drop_last(), i);
        let before = existing(probes.drop_last());
        let k = choose|k: int| 0 <= k < before.len() && before[k] == probes[i].path;
        assert(existing(probes)[k] == probes[i].path);
    }
}

/// No root comes out exactly where no candidate was found to be a directory.
pub proof fn lemma_existing_empty(probes: Seq<ProbeView>)
    ensures
        existing(probes).len() == 0 <==> forall|i: int|
            0 <= i < probes.len() ==> !(#[trigger] probes[i]).is_dir,
    decreases probes.len(),
{
    if probes.len() > 0 {
        lemma_existing_empty(probes.drop_last());
        if existing(probes).len() == 0 {
            assert forall|i: int| 0 <= i < probes.len() implies !(#[trigger] probes[i]).is_dir by {
                if i < probes.len() - 1 {
                    assert(probes.drop_last()[i] == probes[i]);
                }
            }
        } else if !probes.last().is_dir {
            let i = choose|i: int|
                0 <= i < probes.len() - 1 && (#[trigger] probes.drop_last()[i]).is_dir;
            assert(probes[i].is_dir);
        }
    }
}

/// Where the last source is present, it is the last candidate.
pub proof fn lemma_collapse_last(sources: Seq<Option<Seq<char>>>)
    requires
        sources.len() > 0,
        sources.last() is Some,
    ensures
        collapse(sources).len() > 0,
        Some(collapse(sources).last()) == sources.last(),
{
}

/// No candidate repeats the candidate right before it.
pub proof fn lemma_collapse_no_repeat(sources: Seq<Option<Seq<char>>>, k: int)
    requires
        0 <= k,
        k + 1 < collapse(sources).len(),
    ensures
        collapse(sources)[k] != collapse(sources)[k + 1],
    decreases sources.len(),
{
    if sources.len() > 0 {
        let before = sources.drop_last();
        if k + 1 < collapse(before).len() {
            lemma_collapse_no_repeat(before, k);
        }
    }
}

/// Every candidate is one of the sources.
pub proof fn lemma_collapse_from_sources(sources: Seq<Option<Seq<char>>>, k: int)
    requires
        0 <= k < collapse(sources).len(),
    ensures
        exists|i: int| 0 <= i < sources.len() && sources[i] == Some(collapse(sources)[k]),
    decreases sources.len(),
{
    if sources.len() > 0 {
        let before = sources.drop_last();
        if k < collapse(before).len() {
            lemma_collapse_from_sources(before, k);
            let i = choose|i: int| 0 <= i < before.len() && before[i] == Some(collapse(before)[k]);
            assert(sources[i] == Some(collapse(sources)[k]));
        } else {
            assert(sources[sources.len() - 1] == Some(collapse(sources)[k]));
        }
    }
}

/// Every source that is present is among the candidates.
pub proof fn lemma_collapse_complete(sources: Seq<Option<Seq<char>>>, i: int)
    requires
        0 <= i < sources.len(),
        sources[i] is Some,
    ensures
        collapse(sources).contains(sources[i]->0),
    decreases sources.len(),
{
    let all = collapse(sources);
    if i == sources.len() - 1 {
        lemma_collapse_last(sources);
        assert(all[all.len() - 1] == sources[i]->0);
    } else {
        let before = sources.drop_last();
        lemma_collapse_complete(before, i);
        let k = choose|k: int|
            0 <= k < collapse(before).len() && collapse(before)[k] == sources[i]->0;
        assert(all[k] == sources[i]->0);
    }
}

/// Looks at one more source: adds it to the candidates unless it is absent
/// or names the candidate that was added last.
fn push_candidate(out: &mut Vec<String>, source: Option<String>)
    ensures
        texts(final(out)@) == keep(texts(old(out)@), source_of(source)),
{
    match source {
        Some(path) => {
            let n = out.len();
            if n > 0 && out[n - 1] == path {
                assert(texts(out@).last() == out@[n - 1]@);
            } else {
                assert(n > 0 ==> texts(out@).last() == out@[n - 1]@);
                out.push(path);
                assert(texts(out@) =~= texts(old(out)@).push(path@));
            }
        },
        None => {},
    }
}

/// The candidates for the install root that `env` names, in priority order:
/// the override, the package manager's home, and the default root under the
/// user's home. A source that is absent gives none, and neither does one
/// that names the same path as the candidate before it.
pub fn candidate_roots(env: &Environment) -> (out: Vec<String>)
    ensures
        texts(out@) == collapse(sources(*env)),
{
    let fallback = match &env.home {
        Some(home) => Some(home.clone().concat("/.cargo")),
        None => None,
    };
    let ghost all = sources(*env);
    let mut out: Vec<String> = Vec::new();
    proof {
        assert(texts(out@) =~= collapse(all.take(0)));
        assert(all.take(1).drop_last() =~= all.take(0));
        assert(all.take(2).drop_last() =~= all.take(1));
        assert(all.take(3).drop_last() =~= all.take(2));
        assert(all.take(3) =~= all);
    }
    push_candidate(&mut out, env.install_root.clone());
    assert(texts(out@) == collapse(all.take(1)));
    push_candidate(&mut out, env.cargo_home.clone());
    assert(texts(out@) == collapse(all.take(2)));
    push_candidate(&mut out, fallback);
    out
}

/// The install roots: the candidates that were found to be directories, in
/// the candidates' order. Where there is none, the root is not found.
pub fn determine_pkgs_install_dir(probes: Vec<Probe>) -> (out: Result<Vec<String>, Failure>)
    ensures
        match out {
            Ok(roots) => roots@.len() > 0 && texts(roots@) == existing(probe_views(probes@)),
            Err(e) => e == Failure::RootNotFound && existing(probe_views(probes@)).len() == 0,
        },
{
    let mut roots: Vec<String> = Vec::new();
    let ghost views = probe_views(probes@);
    let mut i: usize = 0;
    assert(texts(roots@) =~= existing(views.take(0)));
    while i < probes.len()
        invariant
            i <= probes.len(),
            views == probe_views(probes@),
            texts(roots@) == existing(views.take(i as int)),
        decreases probes.len() - i,
    {
        proof {
            assert(views.take(i + 1).drop_last() =~= views.take(i as int));
            assert(views.take(i + 1).last() == probes[i as int]@);
        }
        if probes[i].is_dir {
            let ghost before = roots@;
            roots.push(probes[i].path.clone());
            assert(texts(roots@) =~= texts(before).push(probes[i as int].path@));
        }
        i += 1;
    }
    assert(views.take(i as int) =~= views);
    if roots.len() == 0 {
        Err(Failure::RootNotFound)
    } else {
        Ok(roots)
    }
}

} // verus!

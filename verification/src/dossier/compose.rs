//! Composing a dossier out of what the cluster lists.

use vstd::prelude::*;
use crate::benchmark_run::BenchmarkRun;
use crate::dossier::curation::{curate, keeps, kept, parent_of, Curation};
use crate::dossier::forest::{grounded, is_root, level, present};
use crate::dossier::latex::{latex, render_latex};
use crate::dossier::markdown::{markdown, render};
use crate::dossier::parts::{groups, unref};
use crate::experiment::Experiment;
use crate::experiment_template::ExperimentTemplate;
use crate::meta::Time;
use crate::order::{
    a_strict_order_is_unique, is_strict, placed, sorted, sorting_orders, stable_sort, Ordered,
};
use crate::research_campaign::ResearchCampaign;
use crate::text::{less, lex_asymmetric, lex_total, lex_transitive, same};
use crate::textmap::TextMap;
use crate::textset::TextSet;

verus! {

broadcast use vstd::seq_lib::group_seq_properties;

/// An assembled dossier in both output formats plus the curated trial count.
/// Both renderers are pure functions of the same fetched inputs, so the pair is
/// internally consistent and content-diffable via either member.
#[derive(Debug)]
pub struct Dossier {
    pub markdown: String,
    pub latex: String,
    pub included: usize,
}

// ---------------------------------------------------------------------------
// Order of creation
// ---------------------------------------------------------------------------

/// The one time is earlier than the other; no time is earlier than any.
pub open spec fn earlier(a: Option<Time>, b: Option<Time>) -> bool {
    match (a, b) {
        (_, None) => false,
        (None, Some(_)) => true,
        (Some(x), Some(y)) => x.millis < y.millis || (x.millis == y.millis && x.nanos < y.nanos),
    }
}

fn is_earlier(a: &Option<Time>, b: &Option<Time>) -> (r: bool)
    ensures
        r == earlier(*a, *b),
{
    match (a, b) {
        (_, None) => false,
        (None, Some(_)) => true,
        (Some(x), Some(y)) => x.millis < y.millis || (x.millis == y.millis && x.nanos < y.nanos),
    }
}

/// By time of creation, and by name among those created at one time.
impl Ordered for Experiment {
    open spec fn before(self, other: Self) -> bool {
        let a = self.metadata.creation_timestamp;
        let b = other.metadata.creation_timestamp;
        earlier(a, b) || (!earlier(b, a) && lex_lt_names(self, other))
    }

    proof fn asymmetric(a: Self, b: Self) {
        if lex_lt_names(a, b) {
            lex_asymmetric(a.metadata.named(), b.metadata.named());
        }
    }

    proof fn split(a: Self, b: Self, c: Self) {
        if lex_lt_names(a, c) {
            lex_total(a.metadata.named(), b.metadata.named());
            lex_total(b.metadata.named(), c.metadata.named());
            if crate::text::lex_lt(b.metadata.named(), a.metadata.named()) {
                lex_transitive(b.metadata.named(), a.metadata.named(), c.metadata.named());
            }
        }
    }

    fn precedes(&self, other: &Self) -> (r: bool) {
        let a = &self.metadata.creation_timestamp;
        let b = &other.metadata.creation_timestamp;
        is_earlier(a, b) || (!is_earlier(b, a) && less(
            self.metadata.name_any().as_str(),
            other.metadata.name_any().as_str(),
        ))
    }
}

/// The name of the one comes before the name of the other in dictionary order.
pub open spec fn lex_lt_names(a: Experiment, b: Experiment) -> bool {
    crate::text::lex_lt(a.metadata.named(), b.metadata.named())
}

/// The experiments by time of creation, and by name among those created at one time.
pub fn in_creation_order(experiments: Vec<Experiment>) -> (r: Vec<Experiment>)
    ensures
        r@ == sorted(experiments@),
{
    stable_sort(experiments)
}

// ---------------------------------------------------------------------------
// Runs by experiment
// ---------------------------------------------------------------------------

/// The runs that have the named experiment as their target, in their order.
pub open spec fn runs_for(runs: Seq<BenchmarkRun>, name: Seq<char>) -> Seq<BenchmarkRun> {
    runs.filter(|r: BenchmarkRun| r.spec.target_ref.name@ == name)
}

/// The runs of each experiment that has any.
pub open spec fn grouped(exps: Seq<Experiment>, runs: Seq<BenchmarkRun>) -> Map<
    Seq<char>,
    Seq<BenchmarkRun>,
> {
    Map::new(
        |name: Seq<char>| present(exps, name) && runs_for(runs, name).len() > 0,
        |name: Seq<char>| runs_for(runs, name),
    )
}

fn select_runs<'a>(runs: &'a [BenchmarkRun], name: &str) -> (r: Vec<&'a BenchmarkRun>)
    ensures
        unref(r@) == runs_for(runs@, name@),
{
    let ghost pred = |r: BenchmarkRun| r.spec.target_ref.name@ == name@;
    let mut out: Vec<&'a BenchmarkRun> = Vec::new();
    let mut i: usize = 0;
    proof {
        reveal(Seq::filter);
    }
    while i < runs.len()
        invariant
            i <= runs.len(),
            pred == (|r: BenchmarkRun| r.spec.target_ref.name@ == name@),
            unref(out@) == runs@.take(i as int).filter(pred),
        decreases runs.len() - i,
    {
        proof {
            reveal(Seq::filter);
            assert(runs@.take(i + 1).drop_last() =~= runs@.take(i as int));
        }
        let ghost held = out@;
        if same(runs[i].spec.target_ref.name.as_str(), name) {
            out.push(&runs[i]);
            assert(unref(out@) =~= unref(held).push(runs@[i as int]));
        }
        i = i + 1;
    }
    assert(runs@.take(i as int) =~= runs@);
    out
}

fn target_names(experiments: &[Experiment]) -> (r: TextSet)
    ensures
        forall|n: Seq<char>| #[trigger] r@.contains(n) <==> present(experiments@, n),
{
    let ghost all = experiments@;
    let mut names = TextSet::new();
    let mut i: usize = 0;
    while i < experiments.len()
        invariant
            i <= experiments.len(),
            all == experiments@,
            forall|n: Seq<char>| #[trigger] names@.contains(n) <==> present(all.take(i as int), n),
        decreases experiments.len() - i,
    {
        names.insert(experiments[i].metadata.name_any());
        proof {
            assert(all.take(i + 1) =~= all.take(i as int).push(all[i as int]));
            assert forall|n: Seq<char>| #[trigger]
                names@.contains(n) <==> present(all.take(i + 1), n) by {
                lemma_present_push(all.take(i as int), all[i as int], n);
            }
        }
        i = i + 1;
    }
    assert(all.take(i as int) =~= all);
    names
}

proof fn lemma_present_push(s: Seq<Experiment>, e: Experiment, n: Seq<char>)
    ensures
        present(s.push(e), n) <==> present(s, n) || e.metadata.named() == n,
{
    let t = s.push(e);
    if present(s, n) {
        let k = choose|k: int| 0 <= k < s.len() && (#[trigger] s[k]).metadata.named() == n;
        assert(t[k].metadata.named() == n);
    }
    if e.metadata.named() == n {
        assert(t[s.len() as int].metadata.named() == n);
    }
    if present(t, n) {
        let k = choose|k: int| 0 <= k < t.len() && (#[trigger] t[k]).metadata.named() == n;
        if k < s.len() {
            assert(s[k].metadata.named() == n);
        }
    }
}

/// The runs of each experiment that has any, in their order.
pub fn group_runs<'a>(experiments: &[Experiment], runs: &'a [BenchmarkRun]) -> (r: TextMap<
    Vec<&'a BenchmarkRun>,
>)
    ensures
        groups(r@) == grouped(experiments@, runs@),
{
    let names = target_names(experiments);
    let ghost e = names.elements();
    let n: usize = names.len();
    let mut out: TextMap<Vec<&'a BenchmarkRun>> = TextMap::new();
    let mut i: usize = 0;
    while i < n
        invariant
            i <= n,
            n == e.len(),
            e == names.elements(),
            forall|k: Seq<char>| #[trigger]
                out@.contains_key(k) <==> e.take(i as int).contains(k) && runs_for(runs@, k).len()
                    > 0,
            forall|k: Seq<char>| #[trigger]
                out@.contains_key(k) ==> unref(out@[k]@) == runs_for(runs@, k),
        decreases n - i,
    {
        let name = names.at(i);
        let selected = select_runs(runs, name.as_str());
        let ghost prev = out@;
        let ghost text = name@;
        let ghost chosen = selected;
        if selected.len() > 0 {
            out.insert(name.clone(), selected);
        }
        proof {
            assert(e.take(i + 1) =~= e.take(i as int).push(text));
            assert(unref(chosen@).len() == chosen@.len());
            assert forall|k: Seq<char>| #[trigger]
                out@.contains_key(k) <==> e.take(i + 1).contains(k) && runs_for(runs@, k).len()
                    > 0 by {
                let shorter = e.take(i as int);
                let longer = e.take(i + 1);
                if shorter.contains(k) {
                    let w = shorter.index_of(k);
                    assert(longer[w] == k);
                }
                assert(longer[i as int] == text);
                if longer.contains(k) && k != text {
                    let w = longer.index_of(k);
                    assert(shorter[w] == k);
                }
            }
        }
        i = i + 1;
    }
    proof {
        assert(e.take(i as int) =~= e);
        let m = groups(out@);
        let g = grouped(experiments@, runs@);
        assert forall|k: Seq<char>| m.dom().contains(k) == g.dom().contains(k) by {
            assert(out@.contains_key(k) <==> e.contains(k) && runs_for(runs@, k).len() > 0);
            assert(names@.contains(k) <==> present(experiments@, k));
        }
        assert forall|k: Seq<char>| m.dom().contains(k) implies m[k] == g[k] by {
            assert(out@.contains_key(k));
        }
        assert(m =~= g);
    }
    out
}

// ---------------------------------------------------------------------------
// The dossier
// ---------------------------------------------------------------------------

/// The dossier holds both documents of what the cluster lists, with the experiments in order of
/// creation, and how many of them the curation keeps.
pub open spec fn is_dossier(
    campaign_name: Seq<char>,
    namespace: Seq<char>,
    campaign: ResearchCampaign,
    template: ExperimentTemplate,
    experiments: Seq<Experiment>,
    runs: Seq<BenchmarkRun>,
    curation: Option<&Curation>,
    r: Dossier,
) -> bool {
    let exps = sorted(experiments);
    let by_experiment = grouped(exps, runs);
    &&& r.markdown@ == markdown(
        campaign_name,
        namespace,
        campaign,
        template,
        exps,
        by_experiment,
        curation,
    )
    &&& r.latex@ == latex(
        campaign_name,
        namespace,
        campaign,
        template,
        exps,
        by_experiment,
        curation,
    )
    &&& r.included == kept(exps, curation).len()
}

/// Composes the dossier of a campaign from its resources as the cluster lists them: the
/// experiments are put in order of creation, the runs are grouped by the experiment that
/// they have as target, and both documents are written.
pub fn compose(
    campaign_name: &str,
    namespace: &str,
    campaign: &ResearchCampaign,
    template: &ExperimentTemplate,
    experiments: Vec<Experiment>,
    runs: &[BenchmarkRun],
    curation: Option<&Curation>,
) -> (r: Dossier)
    requires
        grounded(kept(sorted(experiments@), curation)),
    ensures
        is_dossier(
            campaign_name@,
            namespace@,
            *campaign,
            *template,
            experiments@,
            runs@,
            curation,
            r,
        ),
{
    let experiments = in_creation_order(experiments);
    let runs_by_experiment = group_runs(experiments.as_slice(), runs);
    let included: usize = curate(experiments.as_slice(), curation).len();
    let mut md = String::new();
    let _ = render(
        &mut md,
        campaign_name,
        namespace,
        campaign,
        template,
        experiments.as_slice(),
        &runs_by_experiment,
        curation,
    );
    let mut tex = String::new();
    let _ = render_latex(
        &mut tex,
        campaign_name,
        namespace,
        campaign,
        template,
        experiments.as_slice(),
        &runs_by_experiment,
        curation,
    );
    Dossier { markdown: md, latex: tex, included }
}

// ---------------------------------------------------------------------------
// Distinct names leave no cycle below a root
// ---------------------------------------------------------------------------

/// No two experiments have one name.
pub open spec fn distinct_names(exps: Seq<Experiment>) -> bool {
    forall|i: int, j: int|
        0 <= i < j < exps.len() ==> (#[trigger] exps[i]).metadata.named() != (
        #[trigger] exps[j]).metadata.named()
}

proof fn lemma_level_present(exps: Seq<Experiment>, k: nat, name: Seq<char>)
    requires
        level(exps, k).contains(name),
    ensures
        present(exps, name),
{
    if k == 0 {
        let i = choose|i: int|
            0 <= i < exps.len() && is_root(exps, #[trigger] exps[i]) && exps[i].metadata.named()
                == name;
        assert(exps[i].metadata.named() == name);
    } else {
        let i = choose|i: int|
            0 <= i < exps.len() && exps[i].metadata.named() == name && (parent_of(
                #[trigger] exps[i],
            ) matches Some(p) && level(exps, (k - 1) as nat).contains(p));
        assert(exps[i].metadata.named() == name);
    }
}

proof fn lemma_levels_are_disjoint(exps: Seq<Experiment>, a: nat, b: nat, name: Seq<char>)
    requires
        distinct_names(exps),
        a < b,
        level(exps, a).contains(name),
    ensures
        !level(exps, b).contains(name),
    decreases a,
{
    if level(exps, b).contains(name) {
        let j = choose|j: int|
            0 <= j < exps.len() && exps[j].metadata.named() == name && (parent_of(
                #[trigger] exps[j],
            ) matches Some(p) && level(exps, (b - 1) as nat).contains(p));
        let q = parent_of(exps[j])->0;
        if a == 0 {
            let i = choose|i: int|
                0 <= i < exps.len() && is_root(exps, #[trigger] exps[i]) && exps[i].metadata.named()
                    == name;
            assert(i == j);
            lemma_level_present(exps, (b - 1) as nat, q);
        } else {
            let i = choose|i: int|
                0 <= i < exps.len() && exps[i].metadata.named() == name && (parent_of(
                    #[trigger] exps[i],
                ) matches Some(p) && level(exps, (a - 1) as nat).contains(p));
            assert(i == j);
            lemma_levels_are_disjoint(exps, (a - 1) as nat, (b - 1) as nat, q);
        }
    }
}

/// The place of an experiment whose name stands at the level.
spec fn at_level(exps: Seq<Experiment>, k: nat) -> int {
    choose|i: int|
        0 <= i < exps.len() && level(exps, k).contains((#[trigger] exps[i]).metadata.named())
}

proof fn lemma_at_level(exps: Seq<Experiment>, k: nat, m: nat, name: Seq<char>)
    requires
        k <= m,
        level(exps, m).contains(name),
    ensures
        0 <= at_level(exps, k) < exps.len(),
        level(exps, k).contains(exps[at_level(exps, k)].metadata.named()),
    decreases m,
{
    if k == m {
        lemma_level_present(exps, m, name);
        let i = choose|i: int| 0 <= i < exps.len() && (#[trigger] exps[i]).metadata.named() == name;
        assert(level(exps, k).contains(exps[i].metadata.named()));
    } else {
        let j = choose|j: int|
            0 <= j < exps.len() && exps[j].metadata.named() == name && (parent_of(
                #[trigger] exps[j],
            ) matches Some(p) && level(exps, (m - 1) as nat).contains(p));
        lemma_at_level(exps, k, (m - 1) as nat, parent_of(exps[j])->0);
    }
}

/// Where no two experiments have one name, no line of descent from a root runs into a
/// cycle: whatever the lineage says, the forest can be drawn.
pub proof fn distinct_names_are_grounded(exps: Seq<Experiment>)
    requires
        distinct_names(exps),
    ensures
        grounded(exps),
{
    let n = exps.len();
    assert forall|name: Seq<char>| !#[trigger] level(exps, n).contains(name) by {
        if level(exps, n).contains(name) {
            let places = Seq::new(n + 1, |k: int| at_level(exps, k as nat));
            assert forall|k: int| 0 <= k <= n implies 0 <= #[trigger] places[k] < n && level(
                exps,
                k as nat,
            ).contains(exps[places[k]].metadata.named()) by {
                lemma_at_level(exps, k as nat, n, name);
            }
            assert(places.no_duplicates()) by {
                assert forall|a: int, b: int|
                    0 <= a < b < places.len() implies places[a] != places[b] by {
                    lemma_levels_are_disjoint(
                        exps,
                        a as nat,
                        b as nat,
                        exps[places[a]].metadata.named(),
                    );
                }
            }
            places.unique_seq_to_set();
            vstd::set_lib::lemma_int_range(0, n as int);
            assert(places.to_set().subset_of(vstd::set_lib::set_int_range(0, n as int)));
            vstd::set_lib::lemma_len_subset(
                places.to_set(),
                vstd::set_lib::set_int_range(0, n as int),
            );
        }
    }
}

proof fn lemma_filter_keeps_distinct(s: Seq<Experiment>, pred: spec_fn(Experiment) -> bool)
    requires
        distinct_names(s),
    ensures
        distinct_names(s.filter(pred)),
        forall|n: Seq<char>| present(s.filter(pred), n) ==> #[trigger] present(s, n),
    decreases s.len(),
{
    reveal(Seq::filter);
    if s.len() > 0 {
        let t = s.drop_last();
        let e = s.last();
        assert forall|i: int, j: int| 0 <= i < j < t.len() implies (
        #[trigger] t[i]).metadata.named() != (#[trigger] t[j]).metadata.named() by {
            assert(s[i].metadata.named() != s[j].metadata.named());
        }
        lemma_filter_keeps_distinct(t, pred);
        assert(!present(t, e.metadata.named())) by {
            if present(t, e.metadata.named()) {
                let k = choose|k: int|
                    0 <= k < t.len() && (#[trigger] t[k]).metadata.named() == e.metadata.named();
                assert(s[k].metadata.named() != s[s.len() - 1].metadata.named());
            }
        }
        let f = t.filter(pred);
        assert forall|n: Seq<char>| present(s.filter(pred), n) implies #[trigger] present(s, n) by {
            assert(s =~= t.push(e));
            lemma_present_push(t, e, n);
            lemma_present_push(f, e, n);
            assert(present(f, n) ==> present(t, n));
        }
        if pred(e) {
            let g = f.push(e);
            assert forall|i: int, j: int| 0 <= i < j < g.len() implies (
            #[trigger] g[i]).metadata.named() != (#[trigger] g[j]).metadata.named() by {
                if j == f.len() {
                    assert(f[i].metadata.named() == g[i].metadata.named());
                    assert(present(f, f[i].metadata.named()));
                    assert(present(t, f[i].metadata.named()));
                } else {
                    assert(f[i].metadata.named() != f[j].metadata.named());
                }
            }
        }
    }
}

proof fn lemma_placed_distinct(s: Seq<Experiment>, x: Experiment)
    requires
        distinct_names(s),
        !present(s, x.metadata.named()),
    ensures
        distinct_names(placed(s, x)),
        forall|n: Seq<char>| #[trigger]
            present(placed(s, x), n) <==> present(s, n) || n == x.metadata.named(),
    decreases s.len(),
{
    let r = placed(s, x);
    let h = r[0];
    let t = r.drop_first();
    if s.len() > 0 && s[0].before(x) {
        let rest = s.drop_first();
        assert forall|i: int, j: int| 0 <= i < j < rest.len() implies (
        #[trigger] rest[i]).metadata.named() != (#[trigger] rest[j]).metadata.named() by {
            assert(s[i + 1].metadata.named() != s[j + 1].metadata.named());
        }
        assert forall|n: Seq<char>| #[trigger]
            present(s, n) <==> present(rest, n) || n == s[0].metadata.named() by {
            lemma_present_first(s, n);
        }
        assert(!present(rest, x.metadata.named())) by {
            assert(present(s, x.metadata.named()) <==> present(rest, x.metadata.named())
                || x.metadata.named() == s[0].metadata.named());
        }
        lemma_placed_distinct(rest, x);
        assert(t =~= placed(rest, x));
        assert(!present(rest, s[0].metadata.named())) by {
            if present(rest, s[0].metadata.named()) {
                let k = choose|k: int|
                    0 <= k < rest.len() && (#[trigger] rest[k]).metadata.named()
                        == s[0].metadata.named();
                assert(s[k + 1].metadata.named() == s[0].metadata.named());
            }
        }
        assert(s[0].metadata.named() != x.metadata.named()) by {
            assert(present(s, s[0].metadata.named()));
        }
        assert(!present(t, h.metadata.named())) by {
            assert(present(placed(rest, x), h.metadata.named()) <==> present(
                rest,
                h.metadata.named(),
            ) || h.metadata.named() == x.metadata.named());
        }
    } else {
        assert(t =~= s);
    }
    assert forall|n: Seq<char>| #[trigger]
        present(r, n) <==> present(s, n) || n == x.metadata.named() by {
        lemma_present_first(r, n);
        if s.len() > 0 {
            lemma_present_first(s, n);
        }
    }
    assert forall|i: int, j: int| 0 <= i < j < r.len() implies (#[trigger] r[i]).metadata.named()
        != (#[trigger] r[j]).metadata.named() by {
        if i == 0 {
            assert(t[j - 1] == r[j]);
            assert(present(t, t[j - 1].metadata.named()));
        } else {
            assert(t[i - 1].metadata.named() != t[j - 1].metadata.named());
        }
    }
}

proof fn lemma_present_first(s: Seq<Experiment>, n: Seq<char>)
    requires
        s.len() > 0,
    ensures
        present(s, n) <==> present(s.drop_first(), n) || n == s[0].metadata.named(),
{
    let t = s.drop_first();
    if present(t, n) {
        let k = choose|k: int| 0 <= k < t.len() && (#[trigger] t[k]).metadata.named() == n;
        assert(s[k + 1].metadata.named() == n);
    }
    if present(s, n) {
        let k = choose|k: int| 0 <= k < s.len() && (#[trigger] s[k]).metadata.named() == n;
        if k > 0 {
            assert(t[k - 1].metadata.named() == n);
        }
    }
}

proof fn lemma_sorted_distinct(s: Seq<Experiment>)
    requires
        distinct_names(s),
    ensures
        distinct_names(sorted(s)),
        forall|n: Seq<char>| #[trigger] present(sorted(s), n) <==> present(s, n),
    decreases s.len(),
{
    if s.len() > 0 {
        let t = s.drop_first();
        assert forall|i: int, j: int| 0 <= i < j < t.len() implies (
        #[trigger] t[i]).metadata.named() != (#[trigger] t[j]).metadata.named() by {
            assert(s[i + 1].metadata.named() != s[j + 1].metadata.named());
        }
        lemma_sorted_distinct(t);
        assert(!present(t, s[0].metadata.named())) by {
            if present(t, s[0].metadata.named()) {
                let k = choose|k: int|
                    0 <= k < t.len() && (#[trigger] t[k]).metadata.named()
                        == s[0].metadata.named();
                assert(s[k + 1].metadata.named() == s[0].metadata.named());
            }
        }
        assert(!present(sorted(t), s[0].metadata.named()));
        lemma_placed_distinct(sorted(t), s[0]);
        assert forall|n: Seq<char>| #[trigger] present(sorted(s), n) <==> present(s, n) by {
            lemma_present_first(s, n);
            assert(present(sorted(t), n) <==> present(t, n));
        }
    } else {
        assert(sorted(s) =~= s);
    }
}

/// The experiments of one namespace have distinct names, so a dossier of them can always be
/// composed, whatever their lineage says and whatever the curation keeps.
pub proof fn a_listing_can_be_composed(exps: Seq<Experiment>, curation: Option<&Curation>)
    requires
        distinct_names(exps),
    ensures
        grounded(kept(sorted(exps), curation)),
{
    lemma_sorted_distinct(exps);
    lemma_filter_keeps_distinct(
        sorted(exps),
        |e: Experiment| keeps(sorted(exps), curation, e),
    );
    distinct_names_are_grounded(kept(sorted(exps), curation));
}

proof fn lemma_distinct_in_any_order(a: Seq<Experiment>, b: Seq<Experiment>)
    requires
        distinct_names(a),
        a.to_multiset() == b.to_multiset(),
    ensures
        distinct_names(b),
{
    broadcast use vstd::seq_lib::group_to_multiset_ensures;

    assert(a.no_duplicates()) by {
        assert forall|i: int, j: int| 0 <= i < j < a.len() implies a[i] != a[j] by {
            assert(a[i].metadata.named() != a[j].metadata.named());
        }
    }
    a.lemma_multiset_has_no_duplicates();
    b.lemma_multiset_has_no_duplicates_conv();
    assert forall|i: int, j: int| 0 <= i < j < b.len() implies (#[trigger] b[i]).metadata.named()
        != (#[trigger] b[j]).metadata.named() by {
        assert(b.contains(b[i]) && b.contains(b[j]));
        assert(a.to_multiset().count(b[i]) > 0 && a.to_multiset().count(b[j]) > 0);
        assert(a.contains(b[i]) && a.contains(b[j]));
        let k = a.index_of(b[i]);
        let m = a.index_of(b[j]);
        assert(b[i] != b[j]);
        if k < m {
            assert(a[k].metadata.named() != a[m].metadata.named());
        } else {
            assert(m < k);
            assert(a[m].metadata.named() != a[k].metadata.named());
        }
    }
}

proof fn lemma_sorted_is_strict(exps: Seq<Experiment>)
    requires
        distinct_names(exps),
    ensures
        is_strict(sorted(exps)),
{
    let s = sorted(exps);
    sorting_orders(exps);
    lemma_sorted_distinct(exps);
    assert forall|i: int, j: int| 0 <= i < j < s.len() implies (#[trigger] s[i]).before(
        #[trigger] s[j],
    ) by {
        assert(!s[j].before(s[i]));
        assert(s[i].metadata.named() != s[j].metadata.named());
        lex_total(s[i].metadata.named(), s[j].metadata.named());
    }
}

/// A dossier does not depend on the order in which the cluster lists the experiments, so what
/// was published changes only where the data does.
pub proof fn the_listing_order_does_not_matter(
    campaign_name: Seq<char>,
    namespace: Seq<char>,
    campaign: ResearchCampaign,
    template: ExperimentTemplate,
    listed: Seq<Experiment>,
    again: Seq<Experiment>,
    runs: Seq<BenchmarkRun>,
    curation: Option<&Curation>,
    a: Dossier,
    b: Dossier,
)
    requires
        distinct_names(listed),
        listed.to_multiset() == again.to_multiset(),
        is_dossier(campaign_name, namespace, campaign, template, listed, runs, curation, a),
        is_dossier(campaign_name, namespace, campaign, template, again, runs, curation, b),
    ensures
        a.markdown@ == b.markdown@,
        a.latex@ == b.latex@,
        a.included == b.included,
{
    lemma_distinct_in_any_order(listed, again);
    lemma_sorted_is_strict(listed);
    lemma_sorted_is_strict(again);
    sorting_orders(listed);
    sorting_orders(again);
    a_strict_order_is_unique(sorted(listed), sorted(again));
}

// ---------------------------------------------------------------------------
// What the composition is
// ---------------------------------------------------------------------------

proof fn lemma_runs_for(runs: Seq<BenchmarkRun>, name: Seq<char>)
    ensures
        forall|k: int|
            0 <= k < runs_for(runs, name).len() ==> (#[trigger] runs_for(
                runs,
                name,
            )[k]).spec.target_ref.name@ == name && runs.contains(runs_for(runs, name)[k]),
        forall|i: int|
            0 <= i < runs.len() && (#[trigger] runs[i]).spec.target_ref.name@ == name
                ==> runs_for(runs, name).contains(runs[i]),
    decreases runs.len(),
{
    reveal(Seq::filter);
    if runs.len() > 0 {
        let t = runs.drop_last();
        lemma_runs_for(t, name);
        let g = runs_for(runs, name);
        let f = runs_for(t, name);
        assert forall|k: int| 0 <= k < g.len() implies (#[trigger] g[k]).spec.target_ref.name@
            == name && runs.contains(g[k]) by {
            if k < f.len() {
                assert(g[k] == f[k]);
                assert(f[k].spec.target_ref.name@ == name && t.contains(f[k]));
                let w = t.index_of(f[k]);
                assert(runs[w] == f[k]);
            } else {
                assert(runs[runs.len() - 1] == g[k]);
            }
        }
        assert forall|i: int|
            0 <= i < runs.len() && (#[trigger] runs[i]).spec.target_ref.name@
                == name implies g.contains(runs[i]) by {
            if i < t.len() {
                assert(t[i] == runs[i]);
                assert(f.contains(t[i]));
                let w = f.index_of(t[i]);
                assert(g[w] == runs[i]);
            } else {
                assert(g[g.len() - 1] == runs[i]);
            }
        }
    }
}

/// A run stands under the experiment that it has as target, and nowhere else: whatever stands
/// under a name has that name as its target and was listed, and every listed run whose target
/// is a listed experiment stands under it.
pub proof fn runs_stand_under_their_target(exps: Seq<Experiment>, runs: Seq<BenchmarkRun>)
    ensures
        forall|name: Seq<char>, k: int|
            grouped(exps, runs).contains_key(name) && 0 <= k < grouped(exps, runs)[name].len()
                ==> {
                &&& (#[trigger] grouped(exps, runs)[name][k]).spec.target_ref.name@ == name
                &&& runs.contains(grouped(exps, runs)[name][k])
            },
        forall|name: Seq<char>| #[trigger]
            grouped(exps, runs).contains_key(name) ==> grouped(exps, runs)[name].len() > 0
                && exists|i: int|
                0 <= i < exps.len() && (#[trigger] exps[i]).metadata.named() == name,
        forall|i: int, j: int|
            0 <= i < runs.len() && 0 <= j < exps.len() && (
            #[trigger] runs[i]).spec.target_ref.name@ == (#[trigger] exps[j]).metadata.named()
                ==> grouped(exps, runs).contains_key(exps[j].metadata.named()) && grouped(
                exps,
                runs,
            )[exps[j].metadata.named()].contains(runs[i]),
{
    let g = grouped(exps, runs);
    assert forall|name: Seq<char>, k: int|
        g.contains_key(name) && 0 <= k < g[name].len() implies {
        &&& (#[trigger] g[name][k]).spec.target_ref.name@ == name
        &&& runs.contains(g[name][k])
    } by {
        lemma_runs_for(runs, name);
        let r = runs_for(runs, name)[k];
    }
    assert forall|i: int, j: int|
        0 <= i < runs.len() && 0 <= j < exps.len() && (#[trigger] runs[i]).spec.target_ref.name@
            == (#[trigger] exps[j]).metadata.named() implies g.contains_key(
        exps[j].metadata.named(),
    ) && g[exps[j].metadata.named()].contains(runs[i]) by {
        let name = exps[j].metadata.named();
        lemma_runs_for(runs, name);
        assert(runs_for(runs, name).contains(runs[i]));
        assert(present(exps, name));
    }
}

/// The runs under an experiment stand in the order of the listing: one more run at its end comes
/// last under its target, and changes nothing elsewhere.
pub proof fn runs_keep_their_order(exps: Seq<Experiment>, runs: Seq<BenchmarkRun>, r: BenchmarkRun)
    ensures
        ({
            let less = grouped(exps, runs);
            let more = grouped(exps, runs.push(r));
            let target = r.spec.target_ref.name@;
            &&& present(exps, target) ==> more.contains_key(target) && more[target] == (
            if less.contains_key(target) {
                less[target].push(r)
            } else {
                seq![r]
            })
            &&& forall|name: Seq<char>|
                name != target || !present(exps, target) ==> (#[trigger] more.contains_key(name)
                    == less.contains_key(name)) && (less.contains_key(name) ==> more[name]
                    == less[name])
        }),
        grouped(exps, Seq::empty()) == Map::<Seq<char>, Seq<BenchmarkRun>>::empty(),
{
    reveal(Seq::filter);
    let all = runs.push(r);
    assert(all.drop_last() =~= runs);
    let less = grouped(exps, runs);
    let more = grouped(exps, all);
    let target = r.spec.target_ref.name@;
    assert forall|name: Seq<char>| name != target implies runs_for(all, name) == runs_for(
        runs,
        name,
    ) by {}
    if present(exps, target) {
        assert(runs_for(all, target) == runs_for(runs, target).push(r));
        if !less.contains_key(target) {
            assert(runs_for(runs, target) =~= Seq::empty());
            assert(runs_for(all, target) =~= seq![r]);
        }
    }
    assert(grouped(exps, Seq::empty()) =~= Map::<Seq<char>, Seq<BenchmarkRun>>::empty());
}

/// The experiments of a dossier stand in the order of their creation: those without a time come
/// first, no later one comes before an earlier one, and one time leaves them to their names.
pub proof fn experiments_stand_by_age(exps: Seq<Experiment>, i: int, j: int)
    requires
        0 <= i < j < sorted(exps).len(),
    ensures
        ({
            let a = sorted(exps)[i].metadata;
            let b = sorted(exps)[j].metadata;
            match (a.creation_timestamp, b.creation_timestamp) {
                (Some(s), Some(t)) => {
                    &&& s.millis <= t.millis
                    &&& s.millis == t.millis ==> s.nanos <= t.nanos
                    &&& s.millis == t.millis && s.nanos == t.nanos ==> !crate::text::lex_lt(
                        b.named(),
                        a.named(),
                    )
                },
                (None, Some(_)) => true,
                (Some(_), None) => false,
                (None, None) => !crate::text::lex_lt(b.named(), a.named()),
            }
        }),
{
    sorting_orders(exps);
    assert(!sorted(exps)[j].before(sorted(exps)[i]));
}

/// A dossier leaves no listed experiment out of its order and counts the ones that it keeps.
pub proof fn a_dossier_counts_what_it_keeps(
    campaign_name: Seq<char>,
    namespace: Seq<char>,
    campaign: ResearchCampaign,
    template: ExperimentTemplate,
    experiments: Seq<Experiment>,
    runs: Seq<BenchmarkRun>,
    curation: Option<&Curation>,
    r: Dossier,
)
    requires
        is_dossier(
            campaign_name,
            namespace,
            campaign,
            template,
            experiments,
            runs,
            curation,
            r,
        ),
    ensures
        curation is None ==> r.included == experiments.len(),
        r.included <= experiments.len(),
{
    sorting_orders(experiments);
    let all = sorted(experiments);
    let pred = |e: Experiment| keeps(all, curation, e);
    all.lemma_filter_len(pred);
    if curation is None {
        lemma_filter_all(all, pred);
    }
}

proof fn lemma_filter_all(s: Seq<Experiment>, pred: spec_fn(Experiment) -> bool)
    requires
        forall|e: Experiment| #[trigger] pred(e),
    ensures
        s.filter(pred) == s,
    decreases s.len(),
{
    reveal(Seq::filter);
    if s.len() > 0 {
        lemma_filter_all(s.drop_last(), pred);
        assert(s.drop_last().push(s.last()) =~= s);
    } else {
        assert(s.filter(pred) =~= s);
    }
}

} // verus!

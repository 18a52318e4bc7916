//! Which experiments of a campaign a dossier holds.

use vstd::prelude::*;
use crate::experiment::Experiment;
use crate::research_report::{Reference, ReportSubject, ResearchReportSpec};
use crate::text::same;
use crate::textmap::TextMap;
use crate::textset::TextSet;

verus! {

broadcast use vstd::seq_lib::group_seq_properties;

/// Scientist curation applied to a campaign's experiments when composing a
/// paper dataset. Borrows from a `ResearchReport` spec.
pub struct Curation<'a> {
    pub title: Option<&'a str>,
    /// Include only these experiments by name; empty = all.
    pub included: &'a [String],
    /// Prune these experiments by name (applied after inclusion).
    pub excluded: &'a [String],
    /// Extra narrative sections, keyed by heading.
    pub sections: &'a TextMap<String>,
    /// Hypotheses to record as future work.
    pub seeded_hypotheses: &'a [String],
    /// External citations from the report spec.
    pub references: &'a [Reference],
    /// Narrow the document to one experiment and its descendants.
    pub about: Option<&'a ReportSubject>,
}

impl<'a> Curation<'a> {
    /// The curation that `spec` describes.
    pub fn from_spec(spec: &'a ResearchReportSpec) -> (r: Self)
        ensures
            r.title is Some <==> spec.title is Some,
            r.title matches Some(t) ==> t@ == spec.title->0@,
            r.included@ == spec.included_experiments@,
            r.excluded@ == spec.excluded_experiments@,
            *r.sections == spec.sections,
            r.seeded_hypotheses@ == spec.seeded_hypotheses@,
            r.references@ == spec.references@,
            r.about is Some <==> spec.about is Some,
            r.about matches Some(a) ==> *a == spec.about->0,
    {
        Curation {
            title: match &spec.title {
                Some(t) => Some(t.as_str()),
                None => None,
            },
            included: spec.included_experiments.as_slice(),
            excluded: spec.excluded_experiments.as_slice(),
            sections: &spec.sections,
            seeded_hypotheses: spec.seeded_hypotheses.as_slice(),
            references: spec.references.as_slice(),
            about: match &spec.about {
                Some(a) => Some(a),
                None => None,
            },
        }
    }
}

/// The name of the experiment that `e` derives from, if its lineage has one.
pub open spec fn parent_of(e: Experiment) -> Option<Seq<char>> {
    match e.spec.lineage {
        Some(l) => match l.parent {
            Some(p) => Some(p@),
            None => None,
        },
        None => None,
    }
}

/// An experiment named `child` derives from one named `parent`.
pub open spec fn derives(exps: Seq<Experiment>, parent: Seq<char>, child: Seq<char>) -> bool {
    exists|i: int|
        0 <= i < exps.len() && parent_of(#[trigger] exps[i]) == Some(parent)
            && exps[i].metadata.named() == child
}

/// Each name of the chain derives from the one before it.
pub open spec fn is_chain(exps: Seq<Experiment>, chain: Seq<Seq<char>>) -> bool {
    chain.len() > 0 && forall|i: int|
        0 < i < chain.len() ==> derives(exps, chain[i - 1], #[trigger] chain[i])
}

/// `name` is `root`, or derives from it through a chain of parents.
pub open spec fn descends(exps: Seq<Experiment>, root: Seq<char>, name: Seq<char>) -> bool {
    exists|chain: Seq<Seq<char>>| #[trigger]
        is_chain(exps, chain) && chain.first() == root && chain.last() == name
}

/// The root is its own descendant.
pub proof fn root_descends(exps: Seq<Experiment>, root: Seq<char>)
    ensures
        descends(exps, root, root),
{
    let chain = seq![root];
    assert(is_chain(exps, chain));
    assert(chain.first() == root && chain.last() == root);
}

/// What derives from a descendant is a descendant.
pub proof fn derived_descends(
    exps: Seq<Experiment>,
    root: Seq<char>,
    parent: Seq<char>,
    child: Seq<char>,
)
    requires
        descends(exps, root, parent),
        derives(exps, parent, child),
    ensures
        descends(exps, root, child),
{
    let chain = choose|chain: Seq<Seq<char>>| #[trigger]
        is_chain(exps, chain) && chain.first() == root && chain.last() == parent;
    let longer = chain.push(child);
    assert forall|i: int| 0 < i < longer.len() implies derives(
        exps,
        longer[i - 1],
        #[trigger] longer[i],
    ) by {
        if i < chain.len() {
            assert(derives(exps, chain[i - 1], chain[i]));
        }
    }
    assert(is_chain(exps, longer));
    assert(longer.first() == root && longer.last() == child);
}

/// The descendants are the least set that holds the root and all that derives from it: any
/// set that does holds them.
pub proof fn descendants_are_the_least_closed_set(
    exps: Seq<Experiment>,
    root: Seq<char>,
    closed_set: Set<Seq<char>>,
    name: Seq<char>,
)
    requires
        closed_set.contains(root),
        forall|p: Seq<char>, c: Seq<char>|
            closed_set.contains(p) && #[trigger] derives(exps, p, c) ==> closed_set.contains(c),
        descends(exps, root, name),
    ensures
        closed_set.contains(name),
{
    let chain = choose|chain: Seq<Seq<char>>| #[trigger]
        is_chain(exps, chain) && chain.first() == root && chain.last() == name;
    lemma_chain_inside(exps, closed_set, chain, chain.len() - 1);
}

proof fn lemma_chain_inside(
    exps: Seq<Experiment>,
    closed_set: Set<Seq<char>>,
    chain: Seq<Seq<char>>,
    i: int,
)
    requires
        is_chain(exps, chain),
        closed_set.contains(chain.first()),
        forall|p: Seq<char>, c: Seq<char>|
            closed_set.contains(p) && #[trigger] derives(exps, p, c) ==> closed_set.contains(c),
        0 <= i < chain.len(),
    ensures
        closed_set.contains(chain[i]),
    decreases i,
{
    if i > 0 {
        lemma_chain_inside(exps, closed_set, chain, i - 1);
        assert(derives(exps, chain[i - 1], chain[i]));
    }
}

/// The names that a walk over the lineage can meet.
spec fn universe(exps: Seq<Experiment>, root: Seq<char>) -> Set<Seq<char>> {
    exps.map_values(|e: Experiment| e.metadata.named()).to_set().insert(root)
}

/// Puts the names of the experiments that derive from `parent` behind the queue.
fn queue_children(queue: &mut Vec<String>, experiments: &[Experiment], parent: &String)
    ensures
        forall|c: Seq<char>| #[trigger]
            final(queue).deep_view().contains(c) <==> old(queue).deep_view().contains(c)
                || derives(experiments@, parent@, c),
        forall|k: int|
            0 <= k < final(queue).deep_view().len() ==> old(queue).deep_view().contains(
                #[trigger] final(queue).deep_view()[k],
            ) || derives(experiments@, parent@, final(queue).deep_view()[k]),
{
    let ghost had = queue.deep_view();
    let mut i: usize = 0;
    while i < experiments.len()
        invariant
            i <= experiments.len(),
            forall|c: Seq<char>| #[trigger]
                queue.deep_view().contains(c) <==> had.contains(c) || derives(
                    experiments@.take(i as int),
                    parent@,
                    c,
                ),
        decreases experiments.len() - i,
    {
        let e = &experiments[i];
        let is_child = match &e.spec.lineage {
            Some(l) => match &l.parent {
                Some(p) => same(p.as_str(), parent.as_str()),
                None => false,
            },
            None => false,
        };
        let ghost before = queue.deep_view();
        if is_child {
            let name = e.metadata.name_any();
            queue.push(name);
            assert(queue.deep_view() =~= before.push(e.metadata.named()));
        }
        proof {
            let prev = experiments@.take(i as int);
            let next = experiments@.take(i + 1);
            assert(is_child == (parent_of(*e) == Some(parent@)));
            assert forall|c: Seq<char>| #[trigger]
                queue.deep_view().contains(c) <==> had.contains(c) || derives(
                    next,
                    parent@,
                    c,
                ) by {
                if derives(prev, parent@, c) {
                    let a = choose|a: int|
                        0 <= a < prev.len() && parent_of(#[trigger] prev[a]) == Some(parent@)
                            && prev[a].metadata.named() == c;
                    assert(next[a] == prev[a]);
                }
                assert(next[i as int] == *e);
                if derives(next, parent@, c) {
                    let a = choose|a: int|
                        0 <= a < next.len() && parent_of(#[trigger] next[a]) == Some(parent@)
                            && next[a].metadata.named() == c;
                    if a < i {
                        assert(prev[a] == next[a]);
                    }
                }
                if before.contains(c) {
                    let k = before.index_of(c);
                    assert(queue.deep_view()[k] == c);
                }
                if is_child && c == e.metadata.named() {
                    assert(queue.deep_view()[before.len() as int] == c);
                }
            }
        }
        i = i + 1;
    }
    assert(experiments@.take(i as int) =~= experiments@);
    assert forall|k: int| 0 <= k < queue.deep_view().len() implies had.contains(
        #[trigger] queue.deep_view()[k],
    ) || derives(experiments@, parent@, queue.deep_view()[k]) by {
        assert(queue.deep_view().contains(queue.deep_view()[k]));
    }
}

/// `root` plus every experiment transitively derived from it via `spec.lineage`.
///
/// It tracks visited names so a malformed cycle terminates instead of hanging the
/// controller. Returns just the root when nothing derives from it.
pub fn descendants_of(experiments: &[Experiment], root: &str) -> (r: TextSet)
    ensures
        forall|name: Seq<char>| #[trigger]
            r@.contains(name) <==> descends(experiments@, root@, name),
{
    let ghost exps = experiments@;
    let ghost all = universe(exps, root@);
    let mut out = TextSet::new();
    let mut queue: Vec<String> = Vec::new();
    queue.push(root.to_owned());
    proof {
        root_descends(exps, root@);
        assert(queue.deep_view() =~= seq![root@]);
        assert(queue.deep_view()[0] == root@);
        assert(all.finite());
        assert(out@.subset_of(all));
    }
    while queue.len() > 0
        invariant
            exps == experiments@,
            all == universe(exps, root@),
            all.finite(),
            out@.subset_of(all),
            out@.contains(root@) || queue.deep_view().contains(root@),
            forall|n: Seq<char>| #[trigger] out@.contains(n) ==> descends(exps, root@, n),
            forall|k: int|
                0 <= k < queue.deep_view().len() ==> descends(
                    exps,
                    root@,
                    #[trigger] queue.deep_view()[k],
                ) && all.contains(queue.deep_view()[k]),
            forall|p: Seq<char>, c: Seq<char>|
                out@.contains(p) && #[trigger] derives(exps, p, c) ==> out@.contains(c)
                    || queue.deep_view().contains(c),
        decreases all.difference(out@).len(), queue.len(),
    {
        let ghost waiting = queue.deep_view();
        let n = queue.pop().unwrap();
        let ghost rest = queue.deep_view();
        let ghost had = out@;
        proof {
            assert(waiting =~= rest.push(n@));
            assert(waiting[rest.len() as int] == n@);
            assert forall|k: int| 0 <= k < rest.len() implies descends(exps, root@, #[trigger] rest[k])
                && all.contains(rest[k]) by {
                assert(waiting[k] == rest[k]);
            }
            assert forall|c: Seq<char>| waiting.contains(c) implies #[trigger] rest.contains(c) || c
                == n@ by {
                let k = waiting.index_of(c);
                if k < rest.len() {
                    assert(rest[k] == c);
                }
            }
        }
        if out.insert(n.clone()) {
            queue_children(&mut queue, experiments, &n);
            proof {
                let now = queue.deep_view();
                assert(all.difference(out@) =~= all.difference(had).remove(n@));
                assert(all.difference(had).finite());
                assert(all.difference(had).contains(n@));
                assert forall|k: int| 0 <= k < now.len() implies descends(
                    exps,
                    root@,
                    #[trigger] now[k],
                ) && all.contains(now[k]) by {
                    if rest.contains(now[k]) {
                        let j = rest.index_of(now[k]);
                        assert(rest[j] == now[k]);
                    } else {
                        derived_descends(exps, root@, n@, now[k]);
                        lemma_derived_in_universe(exps, root@, n@, now[k]);
                    }
                }
                assert forall|p: Seq<char>, c: Seq<char>|
                    out@.contains(p) && #[trigger] derives(exps, p, c) implies out@.contains(c)
                    || now.contains(c) by {
                    if p != n@ {
                        assert(had.contains(c) || waiting.contains(c));
                        if waiting.contains(c) && c != n@ {
                            assert(rest.contains(c));
                        }
                    }
                }
            }
        } else {
            proof {
                assert(out@ =~= had);
                assert forall|p: Seq<char>, c: Seq<char>|
                    out@.contains(p) && #[trigger] derives(exps, p, c) implies out@.contains(c)
                    || rest.contains(c) by {
                    assert(had.contains(c) || waiting.contains(c));
                }
            }
        }
    }
    proof {
        assert(queue.deep_view().len() == 0);
        assert forall|name: Seq<char>| #[trigger] out@.contains(name) <==> descends(
            exps,
            root@,
            name,
        ) by {
            if descends(exps, root@, name) {
                descendants_are_the_least_closed_set(exps, root@, out@, name);
            }
        }
    }
    out
}

proof fn lemma_derived_in_universe(
    exps: Seq<Experiment>,
    root: Seq<char>,
    parent: Seq<char>,
    child: Seq<char>,
)
    requires
        derives(exps, parent, child),
    ensures
        universe(exps, root).contains(child),
{
    let names = exps.map_values(|e: Experiment| e.metadata.named());
    let i = choose|i: int|
        0 <= i < exps.len() && parent_of(#[trigger] exps[i]) == Some(parent)
            && exps[i].metadata.named() == child;
    assert(names[i] == child);
    assert(names.contains(child));
}

/// One of the names is `name`.
pub open spec fn lists(names: Seq<String>, name: Seq<char>) -> bool {
    exists|i: int| 0 <= i < names.len() && (#[trigger] names[i])@ == name
}

/// Whether one of the names is `name`.
pub fn is_listed(names: &[String], name: &str) -> (r: bool)
    ensures
        r == lists(names@, name@),
{
    let mut i: usize = 0;
    while i < names.len()
        invariant
            i <= names.len(),
            forall|k: int| 0 <= k < i ==> (#[trigger] names@[k])@ != name@,
        decreases names.len() - i,
    {
        if same(names[i].as_str(), name) {
            return true;
        }
        i = i + 1;
    }
    false
}

/// The curation keeps the experiment: it lies in the subtree that the report is about, is
/// included by name or by default, and is not excluded.
pub open spec fn keeps(exps: Seq<Experiment>, curation: Option<&Curation>, e: Experiment) -> bool {
    match curation {
        None => true,
        Some(c) => {
            let name = e.metadata.named();
            &&& c.about matches Some(a) ==> a.kind@ == "Experiment"@ ==> descends(
                exps,
                a.name@,
                name,
            )
            &&& c.included@.len() == 0 || lists(c.included@, name)
            &&& !lists(c.excluded@, name)
        },
    }
}

/// The experiments that the curation keeps, in the order in which they come.
pub open spec fn kept(exps: Seq<Experiment>, curation: Option<&Curation>) -> Seq<Experiment> {
    exps.filter(|e: Experiment| keeps(exps, curation, e))
}

/// The experiments behind the references.
pub open spec fn derefs(s: Seq<&Experiment>) -> Seq<Experiment> {
    s.map_values(|e: &Experiment| *e)
}

/// Apply a curation to the experiment list: keep `included` (or all when empty),
/// drop `excluded`, preserving input order. Returns borrowed refs so callers can
/// also compute counts. `None` = every experiment, unfiltered.
///
/// `about` narrows the document to a branch of the search tree BEFORE the
/// explicit include/exclude lists are applied, so a scientist can still
/// prune within the subtree they scoped to.
pub fn curate<'a>(experiments: &'a [Experiment], curation: Option<&Curation>) -> (r: Vec<
    &'a Experiment,
>)
    ensures
        derefs(r@) == kept(experiments@, curation),
{
    let ghost exps = experiments@;
    let subtree: Option<TextSet> = match curation {
        Some(c) => match c.about {
            Some(a) => if same(a.kind.as_str(), "Experiment") {
                Some(descendants_of(experiments, a.name.as_str()))
            } else {
                None
            },
            None => None,
        },
        None => None,
    };
    let mut out: Vec<&'a Experiment> = Vec::new();
    let ghost pred = |e: Experiment| keeps(exps, curation, e);
    let mut i: usize = 0;
    proof {
        reveal(Seq::filter);
        assert(derefs(out@) =~= exps.take(0).filter(pred));
    }
    while i < experiments.len()
        invariant
            i <= experiments.len(),
            exps == experiments@,
            pred == (|e: Experiment| keeps(exps, curation, e)),
            derefs(out@) == exps.take(i as int).filter(pred),
            subtree matches Some(sub) ==> {
                &&& curation is Some
                &&& curation->0.about is Some
                &&& curation->0.about->0.kind@ == "Experiment"@
                &&& forall|name: Seq<char>| #[trigger]
                    sub@.contains(name) <==> descends(exps, curation->0.about->0.name@, name)
            },
            subtree is None ==> curation is None || curation->0.about is None
                || curation->0.about->0.kind@ != "Experiment"@,
        decreases experiments.len() - i,
    {
        let e = &experiments[i];
        let keep = match curation {
            None => true,
            Some(c) => {
                let name = e.metadata.name_any();
                let inside = match &subtree {
                    Some(sub) => sub.contains(name.as_str()),
                    None => true,
                };
                inside && (c.included.len() == 0 || is_listed(c.included, name.as_str()))
                    && !is_listed(c.excluded, name.as_str())
            },
        };
        proof {
            assert(keep == keeps(exps, curation, *e));
            reveal(Seq::filter);
            assert(exps.take(i + 1).drop_last() =~= exps.take(i as int));
            assert(exps.take(i + 1).last() == *e);
        }
        let ghost before = derefs(out@);
        if keep {
            out.push(e);
            assert(derefs(out@) =~= before.push(*e));
        }
        i = i + 1;
    }
    assert(exps.take(i as int) =~= exps);
    out
}

/// Every experiment that a curation keeps is one of the experiments, lies in the subtree
/// that the report is about, and is not excluded.
pub proof fn kept_experiments_are_wanted(
    exps: Seq<Experiment>,
    curation: Option<&Curation>,
    e: Experiment,
)
    ensures
        kept(exps, curation).contains(e) <==> exps.contains(e) && keeps(exps, curation, e),
        kept(exps, curation).len() <= exps.len(),
        curation is None ==> kept(exps, curation) == exps,
{
    let pred = |e: Experiment| keeps(exps, curation, e);
    exps.filter_lemma(pred);
    exps.lemma_filter_len(pred);
    if curation is None {
        lemma_filter_all(exps, pred);
    }
    if exps.contains(e) && keeps(exps, curation, e) {
        let i = exps.index_of(e);
        assert(pred(exps[i]));
        assert(exps.filter(pred).contains(exps[i]));
    }
    if kept(exps, curation).contains(e) {
        let k = kept(exps, curation).index_of(e);
        assert(pred(exps.filter(pred)[k]));
        lemma_filter_selects(exps, pred, e);
    }
}

proof fn lemma_filter_selects(s: Seq<Experiment>, pred: spec_fn(Experiment) -> bool, e: Experiment)
    requires
        s.filter(pred).contains(e),
    ensures
        s.contains(e),
    decreases s.len(),
{
    reveal(Seq::filter);
    if s.len() > 0 {
        let before = s.drop_last().filter(pred);
        if before.contains(e) {
            lemma_filter_selects(s.drop_last(), pred, e);
            let k = s.drop_last().index_of(e);
            assert(s[k] == e);
        } else {
            assert(s[s.len() - 1] == e);
        }
    }
}

proof fn lemma_filter_all(s: Seq<Experiment>, pred: spec_fn(Experiment) -> bool)
    requires
        forall|e: Experiment| #[trigger] pred(e),
    ensures
        s.filter(pred) == s,
    decreases s.len(),
{
    reveal(Seq::filter);
    if s.len() > 0 {
        lemma_filter_all(s.drop_last(), pred);
        assert(pred(s.last()));
        assert(s.drop_last().push(s.last()) =~= s);
    }
}

/// What a curation is for: an experiment that is excluded is never kept; where some are included
/// no other one is kept; where the report is about one experiment only that one and what derives
/// from it are kept; and everything else is kept.
pub proof fn a_curation_prunes_and_nothing_more(
    exps: Seq<Experiment>,
    c: Curation,
    e: Experiment,
    i: int,
)
    requires
        exps.contains(e),
    ensures
        0 <= i < c.excluded@.len() && c.excluded@[i]@ == e.metadata.named() ==> !kept(
            exps,
            Some(&c),
        ).contains(e),
        c.included@.len() > 0 && (forall|k: int|
            0 <= k < c.included@.len() ==> (#[trigger] c.included@[k])@ != e.metadata.named())
            ==> !kept(exps, Some(&c)).contains(e),
        c.about matches Some(a) ==> (a.kind@ == "Experiment"@ && !descends(
            exps,
            a.name@,
            e.metadata.named(),
        ) ==> !kept(exps, Some(&c)).contains(e)),
        c.excluded@.len() == 0 && c.included@.len() == 0 && c.about is None ==> kept(
            exps,
            Some(&c),
        ).contains(e),
        c.excluded@.len() == 0 && c.about is None && 0 <= i < c.included@.len()
            && c.included@[i]@ == e.metadata.named() ==> kept(exps, Some(&c)).contains(e),
        c.excluded@.len() == 0 && c.included@.len() == 0 && (c.about matches Some(a)
            && (a.kind@ != "Experiment"@ || descends(exps, a.name@, e.metadata.named())))
            ==> kept(exps, Some(&c)).contains(e),
{
    kept_experiments_are_wanted(exps, Some(&c), e);
    if 0 <= i < c.excluded@.len() && c.excluded@[i]@ == e.metadata.named() {
        assert(lists(c.excluded@, e.metadata.named()));
    }
    if 0 <= i < c.included@.len() && c.included@[i]@ == e.metadata.named() {
        assert(lists(c.included@, e.metadata.named()));
    }
}

/// What is kept stands in the order in which it was listed: whether an experiment is kept or not,
/// those behind it follow those before it.
pub proof fn what_is_kept_stays_in_order(
    exps: Seq<Experiment>,
    curation: Option<&Curation>,
    i: int,
)
    requires
        0 <= i < exps.len(),
    ensures
        ({
            let pred = |e: Experiment| keeps(exps, curation, e);
            exps.take(i + 1).filter(pred) == if keeps(exps, curation, exps[i]) {
                exps.take(i).filter(pred).push(exps[i])
            } else {
                exps.take(i).filter(pred)
            }
        }),
        kept(exps, curation) == exps.take(exps.len() as int).filter(
            |e: Experiment| keeps(exps, curation, e),
        ),
{
    reveal(Seq::filter);
    assert(exps.take(i + 1).drop_last() =~= exps.take(i));
    assert(exps.take(exps.len() as int) =~= exps);
}

/// One experiment derives from another where its lineage names that one as its parent.
pub proof fn deriving_is_naming_the_parent(exps: Seq<Experiment>, p: Seq<char>, c: Seq<char>)
    ensures
        derives(exps, p, c) <==> exists|i: int|
            0 <= i < exps.len() && (#[trigger] exps[i]).metadata.named() == c && (
            exps[i].spec.lineage matches Some(l) && (l.parent matches Some(q) && q@ == p)),
{
    if derives(exps, p, c) {
        let i = choose|i: int|
            0 <= i < exps.len() && parent_of(#[trigger] exps[i]) == Some(p)
                && exps[i].metadata.named() == c;
        assert(exps[i].metadata.named() == c);
    }
    if exists|i: int|
        0 <= i < exps.len() && (#[trigger] exps[i]).metadata.named() == c && (
        exps[i].spec.lineage matches Some(l) && (l.parent matches Some(q) && q@ == p)) {
        let i = choose|i: int|
            0 <= i < exps.len() && (#[trigger] exps[i]).metadata.named() == c && (
            exps[i].spec.lineage matches Some(l) && (l.parent matches Some(q) && q@ == p));
        assert(parent_of(exps[i]) == Some(p));
    }
}

/// A report is curated as it says: what it includes, what it excludes, what it is about, its title,
/// its sections, its references and its hypotheses.
pub proof fn a_curation_is_of_its_report<'a>(spec: &'a ResearchReportSpec, c: Curation<'a>)
    requires
        call_ensures(Curation::from_spec, (spec,), c),
    ensures
        c.included@ == spec.included_experiments@,
        c.excluded@ == spec.excluded_experiments@,
        c.title is Some <==> spec.title is Some,
        c.title matches Some(t) ==> t@ == spec.title->0@,
        *c.sections == spec.sections,
        c.references@ == spec.references@,
        c.seeded_hypotheses@ == spec.seeded_hypotheses@,
        c.about is Some <==> spec.about is Some,
        c.about matches Some(a) ==> *a == spec.about->0,
{
}

} // verus!

//! The figure of the parameter that varies most.

use vstd::prelude::*;
use crate::dossier::curation::derefs;
use crate::dossier::escape::{tex_escape, tex_escaped};
use crate::dossier::parts::{best_objective, objective_of};
use crate::experiment::Experiment;
use crate::json::float_of;
use crate::number::Real;
use crate::order::{sorted, sorting_orders, stable_sort, Ordered};
use crate::text::{
    join, joined, lemma_shows_itself, lemma_shows_joined, lemma_shows_part, lex_asymmetric,
    lex_irreflexive, lex_lt, lex_total, occurs_at, same, shows,
};
use crate::textset::{ascending, TextSet};

verus! {

broadcast use vstd::seq_lib::group_seq_properties;

/// The parameters that tell experiments apart and are not varied for their effect.
pub open spec fn skipped(key: Seq<char>) -> bool {
    key == "experimentIteration"@ || key == "parentExperimentId"@
}

/// The number that the experiment has for the parameter.
pub open spec fn param_of(e: Experiment, key: Seq<char>) -> Option<Real> {
    if e.spec.parameters@.contains_key(key) {
        float_of(e.spec.parameters@[key])
    } else {
        None
    }
}

/// The numbers that the experiments have for the parameter, as texts.
pub open spec fn values_of(exps: Seq<Experiment>, key: Seq<char>) -> Set<Seq<char>>
    decreases exps.len(),
{
    if exps.len() == 0 {
        Set::empty()
    } else {
        let rest = values_of(exps.drop_last(), key);
        match param_of(exps.last(), key) {
            Some(v) => rest.insert(v.text@),
            None => rest,
        }
    }
}

/// No parameter has more values than `key`, which has at least two; of those with as many
/// it is the last in dictionary order.
pub open spec fn varies_most(exps: Seq<Experiment>, key: Seq<char>) -> bool {
    &&& !skipped(key)
    &&& values_of(exps, key).len() >= 2
    &&& forall|other: Seq<char>|
        !skipped(other) ==> {
            ||| (#[trigger] values_of(exps, other)).len() < values_of(exps, key).len()
            ||| values_of(exps, other).len() == values_of(exps, key).len() && !lex_lt(key, other)
        }
}

/// One point of the figure.
pub struct Point {
    /// The value of the parameter.
    pub x: Real,
    /// The best objective.
    pub y: Real,
}

impl Ordered for Point {
    open spec fn before(self, other: Self) -> bool {
        self.x.rank < other.x.rank
    }

    proof fn asymmetric(a: Self, b: Self) {
    }

    proof fn split(a: Self, b: Self, c: Self) {
    }

    fn precedes(&self, other: &Self) -> (r: bool) {
        self.x.rank < other.x.rank
    }
}

/// The points of the experiments that have both a value of the parameter and an objective.
pub open spec fn points_of(exps: Seq<Experiment>, key: Seq<char>, metric: Seq<char>) -> Seq<Point>
    decreases exps.len(),
{
    if exps.len() == 0 {
        Seq::empty()
    } else {
        let rest = points_of(exps.drop_last(), key, metric);
        match (param_of(exps.last(), key), objective_of(exps.last(), metric)) {
            (Some(x), Some(y)) => rest.push(Point { x, y }),
            _ => rest,
        }
    }
}

/// One point as a coordinate.
pub open spec fn coordinate(p: Point) -> Seq<char> {
    "("@ + p.x.text@ + ","@ + p.y.text@ + ")"@
}

/// The figure of the parameter, where there are two points or more.
pub open spec fn plot_text(exps: Seq<Experiment>, key: Seq<char>, metric: Seq<char>) -> Seq<char> {
    let points = points_of(exps, key, metric);
    if points.len() < 2 {
        Seq::empty()
    } else {
        "\\begin{figure}[h]\n\\centering\n\\begin{tikzpicture}\n\\begin{axis}[xlabel={"@
            + tex_escaped(key) + "}, ylabel={"@ + tex_escaped(metric)
            + "}, only marks, grid=major, width=0.8\\textwidth, height=6cm]\n\\addplot coordinates { "@
            + joined(sorted(points).map_values(|p: Point| coordinate(p)), " "@)
            + " };\n\\end{axis}\n\\end{tikzpicture}\n\\caption{"@ + tex_escaped(metric) + " vs "@
            + tex_escaped(key) + " across campaign trials.}\n\\end{figure}\n\n"@
    }
}

/// The figure of the parameter that varies most, where any varies.
pub open spec fn figure_text(exps: Seq<Experiment>, metric: Seq<char>) -> Seq<char> {
    if exists|key: Seq<char>| varies_most(exps, key) {
        plot_text(exps, choose|key: Seq<char>| varies_most(exps, key), metric)
    } else {
        Seq::empty()
    }
}

/// At most one parameter varies most.
pub proof fn varies_most_is_unique(exps: Seq<Experiment>, a: Seq<char>, b: Seq<char>)
    requires
        varies_most(exps, a),
        varies_most(exps, b),
    ensures
        a == b,
{
    assert(values_of(exps, a).len() == values_of(exps, b).len());
    lex_total(a, b);
}

/// The number that the experiment has for the parameter.
pub fn parameter<'a>(e: &'a Experiment, key: &str) -> (r: Option<&'a Real>)
    ensures
        r is Some == param_of(*e, key@) is Some,
        r is Some ==> *r->0 == param_of(*e, key@)->0,
{
    match e.spec.parameters.get(key) {
        Some(j) => j.as_f64(),
        None => None,
    }
}

fn values(exps: &Vec<&Experiment>, key: &str) -> (r: TextSet)
    ensures
        r@ == values_of(derefs(exps@), key@),
{
    let ghost all = derefs(exps@);
    let mut out = TextSet::new();
    let mut i: usize = 0;
    while i < exps.len()
        invariant
            i <= exps.len(),
            all == derefs(exps@),
            out@ == values_of(all.take(i as int), key@),
        decreases exps.len() - i,
    {
        assert(all.take(i + 1).drop_last() =~= all.take(i as int));
        assert(all.take(i + 1).last() == *exps@[i as int]);
        if let Some(v) = parameter(exps[i], key) {
            out.insert(v.text.clone());
        }
        i = i + 1;
    }
    assert(all.take(i as int) =~= all);
    out
}

/// The experiments have a parameter of that name.
spec fn named_in(exps: Seq<Experiment>, key: Seq<char>) -> bool {
    exists|i: int| 0 <= i < exps.len() && (#[trigger] exps[i]).spec.parameters@.contains_key(key)
}

proof fn lemma_unnamed(exps: Seq<Experiment>, key: Seq<char>)
    ensures
        !named_in(exps, key) ==> values_of(exps, key) == Set::<Seq<char>>::empty(),
        values_of(exps, key).finite(),
    decreases exps.len(),
{
    if exps.len() > 0 {
        lemma_unnamed(exps.drop_last(), key);
        if !named_in(exps, key) {
            assert(!exps[exps.len() - 1].spec.parameters@.contains_key(key));
            assert(!named_in(exps.drop_last(), key)) by {
                assert forall|i: int| 0 <= i < exps.len() - 1 implies !(
                #[trigger] exps.drop_last()[i]).spec.parameters@.contains_key(key) by {
                    assert(!exps[i].spec.parameters@.contains_key(key));
                }
            }
        }
    }
}

fn names(exps: &Vec<&Experiment>) -> (r: TextSet)
    ensures
        forall|key: Seq<char>| #[trigger]
            r@.contains(key) <==> named_in(derefs(exps@), key) && !skipped(key),
{
    let ghost all = derefs(exps@);
    let mut out = TextSet::new();
    let mut i: usize = 0;
    while i < exps.len()
        invariant
            i <= exps.len(),
            all == derefs(exps@),
            forall|key: Seq<char>| #[trigger]
                out@.contains(key) <==> named_in(all.take(i as int), key) && !skipped(key),
        decreases exps.len() - i,
    {
        let m = &exps[i].spec.parameters;
        let ghost before = out@;
        let n: usize = m.len();
        let ghost entries = m.entries();
        let mut j: usize = 0;
        while j < n
            invariant
                j <= n,
                n == entries.len(),
                entries == m.entries(),
                forall|key: Seq<char>| #[trigger]
                    out@.contains(key) <==> before.contains(key) || (!skipped(key) && exists|k: int|
                        0 <= k < j && #[trigger] entries[k].0 == key),
            decreases n - j,
        {
            let k = m.key_at(j);
            let ghost held = out@;
            if !same(k.as_str(), "experimentIteration") && !same(k.as_str(), "parentExperimentId") {
                out.insert(k.clone());
            }
            proof {
                assert forall|key: Seq<char>| #[trigger]
                    out@.contains(key) <==> before.contains(key) || (!skipped(key) && exists|k: int|
                        0 <= k < j + 1 && #[trigger] entries[k].0 == key) by {
                    assert(held.contains(key) <==> before.contains(key) || (!skipped(key)
                        && exists|k: int| 0 <= k < j && #[trigger] entries[k].0 == key));
                    assert(entries[j as int].0 == k@);
                    if !skipped(key) && exists|k: int|
                        0 <= k < j + 1 && #[trigger] entries[k].0 == key {
                        let w = choose|k: int| 0 <= k < j + 1 && #[trigger] entries[k].0 == key;
                        if w < j {
                            assert(entries[w].0 == key);
                        }
                    }
                }
            }
            j = j + 1;
        }
        proof {
            let shorter = all.take(i as int);
            let longer = all.take(i + 1);
            let last = *exps@[i as int];
            assert(longer[i as int] == last);
            assert forall|key: Seq<char>| #[trigger]
                out@.contains(key) <==> named_in(longer, key) && !skipped(key) by {
                crate::textmap::lemma_map_of_keys(entries, key);
                if named_in(longer, key) {
                    let w = choose|w: int|
                        0 <= w < longer.len()
                            && (#[trigger] longer[w]).spec.parameters@.contains_key(key);
                    if w < i {
                        assert(shorter[w].spec.parameters@.contains_key(key));
                    }
                }
                if named_in(shorter, key) {
                    let w = choose|w: int|
                        0 <= w < shorter.len()
                            && (#[trigger] shorter[w]).spec.parameters@.contains_key(key);
                    assert(longer[w].spec.parameters@.contains_key(key));
                }
                if last.spec.parameters@.contains_key(key) {
                    assert(longer[i as int].spec.parameters@.contains_key(key));
                }
            }
        }
        i = i + 1;
    }
    assert(all.take(i as int) =~= all);
    out
}

/// The parameter that varies most, where any varies.
pub fn most_varied(exps: &Vec<&Experiment>) -> (r: Option<String>)
    ensures
        r matches Some(key) ==> varies_most(derefs(exps@), key@),
        r is None ==> forall|key: Seq<char>| !varies_most(derefs(exps@), key),
{
    let ghost all = derefs(exps@);
    let keys = names(exps);
    let ghost e = keys.elements();
    let n: usize = keys.len();
    let mut best: Option<String> = None;
    let mut most: usize = 1;
    let mut i: usize = 0;
    while i < n
        invariant
            i <= n,
            n == e.len(),
            e == keys.elements(),
            ascending(e),
            all == derefs(exps@),
            most >= 1,
            best is None ==> most == 1,
            best matches Some(b) ==> most >= 2 && values_of(all, b@).len() == most && exists|k: int|
                0 <= k < i && #[trigger] e[k] == b@,
            forall|k: int|
                0 <= k < i ==> (#[trigger] values_of(all, e[k])).len() <= most && (best matches Some(
                    b,
                ) ==> values_of(all, e[k]).len() == most ==> !lex_lt(b@, e[k])),
        decreases n - i,
    {
        let key = keys.at(i);
        let count: usize = values(exps, key.as_str()).len();
        let ghost old_best = best;
        let ghost old_most = most;
        if count >= 2 && count >= most {
            best = Some(key.clone());
            most = count;
        }
        proof {
            assert(e[i as int] == key@);
            lex_irreflexive(key@);
            assert forall|k: int| 0 <= k < i + 1 implies (#[trigger] values_of(all, e[k])).len()
                <= most && (best matches Some(b) ==> values_of(all, e[k]).len() == most ==> !lex_lt(
                b@,
                e[k],
            )) by {
                if k < i {
                    assert(values_of(all, e[k]).len() <= old_most);
                    assert(lex_lt(e[k], e[i as int]));
                    lex_asymmetric(e[k], e[i as int]);
                }
            }
            if best is Some && best == old_best {
                let k = choose|k: int| 0 <= k < i && #[trigger] e[k] == best->0@;
                assert(e[k] == best->0@);
            }
        }
        i = i + 1;
    }
    proof {
        assert forall|other: Seq<char>| !skipped(other) implies {
            &&& (#[trigger] values_of(all, other)).len() <= most
            &&& best matches Some(b) ==> values_of(all, other).len() == most ==> !lex_lt(b@, other)
        } by {
            lemma_unnamed(all, other);
            if named_in(all, other) {
                assert(keys@.contains(other));
                let k = e.index_of(other);
                assert(e[k] == other);
            }
        }
        if best is Some {
            let k = choose|k: int| 0 <= k < i && #[trigger] e[k] == best->0@;
            assert(e.contains(e[k]));
            assert(keys@.contains(best->0@));
        }
    }
    best
}

fn points(exps: &Vec<&Experiment>, key: &str, metric: &str) -> (r: Vec<Point>)
    ensures
        r@ == points_of(derefs(exps@), key@, metric@),
{
    let ghost all = derefs(exps@);
    let mut out: Vec<Point> = Vec::new();
    let mut i: usize = 0;
    while i < exps.len()
        invariant
            i <= exps.len(),
            all == derefs(exps@),
            out@ == points_of(all.take(i as int), key@, metric@),
        decreases exps.len() - i,
    {
        assert(all.take(i + 1).drop_last() =~= all.take(i as int));
        assert(all.take(i + 1).last() == *exps@[i as int]);
        if let Some(x) = parameter(exps[i], key) {
            if let Some(y) = best_objective(exps[i], metric) {
                out.push(Point { x: x.clone(), y });
            }
        }
        i = i + 1;
    }
    assert(all.take(i as int) =~= all);
    out
}

fn coordinates(points: &Vec<Point>) -> (r: String)
    ensures
        r@ == joined(points@.map_values(|p: Point| coordinate(p)), " "@),
{
    let ghost all = points@.map_values(|p: Point| coordinate(p));
    let mut parts: Vec<String> = Vec::new();
    let mut i: usize = 0;
    while i < points.len()
        invariant
            i <= points.len(),
            all == points@.map_values(|p: Point| coordinate(p)),
            parts.deep_view() == all.take(i as int),
        decreases points.len() - i,
    {
        let ghost before = parts.deep_view();
        let mut s = "(".to_owned();
        s.append(points[i].x.text.as_str());
        s.append(",");
        s.append(points[i].y.text.as_str());
        s.append(")");
        parts.push(s);
        assert(all[i as int] == s@);
        assert(parts.deep_view() =~= before.push(s@));
        assert(before.push(s@) =~= all.take(i + 1));
        i = i + 1;
    }
    assert(all.take(i as int) =~= all);
    join(&parts, " ")
}

fn plot(exps: &Vec<&Experiment>, key: &str, metric: &str) -> (r: String)
    ensures
        r@ == plot_text(derefs(exps@), key@, metric@),
{
    let all = points(exps, key, metric);
    if all.len() < 2 {
        return String::new();
    }
    let coords = coordinates(&stable_sort(all));
    let mut s =
        "\\begin{figure}[h]\n\\centering\n\\begin{tikzpicture}\n\\begin{axis}[xlabel={".to_owned();
    s.append(tex_escape(key).as_str());
    s.append("}, ylabel={");
    s.append(tex_escape(metric).as_str());
    s.append(
        "}, only marks, grid=major, width=0.8\\textwidth, height=6cm]\n\\addplot coordinates { ",
    );
    s.append(coords.as_str());
    s.append(" };\n\\end{axis}\n\\end{tikzpicture}\n\\caption{");
    s.append(tex_escape(metric).as_str());
    s.append(" vs ");
    s.append(tex_escape(key).as_str());
    s.append(" across campaign trials.}\n\\end{figure}\n\n");
    s
}

/// The figure of the parameter that varies most, where any varies.
pub fn figure(exps: &Vec<&Experiment>, metric: &str) -> (r: String)
    ensures
        r@ == figure_text(derefs(exps@), metric@),
{
    match most_varied(exps) {
        Some(key) => {
            proof {
                varies_most_is_unique(
                    derefs(exps@),
                    key@,
                    choose|k: Seq<char>| varies_most(derefs(exps@), k),
                );
            }
            plot(exps, key.as_str(), metric)
        },
        None => String::new(),
    }
}

// ---------------------------------------------------------------------------
// What the figure is
// ---------------------------------------------------------------------------

/// The points of the figure are those of the experiments that have a number for the parameter
/// and a best objective, in their order: that number across, and that objective up.
pub proof fn a_point_sets_the_objective_over_the_parameter(
    exps: Seq<Experiment>,
    key: Seq<char>,
    metric: Seq<char>,
)
    ensures
        ({
            let measured = exps.filter(
                |e: Experiment| param_of(e, key) is Some && objective_of(e, metric) is Some,
            );
            let points = points_of(exps, key, metric);
            &&& points.len() == measured.len()
            &&& forall|k: int|
                0 <= k < points.len() ==> Some((#[trigger] points[k]).x) == param_of(
                    measured[k],
                    key,
                ) && Some(points[k].y) == objective_of(measured[k], metric)
        }),
    decreases exps.len(),
{
    reveal(Seq::filter);
    if exps.len() > 0 {
        a_point_sets_the_objective_over_the_parameter(exps.drop_last(), key, metric);
    }
}

/// What a parameter is in an experiment: the number that stands under its name.
pub proof fn a_parameter_is_the_number_under_its_name(e: Experiment, key: Seq<char>, v: Real)
    ensures
        param_of(e, key) == Some(v) <==> e.spec.parameters@.contains_key(key)
            && e.spec.parameters@[key] is Number && e.spec.parameters@[key]->Number_0.float == v,
{
}

proof fn lemma_values(exps: Seq<Experiment>, key: Seq<char>, t: Seq<char>)
    ensures
        values_of(exps, key).contains(t) <==> exists|i: int|
            0 <= i < exps.len() && (param_of(#[trigger] exps[i], key) matches Some(v) && v.text@
                == t),
    decreases exps.len(),
{
    if exps.len() > 0 {
        let s = exps.drop_last();
        lemma_values(s, key, t);
        if values_of(s, key).contains(t) {
            let i = choose|i: int|
                0 <= i < s.len() && (param_of(#[trigger] s[i], key) matches Some(v) && v.text@
                    == t);
            assert(exps[i] == s[i]);
        }
        if exists|i: int|
            0 <= i < exps.len() && (param_of(#[trigger] exps[i], key) matches Some(v) && v.text@
                == t) {
            let i = choose|i: int|
                0 <= i < exps.len() && (param_of(#[trigger] exps[i], key) matches Some(v) && v.text@
                    == t);
            if i < s.len() {
                assert(s[i] == exps[i]);
            }
        }
    }
}

/// The parameter of the figure is one that the experiments set to two numbers or more, none is
/// set to more, and the bookkeeping of the search is never plotted.
pub proof fn the_figure_is_of_what_varies(exps: Seq<Experiment>, key: Seq<char>, other: Seq<char>)
    requires
        varies_most(exps, key),
    ensures
        key != "experimentIteration"@,
        key != "parentExperimentId"@,
        exists|i: int, j: int|
            0 <= i < exps.len() && 0 <= j < exps.len() && (param_of(
                #[trigger] exps[i],
                key,
            ) matches Some(v) && (param_of(#[trigger] exps[j], key) matches Some(w) && v.text@
                != w.text@)),
        values_of(exps, other).len() > values_of(exps, key).len() ==> other
            == "experimentIteration"@ || other == "parentExperimentId"@,
        values_of(exps, other).len() == values_of(exps, key).len() && varies_most(exps, other)
            ==> other == key,
        forall|t: Seq<char>| #[trigger]
            values_of(exps, other).contains(t) <==> exists|i: int|
                0 <= i < exps.len() && (param_of(#[trigger] exps[i], other) matches Some(v)
                    && v.text@ == t),
{
    let all = values_of(exps, key);
    lemma_unnamed(exps, key);
    let v = all.choose();
    let w = all.remove(v).choose();
    assert(all.contains(v) && all.remove(v).contains(w)) by {
        assert(all.remove(v).len() >= 1);
        vstd::set_lib::lemma_set_empty_equivalency_len(all);
        vstd::set_lib::lemma_set_empty_equivalency_len(all.remove(v));
    }
    lemma_values(exps, key, v);
    lemma_values(exps, key, w);
    let i = choose|i: int|
        0 <= i < exps.len() && (param_of(#[trigger] exps[i], key) matches Some(x) && x.text@ == v);
    let j = choose|j: int|
        0 <= j < exps.len() && (param_of(#[trigger] exps[j], key) matches Some(x) && x.text@ == w);
    assert(param_of(exps[i], key) is Some && param_of(exps[j], key) is Some);
    assert forall|t: Seq<char>| #[trigger]
        values_of(exps, other).contains(t) <==> exists|i: int|
            0 <= i < exps.len() && (param_of(#[trigger] exps[i], other) matches Some(v) && v.text@
                == t) by {
        lemma_values(exps, other, t);
    }
    if varies_most(exps, other) {
        varies_most_is_unique(exps, key, other);
    }
}

/// The figure shows every measured experiment: where two or more have both numbers, each of them
/// stands in it as its parameter and its objective, and the axes are named after the two.
pub proof fn the_figure_shows_every_measurement(
    exps: Seq<Experiment>,
    key: Seq<char>,
    metric: Seq<char>,
    i: int,
)
    requires
        0 <= i < exps.len(),
        param_of(exps[i], key) is Some,
        objective_of(exps[i], metric) is Some,
        points_of(exps, key, metric).len() >= 2,
    ensures
        shows(
            plot_text(exps, key, metric),
            "("@ + param_of(exps[i], key)->0.text@ + ","@ + objective_of(exps[i], metric)->0.text@
                + ")"@,
        ),
        shows(plot_text(exps, key, metric), "xlabel={"@ + tex_escaped(key) + "}"@),
        shows(plot_text(exps, key, metric), "ylabel={"@ + tex_escaped(metric) + "}"@),
        shows(
            plot_text(exps, key, metric),
            "\\caption{"@ + tex_escaped(metric) + " vs "@ + tex_escaped(key) + " across"@,
        ),
{
    let points = points_of(exps, key, metric);
    let p = Point { x: param_of(exps[i], key)->0, y: objective_of(exps[i], metric)->0 };
    lemma_points_hold(exps, key, metric, i);
    sorting_orders(points);
    let s = sorted(points);
    assert(s.contains(p)) by {
        broadcast use vstd::seq_lib::group_to_multiset_ensures;

        assert(points.to_multiset().count(p) > 0);
        assert(s.to_multiset().count(p) > 0);
    }
    let k = s.index_of(p);
    let parts = s.map_values(|p: Point| coordinate(p));
    assert(parts[k] == coordinate(p));
    lemma_shows_itself(coordinate(p));
    lemma_shows_joined(parts, " "@, k, coordinate(p));
    let head =
        "\\begin{figure}[h]\n\\centering\n\\begin{tikzpicture}\n\\begin{axis}[xlabel={"@;
    let mid = "}, ylabel={"@;
    let more =
        "}, only marks, grid=major, width=0.8\\textwidth, height=6cm]\n\\addplot coordinates { "@;
    let close = " };\n\\end{axis}\n\\end{tikzpicture}\n\\caption{"@;
    let tail = " across campaign trials.}\n\\end{figure}\n\n"@;
    let j = joined(parts, " "@);
    let k1 = tex_escaped(key);
    let m1 = tex_escaped(metric);
    let whole = plot_text(exps, key, metric);
    assert(whole == head + k1 + mid + m1 + more + j + close + m1 + " vs "@ + k1 + tail);
    let rest1 = close + m1 + " vs "@ + k1 + tail;
    assert(whole =~= (head + k1 + mid + m1 + more) + j + rest1);
    lemma_shows_part(head + k1 + mid + m1 + more, j, rest1, coordinate(p));
    assert(shows(whole, "xlabel={"@ + k1 + "}"@)) by {
        let piece = "xlabel={"@ + k1 + "}"@;
        reveal_strlit("\\begin{figure}[h]\n\\centering\n\\begin{tikzpicture}\n\\begin{axis}[xlabel={");
        reveal_strlit("xlabel={");
        reveal_strlit("}, ylabel={");
        reveal_strlit("}");
        let n = head.len() - "xlabel={"@.len();
        let rest = m1 + more + j + close + m1 + " vs "@ + k1 + tail;
        assert(whole =~= head + k1 + mid + rest);
        assert(whole.subrange(n, n + piece.len()) =~= piece);
        assert(occurs_at(whole, piece, n));
    }
    assert(shows(whole, "ylabel={"@ + m1 + "}"@)) by {
        let piece = "ylabel={"@ + m1 + "}"@;
        reveal_strlit("}, ylabel={");
        reveal_strlit("ylabel={");
        reveal_strlit("}");
        reveal_strlit("}, only marks, grid=major, width=0.8\\textwidth, height=6cm]\n\\addplot coordinates { ");
        let front = head + k1;
        let rest = j + close + m1 + " vs "@ + k1 + tail;
        let n = front.len() as int + 3;
        assert(whole =~= front + mid + m1 + more + rest);
        assert(whole.subrange(n, n + piece.len()) =~= piece);
        assert(occurs_at(whole, piece, n));
    }
    assert(shows(whole, "\\caption{"@ + m1 + " vs "@ + k1 + " across"@)) by {
        let piece = "\\caption{"@ + m1 + " vs "@ + k1 + " across"@;
        reveal_strlit(" };\n\\end{axis}\n\\end{tikzpicture}\n\\caption{");
        reveal_strlit("\\caption{");
        reveal_strlit(" across");
        reveal_strlit(" across campaign trials.}\n\\end{figure}\n\n");
        let front = head + k1 + mid + m1 + more + j;
        let n = front.len() + close.len() - "\\caption{"@.len();
        assert(whole =~= front + (close + m1 + " vs "@ + k1 + tail));
        let back = close + m1 + " vs "@ + k1 + tail;
        let b = close.len() - "\\caption{"@.len();
        assert(back.subrange(b, b + piece.len()) =~= piece);
        assert(whole.subrange(n, n + piece.len()) =~= back.subrange(b, b + piece.len()));
        assert(occurs_at(whole, piece, n));
    }
}

proof fn lemma_points_hold(exps: Seq<Experiment>, key: Seq<char>, metric: Seq<char>, i: int)
    requires
        0 <= i < exps.len(),
        param_of(exps[i], key) is Some,
        objective_of(exps[i], metric) is Some,
    ensures
        points_of(exps, key, metric).contains(
            (Point { x: param_of(exps[i], key)->0, y: objective_of(exps[i], metric)->0 }),
        ),
    decreases exps.len(),
{
    let p = Point { x: param_of(exps[i], key)->0, y: objective_of(exps[i], metric)->0 };
    let all = points_of(exps, key, metric);
    if i < exps.len() - 1 {
        let t = exps.drop_last();
        assert(t[i] == exps[i]);
        lemma_points_hold(t, key, metric, i);
        let k = points_of(t, key, metric).index_of(p);
        assert(all[k] == p);
    } else {
        assert(all[all.len() - 1] == p);
    }
}

/// The points of the figure run from the left to the right.
pub proof fn the_figure_runs_to_the_right(
    exps: Seq<Experiment>,
    key: Seq<char>,
    metric: Seq<char>,
    i: int,
    j: int,
)
    requires
        0 <= i < j < sorted(points_of(exps, key, metric)).len(),
    ensures
        sorted(points_of(exps, key, metric))[i].x.rank <= sorted(
            points_of(exps, key, metric),
        )[j].x.rank,
{
    sorting_orders(points_of(exps, key, metric));
}

} // verus!

//! What both forms of the dossier say of a resource.

use vstd::prelude::*;
use crate::benchmark_run::BenchmarkRun;
use crate::dossier::curation::{derefs, Curation};
use crate::experiment::{Experiment, ExperimentArtifacts, ExperimentCondition, ExperimentCost};
use crate::json::{float_of, written, Json};
use crate::number::Real;
use crate::numeral::{signed, signed_of};
use crate::text::{join, joined, less, lex_irreflexive, lex_lt, lex_total, lex_transitive};
use crate::textmap::TextMap;

verus! {

broadcast use vstd::seq_lib::group_seq_properties;

/// The texts that `f` gives for the elements of `s`, one after another.
pub open spec fn rows<T>(s: Seq<T>, f: spec_fn(T) -> Seq<char>) -> Seq<char>
    decreases s.len(),
{
    if s.len() == 0 {
        Seq::empty()
    } else {
        rows(s.drop_last(), f) + f(s.last())
    }
}

/// The text, or `d` where there is none.
pub open spec fn text_or(o: Option<String>, d: Seq<char>) -> Seq<char> {
    match o {
        Some(s) => s@,
        None => d,
    }
}

/// The text, or `d` where there is none.
pub fn or_text<'a>(o: &'a Option<String>, d: &'a str) -> (r: &'a str)
    ensures
        r@ == text_or(*o, d@),
{
    match o {
        Some(s) => s.as_str(),
        None => d,
    }
}

/// The text, or an empty one where there is none.
pub fn or_empty(o: &Option<String>) -> (r: String)
    ensures
        r@ == text_or(*o, Seq::empty()),
{
    match o {
        Some(s) => s.clone(),
        None => String::new(),
    }
}

/// There is a text, and it is not empty.
pub open spec fn is_filled(o: Option<String>) -> bool {
    o matches Some(s) && s@.len() > 0
}

/// Whether there is a text that is not empty.
pub fn filled(o: &Option<String>) -> (r: bool)
    ensures
        r == is_filled(*o),
{
    match o {
        Some(s) => !s.as_str().is_empty(),
        None => false,
    }
}

/// The title of the dossier: the curation's, or one made of the campaign's name.
pub open spec fn title_of(curation: Option<&Curation>, campaign_name: Seq<char>) -> Seq<char> {
    match curation {
        Some(c) => match c.title {
            Some(t) => t@,
            None => "Research Dossier: "@ + campaign_name,
        },
        None => "Research Dossier: "@ + campaign_name,
    }
}

/// The title of the dossier: the curation's, or one made of the campaign's name.
pub fn dossier_title(curation: Option<&Curation>, campaign_name: &str) -> (r: String)
    ensures
        r@ == title_of(curation, campaign_name@),
{
    let given: Option<&str> = match curation {
        Some(c) => c.title,
        None => None,
    };
    match given {
        Some(t) => t.to_owned(),
        None => {
            let mut s = "Research Dossier: ".to_owned();
            s.append(campaign_name);
            s
        },
    }
}

// ---------------------------------------------------------------------------
// Experiments
// ---------------------------------------------------------------------------

/// One parameter as `key=value`.
pub open spec fn param_text(entry: (Seq<char>, Json)) -> Seq<char> {
    entry.0 + "="@ + written(entry.1)
}

/// The parameters of an experiment, in dictionary order of their names.
pub open spec fn params_text(e: Experiment) -> Seq<char> {
    joined(
        e.spec.parameters.entries().map_values(|entry: (Seq<char>, Json)| param_text(entry)),
        ", "@,
    )
}

/// The parameters of an experiment as `key=value`, in dictionary order of their names.
pub fn params_str(exp: &Experiment) -> (r: String)
    ensures
        r@ == params_text(*exp),
{
    let m = &exp.spec.parameters;
    let ghost all = m.entries().map_values(|entry: (Seq<char>, Json)| param_text(entry));
    let n: usize = m.len();
    let mut parts: Vec<String> = Vec::new();
    let mut i: usize = 0;
    while i < n
        invariant
            i <= n,
            n == m.entries().len(),
            all == m.entries().map_values(|entry: (Seq<char>, Json)| param_text(entry)),
            parts.deep_view() == all.take(i as int),
        decreases n - i,
    {
        let ghost before = parts.deep_view();
        let mut text = m.key_at(i).clone();
        text.append("=");
        text.append(m.value_at(i).to_text().as_str());
        parts.push(text);
        assert(all[i as int] == text@);
        assert(parts.deep_view() =~= before.push(text@));
        assert(before.push(text@) =~= all.take(i + 1));
        i = i + 1;
    }
    assert(all.take(i as int) =~= all);
    join(&parts, ", ")
}

/// The decision on an experiment, or a dash.
pub open spec fn decision_text(e: Experiment) -> Seq<char> {
    match e.status {
        Some(s) => match s.decision {
            Some(d) => d.named(),
            None => "—"@,
        },
        None => "—"@,
    }
}

/// The decision on an experiment, or a dash.
pub fn decision_str(exp: &Experiment) -> (r: &'static str)
    ensures
        r@ == decision_text(*exp),
{
    match &exp.status {
        Some(s) => match &s.decision {
            Some(d) => d.label(),
            None => "—",
        },
        None => "—",
    }
}

/// The phase of an experiment, or a dash.
pub open spec fn phase_text(e: Experiment) -> Seq<char> {
    match e.status {
        Some(s) => s.phase.named(),
        None => "—"@,
    }
}

/// The phase of an experiment, or a dash.
pub fn phase_str(exp: &Experiment) -> (r: &'static str)
    ensures
        r@ == phase_text(*exp),
{
    match &exp.status {
        Some(s) => s.phase.label(),
        None => "—",
    }
}

/// The number among the metrics under the name `metric`.
pub open spec fn metric_of(metrics: TextMap<Json>, metric: Seq<char>) -> Option<Real> {
    if metrics@.contains_key(metric) {
        float_of(metrics@[metric])
    } else {
        None
    }
}

/// Best objective for an experiment: the scalar `metrics_detail.best` where it is a number,
/// else the metric of the objective's name.
pub open spec fn objective_of(e: Experiment, metric: Seq<char>) -> Option<Real> {
    match e.status {
        Some(s) => {
            let scalar = match s.metrics_detail {
                Some(m) => match m.best {
                    Some(j) => float_of(j),
                    None => None,
                },
                None => None,
            };
            if scalar is Some {
                scalar
            } else {
                metric_of(s.metrics, metric)
            }
        },
        None => None,
    }
}

/// Best objective for an experiment: prefer the scalar `metrics_detail.best`,
/// fall back to `metrics[<objective>]`.
pub fn best_objective(exp: &Experiment, obj_metric: &str) -> (r: Option<Real>)
    ensures
        r == objective_of(*exp, obj_metric@),
{
    match &exp.status {
        Some(s) => {
            let scalar: Option<&Real> = match &s.metrics_detail {
                Some(m) => match &m.best {
                    Some(j) => j.as_f64(),
                    None => None,
                },
                None => None,
            };
            let found: Option<&Real> = match scalar {
                Some(x) => Some(x),
                None => match s.metrics.get(obj_metric) {
                    Some(j) => j.as_f64(),
                    None => None,
                },
            };
            match found {
                Some(x) => Some(x.clone()),
                None => None,
            }
        },
        None => None,
    }
}

/// The names in square brackets behind `label`.
pub open spec fn bracketed(label: Seq<char>, names: Option<Vec<String>>) -> Seq<Seq<char>> {
    match names {
        Some(v) => if v@.len() == 0 {
            Seq::empty()
        } else {
            seq![label + joined(v.deep_view(), ","@) + "]"@]
        },
        None => Seq::empty(),
    }
}

/// Where an experiment ran, or `missing`.
pub open spec fn environment_text(e: Experiment, missing: Seq<char>) -> Seq<char> {
    match e.status {
        Some(s) => match s.environment {
            Some(env) => {
                let parts = bracketed("nodes=["@, env.node_names) + bracketed(
                    "pods=["@,
                    env.pod_names,
                );
                if parts.len() == 0 {
                    missing
                } else {
                    joined(parts, ", "@)
                }
            },
            None => missing,
        },
        None => missing,
    }
}

fn push_bracketed(parts: &mut Vec<String>, label: &str, names: &Option<Vec<String>>)
    ensures
        final(parts).deep_view() == old(parts).deep_view() + bracketed(label@, *names),
{
    let ghost before = parts.deep_view();
    match names {
        Some(v) => {
            if v.len() > 0 {
                let mut text = label.to_owned();
                text.append(join(v, ",").as_str());
                text.append("]");
                parts.push(text);
                assert(parts.deep_view() =~= before.push(text@));
            }
        },
        None => {},
    }
    assert(parts.deep_view() =~= before + bracketed(label@, *names));
}

/// Where an experiment ran, or `missing`.
pub fn environment_str(exp: &Experiment, missing: &str) -> (r: String)
    ensures
        r@ == environment_text(*exp, missing@),
{
    match &exp.status {
        Some(s) => match &s.environment {
            Some(env) => {
                let mut parts: Vec<String> = Vec::new();
                assert(parts.deep_view() =~= Seq::empty());
                push_bracketed(&mut parts, "nodes=[", &env.node_names);
                push_bracketed(&mut parts, "pods=[", &env.pod_names);
                assert(parts.deep_view() =~= bracketed("nodes=["@, env.node_names) + bracketed(
                    "pods=["@,
                    env.pod_names,
                ));
                if parts.len() == 0 {
                    missing.to_owned()
                } else {
                    join(&parts, ", ")
                }
            },
            None => missing.to_owned(),
        },
        None => missing.to_owned(),
    }
}

/// What an experiment cost, item by item.
pub open spec fn cost_parts(c: ExperimentCost) -> Seq<Seq<char>> {
    (match c.gpu_hours {
        Some(h) => seq!["gpu_hours="@ + h.fixed2@],
        None => Seq::empty(),
    }) + (match c.runtime_seconds {
        Some(t) => seq!["runtime_seconds="@ + signed(t as int)],
        None => Seq::empty(),
    })
}

/// What an experiment cost, or `missing`.
pub open spec fn cost_text(e: Experiment, missing: Seq<char>) -> Seq<char> {
    match e.status {
        Some(s) => match s.cost {
            Some(c) => if cost_parts(c).len() == 0 {
                missing
            } else {
                joined(cost_parts(c), ", "@)
            },
            None => missing,
        },
        None => missing,
    }
}

/// What an experiment cost, or `missing`.
pub fn cost_str(exp: &Experiment, missing: &str) -> (r: String)
    ensures
        r@ == cost_text(*exp, missing@),
{
    match &exp.status {
        Some(s) => match &s.cost {
            Some(c) => {
                let mut parts: Vec<String> = Vec::new();
                match &c.gpu_hours {
                    Some(h) => {
                        let mut text = "gpu_hours=".to_owned();
                        text.append(h.fixed2.as_str());
                        parts.push(text);
                    },
                    None => {},
                }
                let ghost before = parts.deep_view();
                match c.runtime_seconds {
                    Some(t) => {
                        let mut text = "runtime_seconds=".to_owned();
                        text.append(signed_of(t).as_str());
                        parts.push(text);
                        assert(parts.deep_view() =~= before.push(text@));
                    },
                    None => {},
                }
                assert(parts.deep_view() =~= cost_parts(*c));
                if parts.len() == 0 {
                    missing.to_owned()
                } else {
                    join(&parts, ", ")
                }
            },
            None => missing.to_owned(),
        },
        None => missing.to_owned(),
    }
}

/// The artifacts of an experiment, if it has any.
pub open spec fn artifacts_of(e: Experiment) -> Option<ExperimentArtifacts> {
    match e.status {
        Some(s) => s.artifacts,
        None => None,
    }
}

/// The artifacts of an experiment, if it has any.
pub fn artifacts(exp: &Experiment) -> (r: Option<&ExperimentArtifacts>)
    ensures
        r is Some <==> artifacts_of(*exp) is Some,
        r matches Some(a) ==> artifacts_of(*exp) == Some(*a),
{
    match &exp.status {
        Some(s) => match &s.artifacts {
            Some(a) => Some(a),
            None => None,
        },
        None => None,
    }
}

/// Where the provenance of an experiment lies, or `missing`.
pub open spec fn provenance_text(e: Experiment, missing: Seq<char>) -> Seq<char> {
    match artifacts_of(e) {
        Some(a) => text_or(a.provenance_uri, missing),
        None => missing,
    }
}

/// Where the provenance of an experiment lies, or `missing`.
pub fn provenance_str<'a>(exp: &'a Experiment, missing: &'a str) -> (r: &'a str)
    ensures
        r@ == provenance_text(*exp, missing@),
{
    match artifacts(exp) {
        Some(a) => or_text(&a.provenance_uri, missing),
        None => missing,
    }
}

// ---------------------------------------------------------------------------
// Benchmark runs
// ---------------------------------------------------------------------------

/// The phase of a benchmark run, or a dash.
pub open spec fn run_phase_text(run: BenchmarkRun) -> Seq<char> {
    match run.status {
        Some(s) => s.phase.named(),
        None => "—"@,
    }
}

/// The phase of a benchmark run, or a dash.
pub fn run_phase_str(run: &BenchmarkRun) -> (r: &'static str)
    ensures
        r@ == run_phase_text(*run),
{
    match &run.status {
        Some(s) => s.phase.label(),
        None => "—",
    }
}

/// The runs behind the references.
pub open spec fn unref(runs: Seq<&BenchmarkRun>) -> Seq<BenchmarkRun> {
    runs.map_values(|r: &BenchmarkRun| *r)
}

/// The runs of each experiment.
pub open spec fn groups(m: Map<Seq<char>, Vec<&BenchmarkRun>>) -> Map<
    Seq<char>,
    Seq<BenchmarkRun>,
> {
    m.map_values(|v: Vec<&BenchmarkRun>| unref(v@))
}

/// Where the report of the last of the runs lies, or a dash.
pub open spec fn report_text(
    runs: Map<Seq<char>, Seq<BenchmarkRun>>,
    name: Seq<char>,
) -> Seq<char> {
    if runs.contains_key(name) && runs[name].len() > 0 {
        match runs[name].last().status {
            Some(s) => text_or(s.report_uri, "—"@),
            None => "—"@,
        }
    } else {
        "—"@
    }
}

/// Where the report of the last run of the experiment lies, or a dash.
pub fn report_str<'a>(runs: &'a TextMap<Vec<&'a BenchmarkRun>>, name: &str) -> (r: &'a str)
    ensures
        r@ == report_text(groups(runs@), name@),
{
    match runs.get(name) {
        Some(v) => {
            if v.len() == 0 {
                return "—";
            }
            match &v[v.len() - 1].status {
                Some(s) => or_text(&s.report_uri, "—"),
                None => "—",
            }
        },
        None => "—",
    }
}

// ---------------------------------------------------------------------------
// Data cutoff
// ---------------------------------------------------------------------------

/// The later of two times, as texts in dictionary order.
pub open spec fn later(a: Option<Seq<char>>, b: Option<Seq<char>>) -> Option<Seq<char>> {
    match (a, b) {
        (None, _) => b,
        (_, None) => a,
        (Some(x), Some(y)) => if lex_lt(x, y) {
            b
        } else {
            a
        },
    }
}

/// The latest transition of the conditions.
pub open spec fn latest_transition(cs: Seq<ExperimentCondition>) -> Option<Seq<char>>
    decreases cs.len(),
{
    if cs.len() == 0 {
        None
    } else {
        later(latest_transition(cs.drop_last()), cs.last().last_transition_time.deep_view())
    }
}

/// The experiment has come to its end, well or not.
pub open spec fn completed(e: Experiment) -> bool {
    e.status matches Some(s) && s.phase.is_final()
}

/// When the experiment completed: the latest transition of its conditions.
pub open spec fn completed_at(e: Experiment) -> Option<Seq<char>> {
    if completed(e) {
        match e.status->0.conditions {
            Some(cs) => latest_transition(cs@),
            None => None,
        }
    } else {
        None
    }
}

/// When the last of the experiments completed.
pub open spec fn cutoff_of(exps: Seq<Experiment>) -> Option<Seq<char>>
    decreases exps.len(),
{
    if exps.len() == 0 {
        None
    } else {
        later(cutoff_of(exps.drop_last()), completed_at(exps.last()))
    }
}

fn keep_later(a: Option<String>, b: &Option<String>) -> (r: Option<String>)
    ensures
        r.deep_view() == later(a.deep_view(), b.deep_view()),
{
    match (a, b) {
        (None, Some(y)) => Some(y.clone()),
        (None, None) => None,
        (Some(x), None) => Some(x),
        (Some(x), Some(y)) => if less(x.as_str(), y.as_str()) {
            Some(y.clone())
        } else {
            Some(x)
        },
    }
}

fn completion(exp: &Experiment) -> (r: Option<String>)
    ensures
        r.deep_view() == completed_at(*exp),
{
    let mut best: Option<String> = None;
    match &exp.status {
        Some(s) => if s.phase.ended() {
            if let Some(cs) = &s.conditions {
                let mut i: usize = 0;
                while i < cs.len()
                    invariant
                        i <= cs.len(),
                        best.deep_view() == latest_transition(cs@.take(i as int)),
                    decreases cs.len() - i,
                {
                    assert(cs@.take(i + 1).drop_last() =~= cs@.take(i as int));
                    best = keep_later(best, &cs[i].last_transition_time);
                    i = i + 1;
                }
                assert(cs@.take(i as int) =~= cs@);
            }
        },
        None => {},
    }
    best
}

/// Latest experiment completion time, used as the document's data cutoff.
///
/// Deliberately data-derived rather than `now()`: the dossier must stay a pure function of
/// its inputs so the reconciler's content-diff works. Returns None when nothing has completed.
pub fn data_cutoff(exps: &[&Experiment]) -> (r: Option<String>)
    ensures
        r.deep_view() == cutoff_of(derefs(exps@)),
{
    let ghost all = derefs(exps@);
    let mut best: Option<String> = None;
    let mut i: usize = 0;
    while i < exps.len()
        invariant
            i <= exps.len(),
            all == derefs(exps@),
            best.deep_view() == cutoff_of(all.take(i as int)),
        decreases exps.len() - i,
    {
        assert(all.take(i + 1).drop_last() =~= all.take(i as int));
        assert(all.take(i + 1).last() == *exps@[i as int]);
        let at = completion(exps[i]);
        best = keep_later(best, &at);
        i = i + 1;
    }
    assert(all.take(i as int) =~= all);
    best
}

/// No experiment completed later than the cutoff, and one completed just then; with no
/// completed experiment there is no cutoff.
pub proof fn cutoff_is_the_latest(exps: Seq<Experiment>, i: int)
    requires
        0 <= i < exps.len(),
    ensures
        (forall|k: int| 0 <= k < exps.len() ==> !completed(#[trigger] exps[k])) ==> cutoff_of(exps)
            is None,
        completed_at(exps[i]) matches Some(t) ==> {
            &&& cutoff_of(exps) is Some
            &&& !lex_lt(cutoff_of(exps)->0, t)
        },
        cutoff_of(exps) matches Some(t) ==> exists|k: int|
            0 <= k < exps.len() && completed_at(#[trigger] exps[k]) == Some(t),
    decreases exps.len(),
{
    let rest = exps.drop_last();
    let before = cutoff_of(rest);
    let here = completed_at(exps.last());
    assert(exps[exps.len() - 1] == exps.last());
    if let Some(t) = completed_at(exps[i]) {
        if i < rest.len() {
            cutoff_is_the_latest(rest, i);
            assert(rest[i] == exps[i]);
            if let Some(h) = here {
                if lex_lt(before->0, h) && lex_lt(h, t) {
                    lex_transitive(before->0, h, t);
                }
            }
        } else {
            lex_irreflexive(t);
            if let Some(b) = before {
                if !lex_lt(b, t) {
                    lex_total(b, t);
                }
            }
        }
    }
    if let Some(t) = cutoff_of(exps) {
        if here == Some(t) {
            assert(completed_at(exps[exps.len() - 1]) == Some(t));
        } else {
            assert(rest.len() > 0);
            cutoff_is_the_latest(rest, 0);
            let k = choose|k: int| 0 <= k < rest.len() && completed_at(#[trigger] rest[k]) == Some(t);
            assert(exps[k] == rest[k]);
        }
    }
}

/// An experiment is completed once it succeeded, failed or broke, at the latest of the times that
/// its conditions changed.
pub proof fn completion_is_the_last_change(
    e: Experiment,
    cs: Seq<ExperimentCondition>,
    i: int,
)
    requires
        e.status is Some,
        e.status->0.conditions is Some,
        e.status->0.conditions->0@ == cs,
        0 <= i < cs.len(),
    ensures
        !(e.status->0.phase is Succeeded || e.status->0.phase is Failed
            || e.status->0.phase is Error) ==> completed_at(e) is None,
        (e.status->0.phase is Succeeded || e.status->0.phase is Failed
            || e.status->0.phase is Error) && cs[i].last_transition_time is Some ==> completed_at(
            e,
        ) is Some && !lex_lt(completed_at(e)->0, cs[i].last_transition_time->0@),
        completed_at(e) matches Some(t) ==> exists|k: int|
            0 <= k < cs.len() && (#[trigger] cs[k]).last_transition_time is Some
                && cs[k].last_transition_time->0@ == t,
{
    lemma_latest_transition(cs, i);
}

proof fn lemma_latest_transition(cs: Seq<ExperimentCondition>, i: int)
    ensures
        0 <= i < cs.len() && cs[i].last_transition_time is Some ==> latest_transition(cs) is Some
            && !lex_lt(latest_transition(cs)->0, cs[i].last_transition_time->0@),
        latest_transition(cs) matches Some(t) ==> exists|k: int|
            0 <= k < cs.len() && (#[trigger] cs[k]).last_transition_time is Some
                && cs[k].last_transition_time->0@ == t,
    decreases cs.len(),
{
    if cs.len() > 0 {
        let rest = cs.drop_last();
        lemma_latest_transition(rest, i);
        let before = latest_transition(rest);
        let here = cs.last().last_transition_time.deep_view();
        assert(cs[cs.len() - 1] == cs.last());
        if 0 <= i < cs.len() && cs[i].last_transition_time is Some {
            let t = cs[i].last_transition_time->0@;
            if i < rest.len() {
                assert(rest[i] == cs[i]);
                if let Some(h) = here {
                    if lex_lt(before->0, h) && lex_lt(h, t) {
                        lex_transitive(before->0, h, t);
                    }
                }
            } else {
                lex_irreflexive(t);
            }
        }
        if let Some(t) = latest_transition(cs) {
            if here == Some(t) {
                assert(cs[cs.len() - 1].last_transition_time->0@ == t);
            } else {
                let k = choose|k: int|
                    0 <= k < rest.len() && (#[trigger] rest[k]).last_transition_time is Some
                        && rest[k].last_transition_time->0@ == t;
                assert(cs[k] == rest[k]);
            }
        }
    }
}

/// The report of an experiment is that of its last run.
pub proof fn the_last_run_reports(runs: Map<Seq<char>, Seq<BenchmarkRun>>, name: Seq<char>)
    ensures
        runs.contains_key(name) && runs[name].len() > 0 && runs[name].last().status is Some
            && runs[name].last().status->0.report_uri is Some ==> report_text(runs, name)
            == runs[name].last().status->0.report_uri->0@,
        !(runs.contains_key(name) && runs[name].len() > 0 && runs[name].last().status is Some
            && runs[name].last().status->0.report_uri is Some) ==> report_text(runs, name) == seq![
            '\u{2014}',
        ],
{
    reveal_strlit("—");
    assert("—"@ =~= seq!['\u{2014}']);
}

} // verus!

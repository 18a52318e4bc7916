//! What the two documents show: which fact of the inputs stands where.

use vstd::prelude::*;
use crate::benchmark_run::{BenchmarkRun, GateResult};
use crate::common::MetricAggregate;
use crate::dossier::escape::{md_escaped, tex_escaped};
use crate::dossier::latex::{
    aggregate_table_tex, aggregate_tex, artifact_index_tex, artifact_tex, benchmark_tex,
    benchmarks_tex, campaign_results_tex, experiment_table_tex, experiment_tex, experiments_tex,
    gate_table_tex, gate_tex, journal_item, metric_glossary_tex, metric_tex, parameter_glossary_tex,
    parameter_tex, repro_item, run_tex,
};
use crate::dossier::markdown::{
    aggregate_row, aggregate_table, artifact_row, artifact_section, benchmark_text, benchmarks_text,
    campaign_results, count_text, dashboard_metrics, experiment_row_text, experiment_rows,
    experiments_section, fixed4_or, gate_row, gate_table, journal_line, metric_glossary, metric_row,
    parameter_glossary, parameter_row, repro_line, run_text,
};
use crate::dossier::parts::{
    artifacts_of, bracketed, cost_parts, cost_text, decision_text, environment_text, objective_of,
    param_text, params_text, phase_text, provenance_text, report_text, rows, run_phase_text,
    text_or,
};
use crate::experiment::Experiment;
use crate::experiment_template::{DashboardMetric, ExperimentTemplate, ParameterSpec};
use crate::json::{written, Json};
use crate::number::{fixed4_or_dash, Real};
use crate::numeral::{decimal, signed};
use crate::research_campaign::ResearchCampaign;
use crate::text::{
    joined, lemma_shows_back, lemma_shows_front, lemma_shows_itself, lemma_shows_joined,
    lemma_shows_part, occurs_at, shows,
};

verus! {

// ---------------------------------------------------------------------------
// Rows of tables
// ---------------------------------------------------------------------------

/// The cells behind `open`, parted by `sep`.
pub open spec fn strung(open: Seq<char>, cells: Seq<Seq<char>>, sep: Seq<char>) -> Seq<char>
    decreases cells.len(),
{
    if cells.len() == 0 {
        open
    } else if cells.len() == 1 {
        open + cells[0]
    } else {
        strung(open, cells.drop_last(), sep) + sep + cells.last()
    }
}

/// A row of a Markdown table.
pub open spec fn md_row(cells: Seq<Seq<char>>) -> Seq<char> {
    strung("| "@, cells, " | "@) + " |\n"@
}

/// A row of a LaTeX table.
pub open spec fn tex_row(cells: Seq<Seq<char>>) -> Seq<char> {
    strung("  "@, cells, " & "@) + " \\\\\n"@
}

/// A text in the typewriter face.
pub open spec fn typed(s: Seq<char>) -> Seq<char> {
    "\\texttt{"@ + s + "}"@
}

/// A text as code.
pub open spec fn ticked(s: Seq<char>) -> Seq<char> {
    "`"@ + s + "`"@
}

/// What a cell says of a number: four digits behind the point, or a dash.
pub open spec fn is_cell_of(x: Option<Real>, cell: Seq<char>) -> bool {
    match x {
        Some(v) => cell == v.fixed4@,
        None => cell == "—"@,
    }
}

broadcast proof fn lemma_strung_push(
    open: Seq<char>,
    cells: Seq<Seq<char>>,
    x: Seq<char>,
    sep: Seq<char>,
)
    ensures
        #[trigger] strung(open, cells.push(x), sep) == if cells.len() == 0 {
            open + x
        } else {
            strung(open, cells, sep) + sep + x
        },
{
    assert(cells.push(x).drop_last() =~= cells);
    if cells.len() == 0 {
        assert(cells.push(x)[0] == x);
    }
}

/// A piece between two others is shown.
proof fn lemma_shows_span(whole: Seq<char>, a: Seq<char>, piece: Seq<char>, c: Seq<char>)
    requires
        whole == a + piece + c,
    ensures
        shows(whole, piece),
{
    lemma_shows_itself(piece);
    lemma_shows_part(a, piece, c, piece);
}

/// What a row shows all the rows show.
proof fn lemma_shows_row<T>(s: Seq<T>, f: spec_fn(T) -> Seq<char>, i: int, piece: Seq<char>)
    requires
        0 <= i < s.len(),
        shows(f(s[i]), piece),
    ensures
        shows(rows(s, f), piece),
    decreases s.len(),
{
    broadcast use lemma_shows_front, lemma_shows_back;

    if i < s.len() - 1 {
        lemma_shows_row(s.drop_last(), f, i, piece);
    }
}

/// The row of a benchmark gate gives its metric, its threshold and what was measured, and ends with
/// a tick just where it passed and with a cross just where it did not. In LaTeX the mark is a word.
pub proof fn a_gate_row_says_whether_it_passed(g: GateResult)
    ensures
        exists|c: Seq<Seq<char>>|
            {
                &&& gate_row(g) == #[trigger] md_row(c)
                &&& c.len() == 4
                &&& c[0] == g.metric@
                &&& c[1] == g.threshold.fixed4@
                &&& is_cell_of(g.actual, c[2])
                &&& g.passed <==> c[3] == seq!['✓']
                &&& !g.passed <==> c[3] == seq!['✗']
            },
        exists|c: Seq<Seq<char>>|
            {
                &&& gate_tex(g) == #[trigger] tex_row(c)
                &&& c.len() == 4
                &&& c[0] == tex_escaped(g.metric@)
                &&& c[1] == g.threshold.fixed4@
                &&& is_cell_of(g.actual, c[2])
                &&& g.passed <==> c[3] == seq!['Y', 'e', 's']
                &&& !g.passed <==> c[3] == seq!['N', 'o']
            },
{
    broadcast use lemma_strung_push;

    reveal_strlit("✓");
    reveal_strlit("✗");
    reveal_strlit("Yes");
    reveal_strlit("No");
    let mark = if g.passed {
        seq!['✓']
    } else {
        seq!['✗']
    };
    let word = if g.passed {
        seq!['Y', 'e', 's']
    } else {
        seq!['N', 'o']
    };
    assert("✓"@ =~= seq!['✓'] && "✗"@ =~= seq!['✗']);
    assert("Yes"@ =~= seq!['Y', 'e', 's'] && "No"@ =~= seq!['N', 'o']);
    assert(seq!['✓'][0] != seq!['✗'][0]);
    assert(seq!['Y', 'e', 's'].len() != seq!['N', 'o'].len());
    let c = Seq::<Seq<char>>::empty().push(g.metric@).push(g.threshold.fixed4@).push(fixed4_or_dash(g.actual)).push(mark);
    assert(gate_row(g) == md_row(c));
    let d = Seq::<Seq<char>>::empty().push(tex_escaped(g.metric@)).push(g.threshold.fixed4@).push(fixed4_or_dash(g.actual)).push(word);
    assert(gate_tex(g) == tex_row(d));
}

/// The row of an aggregate gives, in this order, the metric, its mean, its deviation, its least
/// and its greatest value, how many there were, and the two ends of the interval.
pub proof fn an_aggregate_row_goes_by_its_headings(entry: (Seq<char>, MetricAggregate))
    ensures
        exists|c: Seq<Seq<char>>|
            {
                &&& aggregate_row(entry) == #[trigger] md_row(c)
                &&& aggregate_tex(entry) == tex_row(c.update(0, tex_escaped(entry.0)))
                &&& c.len() == 8
                &&& c[0] == entry.0
                &&& is_cell_of(entry.1.mean, c[1])
                &&& is_cell_of(entry.1.std, c[2])
                &&& is_cell_of(entry.1.min, c[3])
                &&& is_cell_of(entry.1.max, c[4])
                &&& match entry.1.count {
                    Some(n) => c[5] == decimal(n as nat),
                    None => c[5] == "—"@,
                }
                &&& is_cell_of(entry.1.ci_low, c[6])
                &&& is_cell_of(entry.1.ci_high, c[7])
            },
{
    broadcast use lemma_strung_push;

    let a = entry.1;
    let c = Seq::<Seq<char>>::empty().push(entry.0).push(fixed4_or_dash(a.mean)).push(fixed4_or_dash(a.std)).push(fixed4_or_dash(a.min)).push(fixed4_or_dash(a.max)).push(count_text(a.count)).push(fixed4_or_dash(a.ci_low)).push(fixed4_or_dash(a.ci_high));
    assert(aggregate_row(entry) == md_row(c));
    let d = Seq::<Seq<char>>::empty().push(tex_escaped(entry.0)).push(fixed4_or_dash(a.mean)).push(fixed4_or_dash(a.std)).push(fixed4_or_dash(a.min)).push(fixed4_or_dash(a.max)).push(count_text(a.count)).push(fixed4_or_dash(a.ci_low)).push(fixed4_or_dash(a.ci_high));
    assert(aggregate_tex(entry) == tex_row(d));
    assert(c.update(0, tex_escaped(entry.0)) =~= d);
}

/// `a` with a typewriter cell between two others.
proof fn lemma_typed(a: Seq<char>, x: Seq<char>, y: Seq<char>)
    ensures
        a + " & \\texttt{"@ + x + "} & "@ + y == a + " & "@ + typed(x) + " & "@ + y,
        a + " & \\texttt{"@ + x + "} & \\texttt{"@ + y == a + " & "@ + typed(x) + " & \\texttt{"@
            + y,
        a + " & \\texttt{"@ + x + "} \\\\\n"@ == a + " & "@ + typed(x) + " \\\\\n"@,
{
    reveal_strlit(" & \\texttt{");
    reveal_strlit("} & ");
    reveal_strlit(" & ");
    reveal_strlit("\\texttt{");
    reveal_strlit("}");
    reveal_strlit("} & \\texttt{");
    reveal_strlit("} \\\\\n");
    reveal_strlit(" \\\\\n");
    assert(a + " & \\texttt{"@ + x + "} & "@ + y =~= a + " & "@ + typed(x) + " & "@ + y);
    assert(a + " & \\texttt{"@ + x + "} & \\texttt{"@ + y =~= a + " & "@ + typed(x)
        + " & \\texttt{"@ + y);
    assert(a + " & \\texttt{"@ + x + "} \\\\\n"@ =~= a + " & "@ + typed(x) + " \\\\\n"@);
}

proof fn lemma_typed_first(x: Seq<char>, y: Seq<char>)
    ensures
        "  \\texttt{"@ + x + "} & "@ + y == "  "@ + typed(x) + " & "@ + y,
{
    reveal_strlit("  \\texttt{");
    reveal_strlit("} & ");
    reveal_strlit(" & ");
    reveal_strlit("\\texttt{");
    reveal_strlit("}");
    reveal_strlit("  ");
    assert("  \\texttt{"@ + x + "} & "@ + y =~= "  "@ + typed(x) + " & "@ + y);
}

/// The row of an experiment gives, in this order, its number, its name, its hypothesis, its
/// parameters, its objective, its phase and the decision on it.
pub proof fn an_experiment_row_goes_by_its_headings(number: nat, e: Experiment, metric: Seq<char>)
    ensures
        exists|c: Seq<Seq<char>>|
            {
                &&& experiment_row_text(number, e, metric) == #[trigger] md_row(c)
                &&& c.len() == 7
                &&& c[0] == decimal(number)
                &&& c[1] == e.metadata.named()
                &&& c[2] == md_escaped(e.spec.hypothesis@)
                &&& c[3] == md_escaped(params_text(e))
                &&& is_cell_of(objective_of(e, metric), c[4])
                &&& match e.status {
                    Some(s) => c[5] == s.phase.named(),
                    None => c[5] == "—"@,
                }
                &&& match e.status {
                    Some(s) => match s.decision {
                        Some(d) => c[6] == d.named(),
                        None => c[6] == "—"@,
                    },
                    None => c[6] == "—"@,
                }
            },
        exists|c: Seq<Seq<char>>|
            {
                &&& experiment_tex(number, e, metric) == #[trigger] tex_row(c)
                &&& c.len() == 7
                &&& c[0] == decimal(number)
                &&& c[1] == tex_escaped(e.metadata.named())
                &&& c[2] == tex_escaped(e.spec.hypothesis@)
                &&& c[3] == typed(tex_escaped(params_text(e)))
                &&& is_cell_of(objective_of(e, metric), c[4])
                &&& match e.status {
                    Some(s) => c[5] == tex_escaped(s.phase.named()),
                    None => c[5] == tex_escaped("—"@),
                }
                &&& match e.status {
                    Some(s) => match s.decision {
                        Some(d) => c[6] == tex_escaped(d.named()),
                        None => c[6] == tex_escaped("—"@),
                    },
                    None => c[6] == tex_escaped("—"@),
                }
            },
{
    broadcast use lemma_strung_push;

    let o = fixed4_or_dash(objective_of(e, metric));
    let c = Seq::<Seq<char>>::empty().push(decimal(number)).push(e.metadata.named()).push(md_escaped(e.spec.hypothesis@)).push(md_escaped(params_text(e))).push(o).push(phase_text(e)).push(decision_text(e));
    assert(experiment_row_text(number, e, metric) == md_row(c));
    let d = Seq::<Seq<char>>::empty().push(decimal(number)).push(tex_escaped(e.metadata.named())).push(tex_escaped(e.spec.hypothesis@)).push(typed(tex_escaped(params_text(e)))).push(o).push(tex_escaped(phase_text(e))).push(tex_escaped(decision_text(e)));
    lemma_typed(
        "  "@ + decimal(number) + " & "@ + tex_escaped(e.metadata.named()) + " & "@ + tex_escaped(
            e.spec.hypothesis@,
        ),
        tex_escaped(params_text(e)),
        o,
    );
    assert(experiment_tex(number, e, metric) == tex_row(d));
}

/// The rows of the experiments stand in their order and are numbered from one.
pub proof fn experiments_are_numbered_from_one(exps: Seq<Experiment>, metric: Seq<char>, i: int)
    requires
        0 <= i < exps.len(),
    ensures
        experiment_rows(exps.take(i + 1), metric) == experiment_rows(exps.take(i), metric)
            + experiment_row_text((i + 1) as nat, exps[i], metric),
        experiments_tex(exps.take(i + 1), metric) == experiments_tex(exps.take(i), metric)
            + experiment_tex((i + 1) as nat, exps[i], metric),
        experiment_rows(Seq::empty(), metric) == Seq::<char>::empty(),
        experiments_tex(Seq::empty(), metric) == Seq::<char>::empty(),
{
    let t = exps.take(i + 1);
    assert(t.drop_last() =~= exps.take(i));
    assert(t.last() == exps[i]);
}

/// The best objective of an experiment is the scalar that its metrics in detail call best;
/// without one it is the metric of the objective; and one that is neither measured has none.
pub proof fn the_best_scalar_comes_first(e: Experiment, metric: Seq<char>)
    ensures
        e.status is None ==> objective_of(e, metric) is None,
        e.status matches Some(s) ==> (s.metrics_detail matches Some(m) ==> (m.best matches Some(
            Json::Number(n),
        ) ==> objective_of(e, metric) == Some(n.float))),
        e.status matches Some(s) ==> (!(s.metrics_detail matches Some(m) && m.best is Some
            && m.best->0 is Number) ==> match objective_of(e, metric) {
            Some(x) => s.metrics@.contains_key(metric) && s.metrics@[metric] is Number
                && s.metrics@[metric]->Number_0.float == x,
            None => s.metrics@.contains_key(metric) ==> !(s.metrics@[metric] is Number),
        }),
{
}

/// Every parameter is shown as its name, an equals sign and its value, and one without
/// parameters shows nothing.
pub proof fn every_parameter_is_shown(e: Experiment, i: int)
    ensures
        0 <= i < e.spec.parameters.entries().len() ==> shows(
            params_text(e),
            e.spec.parameters.entries()[i].0 + seq!['='] + written(
                e.spec.parameters.entries()[i].1,
            ),
        ),
        e.spec.parameters.entries().len() == 0 ==> params_text(e).len() == 0,
        e.spec.parameters.entries().len() == 1 ==> params_text(e)
            == e.spec.parameters.entries()[0].0 + seq!['='] + written(
            e.spec.parameters.entries()[0].1,
        ),
{
    let all = e.spec.parameters.entries();
    let parts = all.map_values(|entry: (Seq<char>, Json)| param_text(entry));
    reveal_strlit("=");
    assert("="@ =~= seq!['=']);
    if 0 <= i < all.len() {
        assert(parts[i] == param_text(all[i]));
        lemma_shows_itself(parts[i]);
        lemma_shows_joined(parts, ", "@, i, parts[i]);
    }
    if all.len() == 1 {
        assert(parts[0] == param_text(all[0]));
    }
}

/// Two parameters are parted by a comma and a blank.
pub proof fn parameters_are_parted_by_commas(a: Experiment, b: Experiment)
    requires
        b.spec.parameters.entries().len() > 1,
        a.spec.parameters.entries() == b.spec.parameters.entries().drop_last(),
    ensures
        params_text(b) == params_text(a) + seq![',', ' '] + b.spec.parameters.entries().last().0
            + seq!['='] + written(b.spec.parameters.entries().last().1),
{
    let all = b.spec.parameters.entries();
    let parts = all.map_values(|entry: (Seq<char>, Json)| param_text(entry));
    let short = a.spec.parameters.entries().map_values(
        |entry: (Seq<char>, Json)| param_text(entry),
    );
    assert(parts.drop_last() =~= short);
    assert(parts.last() == param_text(all.last()));
    reveal_strlit("=");
    reveal_strlit(", ");
    assert("="@ =~= seq!['=']);
    assert(", "@ =~= seq![',', ' ']);
    assert(params_text(b) =~= params_text(a) + seq![',', ' '] + all.last().0 + seq!['=']
        + written(all.last().1));
}

/// The row of a parameter of the glossary gives its name, its type and its description; that of a
/// metric gives its name, its label, its unit, its description and its baseline.
pub proof fn the_glossaries_go_by_their_headings(
    p: (Seq<char>, ParameterSpec),
    m: (Seq<char>, DashboardMetric),
)
    ensures
        exists|c: Seq<Seq<char>>|
            {
                &&& parameter_row(p) == #[trigger] md_row(c)
                &&& c.len() == 3
                &&& c[0] == ticked(p.0)
                &&& c[1] == p.1.parameter_type@
                &&& match p.1.description {
                    Some(d) => c[2] == md_escaped(d@),
                    None => c[2] == md_escaped("—"@),
                }
            },
        exists|c: Seq<Seq<char>>|
            {
                &&& parameter_tex(p) == #[trigger] tex_row(c)
                &&& c.len() == 3
                &&& c[0] == typed(tex_escaped(p.0))
                &&& c[1] == tex_escaped(p.1.parameter_type@)
                &&& match p.1.description {
                    Some(d) => c[2] == tex_escaped(d@),
                    None => c[2] == tex_escaped("—"@),
                }
            },
        exists|c: Seq<Seq<char>>|
            {
                &&& metric_row(m) == #[trigger] md_row(c)
                &&& c.len() == 5
                &&& c[0] == ticked(m.0)
                &&& c[1] == md_escaped(m.1.label@)
                &&& match m.1.unit {
                    Some(u) => c[2] == u@,
                    None => c[2] == "—"@,
                }
                &&& match m.1.description {
                    Some(d) => c[3] == md_escaped(d@),
                    None => c[3] == md_escaped("—"@),
                }
                &&& match m.1.baseline {
                    Some(b) => c[4] == b.text@,
                    None => c[4] == "—"@,
                }
            },
        exists|c: Seq<Seq<char>>|
            {
                &&& metric_tex(m) == #[trigger] tex_row(c)
                &&& c.len() == 5
                &&& c[0] == typed(tex_escaped(m.0))
                &&& c[1] == tex_escaped(m.1.label@)
                &&& match m.1.unit {
                    Some(u) => c[2] == tex_escaped(u@),
                    None => c[2] == tex_escaped("—"@),
                }
                &&& match m.1.description {
                    Some(d) => c[3] == tex_escaped(d@),
                    None => c[3] == tex_escaped("—"@),
                }
                &&& match m.1.baseline {
                    Some(b) => c[4] == b.text@,
                    None => c[4] == "—"@,
                }
            },
{
    broadcast use lemma_strung_push;

    let pd = text_or(p.1.description, "—"@);
    let md = text_or(m.1.description, "—"@);
    let unit = text_or(m.1.unit, "—"@);
    let base = match m.1.baseline {
        Some(b) => b.text@,
        None => "—"@,
    };
    lemma_ticked(p.0, p.1.parameter_type@);
    lemma_ticked(m.0, md_escaped(m.1.label@));
    lemma_typed_first(tex_escaped(p.0), tex_escaped(p.1.parameter_type@));
    lemma_typed_first(tex_escaped(m.0), tex_escaped(m.1.label@));
    let a = Seq::<Seq<char>>::empty().push(ticked(p.0)).push(p.1.parameter_type@).push(md_escaped(pd));
    assert(parameter_row(p) == md_row(a));
    let b = Seq::<Seq<char>>::empty().push(typed(tex_escaped(p.0))).push(tex_escaped(p.1.parameter_type@)).push(tex_escaped(pd));
    assert(parameter_tex(p) == tex_row(b));
    let c = Seq::<Seq<char>>::empty().push(ticked(m.0)).push(md_escaped(m.1.label@)).push(unit).push(md_escaped(md)).push(base);
    assert(metric_row(m) == md_row(c));
    let d = Seq::<Seq<char>>::empty().push(typed(tex_escaped(m.0))).push(tex_escaped(m.1.label@)).push(tex_escaped(unit)).push(tex_escaped(md)).push(base);
    assert(metric_tex(m) == tex_row(d));
}

proof fn lemma_ticked(x: Seq<char>, y: Seq<char>)
    ensures
        "| `"@ + x + "` | "@ + y == "| "@ + ticked(x) + " | "@ + y,
{
    reveal_strlit("| `");
    reveal_strlit("` | ");
    reveal_strlit("| ");
    reveal_strlit(" | ");
    reveal_strlit("`");
    assert("| `"@ + x + "` | "@ + y =~= "| "@ + ticked(x) + " | "@ + y);
}

/// The row of the artifact index gives the experiment and where its workspace, its journal, its
/// provenance and its checkpoints lie, and the report of the last of its benchmark runs.
pub proof fn an_artifact_row_goes_by_its_headings(
    e: Experiment,
    runs: Map<Seq<char>, Seq<BenchmarkRun>>,
)
    ensures
        exists|c: Seq<Seq<char>>|
            {
                &&& artifact_row(e, runs) == #[trigger] md_row(c)
                &&& artifact_tex(e, runs) == tex_row(
                    seq![
                        tex_escaped(c[0]),
                        typed(tex_escaped(c[1])),
                        typed(tex_escaped(c[2])),
                        typed(tex_escaped(c[3])),
                        typed(tex_escaped(c[4])),
                        typed(tex_escaped(c[5])),
                    ],
                )
                &&& c.len() == 6
                &&& c[0] == e.metadata.named()
                &&& match e.status {
                    Some(s) => match s.artifacts {
                        Some(a) => {
                            &&& c[1] == text_or(a.workspace_uri, "—"@)
                            &&& c[2] == text_or(a.journal_uri, "—"@)
                            &&& c[3] == text_or(a.provenance_uri, "—"@)
                            &&& c[4] == text_or(a.checkpoints_uri, "—"@)
                        },
                        None => c[1] == "—"@ && c[2] == "—"@ && c[3] == "—"@ && c[4] == "—"@,
                    },
                    None => c[1] == "—"@ && c[2] == "—"@ && c[3] == "—"@ && c[4] == "—"@,
                }
                &&& runs.contains_key(c[0]) && runs[c[0]].len() > 0 && runs[c[0]][runs[c[0]].len()
                    - 1].status is Some ==> c[5] == text_or(
                    runs[c[0]][runs[c[0]].len() - 1].status->0.report_uri,
                    "—"@,
                )
                &&& !runs.contains_key(c[0]) ==> c[5] == "—"@
            },
        forall|o: Option<String>|
            #![trigger text_or(o, "—"@)]
            match o {
                Some(t) => text_or(o, "—"@) == t@,
                None => text_or(o, "—"@) == seq!['—'],
            },
{
    broadcast use lemma_strung_push;

    reveal_strlit("—");
    assert("—"@ =~= seq!['—']);
    let (w, j, p, k) = match artifacts_of(e) {
        Some(a) => (
            text_or(a.workspace_uri, "—"@),
            text_or(a.journal_uri, "—"@),
            text_or(a.provenance_uri, "—"@),
            text_or(a.checkpoints_uri, "—"@),
        ),
        None => ("—"@, "—"@, "—"@, "—"@),
    };
    let n = e.metadata.named();
    let r = report_text(runs, n);
    let c = Seq::<Seq<char>>::empty().push(n).push(w).push(j).push(p).push(k).push(r);
    assert(artifact_row(e, runs) == md_row(c));
    let x0 = "  "@ + tex_escaped(n);
    let x1 = x0 + " & "@ + typed(tex_escaped(w));
    let x2 = x1 + " & "@ + typed(tex_escaped(j));
    let x3 = x2 + " & "@ + typed(tex_escaped(p));
    let x4 = x3 + " & "@ + typed(tex_escaped(k));
    lemma_typed(x0, tex_escaped(w), tex_escaped(j));
    lemma_typed(x1, tex_escaped(j), tex_escaped(p));
    lemma_typed(x2, tex_escaped(p), tex_escaped(k));
    lemma_typed(x3, tex_escaped(k), tex_escaped(r));
    lemma_typed(x4, tex_escaped(r), Seq::empty());
    let d = Seq::<Seq<char>>::empty().push(tex_escaped(n)).push(typed(tex_escaped(w))).push(typed(tex_escaped(j))).push(typed(tex_escaped(p))).push(typed(tex_escaped(k))).push(typed(tex_escaped(r)));
    assert(artifact_tex(e, runs) == tex_row(d));
    assert(seq![
        tex_escaped(c[0]),
        typed(tex_escaped(c[1])),
        typed(tex_escaped(c[2])),
        typed(tex_escaped(c[3])),
        typed(tex_escaped(c[4])),
        typed(tex_escaped(c[5])),
    ] =~= d);
}

/// The headings of the table of gates, in both documents.
pub proof fn the_gate_table_has_its_headings(gates: Seq<GateResult>)
    requires
        gates.len() > 0,
    ensures
        shows(gate_table(gates), md_row(Seq::<Seq<char>>::empty().push("Gate Metric"@).push("Threshold"@).push("Actual"@).push("Passed"@))),
        shows(gate_table_tex(gates), tex_row(Seq::<Seq<char>>::empty().push("Gate Metric"@).push("Threshold"@).push("Actual"@).push("Passed"@))),
{
    broadcast use lemma_strung_push, lemma_shows_front;

    let h = Seq::<Seq<char>>::empty().push("Gate Metric"@).push("Threshold"@).push("Actual"@).push("Passed"@);
    let g = Seq::<Seq<char>>::empty().push("Gate Metric"@).push("Threshold"@).push("Actual"@).push("Passed"@);
    let a = "| Gate Metric | Threshold | Actual | Passed |\n|-------------|-----------|--------|--------|\n"@;
    let b = "\\begin{tabular}{l r r l}\n  \\toprule\n  Gate Metric & Threshold & Actual & Passed \\\\\n  \\midrule\n"@;
    assert(shows(a, md_row(h)) && shows(b, tex_row(g))) by {
        reveal_strlit("| Gate Metric | Threshold | Actual | Passed |\n|-------------|-----------|--------|--------|\n");
        reveal_strlit("\\begin{tabular}{l r r l}\n  \\toprule\n  Gate Metric & Threshold & Actual & Passed \\\\\n  \\midrule\n");
        reveal_strlit("Gate Metric");
        reveal_strlit("Threshold");
        reveal_strlit("Actual");
        reveal_strlit("Passed");
        reveal_strlit("| ");
        reveal_strlit(" | ");
        reveal_strlit(" |\n");
        reveal_strlit("  ");
        reveal_strlit(" & ");
        reveal_strlit(" \\\\\n");
        assert(a.subrange(0, 0 + md_row(h).len() as int) =~= md_row(h));
        assert(occurs_at(a, md_row(h), 0));
        assert(b.subrange(36, 36 + tex_row(g).len() as int) =~= tex_row(g));
        assert(occurs_at(b, tex_row(g), 36));
    }
}

/// The headings of the aggregate table, in both documents.
#[verifier::rlimit(60)]
pub proof fn the_aggregate_table_has_its_headings(all: Seq<(Seq<char>, MetricAggregate)>)
    requires
        all.len() > 0,
    ensures
        shows(aggregate_table(all), md_row(Seq::<Seq<char>>::empty().push("Metric"@).push("Mean"@).push("Std"@).push("Min"@).push("Max"@).push("Count"@).push("CI Low"@).push("CI High"@))),
        shows(aggregate_table_tex(all), tex_row(Seq::<Seq<char>>::empty().push("Metric"@).push("Mean"@).push("Std"@).push("Min"@).push("Max"@).push("Count"@).push("CI Low"@).push("CI High"@))),
{
    broadcast use lemma_strung_push, lemma_shows_front;

    let h = Seq::<Seq<char>>::empty().push("Metric"@).push("Mean"@).push("Std"@).push("Min"@).push("Max"@).push("Count"@).push("CI Low"@).push("CI High"@);
    let g = Seq::<Seq<char>>::empty().push("Metric"@).push("Mean"@).push("Std"@).push("Min"@).push("Max"@).push("Count"@).push("CI Low"@).push("CI High"@);
    let a = "| Metric | Mean | Std | Min | Max | Count | CI Low | CI High |\n|--------|------|-----|-----|-----|-------|--------|---------|\n"@;
    let b = "\\begin{tabular}{l r r r r r r r}\n  \\toprule\n  Metric & Mean & Std & Min & Max & Count & CI Low & CI High \\\\\n  \\midrule\n"@;
    assert(shows(a, md_row(h)) && shows(b, tex_row(g))) by {
        reveal_strlit("| Metric | Mean | Std | Min | Max | Count | CI Low | CI High |\n|--------|------|-----|-----|-----|-------|--------|---------|\n");
        reveal_strlit("\\begin{tabular}{l r r r r r r r}\n  \\toprule\n  Metric & Mean & Std & Min & Max & Count & CI Low & CI High \\\\\n  \\midrule\n");
        reveal_strlit("Metric");
        reveal_strlit("Mean");
        reveal_strlit("Std");
        reveal_strlit("Min");
        reveal_strlit("Max");
        reveal_strlit("Count");
        reveal_strlit("CI Low");
        reveal_strlit("CI High");
        reveal_strlit("| ");
        reveal_strlit(" | ");
        reveal_strlit(" |\n");
        reveal_strlit("  ");
        reveal_strlit(" & ");
        reveal_strlit(" \\\\\n");
        assert(a.subrange(0, 0 + md_row(h).len() as int) =~= md_row(h));
        assert(occurs_at(a, md_row(h), 0));
        assert(b.subrange(44, 44 + tex_row(g).len() as int) =~= tex_row(g));
        assert(occurs_at(b, tex_row(g), 44));
    }
}

/// The headings of the experiment table, in both documents.
#[verifier::rlimit(60)]
pub proof fn the_experiment_table_has_its_headings(exps: Seq<Experiment>, metric: Seq<char>)
    ensures
        shows(experiments_section(exps, metric), md_row(Seq::<Seq<char>>::empty().push("#"@).push("Name"@).push("Hypothesis"@).push("Parameters"@).push("Objective Value"@).push("Phase"@).push("Decision"@))),
        shows(experiment_table_tex(exps, metric), tex_row(Seq::<Seq<char>>::empty().push("\\#"@).push("Name"@).push("Hypothesis"@).push("Parameters"@).push("Objective Value"@).push("Phase"@).push("Decision"@))),
{
    broadcast use lemma_strung_push, lemma_shows_front;

    let h = Seq::<Seq<char>>::empty().push("#"@).push("Name"@).push("Hypothesis"@).push("Parameters"@).push("Objective Value"@).push("Phase"@).push("Decision"@);
    let g = Seq::<Seq<char>>::empty().push("\\#"@).push("Name"@).push("Hypothesis"@).push("Parameters"@).push("Objective Value"@).push("Phase"@).push("Decision"@);
    let a = "## Experiments\n\n| # | Name | Hypothesis | Parameters | Objective Value | Phase | Decision |\n|---|------|------------|------------|-----------------|-------|----------|\n"@;
    let b = "\\section{Experiments}\n\n\\begin{tabular}{r l p{4cm} p{3.5cm} r l l}\n  \\toprule\n  \\# & Name & Hypothesis & Parameters & Objective Value & Phase & Decision \\\\\n  \\midrule\n"@;
    assert(shows(a, md_row(h)) && shows(b, tex_row(g))) by {
        reveal_strlit("## Experiments\n\n| # | Name | Hypothesis | Parameters | Objective Value | Phase | Decision |\n|---|------|------------|------------|-----------------|-------|----------|\n");
        reveal_strlit("\\section{Experiments}\n\n\\begin{tabular}{r l p{4cm} p{3.5cm} r l l}\n  \\toprule\n  \\# & Name & Hypothesis & Parameters & Objective Value & Phase & Decision \\\\\n  \\midrule\n");
        reveal_strlit("#");
        reveal_strlit("Name");
        reveal_strlit("Hypothesis");
        reveal_strlit("Parameters");
        reveal_strlit("Objective Value");
        reveal_strlit("Phase");
        reveal_strlit("Decision");
        reveal_strlit("\\#");
        reveal_strlit("| ");
        reveal_strlit(" | ");
        reveal_strlit(" |\n");
        reveal_strlit("  ");
        reveal_strlit(" & ");
        reveal_strlit(" \\\\\n");
        assert(a.subrange(16, 16 + md_row(h).len() as int) =~= md_row(h));
        assert(occurs_at(a, md_row(h), 16));
        assert(b.subrange(77, 77 + tex_row(g).len() as int) =~= tex_row(g));
        assert(occurs_at(b, tex_row(g), 77));
    }
}

/// The headings of the artifact table, in both documents.
#[verifier::rlimit(60)]
pub proof fn the_artifact_table_has_its_headings(exps: Seq<Experiment>, runs: Map<Seq<char>, Seq<BenchmarkRun>>)
    ensures
        shows(artifact_section(exps, runs), md_row(Seq::<Seq<char>>::empty().push("Experiment"@).push("Workspace"@).push("Journal"@).push("Provenance"@).push("Checkpoints"@).push("Benchmark Report"@))),
        shows(artifact_index_tex(exps, runs), tex_row(Seq::<Seq<char>>::empty().push("Experiment"@).push("Workspace"@).push("Journal"@).push("Provenance"@).push("Checkpoints"@).push("Benchmark Report"@))),
{
    broadcast use lemma_strung_push, lemma_shows_front;

    let h = Seq::<Seq<char>>::empty().push("Experiment"@).push("Workspace"@).push("Journal"@).push("Provenance"@).push("Checkpoints"@).push("Benchmark Report"@);
    let g = Seq::<Seq<char>>::empty().push("Experiment"@).push("Workspace"@).push("Journal"@).push("Provenance"@).push("Checkpoints"@).push("Benchmark Report"@);
    let a = "## Artifact Index\n\n| Experiment | Workspace | Journal | Provenance | Checkpoints | Benchmark Report |\n|------------|-----------|---------|------------|-------------|------------------|\n"@;
    let b = "\\section{Artifact Index}\n\n\\begin{tabular}{l l l l l l}\n  \\toprule\n  Experiment & Workspace & Journal & Provenance & Checkpoints & Benchmark Report \\\\\n  \\midrule\n"@;
    assert(shows(a, md_row(h)) && shows(b, tex_row(g))) by {
        reveal_strlit("## Artifact Index\n\n| Experiment | Workspace | Journal | Provenance | Checkpoints | Benchmark Report |\n|------------|-----------|---------|------------|-------------|------------------|\n");
        reveal_strlit("\\section{Artifact Index}\n\n\\begin{tabular}{l l l l l l}\n  \\toprule\n  Experiment & Workspace & Journal & Provenance & Checkpoints & Benchmark Report \\\\\n  \\midrule\n");
        reveal_strlit("Experiment");
        reveal_strlit("Workspace");
        reveal_strlit("Journal");
        reveal_strlit("Provenance");
        reveal_strlit("Checkpoints");
        reveal_strlit("Benchmark Report");
        reveal_strlit("| ");
        reveal_strlit(" | ");
        reveal_strlit(" |\n");
        reveal_strlit("  ");
        reveal_strlit(" & ");
        reveal_strlit(" \\\\\n");
        assert(a.subrange(19, 19 + md_row(h).len() as int) =~= md_row(h));
        assert(occurs_at(a, md_row(h), 19));
        assert(b.subrange(66, 66 + tex_row(g).len() as int) =~= tex_row(g));
        assert(occurs_at(b, tex_row(g), 66));
    }
}

/// The headings of the parameter table, in both documents.
pub proof fn the_parameter_table_has_its_headings(template: ExperimentTemplate)
    requires
        template.spec.parameter_schema.entries().len() > 0,
    ensures
        shows(parameter_glossary(template), md_row(Seq::<Seq<char>>::empty().push("Name"@).push("Type"@).push("Description"@))),
        shows(parameter_glossary_tex(template), tex_row(Seq::<Seq<char>>::empty().push("Name"@).push("Type"@).push("Description"@))),
{
    broadcast use lemma_strung_push, lemma_shows_front;

    let h = Seq::<Seq<char>>::empty().push("Name"@).push("Type"@).push("Description"@);
    let g = Seq::<Seq<char>>::empty().push("Name"@).push("Type"@).push("Description"@);
    let a = "**Parameter Glossary**\n\n| Name | Type | Description |\n|------|------|-------------|\n"@;
    let b = "\\subsection*{Parameter Glossary}\n\\begin{tabular}{l l p{7cm}}\n  \\toprule\n  Name & Type & Description \\\\\n  \\midrule\n"@;
    assert(shows(a, md_row(h)) && shows(b, tex_row(g))) by {
        reveal_strlit("**Parameter Glossary**\n\n| Name | Type | Description |\n|------|------|-------------|\n");
        reveal_strlit("\\subsection*{Parameter Glossary}\n\\begin{tabular}{l l p{7cm}}\n  \\toprule\n  Name & Type & Description \\\\\n  \\midrule\n");
        reveal_strlit("Name");
        reveal_strlit("Type");
        reveal_strlit("Description");
        reveal_strlit("| ");
        reveal_strlit(" | ");
        reveal_strlit(" |\n");
        reveal_strlit("  ");
        reveal_strlit(" & ");
        reveal_strlit(" \\\\\n");
        assert(a.subrange(24, 24 + md_row(h).len() as int) =~= md_row(h));
        assert(occurs_at(a, md_row(h), 24));
        assert(b.subrange(72, 72 + tex_row(g).len() as int) =~= tex_row(g));
        assert(occurs_at(b, tex_row(g), 72));
    }
}

/// The headings of the metric table, in both documents.
#[verifier::rlimit(60)]
pub proof fn the_metric_table_has_its_headings(template: ExperimentTemplate)
    requires
        dashboard_metrics(template).len() > 0,
    ensures
        shows(metric_glossary(template), md_row(Seq::<Seq<char>>::empty().push("Name"@).push("Label"@).push("Unit"@).push("Description"@).push("Baseline"@))),
        shows(metric_glossary_tex(template), tex_row(Seq::<Seq<char>>::empty().push("Name"@).push("Label"@).push("Unit"@).push("Description"@).push("Baseline"@))),
{
    broadcast use lemma_strung_push, lemma_shows_front;

    let h = Seq::<Seq<char>>::empty().push("Name"@).push("Label"@).push("Unit"@).push("Description"@).push("Baseline"@);
    let g = Seq::<Seq<char>>::empty().push("Name"@).push("Label"@).push("Unit"@).push("Description"@).push("Baseline"@);
    let a = "**Metric Glossary**\n\n| Name | Label | Unit | Description | Baseline |\n|------|-------|------|-------------|----------|\n"@;
    let b = "\\subsection*{Metric Glossary}\n\\begin{tabular}{l l l p{4cm} r}\n  \\toprule\n  Name & Label & Unit & Description & Baseline \\\\\n  \\midrule\n"@;
    assert(shows(a, md_row(h)) && shows(b, tex_row(g))) by {
        reveal_strlit("**Metric Glossary**\n\n| Name | Label | Unit | Description | Baseline |\n|------|-------|------|-------------|----------|\n");
        reveal_strlit("\\subsection*{Metric Glossary}\n\\begin{tabular}{l l l p{4cm} r}\n  \\toprule\n  Name & Label & Unit & Description & Baseline \\\\\n  \\midrule\n");
        reveal_strlit("Name");
        reveal_strlit("Label");
        reveal_strlit("Unit");
        reveal_strlit("Description");
        reveal_strlit("Baseline");
        reveal_strlit("| ");
        reveal_strlit(" | ");
        reveal_strlit(" |\n");
        reveal_strlit("  ");
        reveal_strlit(" & ");
        reveal_strlit(" \\\\\n");
        assert(a.subrange(21, 21 + md_row(h).len() as int) =~= md_row(h));
        assert(occurs_at(a, md_row(h), 21));
        assert(b.subrange(73, 73 + tex_row(g).len() as int) =~= tex_row(g));
        assert(occurs_at(b, tex_row(g), 73));
    }
}

/// The texts, one behind the other.
pub open spec fn glued(parts: Seq<Seq<char>>) -> Seq<char>
    decreases parts.len(),
{
    if parts.len() == 0 {
        Seq::empty()
    } else if parts.len() == 1 {
        parts[0]
    } else {
        glued(parts.drop_last()) + parts.last()
    }
}

broadcast proof fn lemma_glued_push(parts: Seq<Seq<char>>, x: Seq<char>)
    ensures
        #[trigger] glued(parts.push(x)) == if parts.len() == 0 {
            x
        } else {
            glued(parts) + x
        },
{
    assert(parts.push(x).drop_last() =~= parts);
}

proof fn lemma_glued_concat(a: Seq<Seq<char>>, b: Seq<Seq<char>>)
    ensures
        glued(a + b) == glued(a) + glued(b),
    decreases b.len(),
{
    if b.len() == 0 {
        assert(a + b =~= a);
        assert(glued(a) + glued(b) =~= glued(a));
    } else {
        let c = b.drop_last();
        lemma_glued_concat(a, c);
        assert((a + b).drop_last() =~= a + c);
        assert(glued(b) =~= glued(c) + b.last()) by {
            if b.len() == 1 {
                assert(glued(c) =~= Seq::empty());
            }
        }
        assert(glued(a + b) =~= glued(a + c) + b.last()) by {
            if a.len() + b.len() == 1 {
                assert(glued(a + c) =~= Seq::empty());
            }
        }
        assert(glued(a) + glued(c) + b.last() =~= glued(a) + (glued(c) + b.last()));
    }
}

/// Texts glued together show what some of them in a row are.
proof fn lemma_glued_shows(parts: Seq<Seq<char>>, i: int, j: int)
    requires
        0 <= i <= j <= parts.len(),
    ensures
        shows(glued(parts), glued(parts.subrange(i, j))),
{
    let a = parts.subrange(0, i);
    let b = parts.subrange(i, j);
    let c = parts.subrange(j, parts.len() as int);
    assert(parts =~= a + b + c);
    lemma_glued_concat(a + b, c);
    lemma_glued_concat(a, b);
    lemma_shows_span(glued(parts), glued(a), glued(b), glued(c));
}

/// What is shown is shown in parts too.
proof fn lemma_shows_less(whole: Seq<char>, a: Seq<char>, piece: Seq<char>, c: Seq<char>)
    requires
        shows(whole, a + piece + c) || shows(whole, a + piece) && c.len() == 0 || shows(
            whole,
            piece + c,
        ) && a.len() == 0,
    ensures
        shows(whole, piece),
{
    assert(a.len() == 0 ==> a + piece + c =~= piece + c);
    assert(c.len() == 0 ==> a + piece + c =~= a + piece);
    let p = a + piece + c;
    let i = choose|i: int| #[trigger] occurs_at(whole, p, i);
    let k = i + a.len();
    assert(whole.subrange(k, k + piece.len()) =~= piece) by {
        assert forall|x: int| 0 <= x < piece.len() implies whole[k + x] == piece[x] by {
            assert(whole.subrange(i, i + p.len())[a.len() + x] == p[a.len() + x]);
        }
    }
    assert(occurs_at(whole, piece, k));
}

proof fn lemma_results_md(r: Seq<char>, b: Seq<char>, o: Seq<char>, i: Seq<char>, g: Seq<char>, d: Seq<char>, tail: Seq<char>)
    requires
        r == "## Results\n\n**Best Experiment:** "@ + b + "\n\n**Best Objective (biased):** "@ + o + " — max over N noisy draws; monotone by construction and therefore NOT evidence of progress.\n\n**Incumbent Re-measured (unbiased):** "@ + i + "\n\n**Seed noise (sigma):** "@ + g + " over "@ + d + " control run(s)\n\n"@ + tail,
    ensures
        shows(r, "**Best Experiment:** "@ + b),
        shows(r, "**Best Objective (biased):** "@ + o),
        shows(r, "**Incumbent Re-measured (unbiased):** "@ + i),
        shows(r, "**Seed noise (sigma):** "@ + g + " over "@ + d + " control run(s)"@),
        shows(r, tail),
{
    broadcast use lemma_glued_push;

    let ps = Seq::<Seq<char>>::empty().push("## Results\n\n**Best Experiment:** "@).push(b).push("\n\n**Best Objective (biased):** "@).push(o).push(" — max over N noisy draws; monotone by construction and therefore NOT evidence of progress.\n\n**Incumbent Re-measured (unbiased):** "@).push(i).push("\n\n**Seed noise (sigma):** "@).push(g).push(" over "@).push(d).push(" control run(s)\n\n"@).push(tail);
    assert(r == glued(ps));
    assert(shows(r, "**Best Experiment:** "@ + b)) by {
        assert(ps.subrange(0, 2) =~= Seq::<Seq<char>>::empty().push("## Results\n\n**Best Experiment:** "@).push(b));
        lemma_glued_shows(ps, 0, 2);
        assert("## Results\n\n**Best Experiment:** "@ =~= "## Results\n\n"@ + "**Best Experiment:** "@) by {
            reveal_strlit("## Results\n\n**Best Experiment:** ");
            reveal_strlit("## Results\n\n");
            reveal_strlit("**Best Experiment:** ");
        }
        assert("## Results\n\n**Best Experiment:** "@ + b =~= "## Results\n\n"@ + ("**Best Experiment:** "@ + b));
        lemma_shows_less(r, "## Results\n\n"@, "**Best Experiment:** "@ + b, Seq::empty());
    }
    assert(shows(r, "**Best Objective (biased):** "@ + o)) by {
        assert(ps.subrange(2, 4) =~= Seq::<Seq<char>>::empty().push("\n\n**Best Objective (biased):** "@).push(o));
        lemma_glued_shows(ps, 2, 4);
        assert("\n\n**Best Objective (biased):** "@ =~= "\n\n"@ + "**Best Objective (biased):** "@) by {
            reveal_strlit("\n\n**Best Objective (biased):** ");
            reveal_strlit("\n\n");
            reveal_strlit("**Best Objective (biased):** ");
        }
        assert("\n\n**Best Objective (biased):** "@ + o =~= "\n\n"@ + ("**Best Objective (biased):** "@ + o));
        lemma_shows_less(r, "\n\n"@, "**Best Objective (biased):** "@ + o, Seq::empty());
    }
    assert(shows(r, "**Incumbent Re-measured (unbiased):** "@ + i)) by {
        assert(ps.subrange(4, 6) =~= Seq::<Seq<char>>::empty().push(" — max over N noisy draws; monotone by construction and therefore NOT evidence of progress.\n\n**Incumbent Re-measured (unbiased):** "@).push(i));
        lemma_glued_shows(ps, 4, 6);
        assert(" — max over N noisy draws; monotone by construction and therefore NOT evidence of progress.\n\n**Incumbent Re-measured (unbiased):** "@ =~= " — max over N noisy draws; monotone by construction and therefore NOT evidence of progress.\n\n"@ + "**Incumbent Re-measured (unbiased):** "@) by {
            reveal_strlit(" — max over N noisy draws; monotone by construction and therefore NOT evidence of progress.\n\n**Incumbent Re-measured (unbiased):** ");
            reveal_strlit(" — max over N noisy draws; monotone by construction and therefore NOT evidence of progress.\n\n");
            reveal_strlit("**Incumbent Re-measured (unbiased):** ");
        }
        assert(" — max over N noisy draws; monotone by construction and therefore NOT evidence of progress.\n\n**Incumbent Re-measured (unbiased):** "@ + i =~= " — max over N noisy draws; monotone by construction and therefore NOT evidence of progress.\n\n"@ + ("**Incumbent Re-measured (unbiased):** "@ + i));
        lemma_shows_less(r, " — max over N noisy draws; monotone by construction and therefore NOT evidence of progress.\n\n"@, "**Incumbent Re-measured (unbiased):** "@ + i, Seq::empty());
    }
    assert(shows(r, "**Seed noise (sigma):** "@ + g + " over "@ + d + " control run(s)"@)) by {
        assert(ps.subrange(6, 11) =~= Seq::<Seq<char>>::empty().push("\n\n**Seed noise (sigma):** "@).push(g).push(" over "@).push(d).push(" control run(s)\n\n"@));
        lemma_glued_shows(ps, 6, 11);
        assert(" control run(s)\n\n"@ =~= " control run(s)"@ + "\n\n"@) by {
            reveal_strlit(" control run(s)\n\n");
            reveal_strlit(" control run(s)");
            reveal_strlit("\n\n");
        }
        assert("\n\n**Seed noise (sigma):** "@ + g + " over "@ + d + " control run(s)\n\n"@ =~= ("\n\n**Seed noise (sigma):** "@ + g + " over "@ + d + " control run(s)"@) + "\n\n"@);
        lemma_shows_less(r, Seq::empty(), "\n\n**Seed noise (sigma):** "@ + g + " over "@ + d + " control run(s)"@, "\n\n"@);
        assert("\n\n**Seed noise (sigma):** "@ =~= "\n\n"@ + "**Seed noise (sigma):** "@) by {
            reveal_strlit("\n\n**Seed noise (sigma):** ");
            reveal_strlit("\n\n");
            reveal_strlit("**Seed noise (sigma):** ");
        }
        assert("\n\n**Seed noise (sigma):** "@ + g + " over "@ + d + " control run(s)"@ =~= "\n\n"@ + ("**Seed noise (sigma):** "@ + g + " over "@ + d + " control run(s)"@));
        lemma_shows_less(r, "\n\n"@, "**Seed noise (sigma):** "@ + g + " over "@ + d + " control run(s)"@, Seq::empty());
    }
    assert(shows(r, tail)) by {
        assert(ps.subrange(11, 12) =~= Seq::<Seq<char>>::empty().push(tail));
        lemma_glued_shows(ps, 11, 12);
    }
}

proof fn lemma_results_tex(t: Seq<char>, be: Seq<char>, bo: Seq<char>)
    requires
        t == "\\section{Results}\n\n\\textbf{Best Experiment:} "@ + be + "\n\n\\textbf{Best Objective:} "@ + bo + "\n\n"@,
    ensures
        shows(t, "\\textbf{Best Experiment:} "@ + be),
        shows(t, "\\textbf{Best Objective:} "@ + bo),
{
    broadcast use lemma_glued_push;

    let qs = Seq::<Seq<char>>::empty().push("\\section{Results}\n\n\\textbf{Best Experiment:} "@).push(be).push("\n\n\\textbf{Best Objective:} "@).push(bo).push("\n\n"@);
    assert(t == glued(qs));
    assert(shows(t, "\\textbf{Best Experiment:} "@ + be)) by {
        assert(qs.subrange(0, 2) =~= Seq::<Seq<char>>::empty().push("\\section{Results}\n\n\\textbf{Best Experiment:} "@).push(be));
        lemma_glued_shows(qs, 0, 2);
        assert("\\section{Results}\n\n\\textbf{Best Experiment:} "@ =~= "\\section{Results}\n\n"@ + "\\textbf{Best Experiment:} "@) by {
            reveal_strlit("\\section{Results}\n\n\\textbf{Best Experiment:} ");
            reveal_strlit("\\section{Results}\n\n");
            reveal_strlit("\\textbf{Best Experiment:} ");
        }
        assert("\\section{Results}\n\n\\textbf{Best Experiment:} "@ + be =~= "\\section{Results}\n\n"@ + ("\\textbf{Best Experiment:} "@ + be));
        lemma_shows_less(t, "\\section{Results}\n\n"@, "\\textbf{Best Experiment:} "@ + be, Seq::empty());
    }
    assert(shows(t, "\\textbf{Best Objective:} "@ + bo)) by {
        assert(qs.subrange(2, 4) =~= Seq::<Seq<char>>::empty().push("\n\n\\textbf{Best Objective:} "@).push(bo));
        lemma_glued_shows(qs, 2, 4);
        assert("\n\n\\textbf{Best Objective:} "@ =~= "\n\n"@ + "\\textbf{Best Objective:} "@) by {
            reveal_strlit("\n\n\\textbf{Best Objective:} ");
            reveal_strlit("\n\n");
            reveal_strlit("\\textbf{Best Objective:} ");
        }
        assert("\n\n\\textbf{Best Objective:} "@ + bo =~= "\n\n"@ + ("\\textbf{Best Objective:} "@ + bo));
        lemma_shows_less(t, "\n\n"@, "\\textbf{Best Objective:} "@ + bo, Seq::empty());
    }
}

proof fn lemma_bias(x: Seq<char>)
    ensures
        shows(
            "_Divergence between the two above is the maximization bias, made directly visible: "@ + x
                + "._\n\n"@,
            "maximization bias, made directly visible: "@ + x + "._\n\n"@,
        ),
{
    let q = "_Divergence between the two above is the "@;
    let m = "maximization bias, made directly visible: "@ + x + "._\n\n"@;
    let bias = "_Divergence between the two above is the maximization bias, made directly visible: "@
        + x + "._\n\n"@;
    assert("_Divergence between the two above is the maximization bias, made directly visible: "@
        =~= q + "maximization bias, made directly visible: "@) by {
        reveal_strlit(
            "_Divergence between the two above is the maximization bias, made directly visible: ",
        );
        reveal_strlit("_Divergence between the two above is the ");
        reveal_strlit("maximization bias, made directly visible: ");
    }
    assert(bias =~= q + m + Seq::<char>::empty());
    lemma_shows_span(bias, q, m, Seq::empty());
}

/// What a part of what is shown shows is shown.
pub proof fn lemma_shows_through(whole: Seq<char>, part: Seq<char>, piece: Seq<char>)
    requires
        shows(whole, part),
        shows(part, piece),
    ensures
        shows(whole, piece),
{
    let i = choose|i: int| #[trigger] occurs_at(part, piece, i);
    let a = part.subrange(0, i);
    let c = part.subrange(i + piece.len(), part.len() as int);
    assert(part =~= a + piece + c);
    lemma_shows_less(whole, a, piece, c);
}

/// The results name the best experiment and its objective, and beside them what the incumbent
/// gave when it was measured again, the noise of the seeds, and over how many control runs. The
/// bias is shown where both objectives are known.
pub proof fn the_results_show_what_was_measured(
    campaign: ResearchCampaign,
    s: crate::research_campaign::ResearchCampaignStatus,
)
    requires
        campaign.status == Some(s),
    ensures
        shows(
            campaign_results(campaign),
            "**Best Experiment:** "@ + text_or(s.best_experiment, "_not recorded_"@),
        ),
        shows(
            campaign_results(campaign),
            "**Best Objective (biased):** "@ + (match s.best_objective {
                Some(x) => x.fixed4@,
                None => "_not recorded_"@,
            }),
        ),
        shows(
            campaign_results(campaign),
            "**Incumbent Re-measured (unbiased):** "@ + (match s.incumbent_remeasured {
                Some(x) => x.fixed4@,
                None => "_no control runs yet_"@,
            }),
        ),
        shows(
            campaign_results(campaign),
            "**Seed noise (sigma):** "@ + (match s.seed_noise_sigma {
                Some(x) => x.fixed4@,
                None => "_not yet estimated_"@,
            }) + " over "@ + decimal(s.control_runs as nat) + " control run(s)"@,
        ),
        s.best_objective is Some && s.incumbent_remeasured is Some && s.maximization_bias is Some
            ==> shows(
            campaign_results(campaign),
            "maximization bias, made directly visible: "@ + s.maximization_bias->0.fixed4@
                + "._\n\n"@,
        ),
        shows(
            campaign_results_tex(campaign),
            "\\textbf{Best Experiment:} "@ + tex_escaped(
                text_or(s.best_experiment, "not recorded"@),
            ),
        ),
        shows(
            campaign_results_tex(campaign),
            "\\textbf{Best Objective:} "@ + tex_escaped(
                match s.best_objective {
                    Some(x) => x.fixed4@,
                    None => "not recorded"@,
                },
            ),
        ),
{
    let told = s.best_objective is Some && s.incumbent_remeasured is Some
        && s.maximization_bias is Some;
    let bias = "_Divergence between the two above is the maximization bias, made directly visible: "@
        + s.maximization_bias->0.fixed4@ + "._\n\n"@;
    lemma_results_md(
        campaign_results(campaign),
        text_or(s.best_experiment, "_not recorded_"@),
        fixed4_or(s.best_objective, "_not recorded_"@),
        fixed4_or(s.incumbent_remeasured, "_no control runs yet_"@),
        fixed4_or(s.seed_noise_sigma, "_not yet estimated_"@),
        decimal(s.control_runs as nat),
        if told {
            bias
        } else {
            Seq::empty()
        },
    );
    if told {
        lemma_bias(s.maximization_bias->0.fixed4@);
        lemma_shows_through(
            campaign_results(campaign),
            bias,
            "maximization bias, made directly visible: "@ + s.maximization_bias->0.fixed4@
                + "._\n\n"@,
        );
    }
    lemma_results_tex(
        campaign_results_tex(campaign),
        tex_escaped(text_or(s.best_experiment, "not recorded"@)),
        tex_escaped(fixed4_or(s.best_objective, "not recorded"@)),
    );
}

/// A campaign without a status has nothing recorded.
pub proof fn without_a_status_nothing_is_recorded(campaign: ResearchCampaign)
    requires
        campaign.status is None,
    ensures
        shows(campaign_results(campaign), "**Best Experiment:** "@ + "_not recorded_"@),
        shows(campaign_results(campaign), "**Best Objective (biased):** "@ + "_not recorded_"@),
        shows(
            campaign_results(campaign),
            "**Incumbent Re-measured (unbiased):** "@ + "_no control runs yet_"@,
        ),
        shows(campaign_results_tex(campaign), "\\textbf{Best Experiment:} "@ + tex_escaped("not recorded"@)),
{
    lemma_results_md(
        campaign_results(campaign),
        "_not recorded_"@,
        "_not recorded_"@,
        "_no control runs yet_"@,
        "_not yet estimated_"@,
        decimal(0),
        Seq::empty(),
    );
    lemma_results_tex(
        campaign_results_tex(campaign),
        tex_escaped("not recorded"@),
        tex_escaped("not recorded"@),
    );
}

/// The line of an experiment in the journal gives its hypothesis, what it led to and what was
/// decided; its line on reproducibility gives its parameters, where it ran, what it cost and
/// where its provenance lies.
pub proof fn the_journal_and_the_record_go_by_their_labels(e: Experiment, metric: Seq<char>)
    ensures
        exists|o: Seq<char>|
            is_cell_of(objective_of(e, metric), o) && journal_line(e, metric) == "- **"@
                + e.metadata.named() + "**: "@ + e.spec.hypothesis@ + " → objective "@ + #[trigger] seq![
                o,
            ][0] + ", decision "@ + decision_text(e) + "\n"@,
        exists|o: Seq<char>|
            is_cell_of(objective_of(e, metric), o) && journal_item(e, metric)
                == "  \\item \\textbf{"@ + tex_escaped(e.metadata.named()) + "}: "@ + tex_escaped(
                e.spec.hypothesis@,
            ) + " $\\rightarrow$ objective "@ + #[trigger] seq![o][0] + ", decision "@ + tex_escaped(
                decision_text(e),
            ) + "\n"@,
        shows(repro_line(e), "**"@ + e.metadata.named() + "**: params=["@ + params_text(e) + "]"@),
        shows(repro_line(e), " | env="@ + environment_text(e, "_not recorded_"@)),
        shows(repro_line(e), " | cost="@ + cost_text(e, "_not recorded_"@)),
        shows(repro_line(e), " | provenance=`"@ + provenance_text(e, "_not recorded_"@) + "`"@),
        shows(repro_item(e), "params=["@ + typed(tex_escaped(params_text(e))) + "]"@),
        shows(repro_item(e), " | env="@ + tex_escaped(environment_text(e, "not recorded"@))),
        shows(repro_item(e), " | cost="@ + tex_escaped(cost_text(e, "not recorded"@))),
        shows(
            repro_item(e),
            " | provenance="@ + typed(tex_escaped(provenance_text(e, "not recorded"@))),
        ),
{
    broadcast use lemma_glued_push;

    let o = fixed4_or_dash(objective_of(e, metric));
    assert(seq![o][0] == o);
    let r = repro_line(e);
    let n = e.metadata.named();
    let q = params_text(e);
    let v = environment_text(e, "_not recorded_"@);
    let c = cost_text(e, "_not recorded_"@);
    let w = provenance_text(e, "_not recorded_"@);
    let ps = Seq::<Seq<char>>::empty().push("- **"@).push(n).push("**: params=["@).push(q).push("] | env="@).push(v).push(" | cost="@).push(c).push(" | provenance=`"@).push(w).push("`\n"@);
    assert(r == glued(ps));
    assert(shows(r, "**"@ + n + "**: params=["@ + q + "]"@)) by {
        assert(ps.subrange(0, 5) =~= Seq::<Seq<char>>::empty().push("- **"@).push(n).push("**: params=["@).push(q).push("] | env="@));
        lemma_glued_shows(ps, 0, 5);
        assert("] | env="@ =~= "]"@ + " | env="@) by {
            reveal_strlit("] | env=");
            reveal_strlit("]");
            reveal_strlit(" | env=");
        }
        assert("- **"@ + n + "**: params=["@ + q + "] | env="@ =~= ("- **"@ + n + "**: params=["@ + q + "]"@) + " | env="@);
        lemma_shows_less(r, Seq::empty(), "- **"@ + n + "**: params=["@ + q + "]"@, " | env="@);
        assert("- **"@ =~= "- "@ + "**"@) by {
            reveal_strlit("- **");
            reveal_strlit("- ");
            reveal_strlit("**");
        }
        assert("- **"@ + n + "**: params=["@ + q + "]"@ =~= "- "@ + ("**"@ + n + "**: params=["@ + q + "]"@));
        lemma_shows_less(r, "- "@, "**"@ + n + "**: params=["@ + q + "]"@, Seq::empty());
    }
    assert(shows(r, " | env="@ + v)) by {
        assert(ps.subrange(4, 6) =~= Seq::<Seq<char>>::empty().push("] | env="@).push(v));
        lemma_glued_shows(ps, 4, 6);
        assert("] | env="@ =~= "]"@ + " | env="@) by {
            reveal_strlit("] | env=");
            reveal_strlit("]");
            reveal_strlit(" | env=");
        }
        assert("] | env="@ + v =~= "]"@ + (" | env="@ + v));
        lemma_shows_less(r, "]"@, " | env="@ + v, Seq::empty());
    }
    assert(shows(r, " | cost="@ + c)) by {
        assert(ps.subrange(6, 8) =~= Seq::<Seq<char>>::empty().push(" | cost="@).push(c));
        lemma_glued_shows(ps, 6, 8);
    }
    assert(shows(r, " | provenance=`"@ + w + "`"@)) by {
        assert(ps.subrange(8, 11) =~= Seq::<Seq<char>>::empty().push(" | provenance=`"@).push(w).push("`\n"@));
        lemma_glued_shows(ps, 8, 11);
        assert("`\n"@ =~= "`"@ + "\n"@) by {
            reveal_strlit("`\n");
            reveal_strlit("`");
            reveal_strlit("\n");
        }
        assert(" | provenance=`"@ + w + "`\n"@ =~= (" | provenance=`"@ + w + "`"@) + "\n"@);
        lemma_shows_less(r, Seq::empty(), " | provenance=`"@ + w + "`"@, "\n"@);
    }
    let t = repro_item(e);
    let tn = tex_escaped(n);
    let xq = tex_escaped(q);
    let tv = tex_escaped(environment_text(e, "not recorded"@));
    let tc = tex_escaped(cost_text(e, "not recorded"@));
    let xw = tex_escaped(provenance_text(e, "not recorded"@));
    let qs = Seq::<Seq<char>>::empty().push("  \\item \\textbf{"@).push(tn).push("}: params=[\\texttt{"@).push(xq).push("}] | env="@).push(tv).push(" | cost="@).push(tc).push(" | provenance=\\texttt{"@).push(xw).push("}\n"@);
    assert(t == glued(qs));
    assert(shows(t, "params=[\\texttt{"@ + xq + "}]"@)) by {
        assert(qs.subrange(2, 5) =~= Seq::<Seq<char>>::empty().push("}: params=[\\texttt{"@).push(xq).push("}] | env="@));
        lemma_glued_shows(qs, 2, 5);
        assert("}] | env="@ =~= "}]"@ + " | env="@) by {
            reveal_strlit("}] | env=");
            reveal_strlit("}]");
            reveal_strlit(" | env=");
        }
        assert("}: params=[\\texttt{"@ + xq + "}] | env="@ =~= ("}: params=[\\texttt{"@ + xq + "}]"@) + " | env="@);
        lemma_shows_less(t, Seq::empty(), "}: params=[\\texttt{"@ + xq + "}]"@, " | env="@);
        assert("}: params=[\\texttt{"@ =~= "}: "@ + "params=[\\texttt{"@) by {
            reveal_strlit("}: params=[\\texttt{");
            reveal_strlit("}: ");
            reveal_strlit("params=[\\texttt{");
        }
        assert("}: params=[\\texttt{"@ + xq + "}]"@ =~= "}: "@ + ("params=[\\texttt{"@ + xq + "}]"@));
        lemma_shows_less(t, "}: "@, "params=[\\texttt{"@ + xq + "}]"@, Seq::empty());
    }
    assert("params=[\\texttt{"@ + xq + "}]"@ =~= "params=["@ + typed(xq) + "]"@) by {
        reveal_strlit("params=[\\texttt{");
        reveal_strlit("params=[");
        reveal_strlit("\\texttt{");
        reveal_strlit("}]");
        reveal_strlit("}");
        reveal_strlit("]");
    }
    assert(shows(t, " | env="@ + tv)) by {
        assert(qs.subrange(4, 6) =~= Seq::<Seq<char>>::empty().push("}] | env="@).push(tv));
        lemma_glued_shows(qs, 4, 6);
        assert("}] | env="@ =~= "}]"@ + " | env="@) by {
            reveal_strlit("}] | env=");
            reveal_strlit("}]");
            reveal_strlit(" | env=");
        }
        assert("}] | env="@ + tv =~= "}]"@ + (" | env="@ + tv));
        lemma_shows_less(t, "}]"@, " | env="@ + tv, Seq::empty());
    }
    assert(shows(t, " | cost="@ + tc)) by {
        assert(qs.subrange(6, 8) =~= Seq::<Seq<char>>::empty().push(" | cost="@).push(tc));
        lemma_glued_shows(qs, 6, 8);
    }
    assert(shows(t, " | provenance=\\texttt{"@ + xw + "}"@)) by {
        assert(qs.subrange(8, 11) =~= Seq::<Seq<char>>::empty().push(" | provenance=\\texttt{"@).push(xw).push("}\n"@));
        lemma_glued_shows(qs, 8, 11);
        assert("}\n"@ =~= "}"@ + "\n"@) by {
            reveal_strlit("}\n");
            reveal_strlit("}");
            reveal_strlit("\n");
        }
        assert(" | provenance=\\texttt{"@ + xw + "}\n"@ =~= (" | provenance=\\texttt{"@ + xw + "}"@) + "\n"@);
        lemma_shows_less(t, Seq::empty(), " | provenance=\\texttt{"@ + xw + "}"@, "\n"@);
    }
    assert(" | provenance=\\texttt{"@ + xw + "}"@ =~= " | provenance="@ + typed(xw)) by {
        reveal_strlit(" | provenance=\\texttt{");
        reveal_strlit(" | provenance=");
        reveal_strlit("\\texttt{");
    }
}

/// What is said of where an experiment ran names its nodes and its pods, what is said of its cost
/// names its GPU hours and its seconds, and what is not known is said to be missing.
pub proof fn the_record_of_a_run_is_what_was_recorded(e: Experiment, missing: Seq<char>)
    ensures
        e.status is None ==> environment_text(e, missing) == missing && cost_text(e, missing)
            == missing && provenance_text(e, missing) == missing,
        e.status matches Some(s) ==> (s.environment matches Some(v) ==> {
            &&& v.node_names matches Some(nodes) ==> (nodes@.len() > 0 ==> shows(
                environment_text(e, missing),
                "nodes=["@ + joined(nodes.deep_view(), seq![',']) + "]"@,
            ))
            &&& v.pod_names matches Some(pods) ==> (pods@.len() > 0 ==> shows(
                environment_text(e, missing),
                "pods=["@ + joined(pods.deep_view(), seq![',']) + "]"@,
            ))
            &&& (v.node_names is None || v.node_names->0@.len() == 0) && (v.pod_names is None
                || v.pod_names->0@.len() == 0) ==> environment_text(e, missing) == missing
        }),
        e.status matches Some(s) ==> (s.cost matches Some(c) ==> {
            &&& c.gpu_hours matches Some(h) ==> shows(
                cost_text(e, missing),
                "gpu_hours="@ + h.fixed2@,
            )
            &&& c.runtime_seconds matches Some(t) ==> shows(
                cost_text(e, missing),
                "runtime_seconds="@ + signed(t as int),
            )
            &&& c.gpu_hours is None && c.runtime_seconds is None ==> cost_text(e, missing)
                == missing
        }),
        e.status matches Some(s) ==> (s.artifacts matches Some(a) ==> match a.provenance_uri {
            Some(u) => provenance_text(e, missing) == u@,
            None => provenance_text(e, missing) == missing,
        }),
{
    reveal_strlit(",");
    assert(","@ =~= seq![',']);
    if let Some(s) = e.status {
        if let Some(v) = s.environment {
            let x = bracketed("nodes=["@, v.node_names);
            let y = bracketed("pods=["@, v.pod_names);
            let parts = x + y;
            if v.node_names is Some && v.node_names->0@.len() > 0 {
                assert(parts[0] == x[0]);
                lemma_shows_itself(parts[0]);
                lemma_shows_joined(parts, ", "@, 0, parts[0]);
            }
            if v.pod_names is Some && v.pod_names->0@.len() > 0 {
                let k = x.len() as int;
                assert(parts[k] == y[0]);
                lemma_shows_itself(parts[k]);
                lemma_shows_joined(parts, ", "@, k, parts[k]);
            }
        }
        if let Some(c) = s.cost {
            let parts = cost_parts(c);
            if let Some(h) = c.gpu_hours {
                assert(parts[0] == "gpu_hours="@ + h.fixed2@);
                lemma_shows_itself(parts[0]);
                lemma_shows_joined(parts, ", "@, 0, parts[0]);
            }
            if let Some(t) = c.runtime_seconds {
                let k = parts.len() - 1;
                assert(parts[k] == "runtime_seconds="@ + signed(t as int));
                lemma_shows_itself(parts[k]);
                lemma_shows_joined(parts, ", "@, k, parts[k]);
            }
        }
    }
}

/// Where a benchmark run is shown: behind the heading of its experiment, with its name, its phase,
/// a row for each of its metrics and a row for each of its gates.
pub proof fn benchmarks_stand_behind_their_experiment(
    exps: Seq<Experiment>,
    runs: Map<Seq<char>, Seq<BenchmarkRun>>,
    i: int,
    k: int,
)
    requires
        0 <= i < exps.len(),
        runs.contains_key(exps[i].metadata.named()),
        0 <= k < runs[exps[i].metadata.named()].len(),
    ensures
        ({
            let name = exps[i].metadata.named();
            let run = runs[name][k];
            &&& shows(
                benchmarks_text(exps, runs),
                "### Benchmark: "@ + name + "\n\n"@ + rows(
                    runs[name].take(k),
                    |r: BenchmarkRun| run_text(r),
                ) + run_text(run),
            )
            &&& shows(
                benchmarks_tex(exps, runs),
                "\\subsection*{Benchmark: "@ + tex_escaped(name) + "}\n\n"@ + rows(
                    runs[name].take(k),
                    |r: BenchmarkRun| run_tex(r),
                ) + run_tex(run),
            )
        }),
{
    let name = exps[i].metadata.named();
    let f = |r: BenchmarkRun| run_text(r);
    let g = |r: BenchmarkRun| run_tex(r);
    lemma_rows_split(runs[name], f, k);
    lemma_rows_split(runs[name], g, k);
    let h = |e: Experiment| benchmark_text(e, runs);
    let t = |e: Experiment| benchmark_tex(e, runs);
    let a = "### Benchmark: "@ + name + "\n\n"@;
    let b = "\\subsection*{Benchmark: "@ + tex_escaped(name) + "}\n\n"@;
    let x = a + rows(runs[name].take(k), f) + run_text(runs[name][k]);
    let y = b + rows(runs[name].take(k), g) + run_tex(runs[name][k]);
    let v = rows_from(runs[name], f, k + 1);
    let w = rows_from(runs[name], g, k + 1);
    lemma_regroup(a, rows(runs[name].take(k), f), run_text(runs[name][k]), v);
    lemma_regroup(b, rows(runs[name].take(k), g), run_tex(runs[name][k]), w);
    lemma_shows_span(benchmark_text(exps[i], runs), Seq::empty(), x, v);
    lemma_shows_span(benchmark_tex(exps[i], runs), Seq::empty(), y, w);
    lemma_shows_row(exps, h, i, x);
    lemma_shows_row(exps, t, i, y);
}

proof fn lemma_regroup(a: Seq<char>, b: Seq<char>, c: Seq<char>, d: Seq<char>)
    ensures
        a + (b + c + d) == Seq::<char>::empty() + (a + b + c) + d,
{
    assert(a + (b + c + d) =~= Seq::<char>::empty() + (a + b + c) + d);
}

/// The rows from `k` on.
pub open spec fn rows_from<T>(s: Seq<T>, f: spec_fn(T) -> Seq<char>, k: int) -> Seq<char>
    decreases s.len() - k,
{
    if k < 0 || k >= s.len() {
        Seq::empty()
    } else {
        f(s[k]) + rows_from(s, f, k + 1)
    }
}

pub proof fn lemma_rows_split<T>(s: Seq<T>, f: spec_fn(T) -> Seq<char>, k: int)
    requires
        0 <= k < s.len(),
    ensures
        rows(s, f) == rows(s.take(k), f) + f(s[k]) + rows_from(s, f, k + 1),
    decreases s.len() - k,
{
    let t = s.take(k + 1);
    assert(t.drop_last() =~= s.take(k));
    assert(t.last() == s[k]);
    assert(rows(t, f) == rows(s.take(k), f) + f(s[k]));
    if k + 1 < s.len() {
        lemma_rows_split(s, f, k + 1);
        assert(rows(t, f) + f(s[k + 1]) + rows_from(s, f, k + 2) =~= rows(t, f) + rows_from(
            s,
            f,
            k + 1,
        ));
    } else {
        assert(t =~= s);
        assert(rows(t, f) + Seq::<char>::empty() =~= rows(t, f));
    }
}

/// An experiment without benchmark runs has no benchmark heading.
pub proof fn no_runs_no_benchmark(e: Experiment, runs: Map<Seq<char>, Seq<BenchmarkRun>>)
    requires
        !runs.contains_key(e.metadata.named()),
    ensures
        benchmark_text(e, runs).len() == 0,
        benchmark_tex(e, runs).len() == 0,
{
}

/// A run is shown with its name and its phase, with a row for each aggregate and each gate of its
/// status; one without a status has neither.
pub proof fn a_run_shows_its_aggregates_and_gates(run: BenchmarkRun, i: int, j: int)
    ensures
        shows(
            run_text(run),
            "**BenchmarkRun:** `"@ + run.metadata.named() + "`  Phase: `"@ + (match run.status {
                Some(s) => s.phase.named(),
                None => "—"@,
            }) + "`\n\n"@,
        ),
        shows(
            run_tex(run),
            typed(tex_escaped(run.metadata.named())) + "  Phase: "@ + typed(
                tex_escaped(
                    match run.status {
                        Some(s) => s.phase.named(),
                        None => "—"@,
                    },
                ),
            ),
        ),
        run.status matches Some(s) ==> {
            &&& 0 <= i < s.aggregate_metrics.entries().len() ==> shows(
                run_text(run),
                aggregate_row(s.aggregate_metrics.entries()[i]),
            ) && shows(run_tex(run), aggregate_tex(s.aggregate_metrics.entries()[i]))
            &&& 0 <= j < s.gates@.len() ==> shows(run_text(run), gate_row(s.gates@[j])) && shows(
                run_tex(run),
                gate_tex(s.gates@[j]),
            )
        },
{
    let head = "**BenchmarkRun:** `"@ + run.metadata.named() + "`  Phase: `"@ + run_phase_text(run)
        + "`\n\n"@;
    let n = tex_escaped(run.metadata.named());
    let f = tex_escaped(run_phase_text(run));
    let piece = typed(n) + "  Phase: "@ + typed(f);
    let whole = "\\textbf{BenchmarkRun:} \\texttt{"@ + n + "}  Phase: \\texttt{"@ + f + "}\n\n"@;
    assert(shows(whole, piece)) by {
        assert(whole =~= "\\textbf{BenchmarkRun:} "@ + piece + "\n\n"@) by {
            reveal_strlit("\\textbf{BenchmarkRun:} \\texttt{");
            reveal_strlit("\\textbf{BenchmarkRun:} ");
            reveal_strlit("\\texttt{");
            reveal_strlit("}  Phase: \\texttt{");
            reveal_strlit("  Phase: ");
            reveal_strlit("}");
            reveal_strlit("}\n\n");
            reveal_strlit("\n\n");
        }
        lemma_shows_span(whole, "\\textbf{BenchmarkRun:} "@, piece, "\n\n"@);
    }
    let rest = match run.status {
        Some(s) => aggregate_table(s.aggregate_metrics.entries()) + gate_table(s.gates@),
        None => Seq::empty(),
    };
    let tail = match run.status {
        Some(s) => aggregate_table_tex(s.aggregate_metrics.entries()) + gate_table_tex(s.gates@),
        None => Seq::empty(),
    };
    lemma_shows_itself(head);
    lemma_shows_front(head, rest, head);
    lemma_shows_front(whole, tail, piece);
    if let Some(s) = run.status {
        let all = s.aggregate_metrics.entries();
        if 0 <= i < all.len() {
            let x = aggregate_row(all[i]);
            let y = aggregate_tex(all[i]);
            lemma_aggregates_show(all, i);
            lemma_shows_front(aggregate_table(all), gate_table(s.gates@), x);
            lemma_shows_front(aggregate_table_tex(all), gate_table_tex(s.gates@), y);
            lemma_shows_back(head, rest, x);
            lemma_shows_back(whole, tail, y);
        }
        if 0 <= j < s.gates@.len() {
            let x = gate_row(s.gates@[j]);
            let y = gate_tex(s.gates@[j]);
            lemma_gates_show(s.gates@, j);
            lemma_shows_back(aggregate_table(all), gate_table(s.gates@), x);
            lemma_shows_back(aggregate_table_tex(all), gate_table_tex(s.gates@), y);
            lemma_shows_back(head, rest, x);
            lemma_shows_back(whole, tail, y);
        }
    }
}

proof fn lemma_aggregates_show(all: Seq<(Seq<char>, MetricAggregate)>, i: int)
    requires
        0 <= i < all.len(),
    ensures
        shows(aggregate_table(all), aggregate_row(all[i])),
        shows(aggregate_table_tex(all), aggregate_tex(all[i])),
{
    broadcast use lemma_shows_front, lemma_shows_back;

    lemma_shows_itself(aggregate_row(all[i]));
    lemma_shows_itself(aggregate_tex(all[i]));
    lemma_shows_row(
        all,
        |entry: (Seq<char>, MetricAggregate)| aggregate_row(entry),
        i,
        aggregate_row(all[i]),
    );
    lemma_shows_row(
        all,
        |entry: (Seq<char>, MetricAggregate)| aggregate_tex(entry),
        i,
        aggregate_tex(all[i]),
    );
}

proof fn lemma_gates_show(gates: Seq<GateResult>, j: int)
    requires
        0 <= j < gates.len(),
    ensures
        shows(gate_table(gates), gate_row(gates[j])),
        shows(gate_table_tex(gates), gate_tex(gates[j])),
{
    broadcast use lemma_shows_front, lemma_shows_back;

    let g = gates[j];
    lemma_shows_itself(gate_row(g));
    lemma_shows_itself(gate_tex(g));
    lemma_shows_row(gates, |g: GateResult| gate_row(g), j, gate_row(g));
    lemma_shows_row(gates, |g: GateResult| gate_tex(g), j, gate_tex(g));
}

} // verus!

//! The LaTeX dossier as a document: every environment that it opens it closes.

use vstd::prelude::*;
use crate::benchmark_run::{BenchmarkRun, GateResult};
use crate::common::MetricAggregate;
use crate::dossier::citations::{
    cites_at, key_at, key_char, key_end, lemma_key_end, tex_cited_from, uncited,
};
use crate::dossier::curation::{kept, Curation};
use crate::dossier::escape::{tex_char, tex_escaped};
use crate::dossier::forest::{forest, Tree};
use crate::dossier::latex::{
    aggregate_table_tex, aggregate_tex, all_drawn_tex, all_escaped, artifact_index_tex,
    artifact_tex, authored_sections_tex, authored_tex, best_tex, benchmark_tex, benchmarks_tex,
    bib_item, bib_key, bibliography_tex, campaign_results_tex, drawn_tex, experiment_table_tex,
    experiment_tex, experiments_tex, gate_table_tex, gate_tex, is_citable, journal_item,
    journal_tex, labelled_tex, latex, metric_glossary_tex, metric_tex, objective_tex,
    parameter_glossary_tex, parameter_tex, preamble_text, reconciliation_tex, repro_item,
    repro_tex, roles_tex, run_tex, seeds_tex, setup_tex, tree_tex,
};
use crate::dossier::markdown::{dashboard_metrics, keys_line, role_parts, undefined_keys};
use crate::dossier::parts::{objective_of, rows};
use crate::dossier::sensitivity::{
    coordinate, figure_text, param_of, plot_text, points_of, varies_most, Point,
};
use crate::experiment::Experiment;
use crate::experiment_template::{DashboardMetric, ExperimentTemplate, ParameterSpec};
use crate::number::{fixed4_or_dash, Real};
use crate::numeral::decimal;
use crate::order::{sorted, sorting_orders};
use crate::research_campaign::ResearchCampaign;
use crate::research_report::Reference;
use crate::text::joined;

verus! {

// ---------------------------------------------------------------------------
// Counting environments
// ---------------------------------------------------------------------------

/// What the text begins with: the opening of an environment, its closing, or neither.
pub open spec fn mark(s: Seq<char>) -> int {
    if "\\begin{"@.is_prefix_of(s) {
        1
    } else if "\\end{"@.is_prefix_of(s) {
        -1
    } else {
        0
    }
}

/// How many environments the text opens, less how many it closes.
#[verifier::opaque]
pub open spec fn tally(s: Seq<char>) -> int
    decreases s.len(),
{
    if s.len() == 0 {
        0
    } else {
        mark(s) + tally(s.drop_first())
    }
}

/// How often the text holds `p`.
pub open spec fn occurrences(s: Seq<char>, p: Seq<char>) -> nat
    decreases s.len(),
{
    if s.len() == 0 {
        0
    } else {
        occurrences(s.drop_first(), p) + (if p.is_prefix_of(s) {
            1nat
        } else {
            0
        })
    }
}

/// The text opens as many environments as it closes.
pub open spec fn balanced(s: Seq<char>) -> bool {
    occurrences(s, "\\begin{"@) == occurrences(s, "\\end{"@)
}

proof fn lemma_tally_counts(s: Seq<char>)
    ensures
        tally(s) == occurrences(s, "\\begin{"@) - occurrences(s, "\\end{"@),
    decreases s.len(),
{
    reveal_with_fuel(tally, 2);
    if s.len() > 0 {
        lemma_tally_counts(s.drop_first());
        reveal_strlit("\\begin{");
        reveal_strlit("\\end{");
        if "\\begin{"@.is_prefix_of(s) && "\\end{"@.is_prefix_of(s) {
            assert(s[1] == "\\begin{"@[1]);
            assert(s[1] == "\\end{"@[1]);
        }
    }
}

/// The text is the beginning of a mark, and no more.
spec fn cut_short(s: Seq<char>) -> bool {
    &&& s.len() > 0
    &&& (s.len() < "\\begin{"@.len() && s.is_prefix_of("\\begin{"@)) || (s.len() < "\\end{"@.len()
        && s.is_prefix_of("\\end{"@))
}

/// No mark begins in the text that could end behind it.
#[verifier::opaque]
spec fn closed_off(s: Seq<char>) -> bool
    decreases s.len(),
{
    s.len() > 0 ==> !cut_short(s) && closed_off(s.drop_first())
}

/// No mark straddles the end of the text, which opens `n` more environments than it closes.
spec fn poised(s: Seq<char>, n: int) -> bool {
    closed_off(s) && tally(s) == n
}

proof fn lemma_mark_of_concat(a: Seq<char>, b: Seq<char>)
    requires
        a.len() > 0,
        !cut_short(a),
    ensures
        mark(a + b) == mark(a),
        !cut_short(a + b),
{
    let s = a + b;
    let p = "\\begin{"@;
    let q = "\\end{"@;
    assert forall|i: int| 0 <= i < a.len() implies s[i] == a[i] by {}
    if p.is_prefix_of(s) != p.is_prefix_of(a) {
        if p.len() <= a.len() {
            assert(s.take(p.len() as int) =~= a.take(p.len() as int));
        } else {
            assert(p.take(a.len() as int) =~= a);
        }
    }
    if q.is_prefix_of(s) != q.is_prefix_of(a) {
        if q.len() <= a.len() {
            assert(s.take(q.len() as int) =~= a.take(q.len() as int));
        } else {
            assert(q.take(a.len() as int) =~= a);
        }
    }
    if cut_short(s) {
        if s.is_prefix_of(p) && s.len() < p.len() {
            assert(p.take(a.len() as int) =~= a);
        } else {
            assert(q.take(a.len() as int) =~= a);
        }
    }
}

/// What two texts open and close they open and close together.
proof fn lemma_concat(a: Seq<char>, b: Seq<char>)
    requires
        closed_off(a),
    ensures
        tally(a + b) == tally(a) + tally(b),
        closed_off(b) ==> closed_off(a + b),
    decreases a.len(),
{
    reveal_with_fuel(tally, 2);
    reveal_with_fuel(closed_off, 2);
    if a.len() == 0 {
        assert(a + b =~= b);
    } else {
        lemma_mark_of_concat(a, b);
        assert((a + b).drop_first() =~= a.drop_first() + b);
        lemma_concat(a.drop_first(), b);
    }
}

broadcast proof fn lemma_tally_concat(a: Seq<char>, b: Seq<char>)
    requires
        closed_off(a),
    ensures
        #[trigger] tally(a + b) == tally(a) + tally(b),
{
    lemma_concat(a, b);
}

broadcast proof fn lemma_closed_concat(a: Seq<char>, b: Seq<char>)
    requires
        closed_off(a),
        closed_off(b),
    ensures
        #[trigger] closed_off(a + b),
{
    lemma_concat(a, b);
}

// ---------------------------------------------------------------------------
// Texts that open and close nothing
// ---------------------------------------------------------------------------

/// The characters that a mark that is cut short can end in.
spec fn in_mark(c: char) -> bool {
    c == '\\' || c == 'b' || c == 'e' || c == 'g' || c == 'i' || c == 'n' || c == 'd'
}

proof fn lemma_closed_by_last(s: Seq<char>)
    requires
        s.len() > 0,
        !in_mark(s.last()),
    ensures
        closed_off(s),
    decreases s.len(),
{
    reveal_with_fuel(closed_off, 2);
    reveal_strlit("\\begin{");
    reveal_strlit("\\end{");
    if cut_short(s) {
        let k = s.len() - 1;
        if s.is_prefix_of("\\begin{"@) && s.len() < 7 {
            assert(s[k] == "\\begin{"@[k]);
        } else {
            assert(s[k] == "\\end{"@[k]);
        }
    }
    if s.len() > 1 {
        assert(s.drop_first().last() == s.last());
        lemma_closed_by_last(s.drop_first());
    } else {
        assert(s.drop_first() =~= Seq::empty());
    }
}

/// A mark stands nowhere in the text.
spec fn unmarked(s: Seq<char>) -> bool {
    forall|i: int|
        0 <= i < s.len() - 2 && #[trigger] s[i] == '\\' ==> !(s[i + 1] == 'b' && s[i + 2] == 'e')
            && !(s[i + 1] == 'e' && s[i + 2] == 'n')
}

proof fn lemma_unmarked(s: Seq<char>)
    requires
        unmarked(s),
    ensures
        tally(s) == 0,
    decreases s.len(),
{
    reveal_with_fuel(tally, 2);
    reveal_strlit("\\begin{");
    reveal_strlit("\\end{");
    if s.len() > 0 {
        let t = s.drop_first();
        assert forall|i: int| 0 <= i < t.len() - 2 && #[trigger] t[i] == '\\' implies !(t[i + 1]
            == 'b' && t[i + 2] == 'e') && !(t[i + 1] == 'e' && t[i + 2] == 'n') by {
            assert(s[i + 1] == t[i]);
        }
        lemma_unmarked(t);
        if "\\begin{"@.is_prefix_of(s) {
            assert(s[0] == "\\begin{"@[0]);
            assert(s[1] == "\\begin{"@[1]);
            assert(s[2] == "\\begin{"@[2]);
        } else if "\\end{"@.is_prefix_of(s) {
            assert(s[0] == "\\end{"@[0]);
            assert(s[1] == "\\end{"@[1]);
            assert(s[2] == "\\end{"@[2]);
        }
    }
}

proof fn lemma_plain_literal(s: Seq<char>)
    requires
        s.len() > 0,
        !in_mark(s.last()),
        unmarked(s),
    ensures
        poised(s, 0),
{
    lemma_closed_by_last(s);
    lemma_unmarked(s);
}

/// The marks themselves.
proof fn lemma_marks()
    ensures
        poised("\\begin{"@, 1),
        poised("\\end{"@, -1),
{
    reveal_with_fuel(tally, 2);
    let p = "\\begin{"@;
    let q = "\\end{"@;
    assert(closed_off(p) && tally(p.drop_first()) == 0 && mark(p) == 1) by {
        reveal_strlit("\\begin{");
        reveal_strlit("\\end{");
        lemma_closed_by_last(p);
        assert(p.take(7) =~= p);
        lemma_unmarked(p.drop_first());
    }
    assert(closed_off(q) && tally(q.drop_first()) == 0 && mark(q) == -1) by {
        reveal_strlit("\\begin{");
        reveal_strlit("\\end{");
        lemma_closed_by_last(q);
        assert(q.take(5) =~= q);
        assert(q.len() == 5);
        lemma_unmarked(q.drop_first());
    }
    assert(p.len() > 0) by {
        reveal_strlit("\\begin{");
    }
    assert(q.len() > 0) by {
        reveal_strlit("\\end{");
    }
}

/// Every backslash of the text is followed by what begins no mark.
spec fn calm(s: Seq<char>) -> bool {
    forall|i: int|
        0 <= i < s.len() && #[trigger] s[i] == '\\' ==> i + 1 < s.len() && s[i + 1] != 'b' && s[i
            + 1] != 'e'
}

proof fn lemma_calm(s: Seq<char>)
    requires
        calm(s),
    ensures
        poised(s, 0),
    decreases s.len(),
{
    reveal_with_fuel(closed_off, 2);
    assert(unmarked(s));
    lemma_unmarked(s);
    if s.len() > 0 {
        let t = s.drop_first();
        assert forall|i: int| 0 <= i < t.len() && #[trigger] t[i] == '\\' implies i + 1 < t.len()
            && t[i + 1] != 'b' && t[i + 1] != 'e' by {
            assert(s[i + 1] == t[i]);
        }
        lemma_calm(t);
        if cut_short(s) {
            reveal_strlit("\\begin{");
            reveal_strlit("\\end{");
            if s.is_prefix_of("\\begin{"@) && s.len() < 7 {
                assert(s[0] == "\\begin{"@[0]);
                assert(s[1] == "\\begin{"@[1]);
            } else {
                assert(s[0] == "\\end{"@[0]);
                assert(s[1] == "\\end{"@[1]);
            }
        }
    }
}

proof fn lemma_calm_concat(a: Seq<char>, b: Seq<char>)
    requires
        calm(a),
        calm(b),
    ensures
        calm(a + b),
{
    let s = a + b;
    assert forall|i: int| 0 <= i < s.len() && #[trigger] s[i] == '\\' implies i + 1 < s.len()
        && s[i + 1] != 'b' && s[i + 1] != 'e' by {
        if i < a.len() {
            assert(a[i] == '\\');
            assert(s[i + 1] == a[i + 1]);
        } else {
            assert(b[i - a.len()] == '\\');
            assert(s[i + 1] == b[i - a.len() + 1]);
        }
    }
}

proof fn lemma_tex_char(c: char)
    ensures
        calm(tex_char(c)),
{
    reveal_strlit(r"\textbackslash{}");
    reveal_strlit(r"\{");
    reveal_strlit(r"\}");
    reveal_strlit(r"\$");
    reveal_strlit(r"\&");
    reveal_strlit(r"\#");
    reveal_strlit(r"\%");
    reveal_strlit(r"\^{}");
    reveal_strlit(r"\_");
    reveal_strlit(r"\~{}");
}

proof fn lemma_escaped_is_calm(s: Seq<char>)
    ensures
        calm(tex_escaped(s)),
    decreases s.len(),
{
    if s.len() > 0 {
        lemma_escaped_is_calm(s.drop_last());
        lemma_tex_char(s.last());
        lemma_calm_concat(tex_escaped(s.drop_last()), tex_char(s.last()));
    }
}

/// An escaped text opens and closes nothing.
broadcast proof fn lemma_escaped(s: Seq<char>)
    ensures
        poised(#[trigger] tex_escaped(s), 0),
{
    lemma_escaped_is_calm(s);
    lemma_calm(tex_escaped(s));
}

proof fn lemma_key_is_calm(s: Seq<char>, i: int)
    requires
        cites_at(s, i),
    ensures
        calm(key_at(s, i)),
{
    lemma_key_end(s, i + 2);
    let k = key_at(s, i);
    assert forall|j: int| 0 <= j < k.len() implies #[trigger] k[j] != '\\' by {
        assert(k[j] == s[i + 2 + j]);
        assert(key_char(s[i + 2 + j]));
    }
}

proof fn lemma_cited_is_calm(s: Seq<char>, i: int)
    requires
        0 <= i,
    ensures
        calm(tex_cited_from(s, i)),
    decreases s.len() - i,
{
    if i < s.len() {
        if cites_at(s, i) {
            lemma_key_end(s, i + 2);
            lemma_key_is_calm(s, i);
            let rest = tex_cited_from(s, key_end(s, i + 2) + 1);
            lemma_cited_is_calm(s, key_end(s, i + 2) + 1);
            reveal_strlit(r"\cite{");
            lemma_calm_concat(r"\cite{"@, key_at(s, i));
            lemma_calm_concat(r"\cite{"@ + key_at(s, i), seq!['}']);
            lemma_calm_concat(r"\cite{"@ + key_at(s, i) + seq!['}'], rest);
        } else {
            lemma_tex_char(s[i]);
            lemma_cited_is_calm(s, i + 1);
            lemma_calm_concat(tex_char(s[i]), tex_cited_from(s, i + 1));
        }
    }
}

/// An authored text opens and closes nothing.
broadcast proof fn lemma_cited(s: Seq<char>)
    ensures
        poised(#[trigger] tex_cited_from(s, 0), 0),
{
    lemma_cited_is_calm(s, 0);
    lemma_calm(tex_cited_from(s, 0));
}

/// A number opens and closes nothing.
broadcast proof fn lemma_decimal(n: nat)
    ensures
        poised(#[trigger] decimal(n), 0),
{
    lemma_decimal_is_calm(n);
    lemma_calm(decimal(n));
}

proof fn lemma_decimal_is_calm(n: nat)
    ensures
        calm(decimal(n)),
    decreases n,
{
    if n >= 10 {
        lemma_decimal_is_calm(n / 10);
        lemma_calm_concat(decimal(n / 10), seq![crate::numeral::digit_char(n % 10)]);
        assert(decimal(n) =~= decimal(n / 10) + seq![crate::numeral::digit_char(n % 10)]);
    }
}

proof fn lemma_empty()
    ensures
        poised(Seq::<char>::empty(), 0),
        tally(Seq::<char>::empty()) == 0,
        closed_off(Seq::<char>::empty()),
{
    reveal_with_fuel(tally, 2);
    reveal_with_fuel(closed_off, 2);
}

proof fn lemma_dash()
    ensures
        poised("—"@, 0),
{
    reveal_strlit("—");
    lemma_plain_literal("—"@);
}

proof fn lemma_no_backslash(s: Seq<char>)
    requires
        !s.contains('\\'),
    ensures
        poised(s, 0),
{
    broadcast use vstd::seq_lib::group_seq_properties;

    assert(calm(s));
    lemma_calm(s);
}

// ---------------------------------------------------------------------------
// Rows
// ---------------------------------------------------------------------------

proof fn lemma_rows<T>(s: Seq<T>, f: spec_fn(T) -> Seq<char>)
    requires
        forall|i: int| 0 <= i < s.len() ==> poised(f(#[trigger] s[i]), 0),
    ensures
        poised(rows(s, f), 0),
    decreases s.len(),
{
    lemma_empty();
    if s.len() > 0 {
        let t = s.drop_last();
        assert forall|i: int| 0 <= i < t.len() implies poised(f(#[trigger] t[i]), 0) by {
            assert(t[i] == s[i]);
        }
        lemma_rows(t, f);
        assert(poised(f(s[s.len() - 1]), 0));
        lemma_concat(rows(t, f), f(s.last()));
    }
}

// ---------------------------------------------------------------------------
// Numbers
// ---------------------------------------------------------------------------

/// The number is written with digits, signs and letters: none of its forms holds a backslash.
pub open spec fn is_plain(x: Real) -> bool {
    !x.text@.contains('\\') && !x.fixed4@.contains('\\')
}

/// The number, if there is one, is plain.
pub open spec fn plain_if_any(x: Option<Real>) -> bool {
    x matches Some(v) ==> is_plain(v)
}

proof fn lemma_fixed4(x: Option<Real>)
    requires
        plain_if_any(x),
    ensures
        poised(fixed4_or_dash(x), 0),
{
    lemma_dash();
    if let Some(v) = x {
        lemma_no_backslash(v.fixed4@);
    }
}

/// The numbers of an experiment are plain.
pub open spec fn plain_experiment(e: Experiment, metric: Seq<char>) -> bool {
    &&& plain_if_any(objective_of(e, metric))
    &&& forall|key: Seq<char>| plain_if_any(#[trigger] param_of(e, key))
}

/// The numbers of an aggregate are plain.
pub open spec fn plain_aggregate(a: MetricAggregate) -> bool {
    &&& plain_if_any(a.mean)
    &&& plain_if_any(a.std)
    &&& plain_if_any(a.min)
    &&& plain_if_any(a.max)
    &&& plain_if_any(a.ci_low)
    &&& plain_if_any(a.ci_high)
}

/// The numbers of a run are plain.
pub open spec fn plain_run(run: BenchmarkRun) -> bool {
    run.status matches Some(s) ==> {
        &&& forall|i: int|
            0 <= i < s.aggregate_metrics.entries().len() ==> plain_aggregate(
                (#[trigger] s.aggregate_metrics.entries()[i]).1,
            )
        &&& forall|i: int|
            0 <= i < s.gates@.len() ==> is_plain((#[trigger] s.gates@[i]).threshold)
                && plain_if_any(s.gates@[i].actual)
    }
}

/// All the numbers that the dossier writes are plain.
pub open spec fn plain_inputs(
    template: ExperimentTemplate,
    exps: Seq<Experiment>,
    runs: Map<Seq<char>, Seq<BenchmarkRun>>,
) -> bool {
    &&& forall|i: int|
        0 <= i < dashboard_metrics(template).len() ==> plain_if_any(
            (#[trigger] dashboard_metrics(template)[i]).1.baseline,
        )
    &&& forall|i: int|
        0 <= i < exps.len() ==> plain_experiment(
            #[trigger] exps[i],
            template.spec.objective.metric@,
        )
    &&& forall|name: Seq<char>, i: int|
        runs.contains_key(name) && 0 <= i < runs[name].len() ==> plain_run(
            #[trigger] runs[name][i],
        )
}

// ---------------------------------------------------------------------------
// Sections
// ---------------------------------------------------------------------------

/// The words that several sections share.
proof fn lemma_shared_words()
    ensures
        poised("}\n"@, 0),
        poised("\n"@, 0),
        poised("\n\n"@, 0),
        poised("}\n\n"@, 0),
        poised("  \\texttt{"@, 0),
        poised("} & "@, 0),
        poised(" & "@, 0),
        poised(" \\\\\n"@, 0),
        poised("  \\bottomrule\n\\end{tabular}\n\n"@, -1),
        poised("  "@, 0),
        poised(" & \\texttt{"@, 0),
        poised("  \\item \\textbf{"@, 0),
        poised("\\end{itemize}\n\n"@, -1),
{
    broadcast use lemma_tally_concat, lemma_closed_concat;

    assert(poised("}\n"@, 0)) by {
        reveal_strlit("}\n");
        lemma_plain_literal("}\n"@);
    }
    assert(poised("\n"@, 0)) by {
        reveal_strlit("\n");
        lemma_plain_literal("\n"@);
    }
    assert(poised("\n\n"@, 0)) by {
        reveal_strlit("\n\n");
        lemma_plain_literal("\n\n"@);
    }
    assert(poised("}\n\n"@, 0)) by {
        reveal_strlit("}\n\n");
        lemma_plain_literal("}\n\n"@);
    }
    assert(poised("  \\texttt{"@, 0)) by {
        reveal_strlit("  \\texttt{");
        lemma_plain_literal("  \\texttt{"@);
    }
    assert(poised("} & "@, 0)) by {
        reveal_strlit("} & ");
        lemma_plain_literal("} & "@);
    }
    assert(poised(" & "@, 0)) by {
        reveal_strlit(" & ");
        lemma_plain_literal(" & "@);
    }
    assert(poised(" \\\\\n"@, 0)) by {
        reveal_strlit(" \\\\\n");
        lemma_plain_literal(" \\\\\n"@);
    }
    assert(poised("  \\bottomrule\n\\end{tabular}\n\n"@, -1)) by {
        assert(poised("  \\bottomrule\n"@, 0)) by {
            reveal_strlit("  \\bottomrule\n");
            lemma_plain_literal("  \\bottomrule\n"@);
        }
        assert(poised("tabular}\n\n"@, 0)) by {
            reveal_strlit("tabular}\n\n");
            lemma_plain_literal("tabular}\n\n"@);
        }
        lemma_marks();
        assert("  \\bottomrule\n\\end{tabular}\n\n"@ =~= "  \\bottomrule\n"@ + "\\end{"@ + "tabular}\n\n"@) by {
            reveal_strlit("  \\bottomrule\n\\end{tabular}\n\n");
            reveal_strlit("  \\bottomrule\n");
            reveal_strlit("\\end{");
            reveal_strlit("tabular}\n\n");
        }
    }
    assert(poised("  "@, 0)) by {
        reveal_strlit("  ");
        lemma_plain_literal("  "@);
    }
    assert(poised(" & \\texttt{"@, 0)) by {
        reveal_strlit(" & \\texttt{");
        lemma_plain_literal(" & \\texttt{"@);
    }
    assert(poised("  \\item \\textbf{"@, 0)) by {
        reveal_strlit("  \\item \\textbf{");
        lemma_plain_literal("  \\item \\textbf{"@);
    }
    assert(poised("\\end{itemize}\n\n"@, -1)) by {
        assert(poised("itemize}\n\n"@, 0)) by {
            reveal_strlit("itemize}\n\n");
            lemma_plain_literal("itemize}\n\n"@);
        }
        lemma_marks();
        assert("\\end{itemize}\n\n"@ =~= "\\end{"@ + "itemize}\n\n"@) by {
            reveal_strlit("\\end{itemize}\n\n");
            reveal_strlit("\\end{");
            reveal_strlit("itemize}\n\n");
        }
    }
}

proof fn lemma_preamble(campaign_name: Seq<char>, namespace: Seq<char>, included: nat, total: nat, curation: Option<&Curation>)
    ensures
        poised(preamble_text(campaign_name, namespace, included, total, curation), 1),
{
    broadcast use lemma_tally_concat, lemma_closed_concat, lemma_escaped, lemma_cited, lemma_decimal;

    lemma_empty();
    lemma_shared_words();
    assert(poised("\\documentclass{article}\n\\usepackage[T1]{fontenc}\n\\usepackage{booktabs}\n\\usepackage{pgfplots}\n\\pgfplotsset{compat=1.18}\n\\usepackage{hyperref}\n\\usepackage[margin=1in]{geometry}\n\\title{"@, 0)) by {
        reveal_strlit("\\documentclass{article}\n\\usepackage[T1]{fontenc}\n\\usepackage{booktabs}\n\\usepackage{pgfplots}\n\\pgfplotsset{compat=1.18}\n\\usepackage{hyperref}\n\\usepackage[margin=1in]{geometry}\n\\title{");
        lemma_plain_literal("\\documentclass{article}\n\\usepackage[T1]{fontenc}\n\\usepackage{booktabs}\n\\usepackage{pgfplots}\n\\pgfplotsset{compat=1.18}\n\\usepackage{hyperref}\n\\usepackage[margin=1in]{geometry}\n\\title{"@);
    }
    assert(poised("}\n\\author{Athena autonomous research platform}\n\\date{\\today}\n\\begin{document}\n\\maketitle\n\n\\noindent\\textit{Campaign: "@, 1)) by {
        assert(poised("}\n\\author{Athena autonomous research platform}\n\\date{\\today}\n"@, 0)) by {
            reveal_strlit("}\n\\author{Athena autonomous research platform}\n\\date{\\today}\n");
            lemma_plain_literal("}\n\\author{Athena autonomous research platform}\n\\date{\\today}\n"@);
        }
        assert(poised("document}\n\\maketitle\n\n\\noindent\\textit{Campaign: "@, 0)) by {
            reveal_strlit("document}\n\\maketitle\n\n\\noindent\\textit{Campaign: ");
            lemma_plain_literal("document}\n\\maketitle\n\n\\noindent\\textit{Campaign: "@);
        }
        lemma_marks();
        assert("}\n\\author{Athena autonomous research platform}\n\\date{\\today}\n\\begin{document}\n\\maketitle\n\n\\noindent\\textit{Campaign: "@ =~= "}\n\\author{Athena autonomous research platform}\n\\date{\\today}\n"@ + "\\begin{"@ + "document}\n\\maketitle\n\n\\noindent\\textit{Campaign: "@) by {
            reveal_strlit("}\n\\author{Athena autonomous research platform}\n\\date{\\today}\n\\begin{document}\n\\maketitle\n\n\\noindent\\textit{Campaign: ");
            reveal_strlit("}\n\\author{Athena autonomous research platform}\n\\date{\\today}\n");
            reveal_strlit("\\begin{");
            reveal_strlit("document}\n\\maketitle\n\n\\noindent\\textit{Campaign: ");
        }
    }
    assert(poised(" \\textperiodcentered{} Namespace: "@, 0)) by {
        reveal_strlit(" \\textperiodcentered{} Namespace: ");
        lemma_plain_literal(" \\textperiodcentered{} Namespace: "@);
    }
    assert(poised("\\\\\\textit{Curated: "@, 0)) by {
        reveal_strlit("\\\\\\textit{Curated: ");
        lemma_plain_literal("\\\\\\textit{Curated: "@);
    }
    assert(poised(" of "@, 0)) by {
        reveal_strlit(" of ");
        lemma_plain_literal(" of "@);
    }
    assert(poised(" experiments}\n"@, 0)) by {
        reveal_strlit(" experiments}\n");
        lemma_plain_literal(" experiments}\n"@);
    }
}

proof fn lemma_objective(template: ExperimentTemplate)
    ensures
        poised(objective_tex(template), 0),
{
    broadcast use lemma_tally_concat, lemma_closed_concat, lemma_escaped, lemma_cited, lemma_decimal;

    lemma_shared_words();
    assert(poised("\\section{Research Objective}\n\n"@, 0)) by {
        reveal_strlit("\\section{Research Objective}\n\n");
        lemma_plain_literal("\\section{Research Objective}\n\n"@);
    }
    assert(poised("\\textit{not recorded}"@, 0)) by {
        reveal_strlit("\\textit{not recorded}");
        lemma_plain_literal("\\textit{not recorded}"@);
    }
}

proof fn lemma_authored(entry: (Seq<char>, String))
    ensures
        poised(authored_tex(entry), 0),
{
    broadcast use lemma_tally_concat, lemma_closed_concat, lemma_escaped, lemma_cited, lemma_decimal;

    lemma_shared_words();
    assert(poised("\\section{"@, 0)) by {
        reveal_strlit("\\section{");
        lemma_plain_literal("\\section{"@);
    }
}

proof fn lemma_authored_sections(curation: Option<&Curation>)
    ensures
        poised(authored_sections_tex(curation), 0),
{
    lemma_empty();
    if let Some(c) = curation {
        let f = |entry: (Seq<char>, String)| authored_tex(entry);
        assert forall|i: int| 0 <= i < c.sections.entries().len() implies poised(
            f(#[trigger] c.sections.entries()[i]),
            0,
        ) by {
            lemma_authored(c.sections.entries()[i]);
        }
        lemma_rows(c.sections.entries(), f);
    }
}

proof fn lemma_setup(campaign: ResearchCampaign, template: ExperimentTemplate)
    ensures
        poised(setup_tex(campaign, template), 0),
{
    broadcast use lemma_tally_concat, lemma_closed_concat, lemma_escaped, lemma_cited, lemma_decimal;

    lemma_empty();
    lemma_goal(template);
    lemma_shared_words();
    assert(poised("\\section{Method \\& Setup}\n\n\\subsection*{Source}\n\\begin{itemize}\n  \\item URL: \\texttt{"@, 1)) by {
        assert(poised("\\section{Method \\& Setup}\n\n\\subsection*{Source}\n"@, 0)) by {
            reveal_strlit("\\section{Method \\& Setup}\n\n\\subsection*{Source}\n");
            lemma_plain_literal("\\section{Method \\& Setup}\n\n\\subsection*{Source}\n"@);
        }
        assert(poised("itemize}\n  \\item URL: \\texttt{"@, 0)) by {
            reveal_strlit("itemize}\n  \\item URL: \\texttt{");
            lemma_plain_literal("itemize}\n  \\item URL: \\texttt{"@);
        }
        lemma_marks();
        assert("\\section{Method \\& Setup}\n\n\\subsection*{Source}\n\\begin{itemize}\n  \\item URL: \\texttt{"@ =~= "\\section{Method \\& Setup}\n\n\\subsection*{Source}\n"@ + "\\begin{"@ + "itemize}\n  \\item URL: \\texttt{"@) by {
            reveal_strlit("\\section{Method \\& Setup}\n\n\\subsection*{Source}\n\\begin{itemize}\n  \\item URL: \\texttt{");
            reveal_strlit("\\section{Method \\& Setup}\n\n\\subsection*{Source}\n");
            reveal_strlit("\\begin{");
            reveal_strlit("itemize}\n  \\item URL: \\texttt{");
        }
    }
    assert(poised("}\n  \\item Ref: \\texttt{"@, 0)) by {
        reveal_strlit("}\n  \\item Ref: \\texttt{");
        lemma_plain_literal("}\n  \\item Ref: \\texttt{"@);
    }
    assert(poised("  \\item Commit: \\texttt{"@, 0)) by {
        reveal_strlit("  \\item Commit: \\texttt{");
        lemma_plain_literal("  \\item Commit: \\texttt{"@);
    }
    assert(poised("\\end{itemize}\n\n\\subsection*{Objective}\n\\begin{itemize}\n  \\item Metric: \\texttt{"@, 0)) by {
        assert(poised("itemize}\n\n\\subsection*{Objective}\n"@, 0)) by {
            reveal_strlit("itemize}\n\n\\subsection*{Objective}\n");
            lemma_plain_literal("itemize}\n\n\\subsection*{Objective}\n"@);
        }
        assert(poised("itemize}\n  \\item Metric: \\texttt{"@, 0)) by {
            reveal_strlit("itemize}\n  \\item Metric: \\texttt{");
            lemma_plain_literal("itemize}\n  \\item Metric: \\texttt{"@);
        }
        lemma_marks();
        assert("\\end{itemize}\n\n\\subsection*{Objective}\n\\begin{itemize}\n  \\item Metric: \\texttt{"@ =~= "\\end{"@ + "itemize}\n\n\\subsection*{Objective}\n"@ + "\\begin{"@ + "itemize}\n  \\item Metric: \\texttt{"@) by {
            reveal_strlit("\\end{itemize}\n\n\\subsection*{Objective}\n\\begin{itemize}\n  \\item Metric: \\texttt{");
            reveal_strlit("\\end{");
            reveal_strlit("itemize}\n\n\\subsection*{Objective}\n");
            reveal_strlit("\\begin{");
            reveal_strlit("itemize}\n  \\item Metric: \\texttt{");
        }
    }
    assert(poised("}\n  \\item Goal: \\texttt{"@, 0)) by {
        reveal_strlit("}\n  \\item Goal: \\texttt{");
        lemma_plain_literal("}\n  \\item Goal: \\texttt{"@);
    }
    assert(poised("}\n\\end{itemize}\n\n\\subsection*{Strategy \\& Budget}\n\\begin{itemize}\n  \\item Strategy: \\texttt{"@, 0)) by {
        assert(poised("}\n"@, 0)) by {
            reveal_strlit("}\n");
            lemma_plain_literal("}\n"@);
        }
        assert(poised("itemize}\n\n\\subsection*{Strategy \\& Budget}\n"@, 0)) by {
            reveal_strlit("itemize}\n\n\\subsection*{Strategy \\& Budget}\n");
            lemma_plain_literal("itemize}\n\n\\subsection*{Strategy \\& Budget}\n"@);
        }
        assert(poised("itemize}\n  \\item Strategy: \\texttt{"@, 0)) by {
            reveal_strlit("itemize}\n  \\item Strategy: \\texttt{");
            lemma_plain_literal("itemize}\n  \\item Strategy: \\texttt{"@);
        }
        lemma_marks();
        assert("}\n\\end{itemize}\n\n\\subsection*{Strategy \\& Budget}\n\\begin{itemize}\n  \\item Strategy: \\texttt{"@ =~= "}\n"@ + "\\end{"@ + "itemize}\n\n\\subsection*{Strategy \\& Budget}\n"@ + "\\begin{"@ + "itemize}\n  \\item Strategy: \\texttt{"@) by {
            reveal_strlit("}\n\\end{itemize}\n\n\\subsection*{Strategy \\& Budget}\n\\begin{itemize}\n  \\item Strategy: \\texttt{");
            reveal_strlit("}\n");
            reveal_strlit("\\end{");
            reveal_strlit("itemize}\n\n\\subsection*{Strategy \\& Budget}\n");
            reveal_strlit("\\begin{");
            reveal_strlit("itemize}\n  \\item Strategy: \\texttt{");
        }
    }
    assert(poised("}\n  \\item Max experiments: "@, 0)) by {
        reveal_strlit("}\n  \\item Max experiments: ");
        lemma_plain_literal("}\n  \\item Max experiments: "@);
    }
    assert(poised("\n  \\item Max duration: \\texttt{"@, 0)) by {
        reveal_strlit("\n  \\item Max duration: \\texttt{");
        lemma_plain_literal("\n  \\item Max duration: \\texttt{"@);
    }
    assert(poised("}\n\\end{itemize}\n\n"@, -1)) by {
        assert(poised("}\n"@, 0)) by {
            reveal_strlit("}\n");
            lemma_plain_literal("}\n"@);
        }
        assert(poised("itemize}\n\n"@, 0)) by {
            reveal_strlit("itemize}\n\n");
            lemma_plain_literal("itemize}\n\n"@);
        }
        lemma_marks();
        assert("}\n\\end{itemize}\n\n"@ =~= "}\n"@ + "\\end{"@ + "itemize}\n\n"@) by {
            reveal_strlit("}\n\\end{itemize}\n\n");
            reveal_strlit("}\n");
            reveal_strlit("\\end{");
            reveal_strlit("itemize}\n\n");
        }
    }
}

proof fn lemma_goal(template: ExperimentTemplate)
    ensures
        poised(template.spec.objective.goal.named(), 0),
{
    reveal_strlit("Maximize");
    reveal_strlit("Minimize");
    lemma_no_backslash(template.spec.objective.goal.named());
}

proof fn lemma_parameter(entry: (Seq<char>, ParameterSpec))
    ensures
        poised(parameter_tex(entry), 0),
{
    broadcast use lemma_tally_concat, lemma_closed_concat, lemma_escaped, lemma_cited, lemma_decimal;

    lemma_shared_words();
}

proof fn lemma_parameter_glossary(template: ExperimentTemplate)
    ensures
        poised(parameter_glossary_tex(template), 0),
{
    broadcast use lemma_tally_concat, lemma_closed_concat, lemma_escaped, lemma_cited, lemma_decimal;

    lemma_empty();
    let all = template.spec.parameter_schema.entries();
    let f = |x: (Seq<char>, ParameterSpec)| parameter_tex(x);
    assert forall|i: int| 0 <= i < all.len() implies poised(f(#[trigger] all[i]), 0) by {
        lemma_parameter(all[i]);
    }
    lemma_rows(all, f);
    lemma_shared_words();
    assert(poised("\\subsection*{Parameter Glossary}\n\\begin{tabular}{l l p{7cm}}\n  \\toprule\n  Name & Type & Description \\\\\n  \\midrule\n"@, 1)) by {
        assert(poised("\\subsection*{Parameter Glossary}\n"@, 0)) by {
            reveal_strlit("\\subsection*{Parameter Glossary}\n");
            lemma_plain_literal("\\subsection*{Parameter Glossary}\n"@);
        }
        assert(poised("tabular}{l l p{7cm}}\n  \\toprule\n  Name & Type & Description \\\\\n  \\midrule\n"@, 0)) by {
            reveal_strlit("tabular}{l l p{7cm}}\n  \\toprule\n  Name & Type & Description \\\\\n  \\midrule\n");
            lemma_plain_literal("tabular}{l l p{7cm}}\n  \\toprule\n  Name & Type & Description \\\\\n  \\midrule\n"@);
        }
        lemma_marks();
        assert("\\subsection*{Parameter Glossary}\n\\begin{tabular}{l l p{7cm}}\n  \\toprule\n  Name & Type & Description \\\\\n  \\midrule\n"@ =~= "\\subsection*{Parameter Glossary}\n"@ + "\\begin{"@ + "tabular}{l l p{7cm}}\n  \\toprule\n  Name & Type & Description \\\\\n  \\midrule\n"@) by {
            reveal_strlit("\\subsection*{Parameter Glossary}\n\\begin{tabular}{l l p{7cm}}\n  \\toprule\n  Name & Type & Description \\\\\n  \\midrule\n");
            reveal_strlit("\\subsection*{Parameter Glossary}\n");
            reveal_strlit("\\begin{");
            reveal_strlit("tabular}{l l p{7cm}}\n  \\toprule\n  Name & Type & Description \\\\\n  \\midrule\n");
        }
    }
}

proof fn lemma_metric(entry: (Seq<char>, DashboardMetric))
    requires
        plain_if_any(entry.1.baseline),
    ensures
        poised(metric_tex(entry), 0),
{
    broadcast use lemma_tally_concat, lemma_closed_concat, lemma_escaped, lemma_cited, lemma_decimal;

    lemma_dash();
    if let Some(b) = entry.1.baseline {
        lemma_no_backslash(b.text@);
    }
    lemma_shared_words();
}

proof fn lemma_metric_glossary(template: ExperimentTemplate)
    requires
        forall|i: int|
            0 <= i < dashboard_metrics(template).len() ==> plain_if_any(
                (#[trigger] dashboard_metrics(template)[i]).1.baseline,
            ),
    ensures
        poised(metric_glossary_tex(template), 0),
{
    broadcast use lemma_tally_concat, lemma_closed_concat, lemma_escaped, lemma_cited, lemma_decimal;

    lemma_empty();
    let all = dashboard_metrics(template);
    let f = |x: (Seq<char>, DashboardMetric)| metric_tex(x);
    assert forall|i: int| 0 <= i < all.len() implies poised(f(#[trigger] all[i]), 0) by {
        lemma_metric(all[i]);
    }
    lemma_rows(all, f);
    lemma_shared_words();
    assert(poised("\\subsection*{Metric Glossary}\n\\begin{tabular}{l l l p{4cm} r}\n  \\toprule\n  Name & Label & Unit & Description & Baseline \\\\\n  \\midrule\n"@, 1)) by {
        assert(poised("\\subsection*{Metric Glossary}\n"@, 0)) by {
            reveal_strlit("\\subsection*{Metric Glossary}\n");
            lemma_plain_literal("\\subsection*{Metric Glossary}\n"@);
        }
        assert(poised("tabular}{l l l p{4cm} r}\n  \\toprule\n  Name & Label & Unit & Description & Baseline \\\\\n  \\midrule\n"@, 0)) by {
            reveal_strlit("tabular}{l l l p{4cm} r}\n  \\toprule\n  Name & Label & Unit & Description & Baseline \\\\\n  \\midrule\n");
            lemma_plain_literal("tabular}{l l l p{4cm} r}\n  \\toprule\n  Name & Label & Unit & Description & Baseline \\\\\n  \\midrule\n"@);
        }
        lemma_marks();
        assert("\\subsection*{Metric Glossary}\n\\begin{tabular}{l l l p{4cm} r}\n  \\toprule\n  Name & Label & Unit & Description & Baseline \\\\\n  \\midrule\n"@ =~= "\\subsection*{Metric Glossary}\n"@ + "\\begin{"@ + "tabular}{l l l p{4cm} r}\n  \\toprule\n  Name & Label & Unit & Description & Baseline \\\\\n  \\midrule\n"@) by {
            reveal_strlit("\\subsection*{Metric Glossary}\n\\begin{tabular}{l l l p{4cm} r}\n  \\toprule\n  Name & Label & Unit & Description & Baseline \\\\\n  \\midrule\n");
            reveal_strlit("\\subsection*{Metric Glossary}\n");
            reveal_strlit("\\begin{");
            reveal_strlit("tabular}{l l l p{4cm} r}\n  \\toprule\n  Name & Label & Unit & Description & Baseline \\\\\n  \\midrule\n");
        }
    }
}

proof fn lemma_experiment(number: nat, e: Experiment, metric: Seq<char>)
    requires
        plain_if_any(objective_of(e, metric)),
    ensures
        poised(experiment_tex(number, e, metric), 0),
{
    broadcast use lemma_tally_concat, lemma_closed_concat, lemma_escaped, lemma_cited, lemma_decimal;

    lemma_fixed4(objective_of(e, metric));
    lemma_shared_words();
}

proof fn lemma_experiments(exps: Seq<Experiment>, metric: Seq<char>)
    requires
        forall|i: int| 0 <= i < exps.len() ==> plain_experiment(#[trigger] exps[i], metric),
    ensures
        poised(experiments_tex(exps, metric), 0),
    decreases exps.len(),
{
    lemma_empty();
    if exps.len() > 0 {
        let t = exps.drop_last();
        assert forall|i: int| 0 <= i < t.len() implies plain_experiment(#[trigger] t[i], metric) by {
            assert(t[i] == exps[i]);
        }
        lemma_experiments(t, metric);
        assert(plain_experiment(exps[exps.len() - 1], metric));
        lemma_experiment(exps.len(), exps.last(), metric);
        lemma_concat(experiments_tex(t, metric), experiment_tex(exps.len(), exps.last(), metric));
    }
}

proof fn lemma_experiment_table(exps: Seq<Experiment>, metric: Seq<char>)
    requires
        forall|i: int| 0 <= i < exps.len() ==> plain_experiment(#[trigger] exps[i], metric),
    ensures
        poised(experiment_table_tex(exps, metric), 0),
{
    broadcast use lemma_tally_concat, lemma_closed_concat, lemma_escaped, lemma_cited, lemma_decimal;

    lemma_experiments(exps, metric);
    lemma_shared_words();
    assert(poised("\\section{Experiments}\n\n\\begin{tabular}{r l p{4cm} p{3.5cm} r l l}\n  \\toprule\n  \\# & Name & Hypothesis & Parameters & Objective Value & Phase & Decision \\\\\n  \\midrule\n"@, 1)) by {
        assert(poised("\\section{Experiments}\n\n"@, 0)) by {
            reveal_strlit("\\section{Experiments}\n\n");
            lemma_plain_literal("\\section{Experiments}\n\n"@);
        }
        assert(poised("tabular}{r l p{4cm} p{3.5cm} r l l}\n  \\toprule\n  \\# & Name & Hypothesis & Parameters & Objective Value & Phase & Decision \\\\\n  \\midrule\n"@, 0)) by {
            reveal_strlit("tabular}{r l p{4cm} p{3.5cm} r l l}\n  \\toprule\n  \\# & Name & Hypothesis & Parameters & Objective Value & Phase & Decision \\\\\n  \\midrule\n");
            lemma_plain_literal("tabular}{r l p{4cm} p{3.5cm} r l l}\n  \\toprule\n  \\# & Name & Hypothesis & Parameters & Objective Value & Phase & Decision \\\\\n  \\midrule\n"@);
        }
        lemma_marks();
        assert("\\section{Experiments}\n\n\\begin{tabular}{r l p{4cm} p{3.5cm} r l l}\n  \\toprule\n  \\# & Name & Hypothesis & Parameters & Objective Value & Phase & Decision \\\\\n  \\midrule\n"@ =~= "\\section{Experiments}\n\n"@ + "\\begin{"@ + "tabular}{r l p{4cm} p{3.5cm} r l l}\n  \\toprule\n  \\# & Name & Hypothesis & Parameters & Objective Value & Phase & Decision \\\\\n  \\midrule\n"@) by {
            reveal_strlit("\\section{Experiments}\n\n\\begin{tabular}{r l p{4cm} p{3.5cm} r l l}\n  \\toprule\n  \\# & Name & Hypothesis & Parameters & Objective Value & Phase & Decision \\\\\n  \\midrule\n");
            reveal_strlit("\\section{Experiments}\n\n");
            reveal_strlit("\\begin{");
            reveal_strlit("tabular}{r l p{4cm} p{3.5cm} r l l}\n  \\toprule\n  \\# & Name & Hypothesis & Parameters & Objective Value & Phase & Decision \\\\\n  \\midrule\n");
        }
    }
}

proof fn lemma_drawn(t: Tree, pad: Seq<char>)
    requires
        poised(pad, 0),
    ensures
        poised(drawn_tex(t, pad), 0),
    decreases t,
{
    broadcast use lemma_tally_concat, lemma_closed_concat, lemma_escaped;

    assert(poised("\\hspace*{1em}"@, 0)) by {
        reveal_strlit("\\hspace*{1em}");
        lemma_plain_literal("\\hspace*{1em}"@);
    }
    assert(poised("\\texttt{"@, 0)) by {
        reveal_strlit("\\texttt{");
        lemma_plain_literal("\\texttt{"@);
    }
    assert(poised("} \\\\\n"@, 0)) by {
        reveal_strlit("} \\\\\n");
        lemma_plain_literal("} \\\\\n"@);
    }
    lemma_all_drawn(t.children, pad + "\\hspace*{1em}"@);
}

proof fn lemma_all_drawn(ts: Seq<Tree>, pad: Seq<char>)
    requires
        poised(pad, 0),
    ensures
        poised(all_drawn_tex(ts, pad), 0),
    decreases ts,
{
    broadcast use lemma_tally_concat, lemma_closed_concat;

    lemma_empty();
    if ts.len() > 0 {
        lemma_all_drawn(ts.drop_last(), pad);
        lemma_drawn(ts[ts.len() - 1], pad);
    }
}

proof fn lemma_roles(exps: Seq<Experiment>)
    ensures
        poised(roles_tex(exps), 0),
{
    broadcast use lemma_tally_concat, lemma_closed_concat;

    lemma_empty();
    lemma_shared_words();
    assert(poised("\\textbf{Node roles:} "@, 0)) by {
        reveal_strlit("\\textbf{Node roles:} ");
        lemma_plain_literal("\\textbf{Node roles:} "@);
    }
    assert(poised(" \\textperiodcentered{} "@, 0)) by {
        reveal_strlit(" \\textperiodcentered{} ");
        lemma_plain_literal(" \\textperiodcentered{} "@);
    }
    lemma_all_escaped(role_parts(exps), " \\textperiodcentered{} "@);
}

proof fn lemma_tree_section(exps: Seq<Experiment>)
    ensures
        poised(tree_tex(exps), 0),
{
    broadcast use lemma_tally_concat, lemma_closed_concat;

    lemma_empty();
    lemma_all_drawn(forest(exps), Seq::empty());
    lemma_roles(exps);
    assert(poised("\\section{Search Tree}\n\n"@, 0)) by {
        reveal_strlit("\\section{Search Tree}\n\n");
        lemma_plain_literal("\\section{Search Tree}\n\n"@);
    }
    assert(poised("\\textit{No lineage recorded — these experiments predate \\texttt{spec.lineage}.}\n\n"@, 0)) by {
        reveal_strlit("\\textit{No lineage recorded — these experiments predate \\texttt{spec.lineage}.}\n\n");
        lemma_plain_literal("\\textit{No lineage recorded — these experiments predate \\texttt{spec.lineage}.}\n\n"@);
    }
    assert(poised("\\begin{flushleft}\n"@, 1)) by {
        assert(poised("flushleft}\n"@, 0)) by {
            reveal_strlit("flushleft}\n");
            lemma_plain_literal("flushleft}\n"@);
        }
        lemma_marks();
        assert("\\begin{flushleft}\n"@ =~= "\\begin{"@ + "flushleft}\n"@) by {
            reveal_strlit("\\begin{flushleft}\n");
            reveal_strlit("\\begin{");
            reveal_strlit("flushleft}\n");
        }
    }
    assert(poised("\\end{flushleft}\n\n"@, -1)) by {
        assert(poised("flushleft}\n\n"@, 0)) by {
            reveal_strlit("flushleft}\n\n");
            lemma_plain_literal("flushleft}\n\n"@);
        }
        lemma_marks();
        assert("\\end{flushleft}\n\n"@ =~= "\\end{"@ + "flushleft}\n\n"@) by {
            reveal_strlit("\\end{flushleft}\n\n");
            reveal_strlit("\\end{");
            reveal_strlit("flushleft}\n\n");
        }
    }
}

proof fn lemma_best(experiment: Option<String>, objective: Option<Real>)
    ensures
        poised(best_tex(experiment, objective), 0),
{
    broadcast use lemma_tally_concat, lemma_closed_concat, lemma_escaped, lemma_cited, lemma_decimal;

    lemma_shared_words();
    assert(poised("\\section{Results}\n\n\\textbf{Best Experiment:} "@, 0)) by {
        reveal_strlit("\\section{Results}\n\n\\textbf{Best Experiment:} ");
        lemma_plain_literal("\\section{Results}\n\n\\textbf{Best Experiment:} "@);
    }
    assert(poised("\n\n\\textbf{Best Objective:} "@, 0)) by {
        reveal_strlit("\n\n\\textbf{Best Objective:} ");
        lemma_plain_literal("\n\n\\textbf{Best Objective:} "@);
    }
}

proof fn lemma_results(campaign: ResearchCampaign)
    ensures
        poised(campaign_results_tex(campaign), 0),
{
    match campaign.status {
        Some(s) => {
            lemma_best(s.best_experiment, s.best_objective);
        },
        None => {
            lemma_best(None, None);
        },
    }
}

proof fn lemma_aggregate(entry: (Seq<char>, MetricAggregate))
    requires
        plain_aggregate(entry.1),
    ensures
        poised(aggregate_tex(entry), 0),
{
    broadcast use lemma_tally_concat, lemma_closed_concat, lemma_escaped, lemma_cited, lemma_decimal;

    let a = entry.1;
    lemma_dash();
    lemma_fixed4(a.mean);
    lemma_fixed4(a.std);
    lemma_fixed4(a.min);
    lemma_fixed4(a.max);
    lemma_fixed4(a.ci_low);
    lemma_fixed4(a.ci_high);
    lemma_shared_words();
}

proof fn lemma_aggregate_table(all: Seq<(Seq<char>, MetricAggregate)>)
    requires
        forall|i: int| 0 <= i < all.len() ==> plain_aggregate((#[trigger] all[i]).1),
    ensures
        poised(aggregate_table_tex(all), 0),
{
    broadcast use lemma_tally_concat, lemma_closed_concat, lemma_escaped, lemma_cited, lemma_decimal;

    lemma_empty();
    let f = |x: (Seq<char>, MetricAggregate)| aggregate_tex(x);
    assert forall|i: int| 0 <= i < all.len() implies poised(f(#[trigger] all[i]), 0) by {
        lemma_aggregate(all[i]);
    }
    lemma_rows(all, f);
    lemma_shared_words();
    assert(poised("\\begin{tabular}{l r r r r r r r}\n  \\toprule\n  Metric & Mean & Std & Min & Max & Count & CI Low & CI High \\\\\n  \\midrule\n"@, 1)) by {
        assert(poised("tabular}{l r r r r r r r}\n  \\toprule\n  Metric & Mean & Std & Min & Max & Count & CI Low & CI High \\\\\n  \\midrule\n"@, 0)) by {
            reveal_strlit("tabular}{l r r r r r r r}\n  \\toprule\n  Metric & Mean & Std & Min & Max & Count & CI Low & CI High \\\\\n  \\midrule\n");
            lemma_plain_literal("tabular}{l r r r r r r r}\n  \\toprule\n  Metric & Mean & Std & Min & Max & Count & CI Low & CI High \\\\\n  \\midrule\n"@);
        }
        lemma_marks();
        assert("\\begin{tabular}{l r r r r r r r}\n  \\toprule\n  Metric & Mean & Std & Min & Max & Count & CI Low & CI High \\\\\n  \\midrule\n"@ =~= "\\begin{"@ + "tabular}{l r r r r r r r}\n  \\toprule\n  Metric & Mean & Std & Min & Max & Count & CI Low & CI High \\\\\n  \\midrule\n"@) by {
            reveal_strlit("\\begin{tabular}{l r r r r r r r}\n  \\toprule\n  Metric & Mean & Std & Min & Max & Count & CI Low & CI High \\\\\n  \\midrule\n");
            reveal_strlit("\\begin{");
            reveal_strlit("tabular}{l r r r r r r r}\n  \\toprule\n  Metric & Mean & Std & Min & Max & Count & CI Low & CI High \\\\\n  \\midrule\n");
        }
    }
}

proof fn lemma_gate(g: GateResult)
    requires
        is_plain(g.threshold),
        plain_if_any(g.actual),
    ensures
        poised(gate_tex(g), 0),
{
    broadcast use lemma_tally_concat, lemma_closed_concat, lemma_escaped, lemma_cited, lemma_decimal;

    lemma_no_backslash(g.threshold.fixed4@);
    lemma_fixed4(g.actual);
    lemma_shared_words();
    assert(poised("Yes"@, 0)) by {
        reveal_strlit("Yes");
        lemma_plain_literal("Yes"@);
    }
    assert(poised("No"@, 0)) by {
        reveal_strlit("No");
        lemma_plain_literal("No"@);
    }
}

proof fn lemma_gate_table(all: Seq<GateResult>)
    requires
        forall|i: int| 0 <= i < all.len() ==> is_plain((#[trigger] all[i]).threshold) && plain_if_any(all[i].actual),
    ensures
        poised(gate_table_tex(all), 0),
{
    broadcast use lemma_tally_concat, lemma_closed_concat, lemma_escaped, lemma_cited, lemma_decimal;

    lemma_empty();
    let f = |x: GateResult| gate_tex(x);
    assert forall|i: int| 0 <= i < all.len() implies poised(f(#[trigger] all[i]), 0) by {
        lemma_gate(all[i]);
    }
    lemma_rows(all, f);
    lemma_shared_words();
    assert(poised("\\begin{tabular}{l r r l}\n  \\toprule\n  Gate Metric & Threshold & Actual & Passed \\\\\n  \\midrule\n"@, 1)) by {
        assert(poised("tabular}{l r r l}\n  \\toprule\n  Gate Metric & Threshold & Actual & Passed \\\\\n  \\midrule\n"@, 0)) by {
            reveal_strlit("tabular}{l r r l}\n  \\toprule\n  Gate Metric & Threshold & Actual & Passed \\\\\n  \\midrule\n");
            lemma_plain_literal("tabular}{l r r l}\n  \\toprule\n  Gate Metric & Threshold & Actual & Passed \\\\\n  \\midrule\n"@);
        }
        lemma_marks();
        assert("\\begin{tabular}{l r r l}\n  \\toprule\n  Gate Metric & Threshold & Actual & Passed \\\\\n  \\midrule\n"@ =~= "\\begin{"@ + "tabular}{l r r l}\n  \\toprule\n  Gate Metric & Threshold & Actual & Passed \\\\\n  \\midrule\n"@) by {
            reveal_strlit("\\begin{tabular}{l r r l}\n  \\toprule\n  Gate Metric & Threshold & Actual & Passed \\\\\n  \\midrule\n");
            reveal_strlit("\\begin{");
            reveal_strlit("tabular}{l r r l}\n  \\toprule\n  Gate Metric & Threshold & Actual & Passed \\\\\n  \\midrule\n");
        }
    }
}

proof fn lemma_run(run: BenchmarkRun)
    requires
        plain_run(run),
    ensures
        poised(run_tex(run), 0),
{
    broadcast use lemma_tally_concat, lemma_closed_concat, lemma_escaped, lemma_cited, lemma_decimal;

    lemma_empty();
    if let Some(s) = run.status {
        lemma_aggregate_table(s.aggregate_metrics.entries());
        lemma_gate_table(s.gates@);
    }
    lemma_shared_words();
    assert(poised("\\textbf{BenchmarkRun:} \\texttt{"@, 0)) by {
        reveal_strlit("\\textbf{BenchmarkRun:} \\texttt{");
        lemma_plain_literal("\\textbf{BenchmarkRun:} \\texttt{"@);
    }
    assert(poised("}  Phase: \\texttt{"@, 0)) by {
        reveal_strlit("}  Phase: \\texttt{");
        lemma_plain_literal("}  Phase: \\texttt{"@);
    }
}

proof fn lemma_benchmark(e: Experiment, runs: Map<Seq<char>, Seq<BenchmarkRun>>)
    requires
        forall|name: Seq<char>, i: int|
            runs.contains_key(name) && 0 <= i < runs[name].len() ==> plain_run(
                #[trigger] runs[name][i],
            ),
    ensures
        poised(benchmark_tex(e, runs), 0),
{
    broadcast use lemma_tally_concat, lemma_closed_concat, lemma_escaped, lemma_cited, lemma_decimal;

    lemma_empty();
    let name = e.metadata.named();
    if runs.contains_key(name) {
        let all = runs[name];
        let f = |run: BenchmarkRun| run_tex(run);
        assert forall|i: int| 0 <= i < all.len() implies poised(f(#[trigger] all[i]), 0) by {
            assert(plain_run(runs[name][i]));
            lemma_run(all[i]);
        }
        lemma_rows(all, f);
    }
    lemma_shared_words();
    assert(poised("\\subsection*{Benchmark: "@, 0)) by {
        reveal_strlit("\\subsection*{Benchmark: ");
        lemma_plain_literal("\\subsection*{Benchmark: "@);
    }
}

proof fn lemma_benchmarks(exps: Seq<Experiment>, runs: Map<Seq<char>, Seq<BenchmarkRun>>)
    requires
        forall|name: Seq<char>, i: int|
            runs.contains_key(name) && 0 <= i < runs[name].len() ==> plain_run(
                #[trigger] runs[name][i],
            ),
    ensures
        poised(benchmarks_tex(exps, runs), 0),
{
    let f = |e: Experiment| benchmark_tex(e, runs);
    assert forall|i: int| 0 <= i < exps.len() implies poised(f(#[trigger] exps[i]), 0) by {
        lemma_benchmark(exps[i], runs);
    }
    lemma_rows(exps, f);
}

proof fn lemma_coordinate(p: Point)
    requires
        is_plain(p.x),
        is_plain(p.y),
    ensures
        poised(coordinate(p), 0),
{
    broadcast use lemma_tally_concat, lemma_closed_concat, lemma_escaped, lemma_cited, lemma_decimal;

    lemma_no_backslash(p.x.text@);
    lemma_no_backslash(p.y.text@);
    assert(poised("("@, 0)) by {
        reveal_strlit("(");
        lemma_plain_literal("("@);
    }
    assert(poised(","@, 0)) by {
        reveal_strlit(",");
        lemma_plain_literal(","@);
    }
    assert(poised(")"@, 0)) by {
        reveal_strlit(")");
        lemma_plain_literal(")"@);
    }
}

proof fn lemma_points(exps: Seq<Experiment>, key: Seq<char>, metric: Seq<char>)
    requires
        forall|i: int| 0 <= i < exps.len() ==> plain_experiment(#[trigger] exps[i], metric),
    ensures
        forall|i: int|
            0 <= i < points_of(exps, key, metric).len() ==> is_plain(
                (#[trigger] points_of(exps, key, metric)[i]).x,
            ) && is_plain(points_of(exps, key, metric)[i].y),
    decreases exps.len(),
{
    if exps.len() > 0 {
        let t = exps.drop_last();
        assert forall|i: int| 0 <= i < t.len() implies plain_experiment(#[trigger] t[i], metric) by {
            assert(t[i] == exps[i]);
        }
        lemma_points(t, key, metric);
        let e = exps[exps.len() - 1];
        assert(plain_experiment(e, metric));
        assert(plain_if_any(param_of(e, key)));
        let before = points_of(t, key, metric);
        let all = points_of(exps, key, metric);
        assert forall|i: int| 0 <= i < all.len() implies is_plain((#[trigger] all[i]).x)
            && is_plain(all[i].y) by {
            if i < before.len() {
                assert(all[i] == before[i]);
            }
        }
    }
}

proof fn lemma_joined(parts: Seq<Seq<char>>, sep: Seq<char>)
    requires
        poised(sep, 0),
        forall|i: int| 0 <= i < parts.len() ==> poised(#[trigger] parts[i], 0),
    ensures
        poised(joined(parts, sep), 0),
    decreases parts.len(),
{
    lemma_empty();
    if parts.len() == 1 {
        assert(poised(parts[0], 0));
    } else if parts.len() > 1 {
        let t = parts.drop_last();
        assert forall|i: int| 0 <= i < t.len() implies poised(#[trigger] t[i], 0) by {
            assert(t[i] == parts[i]);
        }
        lemma_joined(t, sep);
        assert(poised(parts[parts.len() - 1], 0));
        lemma_concat(joined(t, sep), sep);
        lemma_concat(joined(t, sep) + sep, parts.last());
    }
}

proof fn lemma_plot(exps: Seq<Experiment>, key: Seq<char>, metric: Seq<char>)
    requires
        forall|i: int| 0 <= i < exps.len() ==> plain_experiment(#[trigger] exps[i], metric),
    ensures
        poised(plot_text(exps, key, metric), 0),
{
    broadcast use lemma_tally_concat, lemma_closed_concat, lemma_escaped, lemma_cited, lemma_decimal;

    lemma_empty();
    let points = points_of(exps, key, metric);
    let order = sorted(points);
    let parts = order.map_values(|p: Point| coordinate(p));
    lemma_points(exps, key, metric);
    assert forall|i: int| 0 <= i < parts.len() implies poised(#[trigger] parts[i], 0) by {
        lemma_sorted_member(points, i);
        lemma_coordinate(order[i]);
    }
    assert(poised(" "@, 0)) by {
        reveal_strlit(" ");
        lemma_plain_literal(" "@);
    }
    lemma_joined(parts, " "@);
    assert(poised("\\begin{figure}[h]\n\\centering\n\\begin{tikzpicture}\n\\begin{axis}[xlabel={"@, 3)) by {
        assert(poised("figure}[h]\n\\centering\n"@, 0)) by {
            reveal_strlit("figure}[h]\n\\centering\n");
            lemma_plain_literal("figure}[h]\n\\centering\n"@);
        }
        assert(poised("tikzpicture}\n"@, 0)) by {
            reveal_strlit("tikzpicture}\n");
            lemma_plain_literal("tikzpicture}\n"@);
        }
        assert(poised("axis}[xlabel={"@, 0)) by {
            reveal_strlit("axis}[xlabel={");
            lemma_plain_literal("axis}[xlabel={"@);
        }
        lemma_marks();
        assert("\\begin{figure}[h]\n\\centering\n\\begin{tikzpicture}\n\\begin{axis}[xlabel={"@ =~= "\\begin{"@ + "figure}[h]\n\\centering\n"@ + "\\begin{"@ + "tikzpicture}\n"@ + "\\begin{"@ + "axis}[xlabel={"@) by {
            reveal_strlit("\\begin{figure}[h]\n\\centering\n\\begin{tikzpicture}\n\\begin{axis}[xlabel={");
            reveal_strlit("\\begin{");
            reveal_strlit("figure}[h]\n\\centering\n");
            reveal_strlit("tikzpicture}\n");
            reveal_strlit("axis}[xlabel={");
        }
    }
    assert(poised("}, ylabel={"@, 0)) by {
        reveal_strlit("}, ylabel={");
        lemma_plain_literal("}, ylabel={"@);
    }
    assert(poised("}, only marks, grid=major, width=0.8\\textwidth, height=6cm]\n\\addplot coordinates { "@, 0)) by {
        reveal_strlit("}, only marks, grid=major, width=0.8\\textwidth, height=6cm]\n\\addplot coordinates { ");
        lemma_plain_literal("}, only marks, grid=major, width=0.8\\textwidth, height=6cm]\n\\addplot coordinates { "@);
    }
    assert(poised(" "@, 0)) by {
        reveal_strlit(" ");
        lemma_plain_literal(" "@);
    }
    assert(poised(" };\n\\end{axis}\n\\end{tikzpicture}\n\\caption{"@, -2)) by {
        assert(poised(" };\n"@, 0)) by {
            reveal_strlit(" };\n");
            lemma_plain_literal(" };\n"@);
        }
        assert(poised("axis}\n"@, 0)) by {
            reveal_strlit("axis}\n");
            lemma_plain_literal("axis}\n"@);
        }
        assert(poised("tikzpicture}\n\\caption{"@, 0)) by {
            reveal_strlit("tikzpicture}\n\\caption{");
            lemma_plain_literal("tikzpicture}\n\\caption{"@);
        }
        lemma_marks();
        assert(" };\n\\end{axis}\n\\end{tikzpicture}\n\\caption{"@ =~= " };\n"@ + "\\end{"@ + "axis}\n"@ + "\\end{"@ + "tikzpicture}\n\\caption{"@) by {
            reveal_strlit(" };\n\\end{axis}\n\\end{tikzpicture}\n\\caption{");
            reveal_strlit(" };\n");
            reveal_strlit("\\end{");
            reveal_strlit("axis}\n");
            reveal_strlit("tikzpicture}\n\\caption{");
        }
    }
    assert(poised(" vs "@, 0)) by {
        reveal_strlit(" vs ");
        lemma_plain_literal(" vs "@);
    }
    assert(poised(" across campaign trials.}\n\\end{figure}\n\n"@, -1)) by {
        assert(poised(" across campaign trials.}\n"@, 0)) by {
            reveal_strlit(" across campaign trials.}\n");
            lemma_plain_literal(" across campaign trials.}\n"@);
        }
        assert(poised("figure}\n\n"@, 0)) by {
            reveal_strlit("figure}\n\n");
            lemma_plain_literal("figure}\n\n"@);
        }
        lemma_marks();
        assert(" across campaign trials.}\n\\end{figure}\n\n"@ =~= " across campaign trials.}\n"@ + "\\end{"@ + "figure}\n\n"@) by {
            reveal_strlit(" across campaign trials.}\n\\end{figure}\n\n");
            reveal_strlit(" across campaign trials.}\n");
            reveal_strlit("\\end{");
            reveal_strlit("figure}\n\n");
        }
    }
}

proof fn lemma_sorted_member(points: Seq<Point>, i: int)
    requires
        0 <= i < sorted(points).len(),
    ensures
        points.contains(sorted(points)[i]),
{
    broadcast use vstd::seq_lib::group_seq_properties;

    broadcast use vstd::seq_lib::group_to_multiset_ensures;

    sorting_orders(points);
    let order = sorted(points);
    assert(order.contains(order[i]));
    assert(order.to_multiset().count(order[i]) > 0);
    assert(points.to_multiset().count(order[i]) > 0);
}

proof fn lemma_figure(exps: Seq<Experiment>, metric: Seq<char>)
    requires
        forall|i: int| 0 <= i < exps.len() ==> plain_experiment(#[trigger] exps[i], metric),
    ensures
        poised(figure_text(exps, metric), 0),
{
    lemma_empty();
    if exists|key: Seq<char>| varies_most(exps, key) {
        lemma_plot(exps, choose|key: Seq<char>| varies_most(exps, key), metric);
    }
}

proof fn lemma_repro_item(e: Experiment)
    ensures
        poised(repro_item(e), 0),
{
    broadcast use lemma_tally_concat, lemma_closed_concat, lemma_escaped, lemma_cited, lemma_decimal;

    lemma_shared_words();
    assert(poised("}: params=[\\texttt{"@, 0)) by {
        reveal_strlit("}: params=[\\texttt{");
        lemma_plain_literal("}: params=[\\texttt{"@);
    }
    assert(poised("}] | env="@, 0)) by {
        reveal_strlit("}] | env=");
        lemma_plain_literal("}] | env="@);
    }
    assert(poised(" | cost="@, 0)) by {
        reveal_strlit(" | cost=");
        lemma_plain_literal(" | cost="@);
    }
    assert(poised(" | provenance=\\texttt{"@, 0)) by {
        reveal_strlit(" | provenance=\\texttt{");
        lemma_plain_literal(" | provenance=\\texttt{"@);
    }
}

proof fn lemma_repro(template: ExperimentTemplate, exps: Seq<Experiment>)
    ensures
        poised(repro_tex(template, exps), 0),
{
    broadcast use lemma_tally_concat, lemma_closed_concat, lemma_escaped, lemma_cited, lemma_decimal;

    lemma_empty();
    let all = exps;
    let f = |x: Experiment| repro_item(x);
    assert forall|i: int| 0 <= i < all.len() implies poised(f(#[trigger] all[i]), 0) by {
        lemma_repro_item(all[i]);
    }
    lemma_rows(all, f);
    lemma_shared_words();
    assert(poised("\\section{Reproducibility}\n\nGit commit: \\texttt{"@, 0)) by {
        reveal_strlit("\\section{Reproducibility}\n\nGit commit: \\texttt{");
        lemma_plain_literal("\\section{Reproducibility}\n\nGit commit: \\texttt{"@);
    }
    assert(poised("}\n\n\\begin{itemize}\n"@, 1)) by {
        assert(poised("}\n\n"@, 0)) by {
            reveal_strlit("}\n\n");
            lemma_plain_literal("}\n\n"@);
        }
        assert(poised("itemize}\n"@, 0)) by {
            reveal_strlit("itemize}\n");
            lemma_plain_literal("itemize}\n"@);
        }
        lemma_marks();
        assert("}\n\n\\begin{itemize}\n"@ =~= "}\n\n"@ + "\\begin{"@ + "itemize}\n"@) by {
            reveal_strlit("}\n\n\\begin{itemize}\n");
            reveal_strlit("}\n\n");
            reveal_strlit("\\begin{");
            reveal_strlit("itemize}\n");
        }
    }
}

proof fn lemma_journal_item(e: Experiment, metric: Seq<char>)
    requires
        plain_if_any(objective_of(e, metric)),
    ensures
        poised(journal_item(e, metric), 0),
{
    broadcast use lemma_tally_concat, lemma_closed_concat, lemma_escaped, lemma_cited, lemma_decimal;

    lemma_fixed4(objective_of(e, metric));
    lemma_shared_words();
    assert(poised("}: "@, 0)) by {
        reveal_strlit("}: ");
        lemma_plain_literal("}: "@);
    }
    assert(poised(" $\\rightarrow$ objective "@, 0)) by {
        reveal_strlit(" $\\rightarrow$ objective ");
        lemma_plain_literal(" $\\rightarrow$ objective "@);
    }
    assert(poised(", decision "@, 0)) by {
        reveal_strlit(", decision ");
        lemma_plain_literal(", decision "@);
    }
}

proof fn lemma_journal(exps: Seq<Experiment>, metric: Seq<char>)
    requires
        forall|i: int| 0 <= i < exps.len() ==> plain_experiment(#[trigger] exps[i], metric),
    ensures
        poised(journal_tex(exps, metric), 0),
{
    broadcast use lemma_tally_concat, lemma_closed_concat, lemma_escaped, lemma_cited, lemma_decimal;

    lemma_empty();
    let all = exps;
    let f = |x: Experiment| journal_item(x, metric);
    assert forall|i: int| 0 <= i < all.len() implies poised(f(#[trigger] all[i]), 0) by {
        assert(plain_experiment(exps[i], metric));
        lemma_journal_item(all[i], metric);
    }
    lemma_rows(all, f);
    lemma_shared_words();
    assert(poised("\\section{Campaign Journal}\n\n\\begin{itemize}\n"@, 1)) by {
        assert(poised("\\section{Campaign Journal}\n\n"@, 0)) by {
            reveal_strlit("\\section{Campaign Journal}\n\n");
            lemma_plain_literal("\\section{Campaign Journal}\n\n"@);
        }
        assert(poised("itemize}\n"@, 0)) by {
            reveal_strlit("itemize}\n");
            lemma_plain_literal("itemize}\n"@);
        }
        lemma_marks();
        assert("\\section{Campaign Journal}\n\n\\begin{itemize}\n"@ =~= "\\section{Campaign Journal}\n\n"@ + "\\begin{"@ + "itemize}\n"@) by {
            reveal_strlit("\\section{Campaign Journal}\n\n\\begin{itemize}\n");
            reveal_strlit("\\section{Campaign Journal}\n\n");
            reveal_strlit("\\begin{");
            reveal_strlit("itemize}\n");
        }
    }
}

proof fn lemma_seeds(curation: Option<&Curation>)
    ensures
        poised(seeds_tex(curation), 0),
{
    broadcast use lemma_tally_concat, lemma_closed_concat, lemma_escaped, lemma_cited, lemma_decimal;

    lemma_empty();
    lemma_shared_words();
    assert(poised("\\section{Seeded Hypotheses / Future Work}\n\n\\begin{itemize}\n"@, 1)) by {
        assert(poised("\\section{Seeded Hypotheses / Future Work}\n\n"@, 0)) by {
            reveal_strlit("\\section{Seeded Hypotheses / Future Work}\n\n");
            lemma_plain_literal("\\section{Seeded Hypotheses / Future Work}\n\n"@);
        }
        assert(poised("itemize}\n"@, 0)) by {
            reveal_strlit("itemize}\n");
            lemma_plain_literal("itemize}\n"@);
        }
        lemma_marks();
        assert("\\section{Seeded Hypotheses / Future Work}\n\n\\begin{itemize}\n"@ =~= "\\section{Seeded Hypotheses / Future Work}\n\n"@ + "\\begin{"@ + "itemize}\n"@) by {
            reveal_strlit("\\section{Seeded Hypotheses / Future Work}\n\n\\begin{itemize}\n");
            reveal_strlit("\\section{Seeded Hypotheses / Future Work}\n\n");
            reveal_strlit("\\begin{");
            reveal_strlit("itemize}\n");
        }
    }
    assert(poised("  \\item "@, 0)) by {
        reveal_strlit("  \\item ");
        lemma_plain_literal("  \\item "@);
    }
    if let Some(c) = curation {
        let all = c.seeded_hypotheses@;
        let f = |h: String| "  \\item "@ + tex_escaped(h@) + "\n"@;
        assert forall|i: int| 0 <= i < all.len() implies poised(f(#[trigger] all[i]), 0) by {}
        lemma_rows(all, f);
    }
}

proof fn lemma_artifact(e: Experiment, runs: Map<Seq<char>, Seq<BenchmarkRun>>)
    ensures
        poised(artifact_tex(e, runs), 0),
{
    broadcast use lemma_tally_concat, lemma_closed_concat, lemma_escaped, lemma_cited, lemma_decimal;

    lemma_shared_words();
    assert(poised("} & \\texttt{"@, 0)) by {
        reveal_strlit("} & \\texttt{");
        lemma_plain_literal("} & \\texttt{"@);
    }
    assert(poised("} \\\\\n"@, 0)) by {
        reveal_strlit("} \\\\\n");
        lemma_plain_literal("} \\\\\n"@);
    }
}

proof fn lemma_artifact_index(exps: Seq<Experiment>, runs: Map<Seq<char>, Seq<BenchmarkRun>>)
    ensures
        poised(artifact_index_tex(exps, runs), 0),
{
    broadcast use lemma_tally_concat, lemma_closed_concat, lemma_escaped, lemma_cited, lemma_decimal;

    lemma_empty();
    let all = exps;
    let f = |x: Experiment| artifact_tex(x, runs);
    assert forall|i: int| 0 <= i < all.len() implies poised(f(#[trigger] all[i]), 0) by {
        lemma_artifact(all[i], runs);
    }
    lemma_rows(all, f);
    lemma_shared_words();
    assert(poised("\\section{Artifact Index}\n\n\\begin{tabular}{l l l l l l}\n  \\toprule\n  Experiment & Workspace & Journal & Provenance & Checkpoints & Benchmark Report \\\\\n  \\midrule\n"@, 1)) by {
        assert(poised("\\section{Artifact Index}\n\n"@, 0)) by {
            reveal_strlit("\\section{Artifact Index}\n\n");
            lemma_plain_literal("\\section{Artifact Index}\n\n"@);
        }
        assert(poised("tabular}{l l l l l l}\n  \\toprule\n  Experiment & Workspace & Journal & Provenance & Checkpoints & Benchmark Report \\\\\n  \\midrule\n"@, 0)) by {
            reveal_strlit("tabular}{l l l l l l}\n  \\toprule\n  Experiment & Workspace & Journal & Provenance & Checkpoints & Benchmark Report \\\\\n  \\midrule\n");
            lemma_plain_literal("tabular}{l l l l l l}\n  \\toprule\n  Experiment & Workspace & Journal & Provenance & Checkpoints & Benchmark Report \\\\\n  \\midrule\n"@);
        }
        lemma_marks();
        assert("\\section{Artifact Index}\n\n\\begin{tabular}{l l l l l l}\n  \\toprule\n  Experiment & Workspace & Journal & Provenance & Checkpoints & Benchmark Report \\\\\n  \\midrule\n"@ =~= "\\section{Artifact Index}\n\n"@ + "\\begin{"@ + "tabular}{l l l l l l}\n  \\toprule\n  Experiment & Workspace & Journal & Provenance & Checkpoints & Benchmark Report \\\\\n  \\midrule\n"@) by {
            reveal_strlit("\\section{Artifact Index}\n\n\\begin{tabular}{l l l l l l}\n  \\toprule\n  Experiment & Workspace & Journal & Provenance & Checkpoints & Benchmark Report \\\\\n  \\midrule\n");
            reveal_strlit("\\section{Artifact Index}\n\n");
            reveal_strlit("\\begin{");
            reveal_strlit("tabular}{l l l l l l}\n  \\toprule\n  Experiment & Workspace & Journal & Provenance & Checkpoints & Benchmark Report \\\\\n  \\midrule\n");
        }
    }
}

// ---------------------------------------------------------------------------
// References
// ---------------------------------------------------------------------------

proof fn lemma_all_escaped(parts: Seq<Seq<char>>, sep: Seq<char>)
    requires
        poised(sep, 0),
    ensures
        poised(joined(all_escaped(parts), sep), 0),
{
    broadcast use lemma_escaped;

    lemma_joined(all_escaped(parts), sep);
}

proof fn lemma_keys_line(label: Seq<char>, keys: Seq<Seq<char>>)
    requires
        poised(label, 0),
    ensures
        poised(keys_line(label, all_escaped(keys), ".\n"@), 0),
{
    broadcast use lemma_tally_concat, lemma_closed_concat;

    lemma_empty();
    assert(poised(", "@, 0)) by {
        reveal_strlit(", ");
        lemma_plain_literal(", "@);
    }
    assert(poised(".\n"@, 0)) by {
        reveal_strlit(".\n");
        lemma_plain_literal(".\n"@);
    }
    lemma_all_escaped(keys, ", "@);
}

proof fn lemma_labelled(o: Option<String>, before: Seq<char>)
    requires
        poised(before, 0),
    ensures
        poised(labelled_tex(o, before), 0),
{
    broadcast use lemma_tally_concat, lemma_closed_concat, lemma_escaped, lemma_cited, lemma_decimal;

    lemma_empty();
}

proof fn lemma_bib_key(key: Seq<char>)
    ensures
        poised(bib_key(key), 0),
{
    broadcast use lemma_escaped;

    if is_citable(key) {
        assert forall|i: int| 0 <= i < key.len() implies #[trigger] key[i] != '\\' by {
            assert(key_char(key[i]));
        }
        lemma_calm(key);
    }
}

proof fn lemma_bib_item(r: Reference)
    ensures
        poised(bib_item(r), 0),
{
    broadcast use lemma_tally_concat, lemma_closed_concat, lemma_escaped;

    lemma_empty();
    assert(poised("\\bibitem{"@, 0)) by {
        reveal_strlit("\\bibitem{");
        lemma_plain_literal("\\bibitem{"@);
    }
    assert(poised("} "@, 0)) by {
        reveal_strlit("} ");
        lemma_plain_literal("} "@);
    }
    assert(poised(". \\url{"@, 0)) by {
        reveal_strlit(". \\url{");
        lemma_plain_literal(". \\url{"@);
    }
    assert(poised("}"@, 0)) by {
        reveal_strlit("}");
        lemma_plain_literal("}"@);
    }
    assert(poised(" doi:"@, 0)) by {
        reveal_strlit(" doi:");
        lemma_plain_literal(" doi:"@);
    }
    assert(poised(" Supports: "@, 0)) by {
        reveal_strlit(" Supports: ");
        lemma_plain_literal(" Supports: "@);
    }
    assert(poised(".\n"@, 0)) by {
        reveal_strlit(".\n");
        lemma_plain_literal(".\n"@);
    }
    lemma_bib_key(r.key@);
    lemma_labelled(r.doi, " doi:"@);
    lemma_labelled(r.supports, " Supports: "@);
}

proof fn lemma_reconciliation(undefined: Seq<Seq<char>>, unused: Seq<Seq<char>>)
    ensures
        poised(reconciliation_tex(undefined, unused), 0),
{
    broadcast use lemma_tally_concat, lemma_closed_concat;

    lemma_empty();
    lemma_shared_words();
    assert(poised("\\section{Citation Reconciliation}\n\n"@, 0)) by {
        reveal_strlit("\\section{Citation Reconciliation}\n\n");
        lemma_plain_literal("\\section{Citation Reconciliation}\n\n"@);
    }
    assert(poised("Cited but undefined: "@, 0)) by {
        reveal_strlit("Cited but undefined: ");
        lemma_plain_literal("Cited but undefined: "@);
    }
    assert(poised("Defined but never cited: "@, 0)) by {
        reveal_strlit("Defined but never cited: ");
        lemma_plain_literal("Defined but never cited: "@);
    }
    lemma_keys_line("Cited but undefined: "@, undefined);
    lemma_keys_line("Defined but never cited: "@, unused);
}

proof fn lemma_bibliography(curation: Option<&Curation>)
    ensures
        poised(bibliography_tex(curation), 0),
{
    broadcast use lemma_tally_concat, lemma_closed_concat, lemma_escaped, lemma_cited, lemma_decimal;

    lemma_empty();
    assert(poised("\\begin{thebibliography}{99}\n"@, 1)) by {
        assert(poised("thebibliography}{99}\n"@, 0)) by {
            reveal_strlit("thebibliography}{99}\n");
            lemma_plain_literal("thebibliography}{99}\n"@);
        }
        lemma_marks();
        assert("\\begin{thebibliography}{99}\n"@ =~= "\\begin{"@ + "thebibliography}{99}\n"@) by {
            reveal_strlit("\\begin{thebibliography}{99}\n");
            reveal_strlit("\\begin{");
            reveal_strlit("thebibliography}{99}\n");
        }
    }
    assert(poised("\\end{thebibliography}\n\n"@, -1)) by {
        assert(poised("thebibliography}\n\n"@, 0)) by {
            reveal_strlit("thebibliography}\n\n");
            lemma_plain_literal("thebibliography}\n\n"@);
        }
        lemma_marks();
        assert("\\end{thebibliography}\n\n"@ =~= "\\end{"@ + "thebibliography}\n\n"@) by {
            reveal_strlit("\\end{thebibliography}\n\n");
            reveal_strlit("\\end{");
            reveal_strlit("thebibliography}\n\n");
        }
    }
    if let Some(c) = curation {
        lemma_reconciliation(
            undefined_keys(c.sections.entries(), c.references@),
            uncited(c.sections.entries(), c.references@),
        );
        let f = |r: Reference| bib_item(r);
        assert forall|i: int| 0 <= i < c.references@.len() implies poised(
            f(#[trigger] c.references@[i]),
            0,
        ) by {
            lemma_bib_item(c.references@[i]);
        }
        lemma_rows(c.references@, f);
    }
}

// ---------------------------------------------------------------------------
// The document
// ---------------------------------------------------------------------------

proof fn lemma_last_words()
    ensures
        poised("\\end{document}\n"@, -1),
{
    broadcast use lemma_tally_concat, lemma_closed_concat;

    assert(poised("\\end{document}\n"@, -1)) by {
        assert(poised("document}\n"@, 0)) by {
            reveal_strlit("document}\n");
            lemma_plain_literal("document}\n"@);
        }
        lemma_marks();
        assert("\\end{document}\n"@ =~= "\\end{"@ + "document}\n"@) by {
            reveal_strlit("\\end{document}\n");
            reveal_strlit("\\end{");
            reveal_strlit("document}\n");
        }
    }
}

/// Texts that open as much as they close, between one that opens an environment and one
/// that closes it.
proof fn lemma_parts(
    a: Seq<char>,
    b: Seq<char>,
    c: Seq<char>,
    d: Seq<char>,
    e: Seq<char>,
    f: Seq<char>,
    g: Seq<char>,
    h: Seq<char>,
    i: Seq<char>,
    j: Seq<char>,
    k: Seq<char>,
    l: Seq<char>,
    m: Seq<char>,
    n: Seq<char>,
    o: Seq<char>,
    p: Seq<char>,
    end: Seq<char>,
)
    requires
        poised(a, 1),
        poised(b, 0),
        poised(c, 0),
        poised(d, 0),
        poised(e, 0),
        poised(f, 0),
        poised(g, 0),
        poised(h, 0),
        poised(i, 0),
        poised(j, 0),
        poised(k, 0),
        poised(l, 0),
        poised(m, 0),
        poised(n, 0),
        poised(o, 0),
        poised(p, 0),
        poised(end, -1),
    ensures
        tally(a + b + c + d + e + f + g + h + i + j + k + l + m + n + o + p + end) == 0,
{
    broadcast use lemma_tally_concat, lemma_closed_concat;

}

proof fn lemma_document(
    campaign_name: Seq<char>,
    namespace: Seq<char>,
    campaign: ResearchCampaign,
    template: ExperimentTemplate,
    experiments: Seq<Experiment>,
    runs: Map<Seq<char>, Seq<BenchmarkRun>>,
    curation: Option<&Curation>,
)
    requires
        plain_inputs(template, kept(experiments, curation), runs),
    ensures
        tally(latex(campaign_name, namespace, campaign, template, experiments, runs, curation))
            == 0,
{
    let exps = kept(experiments, curation);
    let metric = template.spec.objective.metric@;
    lemma_preamble(campaign_name, namespace, exps.len(), experiments.len(), curation);
    lemma_objective(template);
    lemma_authored_sections(curation);
    lemma_setup(campaign, template);
    lemma_parameter_glossary(template);
    lemma_metric_glossary(template);
    lemma_experiment_table(exps, metric);
    lemma_tree_section(exps);
    lemma_results(campaign);
    lemma_benchmarks(exps, runs);
    lemma_figure(exps, metric);
    lemma_repro(template, exps);
    lemma_journal(exps, metric);
    lemma_seeds(curation);
    lemma_artifact_index(exps, runs);
    lemma_bibliography(curation);
    lemma_last_words();
    lemma_parts(
        preamble_text(campaign_name, namespace, exps.len(), experiments.len(), curation),
        objective_tex(template),
        authored_sections_tex(curation),
        setup_tex(campaign, template),
        parameter_glossary_tex(template),
        metric_glossary_tex(template),
        experiment_table_tex(exps, metric),
        tree_tex(exps),
        campaign_results_tex(campaign),
        benchmarks_tex(exps, runs),
        figure_text(exps, metric),
        repro_tex(template, exps),
        journal_tex(exps, metric),
        seeds_tex(curation),
        artifact_index_tex(exps, runs),
        bibliography_tex(curation),
        "\\end{document}\n"@,
    );
}

/// The LaTeX dossier opens as many environments as it closes, whatever its titles, hypotheses,
/// parameters, sections and references say: all of that is escaped.
pub proof fn latex_environments_balance(
    campaign_name: Seq<char>,
    namespace: Seq<char>,
    campaign: ResearchCampaign,
    template: ExperimentTemplate,
    experiments: Seq<Experiment>,
    runs: Map<Seq<char>, Seq<BenchmarkRun>>,
    curation: Option<&Curation>,
)
    requires
        plain_inputs(template, kept(experiments, curation), runs),
    ensures
        balanced(latex(campaign_name, namespace, campaign, template, experiments, runs, curation)),
{
    let doc = latex(campaign_name, namespace, campaign, template, experiments, runs, curation);
    lemma_document(campaign_name, namespace, campaign, template, experiments, runs, curation);
    lemma_tally_counts(doc);
}

} // verus!

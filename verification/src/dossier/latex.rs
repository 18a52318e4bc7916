//! The dossier in LaTeX.

use vstd::prelude::*;
use crate::benchmark_run::{BenchmarkRun, GateResult};
use crate::common::MetricAggregate;
use crate::dossier::citations::{
    citation_check, is_key_char, key_char, tex_body_with_cites, tex_cited_from, uncited,
};
use crate::dossier::curation::{curate, derefs, kept, Curation};
use crate::dossier::escape::{tex_escape, tex_escaped};
use crate::dossier::forest::{
    build_forest, describe_node, forest, grounded, lineage_is_grounded, node_text, trees, Tree,
    TreeNode,
};
use crate::dossier::markdown::{
    artifact_section, authored_sections, authored_text, baseline_str, benchmark_text,
    benchmarks_text, campaign_results, count_str, count_text, dashboard_metrics,
    experiments_section, fixed4_or, fixed4_text, journal_section, keys_line, lemma_trees_len,
    lemma_undefined_keys, metric_glossary, objective_section, parameter_glossary,
    references_section, repro_section, role_parts, roles, seeds_section, setup_text, tree_section,
    undefined_keys, write_keys,
};
use crate::dossier::parts::{
    artifacts, artifacts_of, best_objective, cost_str, cost_text, decision_str, decision_text,
    dossier_title, environment_str, environment_text, objective_of, or_text, params_str,
    params_text, phase_str, phase_text, provenance_str, provenance_text, report_str, report_text,
    rows, run_phase_str, run_phase_text, text_or, title_of, groups, unref,
};
use crate::dossier::sensitivity::{figure, figure_text};
use crate::experiment::Experiment;
use crate::experiment_template::{DashboardMetric, ExperimentTemplate, ParameterSpec};
use crate::number::{fixed4_or_dash, fmt_f64_opt, Real};
use crate::numeral::{decimal, decimal_of};
use crate::research_campaign::ResearchCampaign;
use crate::research_report::Reference;
use crate::text::{chars_of, join, joined};
use crate::textmap::TextMap;

verus! {

broadcast use vstd::seq_lib::group_seq_properties;

// ---------------------------------------------------------------------------
// Preamble and objective
// ---------------------------------------------------------------------------

/// Everything in front of the first section.
pub open spec fn preamble_text(
    campaign_name: Seq<char>,
    namespace: Seq<char>,
    included: nat,
    total: nat,
    curation: Option<&Curation>,
) -> Seq<char> {
    "\\documentclass{article}\n\\usepackage[T1]{fontenc}\n\\usepackage{booktabs}\n\\usepackage{pgfplots}\n\\pgfplotsset{compat=1.18}\n\\usepackage{hyperref}\n\\usepackage[margin=1in]{geometry}\n\\title{"@
        + tex_escaped(title_of(curation, campaign_name))
        + "}\n\\author{Athena autonomous research platform}\n\\date{\\today}\n\\begin{document}\n\\maketitle\n\n\\noindent\\textit{Campaign: "@
        + tex_escaped(campaign_name) + " \\textperiodcentered{} Namespace: "@ + tex_escaped(
        namespace,
    ) + "}\n"@ + (if curation is Some {
        "\\\\\\textit{Curated: "@ + decimal(included) + " of "@ + decimal(total)
            + " experiments}\n"@
    } else {
        Seq::empty()
    }) + "\n"@
}

fn write_preamble(
    campaign_name: &str,
    namespace: &str,
    included: usize,
    total: usize,
    curation: Option<&Curation>,
) -> (r: String)
    ensures
        r@ == preamble_text(campaign_name@, namespace@, included as nat, total as nat, curation),
{
    let mut s =
        "\\documentclass{article}\n\\usepackage[T1]{fontenc}\n\\usepackage{booktabs}\n\\usepackage{pgfplots}\n\\pgfplotsset{compat=1.18}\n\\usepackage{hyperref}\n\\usepackage[margin=1in]{geometry}\n\\title{".to_owned();
    s.append(tex_escape(dossier_title(curation, campaign_name).as_str()).as_str());
    s.append(
        "}\n\\author{Athena autonomous research platform}\n\\date{\\today}\n\\begin{document}\n\\maketitle\n\n\\noindent\\textit{Campaign: ",
    );
    s.append(tex_escape(campaign_name).as_str());
    s.append(" \\textperiodcentered{} Namespace: ");
    s.append(tex_escape(namespace).as_str());
    s.append("}\n");
    let mut counts = String::new();
    if curation.is_some() {
        counts = "\\\\\\textit{Curated: ".to_owned();
        counts.append(decimal_of(included as u64).as_str());
        counts.append(" of ");
        counts.append(decimal_of(total as u64).as_str());
        counts.append(" experiments}\n");
    }
    s.append(counts.as_str());
    s.append("\n");
    s
}

/// The research objective.
pub open spec fn objective_tex(template: ExperimentTemplate) -> Seq<char> {
    "\\section{Research Objective}\n\n"@ + (match template.spec.research_objective {
        Some(o) => tex_escaped(o@),
        None => "\\textit{not recorded}"@,
    }) + "\n\n"@
}

fn write_objective(template: &ExperimentTemplate) -> (r: String)
    ensures
        r@ == objective_tex(*template),
{
    let body = match &template.spec.research_objective {
        Some(o) => tex_escape(o.as_str()),
        None => "\\textit{not recorded}".to_owned(),
    };
    let mut s = "\\section{Research Objective}\n\n".to_owned();
    s.append(body.as_str());
    s.append("\n\n");
    s
}

/// One authored section, with its citations as `\cite`.
pub open spec fn authored_tex(entry: (Seq<char>, String)) -> Seq<char> {
    "\\section{"@ + tex_escaped(entry.0) + "}\n\n"@ + tex_cited_from(entry.1@, 0) + "\n\n"@
}

/// The authored sections.
pub open spec fn authored_sections_tex(curation: Option<&Curation>) -> Seq<char> {
    match curation {
        Some(c) => rows(c.sections.entries(), |entry: (Seq<char>, String)| authored_tex(entry)),
        None => Seq::empty(),
    }
}

fn write_authored(curation: Option<&Curation>) -> (r: String)
    ensures
        r@ == authored_sections_tex(curation),
{
    let mut body = String::new();
    if let Some(c) = curation {
        let ghost f = |entry: (Seq<char>, String)| authored_tex(entry);
        let ghost all = c.sections.entries();
        let n: usize = c.sections.len();
        let mut i: usize = 0;
        while i < n
            invariant
                i <= n,
                n == all.len(),
                all == c.sections.entries(),
                f == (|entry: (Seq<char>, String)| authored_tex(entry)),
                body@ == rows(all.take(i as int), f),
            decreases n - i,
        {
            assert(all.take(i + 1).drop_last() =~= all.take(i as int));
            let mut s = "\\section{".to_owned();
            s.append(tex_escape(c.sections.key_at(i).as_str()).as_str());
            s.append("}\n\n");
            s.append(tex_body_with_cites(c.sections.value_at(i).as_str()).as_str());
            s.append("\n\n");
            body.append(s.as_str());
            i = i + 1;
        }
        assert(all.take(i as int) =~= all);
    }
    body
}

// ---------------------------------------------------------------------------
// Method and setup
// ---------------------------------------------------------------------------

/// Source, objective, strategy and budget.
pub open spec fn setup_tex(campaign: ResearchCampaign, template: ExperimentTemplate) -> Seq<char> {
    let git = template.spec.source.git;
    "\\section{Method \\& Setup}\n\n\\subsection*{Source}\n\\begin{itemize}\n  \\item URL: \\texttt{"@
        + tex_escaped(git.url@) + "}\n  \\item Ref: \\texttt{"@ + tex_escaped(git.git_ref@) + "}\n"@
        + (match git.commit {
        Some(c) => "  \\item Commit: \\texttt{"@ + tex_escaped(c@) + "}\n"@,
        None => Seq::empty(),
    }) + "\\end{itemize}\n\n\\subsection*{Objective}\n\\begin{itemize}\n  \\item Metric: \\texttt{"@
        + tex_escaped(template.spec.objective.metric@) + "}\n  \\item Goal: \\texttt{"@
        + template.spec.objective.goal.named()
        + "}\n\\end{itemize}\n\n\\subsection*{Strategy \\& Budget}\n\\begin{itemize}\n  \\item Strategy: \\texttt{"@
        + tex_escaped(campaign.spec.strategy.strategy_type@) + "}\n  \\item Max experiments: "@
        + decimal(campaign.spec.budget.max_experiments as nat)
        + "\n  \\item Max duration: \\texttt{"@ + tex_escaped(campaign.spec.budget.max_duration@)
        + "}\n\\end{itemize}\n\n"@
}

fn write_setup(campaign: &ResearchCampaign, template: &ExperimentTemplate) -> (r: String)
    ensures
        r@ == setup_tex(*campaign, *template),
{
    let git = &template.spec.source.git;
    let mut s =
        "\\section{Method \\& Setup}\n\n\\subsection*{Source}\n\\begin{itemize}\n  \\item URL: \\texttt{".to_owned();
    s.append(tex_escape(git.url.as_str()).as_str());
    s.append("}\n  \\item Ref: \\texttt{");
    s.append(tex_escape(git.git_ref.as_str()).as_str());
    s.append("}\n");
    let mut commit = String::new();
    if let Some(c) = &git.commit {
        commit = "  \\item Commit: \\texttt{".to_owned();
        commit.append(tex_escape(c.as_str()).as_str());
        commit.append("}\n");
    }
    s.append(commit.as_str());
    s.append(
        "\\end{itemize}\n\n\\subsection*{Objective}\n\\begin{itemize}\n  \\item Metric: \\texttt{",
    );
    s.append(tex_escape(template.spec.objective.metric.as_str()).as_str());
    s.append("}\n  \\item Goal: \\texttt{");
    s.append(template.spec.objective.goal.label());
    s.append(
        "}\n\\end{itemize}\n\n\\subsection*{Strategy \\& Budget}\n\\begin{itemize}\n  \\item Strategy: \\texttt{",
    );
    s.append(tex_escape(campaign.spec.strategy.strategy_type.as_str()).as_str());
    s.append("}\n  \\item Max experiments: ");
    s.append(decimal_of(campaign.spec.budget.max_experiments as u64).as_str());
    s.append("\n  \\item Max duration: \\texttt{");
    s.append(tex_escape(campaign.spec.budget.max_duration.as_str()).as_str());
    s.append("}\n\\end{itemize}\n\n");
    s
}

/// One row of the parameter glossary.
pub open spec fn parameter_tex(entry: (Seq<char>, ParameterSpec)) -> Seq<char> {
    "  \\texttt{"@ + tex_escaped(entry.0) + "} & "@ + tex_escaped(entry.1.parameter_type@) + " & "@
        + tex_escaped(text_or(entry.1.description, "—"@)) + " \\\\\n"@
}

/// The parameter glossary.
pub open spec fn parameter_glossary_tex(template: ExperimentTemplate) -> Seq<char> {
    let all = template.spec.parameter_schema.entries();
    if all.len() == 0 {
        Seq::empty()
    } else {
        "\\subsection*{Parameter Glossary}\n\\begin{tabular}{l l p{7cm}}\n  \\toprule\n  Name & Type & Description \\\\\n  \\midrule\n"@
            + rows(all, |entry: (Seq<char>, ParameterSpec)| parameter_tex(entry))
            + "  \\bottomrule\n\\end{tabular}\n\n"@
    }
}

fn write_parameter_glossary(template: &ExperimentTemplate) -> (r: String)
    ensures
        r@ == parameter_glossary_tex(*template),
{
    let m = &template.spec.parameter_schema;
    if m.is_empty() {
        return String::new();
    }
    let ghost f = |entry: (Seq<char>, ParameterSpec)| parameter_tex(entry);
    let ghost all = m.entries();
    let n: usize = m.len();
    let mut body = String::new();
    let mut i: usize = 0;
    while i < n
        invariant
            i <= n,
            n == all.len(),
            all == m.entries(),
            f == (|entry: (Seq<char>, ParameterSpec)| parameter_tex(entry)),
            body@ == rows(all.take(i as int), f),
        decreases n - i,
    {
        assert(all.take(i + 1).drop_last() =~= all.take(i as int));
        let p = m.value_at(i);
        let mut s = "  \\texttt{".to_owned();
        s.append(tex_escape(m.key_at(i).as_str()).as_str());
        s.append("} & ");
        s.append(tex_escape(p.parameter_type.as_str()).as_str());
        s.append(" & ");
        s.append(tex_escape(or_text(&p.description, "—")).as_str());
        s.append(" \\\\\n");
        body.append(s.as_str());
        i = i + 1;
    }
    assert(all.take(i as int) =~= all);
    let mut s =
        "\\subsection*{Parameter Glossary}\n\\begin{tabular}{l l p{7cm}}\n  \\toprule\n  Name & Type & Description \\\\\n  \\midrule\n".to_owned();
    s.append(body.as_str());
    s.append("  \\bottomrule\n\\end{tabular}\n\n");
    s
}

/// One row of the metric glossary.
pub open spec fn metric_tex(entry: (Seq<char>, DashboardMetric)) -> Seq<char> {
    "  \\texttt{"@ + tex_escaped(entry.0) + "} & "@ + tex_escaped(entry.1.label@) + " & "@
        + tex_escaped(text_or(entry.1.unit, "—"@)) + " & "@ + tex_escaped(
        text_or(entry.1.description, "—"@),
    ) + " & "@ + (match entry.1.baseline {
        Some(b) => b.text@,
        None => "—"@,
    }) + " \\\\\n"@
}

/// The metric glossary.
pub open spec fn metric_glossary_tex(template: ExperimentTemplate) -> Seq<char> {
    let all = dashboard_metrics(template);
    if all.len() == 0 {
        Seq::empty()
    } else {
        "\\subsection*{Metric Glossary}\n\\begin{tabular}{l l l p{4cm} r}\n  \\toprule\n  Name & Label & Unit & Description & Baseline \\\\\n  \\midrule\n"@
            + rows(all, |entry: (Seq<char>, DashboardMetric)| metric_tex(entry))
            + "  \\bottomrule\n\\end{tabular}\n\n"@
    }
}

fn write_metric_glossary(template: &ExperimentTemplate) -> (r: String)
    ensures
        r@ == metric_glossary_tex(*template),
{
    let m = match &template.spec.dashboard {
        Some(d) => &d.metrics,
        None => {
            return String::new();
        },
    };
    if m.is_empty() {
        return String::new();
    }
    let ghost f = |entry: (Seq<char>, DashboardMetric)| metric_tex(entry);
    let ghost all = m.entries();
    let n: usize = m.len();
    let mut body = String::new();
    let mut i: usize = 0;
    while i < n
        invariant
            i <= n,
            n == all.len(),
            all == m.entries(),
            f == (|entry: (Seq<char>, DashboardMetric)| metric_tex(entry)),
            body@ == rows(all.take(i as int), f),
        decreases n - i,
    {
        assert(all.take(i + 1).drop_last() =~= all.take(i as int));
        let d = m.value_at(i);
        let mut s = "  \\texttt{".to_owned();
        s.append(tex_escape(m.key_at(i).as_str()).as_str());
        s.append("} & ");
        s.append(tex_escape(d.label.as_str()).as_str());
        s.append(" & ");
        s.append(tex_escape(or_text(&d.unit, "—")).as_str());
        s.append(" & ");
        s.append(tex_escape(or_text(&d.description, "—")).as_str());
        s.append(" & ");
        s.append(baseline_str(&d.baseline).as_str());
        s.append(" \\\\\n");
        body.append(s.as_str());
        i = i + 1;
    }
    assert(all.take(i as int) =~= all);
    let mut s =
        "\\subsection*{Metric Glossary}\n\\begin{tabular}{l l l p{4cm} r}\n  \\toprule\n  Name & Label & Unit & Description & Baseline \\\\\n  \\midrule\n".to_owned();
    s.append(body.as_str());
    s.append("  \\bottomrule\n\\end{tabular}\n\n");
    s
}

// ---------------------------------------------------------------------------
// Experiments
// ---------------------------------------------------------------------------

/// One row of the experiment table; `number` counts from one.
pub open spec fn experiment_tex(number: nat, e: Experiment, metric: Seq<char>) -> Seq<char> {
    "  "@ + decimal(number) + " & "@ + tex_escaped(e.metadata.named()) + " & "@ + tex_escaped(
        e.spec.hypothesis@,
    ) + " & \\texttt{"@ + tex_escaped(params_text(e)) + "} & "@ + fixed4_or_dash(
        objective_of(e, metric),
    ) + " & "@ + tex_escaped(phase_text(e)) + " & "@ + tex_escaped(decision_text(e)) + " \\\\\n"@
}

/// The rows of the experiment table.
pub open spec fn experiments_tex(exps: Seq<Experiment>, metric: Seq<char>) -> Seq<char>
    decreases exps.len(),
{
    if exps.len() == 0 {
        Seq::empty()
    } else {
        experiments_tex(exps.drop_last(), metric) + experiment_tex(exps.len(), exps.last(), metric)
    }
}

/// The experiment table.
pub open spec fn experiment_table_tex(exps: Seq<Experiment>, metric: Seq<char>) -> Seq<char> {
    "\\section{Experiments}\n\n\\begin{tabular}{r l p{4cm} p{3.5cm} r l l}\n  \\toprule\n  \\# & Name & Hypothesis & Parameters & Objective Value & Phase & Decision \\\\\n  \\midrule\n"@
        + experiments_tex(exps, metric) + "  \\bottomrule\n\\end{tabular}\n\n"@
}

fn write_experiment(number: usize, e: &Experiment, metric: &str) -> (r: String)
    ensures
        r@ == experiment_tex(number as nat, *e, metric@),
{
    let mut s = "  ".to_owned();
    s.append(decimal_of(number as u64).as_str());
    s.append(" & ");
    s.append(tex_escape(e.metadata.name_any().as_str()).as_str());
    s.append(" & ");
    s.append(tex_escape(e.spec.hypothesis.as_str()).as_str());
    s.append(" & \\texttt{");
    s.append(tex_escape(params_str(e).as_str()).as_str());
    s.append("} & ");
    s.append(fmt_f64_opt(&best_objective(e, metric)).as_str());
    s.append(" & ");
    s.append(tex_escape(phase_str(e)).as_str());
    s.append(" & ");
    s.append(tex_escape(decision_str(e)).as_str());
    s.append(" \\\\\n");
    s
}

fn write_experiments(exps: &Vec<&Experiment>, metric: &str) -> (r: String)
    ensures
        r@ == experiment_table_tex(derefs(exps@), metric@),
{
    let ghost all = derefs(exps@);
    let mut body = String::new();
    let mut i: usize = 0;
    while i < exps.len()
        invariant
            i <= exps.len(),
            all == derefs(exps@),
            body@ == experiments_tex(all.take(i as int), metric@),
        decreases exps.len() - i,
    {
        assert(all.take(i + 1).drop_last() =~= all.take(i as int));
        assert(all.take(i + 1).last() == *exps@[i as int]);
        body.append(write_experiment(i + 1, exps[i], metric).as_str());
        i = i + 1;
    }
    assert(all.take(i as int) =~= all);
    let mut s =
        "\\section{Experiments}\n\n\\begin{tabular}{r l p{4cm} p{3.5cm} r l l}\n  \\toprule\n  \\# & Name & Hypothesis & Parameters & Objective Value & Phase & Decision \\\\\n  \\midrule\n".to_owned();
    s.append(body.as_str());
    s.append("  \\bottomrule\n\\end{tabular}\n\n");
    s
}

// ---------------------------------------------------------------------------
// Search tree
// ---------------------------------------------------------------------------

/// The texts, each escaped.
pub open spec fn all_escaped(parts: Seq<Seq<char>>) -> Seq<Seq<char>> {
    parts.map_values(|s: Seq<char>| tex_escaped(s))
}

fn escape_all(parts: &Vec<String>) -> (r: Vec<String>)
    ensures
        r.deep_view() == all_escaped(parts.deep_view()),
{
    let ghost all = all_escaped(parts.deep_view());
    let mut out: Vec<String> = Vec::new();
    let mut i: usize = 0;
    while i < parts.len()
        invariant
            i <= parts.len(),
            all == all_escaped(parts.deep_view()),
            out.deep_view() == all.take(i as int),
        decreases parts.len() - i,
    {
        let ghost before = out.deep_view();
        let t = tex_escape(parts[i].as_str());
        assert(all[i as int] == t@);
        out.push(t);
        assert(out.deep_view() =~= before.push(t@));
        assert(before.push(t@) =~= all.take(i + 1));
        i = i + 1;
    }
    assert(all.take(i as int) =~= all);
    out
}

/// The line of one experiment in the search tree.
pub open spec fn node_tex(e: Experiment, pad: Seq<char>) -> Seq<char> {
    pad + "\\texttt{"@ + tex_escaped(node_text(e)) + "} \\\\\n"@
}

/// A tree as indented lines.
pub open spec fn drawn_tex(t: Tree, pad: Seq<char>) -> Seq<char>
    decreases t,
{
    node_tex(t.exp, pad) + all_drawn_tex(t.children, pad + "\\hspace*{1em}"@)
}

/// Trees as indented lines.
pub open spec fn all_drawn_tex(ts: Seq<Tree>, pad: Seq<char>) -> Seq<char>
    decreases ts,
{
    if ts.len() == 0 {
        Seq::empty()
    } else {
        all_drawn_tex(ts.drop_last(), pad) + drawn_tex(ts[ts.len() - 1], pad)
    }
}

/// The census of roles.
pub open spec fn roles_tex(exps: Seq<Experiment>) -> Seq<char> {
    if role_parts(exps).len() == 0 {
        Seq::empty()
    } else {
        "\\textbf{Node roles:} "@ + joined(
            all_escaped(role_parts(exps)),
            " \\textperiodcentered{} "@,
        ) + "\n\n"@
    }
}

/// The derivation forest and the census of roles. Lineage that runs in a circle has no forest,
/// and gets no section.
pub open spec fn tree_tex(exps: Seq<Experiment>) -> Seq<char> {
    if !grounded(exps) {
        Seq::empty()
    } else {
        "\\section{Search Tree}\n\n"@ + (if forest(exps).len() == 0 {
            "\\textit{No lineage recorded — these experiments predate \\texttt{spec.lineage}.}\n\n"@
        } else {
            "\\begin{flushleft}\n"@ + all_drawn_tex(forest(exps), Seq::empty())
                + "\\end{flushleft}\n\n"@ + roles_tex(exps)
        })
    }
}

fn draw_tex(node: &TreeNode<'_>, pad: &str) -> (r: String)
    ensures
        r@ == drawn_tex(node.tree(), pad@),
    decreases node,
{
    let mut inner = pad.to_owned();
    inner.append("\\hspace*{1em}");
    let mut below = String::new();
    let mut i: usize = 0;
    while i < node.children.len()
        invariant
            i <= node.children.len(),
            inner@ == pad@ + "\\hspace*{1em}"@,
            below@ == all_drawn_tex(trees(node.children@.take(i as int)), inner@),
        decreases node.children.len() - i,
    {
        proof {
            assert(decreases_to!(*node => node.children));
            assert(decreases_to!(node.children => node.children@));
            assert(decreases_to!(node.children@ => node.children@[i as int]));
            let next = node.children@.take(i + 1);
            assert(next.drop_last() =~= node.children@.take(i as int));
            assert(trees(next).drop_last() =~= trees(node.children@.take(i as int)));
        }
        let t = draw_tex(&node.children[i], inner.as_str());
        below.append(t.as_str());
        i = i + 1;
    }
    assert(node.children@.take(i as int) =~= node.children@);
    let mut s = pad.to_owned();
    s.append("\\texttt{");
    s.append(tex_escape(describe_node(node.exp).as_str()).as_str());
    s.append("} \\\\\n");
    s.append(below.as_str());
    s
}

fn write_roles(exps: &Vec<&Experiment>) -> (r: String)
    ensures
        r@ == roles_tex(derefs(exps@)),
{
    let parts = roles(exps);
    if parts.len() == 0 {
        return String::new();
    }
    let mut s = "\\textbf{Node roles:} ".to_owned();
    s.append(join(&escape_all(&parts), " \\textperiodcentered{} ").as_str());
    s.append("\n\n");
    s
}

fn write_tree(exps: &Vec<&Experiment>) -> (r: String)
    ensures
        r@ == tree_tex(derefs(exps@)),
{
    if !lineage_is_grounded(exps.as_slice()) {
        return String::new();
    }
    let nodes = build_forest(exps.as_slice());
    let mut body = String::new();
    let mut i: usize = 0;
    while i < nodes.len()
        invariant
            i <= nodes.len(),
            body@ == all_drawn_tex(trees(nodes@.take(i as int)), Seq::empty()),
        decreases nodes.len() - i,
    {
        proof {
            reveal_strlit("");
            assert(""@ =~= Seq::empty());
            let next = nodes@.take(i + 1);
            assert(next.drop_last() =~= nodes@.take(i as int));
            assert(trees(next).drop_last() =~= trees(nodes@.take(i as int)));
        }
        body.append(draw_tex(&nodes[i], "").as_str());
        i = i + 1;
    }
    assert(nodes@.take(i as int) =~= nodes@);
    proof {
        lemma_trees_len(nodes@);
    }
    let mut s = "\\section{Search Tree}\n\n".to_owned();
    if nodes.len() == 0 {
        s.append(
            "\\textit{No lineage recorded — these experiments predate \\texttt{spec.lineage}.}\n\n",
        );
    } else {
        let mut t = "\\begin{flushleft}\n".to_owned();
        t.append(body.as_str());
        t.append("\\end{flushleft}\n\n");
        t.append(write_roles(exps).as_str());
        s.append(t.as_str());
    }
    s
}

// ---------------------------------------------------------------------------
// Results
// ---------------------------------------------------------------------------

/// The campaign's best experiment and objective.
pub open spec fn best_tex(experiment: Option<String>, objective: Option<Real>) -> Seq<char> {
    "\\section{Results}\n\n\\textbf{Best Experiment:} "@ + tex_escaped(
        text_or(experiment, "not recorded"@),
    ) + "\n\n\\textbf{Best Objective:} "@ + tex_escaped(fixed4_or(objective, "not recorded"@))
        + "\n\n"@
}

/// The results as the campaign's status gives them.
pub open spec fn campaign_results_tex(campaign: ResearchCampaign) -> Seq<char> {
    match campaign.status {
        Some(s) => best_tex(s.best_experiment, s.best_objective),
        None => best_tex(None, None),
    }
}

fn write_best(experiment: &Option<String>, objective: &Option<Real>) -> (r: String)
    ensures
        r@ == best_tex(*experiment, *objective),
{
    let mut s = "\\section{Results}\n\n\\textbf{Best Experiment:} ".to_owned();
    s.append(tex_escape(or_text(experiment, "not recorded")).as_str());
    s.append("\n\n\\textbf{Best Objective:} ");
    s.append(tex_escape(fixed4_text(objective, "not recorded").as_str()).as_str());
    s.append("\n\n");
    s
}

fn write_campaign_results(campaign: &ResearchCampaign) -> (r: String)
    ensures
        r@ == campaign_results_tex(*campaign),
{
    match &campaign.status {
        Some(s) => write_best(&s.best_experiment, &s.best_objective),
        None => write_best(&None, &None),
    }
}

/// One row of the aggregate table.
pub open spec fn aggregate_tex(entry: (Seq<char>, MetricAggregate)) -> Seq<char> {
    let a = entry.1;
    "  "@ + tex_escaped(entry.0) + " & "@ + fixed4_or_dash(a.mean) + " & "@ + fixed4_or_dash(a.std)
        + " & "@ + fixed4_or_dash(a.min) + " & "@ + fixed4_or_dash(a.max) + " & "@ + count_text(
        a.count,
    ) + " & "@ + fixed4_or_dash(a.ci_low) + " & "@ + fixed4_or_dash(a.ci_high) + " \\\\\n"@
}

/// The aggregate table of a run.
pub open spec fn aggregate_table_tex(all: Seq<(Seq<char>, MetricAggregate)>) -> Seq<char> {
    if all.len() == 0 {
        Seq::empty()
    } else {
        "\\begin{tabular}{l r r r r r r r}\n  \\toprule\n  Metric & Mean & Std & Min & Max & Count & CI Low & CI High \\\\\n  \\midrule\n"@
            + rows(all, |entry: (Seq<char>, MetricAggregate)| aggregate_tex(entry))
            + "  \\bottomrule\n\\end{tabular}\n\n"@
    }
}

fn write_aggregates(m: &TextMap<MetricAggregate>) -> (r: String)
    ensures
        r@ == aggregate_table_tex(m.entries()),
{
    if m.is_empty() {
        return String::new();
    }
    let ghost f = |entry: (Seq<char>, MetricAggregate)| aggregate_tex(entry);
    let ghost all = m.entries();
    let n: usize = m.len();
    let mut body = String::new();
    let mut i: usize = 0;
    while i < n
        invariant
            i <= n,
            n == all.len(),
            all == m.entries(),
            f == (|entry: (Seq<char>, MetricAggregate)| aggregate_tex(entry)),
            body@ == rows(all.take(i as int), f),
        decreases n - i,
    {
        assert(all.take(i + 1).drop_last() =~= all.take(i as int));
        let a = m.value_at(i);
        let mut s = "  ".to_owned();
        s.append(tex_escape(m.key_at(i).as_str()).as_str());
        s.append(" & ");
        s.append(fmt_f64_opt(&a.mean).as_str());
        s.append(" & ");
        s.append(fmt_f64_opt(&a.std).as_str());
        s.append(" & ");
        s.append(fmt_f64_opt(&a.min).as_str());
        s.append(" & ");
        s.append(fmt_f64_opt(&a.max).as_str());
        s.append(" & ");
        s.append(count_str(a.count).as_str());
        s.append(" & ");
        s.append(fmt_f64_opt(&a.ci_low).as_str());
        s.append(" & ");
        s.append(fmt_f64_opt(&a.ci_high).as_str());
        s.append(" \\\\\n");
        body.append(s.as_str());
        i = i + 1;
    }
    assert(all.take(i as int) =~= all);
    let mut s =
        "\\begin{tabular}{l r r r r r r r}\n  \\toprule\n  Metric & Mean & Std & Min & Max & Count & CI Low & CI High \\\\\n  \\midrule\n".to_owned();
    s.append(body.as_str());
    s.append("  \\bottomrule\n\\end{tabular}\n\n");
    s
}

/// One row of a gate table.
pub open spec fn gate_tex(g: GateResult) -> Seq<char> {
    "  "@ + tex_escaped(g.metric@) + " & "@ + g.threshold.fixed4@ + " & "@ + fixed4_or_dash(g.actual)
        + " & "@ + (if g.passed {
        "Yes"@
    } else {
        "No"@
    }) + " \\\\\n"@
}

/// A gate table, for one run.
pub open spec fn gate_table_tex(gates: Seq<GateResult>) -> Seq<char> {
    if gates.len() == 0 {
        Seq::empty()
    } else {
        "\\begin{tabular}{l r r l}\n  \\toprule\n  Gate Metric & Threshold & Actual & Passed \\\\\n  \\midrule\n"@
            + rows(gates, |g: GateResult| gate_tex(g)) + "  \\bottomrule\n\\end{tabular}\n\n"@
    }
}

fn write_gates(gates: &Vec<GateResult>) -> (r: String)
    ensures
        r@ == gate_table_tex(gates@),
{
    if gates.len() == 0 {
        return String::new();
    }
    let ghost f = |g: GateResult| gate_tex(g);
    let mut body = String::new();
    let mut i: usize = 0;
    while i < gates.len()
        invariant
            i <= gates.len(),
            f == (|g: GateResult| gate_tex(g)),
            body@ == rows(gates@.take(i as int), f),
        decreases gates.len() - i,
    {
        assert(gates@.take(i + 1).drop_last() =~= gates@.take(i as int));
        let g = &gates[i];
        let mut s = "  ".to_owned();
        s.append(tex_escape(g.metric.as_str()).as_str());
        s.append(" & ");
        s.append(g.threshold.fixed4.as_str());
        s.append(" & ");
        s.append(fmt_f64_opt(&g.actual).as_str());
        s.append(" & ");
        s.append(if g.passed { "Yes" } else { "No" });
        s.append(" \\\\\n");
        body.append(s.as_str());
        i = i + 1;
    }
    assert(gates@.take(i as int) =~= gates@);
    let mut s =
        "\\begin{tabular}{l r r l}\n  \\toprule\n  Gate Metric & Threshold & Actual & Passed \\\\\n  \\midrule\n".to_owned();
    s.append(body.as_str());
    s.append("  \\bottomrule\n\\end{tabular}\n\n");
    s
}

/// What the dossier says of one benchmark run.
pub open spec fn run_tex(run: BenchmarkRun) -> Seq<char> {
    "\\textbf{BenchmarkRun:} \\texttt{"@ + tex_escaped(run.metadata.named())
        + "}  Phase: \\texttt{"@ + tex_escaped(run_phase_text(run)) + "}\n\n"@ + (match run.status {
        Some(s) => aggregate_table_tex(s.aggregate_metrics.entries()) + gate_table_tex(s.gates@),
        None => Seq::empty(),
    })
}

fn write_run(run: &BenchmarkRun) -> (r: String)
    ensures
        r@ == run_tex(*run),
{
    let mut s = "\\textbf{BenchmarkRun:} \\texttt{".to_owned();
    s.append(tex_escape(run.metadata.name_any().as_str()).as_str());
    s.append("}  Phase: \\texttt{");
    s.append(tex_escape(run_phase_str(run)).as_str());
    s.append("}\n\n");
    let mut t = String::new();
    if let Some(st) = &run.status {
        t = write_aggregates(&st.aggregate_metrics);
        t.append(write_gates(&st.gates).as_str());
    }
    s.append(t.as_str());
    s
}

/// The benchmark runs of one experiment.
pub open spec fn benchmark_tex(
    e: Experiment,
    runs: Map<Seq<char>, Seq<BenchmarkRun>>,
) -> Seq<char> {
    let name = e.metadata.named();
    if runs.contains_key(name) {
        "\\subsection*{Benchmark: "@ + tex_escaped(name) + "}\n\n"@ + rows(
            runs[name],
            |run: BenchmarkRun| run_tex(run),
        )
    } else {
        Seq::empty()
    }
}

/// The benchmark runs of the experiments.
pub open spec fn benchmarks_tex(
    exps: Seq<Experiment>,
    runs: Map<Seq<char>, Seq<BenchmarkRun>>,
) -> Seq<char> {
    rows(exps, |e: Experiment| benchmark_tex(e, runs))
}

fn write_benchmark(e: &Experiment, runs: &TextMap<Vec<&BenchmarkRun>>) -> (r: String)
    ensures
        r@ == benchmark_tex(*e, groups(runs@)),
{
    let name = e.metadata.name_any();
    match runs.get(name.as_str()) {
        Some(v) => {
            let ghost f = |run: BenchmarkRun| run_tex(run);
            let ghost all = unref(v@);
            let mut body = String::new();
            let mut i: usize = 0;
            while i < v.len()
                invariant
                    i <= v.len(),
                    all == unref(v@),
                    f == (|run: BenchmarkRun| run_tex(run)),
                    body@ == rows(all.take(i as int), f),
                decreases v.len() - i,
            {
                assert(all.take(i + 1).drop_last() =~= all.take(i as int));
                assert(all.take(i + 1).last() == *v@[i as int]);
                body.append(write_run(v[i]).as_str());
                i = i + 1;
            }
            assert(all.take(i as int) =~= all);
            let mut s = "\\subsection*{Benchmark: ".to_owned();
            s.append(tex_escape(name.as_str()).as_str());
            s.append("}\n\n");
            s.append(body.as_str());
            s
        },
        None => String::new(),
    }
}

fn write_benchmarks(exps: &Vec<&Experiment>, runs: &TextMap<Vec<&BenchmarkRun>>) -> (r: String)
    ensures
        r@ == benchmarks_tex(derefs(exps@), groups(runs@)),
{
    let ghost all = derefs(exps@);
    let ghost f = |e: Experiment| benchmark_tex(e, groups(runs@));
    let mut body = String::new();
    let mut i: usize = 0;
    while i < exps.len()
        invariant
            i <= exps.len(),
            all == derefs(exps@),
            f == (|e: Experiment| benchmark_tex(e, groups(runs@))),
            body@ == rows(all.take(i as int), f),
        decreases exps.len() - i,
    {
        assert(all.take(i + 1).drop_last() =~= all.take(i as int));
        assert(all.take(i + 1).last() == *exps@[i as int]);
        body.append(write_benchmark(exps[i], runs).as_str());
        i = i + 1;
    }
    assert(all.take(i as int) =~= all);
    body
}

// ---------------------------------------------------------------------------
// Reproducibility and journal
// ---------------------------------------------------------------------------

/// How one experiment can be repeated.
pub open spec fn repro_item(e: Experiment) -> Seq<char> {
    "  \\item \\textbf{"@ + tex_escaped(e.metadata.named()) + "}: params=[\\texttt{"@ + tex_escaped(
        params_text(e),
    ) + "}] | env="@ + tex_escaped(environment_text(e, "not recorded"@)) + " | cost="@
        + tex_escaped(cost_text(e, "not recorded"@)) + " | provenance=\\texttt{"@ + tex_escaped(
        provenance_text(e, "not recorded"@),
    ) + "}\n"@
}

/// How the experiments can be repeated.
pub open spec fn repro_tex(template: ExperimentTemplate, exps: Seq<Experiment>) -> Seq<char> {
    "\\section{Reproducibility}\n\nGit commit: \\texttt{"@ + tex_escaped(
        text_or(template.spec.source.git.commit, "not recorded"@),
    ) + "}\n\n\\begin{itemize}\n"@ + rows(exps, |e: Experiment| repro_item(e))
        + "\\end{itemize}\n\n"@
}

fn write_repro_item(e: &Experiment) -> (r: String)
    ensures
        r@ == repro_item(*e),
{
    let mut s = "  \\item \\textbf{".to_owned();
    s.append(tex_escape(e.metadata.name_any().as_str()).as_str());
    s.append("}: params=[\\texttt{");
    s.append(tex_escape(params_str(e).as_str()).as_str());
    s.append("}] | env=");
    s.append(tex_escape(environment_str(e, "not recorded").as_str()).as_str());
    s.append(" | cost=");
    s.append(tex_escape(cost_str(e, "not recorded").as_str()).as_str());
    s.append(" | provenance=\\texttt{");
    s.append(tex_escape(provenance_str(e, "not recorded")).as_str());
    s.append("}\n");
    s
}

fn write_repro(template: &ExperimentTemplate, exps: &Vec<&Experiment>) -> (r: String)
    ensures
        r@ == repro_tex(*template, derefs(exps@)),
{
    let ghost all = derefs(exps@);
    let ghost f = |e: Experiment| repro_item(e);
    let mut body = String::new();
    let mut i: usize = 0;
    while i < exps.len()
        invariant
            i <= exps.len(),
            all == derefs(exps@),
            f == (|e: Experiment| repro_item(e)),
            body@ == rows(all.take(i as int), f),
        decreases exps.len() - i,
    {
        assert(all.take(i + 1).drop_last() =~= all.take(i as int));
        assert(all.take(i + 1).last() == *exps@[i as int]);
        body.append(write_repro_item(exps[i]).as_str());
        i = i + 1;
    }
    assert(all.take(i as int) =~= all);
    let mut s = "\\section{Reproducibility}\n\nGit commit: \\texttt{".to_owned();
    s.append(tex_escape(or_text(&template.spec.source.git.commit, "not recorded")).as_str());
    s.append("}\n\n\\begin{itemize}\n");
    s.append(body.as_str());
    s.append("\\end{itemize}\n\n");
    s
}

/// What the journal says of one experiment.
pub open spec fn journal_item(e: Experiment, metric: Seq<char>) -> Seq<char> {
    "  \\item \\textbf{"@ + tex_escaped(e.metadata.named()) + "}: "@ + tex_escaped(
        e.spec.hypothesis@,
    ) + " $\\rightarrow$ objective "@ + fixed4_or_dash(objective_of(e, metric)) + ", decision "@
        + tex_escaped(decision_text(e)) + "\n"@
}

/// The campaign journal.
pub open spec fn journal_tex(exps: Seq<Experiment>, metric: Seq<char>) -> Seq<char> {
    "\\section{Campaign Journal}\n\n\\begin{itemize}\n"@ + rows(
        exps,
        |e: Experiment| journal_item(e, metric),
    ) + "\\end{itemize}\n\n"@
}

fn write_journal_item(e: &Experiment, metric: &str) -> (r: String)
    ensures
        r@ == journal_item(*e, metric@),
{
    let mut s = "  \\item \\textbf{".to_owned();
    s.append(tex_escape(e.metadata.name_any().as_str()).as_str());
    s.append("}: ");
    s.append(tex_escape(e.spec.hypothesis.as_str()).as_str());
    s.append(" $\\rightarrow$ objective ");
    s.append(fmt_f64_opt(&best_objective(e, metric)).as_str());
    s.append(", decision ");
    s.append(tex_escape(decision_str(e)).as_str());
    s.append("\n");
    s
}

fn write_journal(exps: &Vec<&Experiment>, metric: &str) -> (r: String)
    ensures
        r@ == journal_tex(derefs(exps@), metric@),
{
    let ghost all = derefs(exps@);
    let ghost f = |e: Experiment| journal_item(e, metric@);
    let mut body = String::new();
    let mut i: usize = 0;
    while i < exps.len()
        invariant
            i <= exps.len(),
            all == derefs(exps@),
            f == (|e: Experiment| journal_item(e, metric@)),
            body@ == rows(all.take(i as int), f),
        decreases exps.len() - i,
    {
        assert(all.take(i + 1).drop_last() =~= all.take(i as int));
        assert(all.take(i + 1).last() == *exps@[i as int]);
        body.append(write_journal_item(exps[i], metric).as_str());
        i = i + 1;
    }
    assert(all.take(i as int) =~= all);
    let mut s = "\\section{Campaign Journal}\n\n\\begin{itemize}\n".to_owned();
    s.append(body.as_str());
    s.append("\\end{itemize}\n\n");
    s
}

// ---------------------------------------------------------------------------
// Future work, artifacts, bibliography
// ---------------------------------------------------------------------------

/// The seeded hypotheses.
pub open spec fn seeds_tex(curation: Option<&Curation>) -> Seq<char> {
    match curation {
        Some(c) => if c.seeded_hypotheses@.len() == 0 {
            Seq::empty()
        } else {
            "\\section{Seeded Hypotheses / Future Work}\n\n\\begin{itemize}\n"@ + rows(
                c.seeded_hypotheses@,
                |h: String| "  \\item "@ + tex_escaped(h@) + "\n"@,
            ) + "\\end{itemize}\n\n"@
        },
        None => Seq::empty(),
    }
}

fn write_seeds(curation: Option<&Curation>) -> (r: String)
    ensures
        r@ == seeds_tex(curation),
{
    let seeds = match curation {
        Some(c) => c.seeded_hypotheses,
        None => {
            return String::new();
        },
    };
    if seeds.len() == 0 {
        return String::new();
    }
    let ghost f = |h: String| "  \\item "@ + tex_escaped(h@) + "\n"@;
    let mut body = String::new();
    let mut i: usize = 0;
    while i < seeds.len()
        invariant
            i <= seeds.len(),
            f == (|h: String| "  \\item "@ + tex_escaped(h@) + "\n"@),
            body@ == rows(seeds@.take(i as int), f),
        decreases seeds.len() - i,
    {
        assert(seeds@.take(i + 1).drop_last() =~= seeds@.take(i as int));
        let mut s = "  \\item ".to_owned();
        s.append(tex_escape(seeds[i].as_str()).as_str());
        s.append("\n");
        body.append(s.as_str());
        i = i + 1;
    }
    assert(seeds@.take(i as int) =~= seeds@);
    let mut s = "\\section{Seeded Hypotheses / Future Work}\n\n\\begin{itemize}\n".to_owned();
    s.append(body.as_str());
    s.append("\\end{itemize}\n\n");
    s
}

/// One row of the artifact index.
pub open spec fn artifact_tex(e: Experiment, runs: Map<Seq<char>, Seq<BenchmarkRun>>) -> Seq<
    char,
> {
    let (workspace, journal, provenance, checkpoints) = match artifacts_of(e) {
        Some(a) => (
            text_or(a.workspace_uri, "—"@),
            text_or(a.journal_uri, "—"@),
            text_or(a.provenance_uri, "—"@),
            text_or(a.checkpoints_uri, "—"@),
        ),
        None => ("—"@, "—"@, "—"@, "—"@),
    };
    "  "@ + tex_escaped(e.metadata.named()) + " & \\texttt{"@ + tex_escaped(workspace)
        + "} & \\texttt{"@ + tex_escaped(journal) + "} & \\texttt{"@ + tex_escaped(provenance)
        + "} & \\texttt{"@ + tex_escaped(checkpoints) + "} & \\texttt{"@ + tex_escaped(
        report_text(runs, e.metadata.named()),
    ) + "} \\\\\n"@
}

/// The artifact index.
pub open spec fn artifact_index_tex(
    exps: Seq<Experiment>,
    runs: Map<Seq<char>, Seq<BenchmarkRun>>,
) -> Seq<char> {
    "\\section{Artifact Index}\n\n\\begin{tabular}{l l l l l l}\n  \\toprule\n  Experiment & Workspace & Journal & Provenance & Checkpoints & Benchmark Report \\\\\n  \\midrule\n"@
        + rows(exps, |e: Experiment| artifact_tex(e, runs)) + "  \\bottomrule\n\\end{tabular}\n\n"@
}

fn write_artifact(e: &Experiment, runs: &TextMap<Vec<&BenchmarkRun>>) -> (r: String)
    ensures
        r@ == artifact_tex(*e, groups(runs@)),
{
    let name = e.metadata.name_any();
    let (workspace, journal, provenance, checkpoints) = match artifacts(e) {
        Some(a) => (
            or_text(&a.workspace_uri, "—"),
            or_text(&a.journal_uri, "—"),
            or_text(&a.provenance_uri, "—"),
            or_text(&a.checkpoints_uri, "—"),
        ),
        None => ("—", "—", "—", "—"),
    };
    let mut s = "  ".to_owned();
    s.append(tex_escape(name.as_str()).as_str());
    s.append(" & \\texttt{");
    s.append(tex_escape(workspace).as_str());
    s.append("} & \\texttt{");
    s.append(tex_escape(journal).as_str());
    s.append("} & \\texttt{");
    s.append(tex_escape(provenance).as_str());
    s.append("} & \\texttt{");
    s.append(tex_escape(checkpoints).as_str());
    s.append("} & \\texttt{");
    s.append(tex_escape(report_str(runs, name.as_str())).as_str());
    s.append("} \\\\\n");
    s
}

fn write_artifacts(exps: &Vec<&Experiment>, runs: &TextMap<Vec<&BenchmarkRun>>) -> (r: String)
    ensures
        r@ == artifact_index_tex(derefs(exps@), groups(runs@)),
{
    let ghost all = derefs(exps@);
    let ghost f = |e: Experiment| artifact_tex(e, groups(runs@));
    let mut body = String::new();
    let mut i: usize = 0;
    while i < exps.len()
        invariant
            i <= exps.len(),
            all == derefs(exps@),
            f == (|e: Experiment| artifact_tex(e, groups(runs@))),
            body@ == rows(all.take(i as int), f),
        decreases exps.len() - i,
    {
        assert(all.take(i + 1).drop_last() =~= all.take(i as int));
        assert(all.take(i + 1).last() == *exps@[i as int]);
        body.append(write_artifact(exps[i], runs).as_str());
        i = i + 1;
    }
    assert(all.take(i as int) =~= all);
    let mut s =
        "\\section{Artifact Index}\n\n\\begin{tabular}{l l l l l l}\n  \\toprule\n  Experiment & Workspace & Journal & Provenance & Checkpoints & Benchmark Report \\\\\n  \\midrule\n".to_owned();
    s.append(body.as_str());
    s.append("  \\bottomrule\n\\end{tabular}\n\n");
    s
}

/// What the citations and the references do not agree on.
pub open spec fn reconciliation_tex(
    undefined: Seq<Seq<char>>,
    unused: Seq<Seq<char>>,
) -> Seq<char> {
    if undefined.len() == 0 && unused.len() == 0 {
        Seq::empty()
    } else {
        "\\section{Citation Reconciliation}\n\n"@ + keys_line(
            "Cited but undefined: "@,
            all_escaped(undefined),
            ".\n"@,
        ) + keys_line("Defined but never cited: "@, all_escaped(unused), ".\n"@) + "\n"@
    }
}

/// `before` and the escaped text, where there is a text.
pub open spec fn labelled_tex(o: Option<String>, before: Seq<char>) -> Seq<char> {
    match o {
        Some(t) => before + tex_escaped(t@),
        None => Seq::empty(),
    }
}

/// A citation can name the key: it has no other characters than those of keys, which are safe.
pub open spec fn is_citable(key: Seq<char>) -> bool {
    forall|i: int| 0 <= i < key.len() ==> key_char(#[trigger] key[i])
}

/// The key as the label of its entry: as `\cite` writes it where a citation can name it, and
/// escaped where none can.
pub open spec fn bib_key(key: Seq<char>) -> Seq<char> {
    if is_citable(key) {
        key
    } else {
        tex_escaped(key)
    }
}

/// One entry of the bibliography.
pub open spec fn bib_item(r: Reference) -> Seq<char> {
    "\\bibitem{"@ + bib_key(r.key@) + "} "@ + tex_escaped(r.title@) + (match r.url {
        Some(u) => ". \\url{"@ + tex_escaped(u@) + "}"@,
        None => Seq::empty(),
    }) + labelled_tex(r.doi, " doi:"@) + labelled_tex(r.supports, " Supports: "@) + ".\n"@
}

/// The bibliography, and how it agrees with the citations.
pub open spec fn bibliography_tex(curation: Option<&Curation>) -> Seq<char> {
    match curation {
        Some(c) => if c.references@.len() == 0 {
            Seq::empty()
        } else {
            reconciliation_tex(
                undefined_keys(c.sections.entries(), c.references@),
                uncited(c.sections.entries(), c.references@),
            ) + "\\begin{thebibliography}{99}\n"@ + rows(
                c.references@,
                |r: Reference| bib_item(r),
            ) + "\\end{thebibliography}\n\n"@
        },
        None => Seq::empty(),
    }
}

fn write_labelled(o: &Option<String>, before: &str) -> (r: String)
    ensures
        r@ == labelled_tex(*o, before@),
{
    match o {
        Some(t) => {
            let mut s = before.to_owned();
            s.append(tex_escape(t.as_str()).as_str());
            s
        },
        None => String::new(),
    }
}

fn write_bib_key(key: &str) -> (r: String)
    ensures
        r@ == bib_key(key@),
{
    let v = chars_of(key);
    let mut i: usize = 0;
    while i < v.len()
        invariant
            i <= v.len(),
            v@ == key@,
            forall|k: int| 0 <= k < i ==> key_char(#[trigger] key@[k]),
        decreases v.len() - i,
    {
        if !is_key_char(v[i]) {
            assert(!key_char(key@[i as int]));
            return tex_escape(key);
        }
        i = i + 1;
    }
    key.to_owned()
}

fn write_bib_item(r: &Reference) -> (s: String)
    ensures
        s@ == bib_item(*r),
{
    let mut s = "\\bibitem{".to_owned();
    s.append(write_bib_key(r.key.as_str()).as_str());
    s.append("} ");
    s.append(tex_escape(r.title.as_str()).as_str());
    let mut link = String::new();
    if let Some(u) = &r.url {
        link = ". \\url{".to_owned();
        link.append(tex_escape(u.as_str()).as_str());
        link.append("}");
    }
    s.append(link.as_str());
    s.append(write_labelled(&r.doi, " doi:").as_str());
    s.append(write_labelled(&r.supports, " Supports: ").as_str());
    s.append(".\n");
    s
}

fn write_bibliography(curation: Option<&Curation>) -> (r: String)
    ensures
        r@ == bibliography_tex(curation),
{
    let c = match curation {
        Some(c) => c,
        None => {
            return String::new();
        },
    };
    let refs = c.references;
    if refs.len() == 0 {
        return String::new();
    }
    let ghost f = |r: Reference| bib_item(r);
    let mut body = String::new();
    let mut i: usize = 0;
    while i < refs.len()
        invariant
            i <= refs.len(),
            f == (|r: Reference| bib_item(r)),
            body@ == rows(refs@.take(i as int), f),
        decreases refs.len() - i,
    {
        assert(refs@.take(i + 1).drop_last() =~= refs@.take(i as int));
        body.append(write_bib_item(&refs[i]).as_str());
        i = i + 1;
    }
    assert(refs@.take(i as int) =~= refs@);
    let check = citation_check(c.sections, refs);
    proof {
        lemma_undefined_keys(check.cited_undefined.deep_view(), c.sections.entries(), refs@);
    }
    let mut s = String::new();
    if check.cited_undefined.len() > 0 || check.defined_uncited.len() > 0 {
        s = "\\section{Citation Reconciliation}\n\n".to_owned();
        let undefined = escape_all(&check.cited_undefined);
        let unused = escape_all(&check.defined_uncited);
        s.append(write_keys("Cited but undefined: ", &undefined, ".\n").as_str());
        s.append(write_keys("Defined but never cited: ", &unused, ".\n").as_str());
        s.append("\n");
    }
    s.append("\\begin{thebibliography}{99}\n");
    s.append(body.as_str());
    s.append("\\end{thebibliography}\n\n");
    s
}

// ---------------------------------------------------------------------------
// The document
// ---------------------------------------------------------------------------

/// The dossier in LaTeX.
pub open spec fn latex(
    campaign_name: Seq<char>,
    namespace: Seq<char>,
    campaign: ResearchCampaign,
    template: ExperimentTemplate,
    experiments: Seq<Experiment>,
    runs: Map<Seq<char>, Seq<BenchmarkRun>>,
    curation: Option<&Curation>,
) -> Seq<char> {
    let exps = kept(experiments, curation);
    let metric = template.spec.objective.metric@;
    preamble_text(campaign_name, namespace, exps.len(), experiments.len(), curation)
        + objective_tex(template) + authored_sections_tex(curation) + setup_tex(campaign, template)
        + parameter_glossary_tex(template) + metric_glossary_tex(template) + experiment_table_tex(
        exps,
        metric,
    ) + tree_tex(exps) + campaign_results_tex(campaign) + benchmarks_tex(exps, runs) + figure_text(
        exps,
        metric,
    ) + repro_tex(template, exps) + journal_tex(exps, metric) + seeds_tex(curation)
        + artifact_index_tex(exps, runs) + bibliography_tex(curation) + "\\end{document}\n"@
}

/// Assemble the dossier as a standalone LaTeX document into `out`, mirroring
/// every section of the Markdown. Writing to a `String` is infallible; the
/// `fmt::Result` is always `Ok`.
///
/// The document is a function of the inputs alone: `\date{\today}` resolves when
/// LaTeX runs, not when the dossier is written.
pub fn render_latex(
    out: &mut String,
    campaign_name: &str,
    namespace: &str,
    campaign: &ResearchCampaign,
    template: &ExperimentTemplate,
    experiments: &[Experiment],
    runs_by_experiment: &TextMap<Vec<&BenchmarkRun>>,
    curation: Option<&Curation>,
) -> (r: std::fmt::Result)
    ensures
        r is Ok,
        final(out)@ == old(out)@ + latex(
            campaign_name@,
            namespace@,
            *campaign,
            *template,
            experiments@,
            groups(runs_by_experiment@),
            curation,
        ),
{
    let exps = curate(experiments, curation);
    let metric = template.spec.objective.metric.as_str();
    let mut doc = write_preamble(
        campaign_name,
        namespace,
        exps.len(),
        experiments.len(),
        curation,
    );
    doc.append(write_objective(template).as_str());
    doc.append(write_authored(curation).as_str());
    doc.append(write_setup(campaign, template).as_str());
    doc.append(write_parameter_glossary(template).as_str());
    doc.append(write_metric_glossary(template).as_str());
    doc.append(write_experiments(&exps, metric).as_str());
    doc.append(write_tree(&exps).as_str());
    doc.append(write_campaign_results(campaign).as_str());
    doc.append(write_benchmarks(&exps, runs_by_experiment).as_str());
    doc.append(figure(&exps, metric).as_str());
    doc.append(write_repro(template, &exps).as_str());
    doc.append(write_journal(&exps, metric).as_str());
    doc.append(write_seeds(curation).as_str());
    doc.append(write_artifacts(&exps, runs_by_experiment).as_str());
    doc.append(write_bibliography(curation).as_str());
    doc.append("\\end{document}\n");
    out.append(doc.as_str());
    Ok(())
}

/// Rows of which each is empty just where the other is.
proof fn lemma_rows_empty<T>(s: Seq<T>, f: spec_fn(T) -> Seq<char>, g: spec_fn(T) -> Seq<char>)
    requires
        forall|i: int|
            0 <= i < s.len() ==> ((f(#[trigger] s[i]).len() == 0) == (g(s[i]).len() == 0)),
    ensures
        (rows(s, f).len() == 0) == (rows(s, g).len() == 0),
    decreases s.len(),
{
    if s.len() > 0 {
        let t = s.drop_last();
        assert forall|i: int| 0 <= i < t.len() implies ((f(#[trigger] t[i]).len() == 0) == (g(
            t[i],
        ).len() == 0)) by {
            assert(t[i] == s[i]);
        }
        lemma_rows_empty(t, f, g);
        assert(s.last() == s[s.len() - 1]);
    }
}

/// What begins a text begins what is added to it.
broadcast proof fn lemma_opens(a: Seq<char>, b: Seq<char>, c: Seq<char>)
    requires
        a.is_prefix_of(b),
    ensures
        #[trigger] a.is_prefix_of(b + c),
{
    assert((b + c).subrange(0, a.len() as int) =~= b.subrange(0, a.len() as int));
}

/// A text begins with what agrees with its first characters.
proof fn lemma_opening(a: Seq<char>, b: Seq<char>)
    requires
        a.len() <= b.len(),
        forall|i: int| 0 <= i < a.len() ==> #[trigger] a[i] == b[i],
    ensures
        a.is_prefix_of(b),
{
    assert(a =~= b.subrange(0, a.len() as int));
}

proof fn lemma_mirror_research(template: ExperimentTemplate)
    ensures
        "## Research Objective\n\n"@.is_prefix_of(objective_section(template)),
        "\\section{Research Objective}\n\n"@.is_prefix_of(objective_tex(template)),
{
    broadcast use lemma_opens;

    assert("## Research Objective\n\n"@.is_prefix_of(objective_section(template)));
    assert("\\section{Research Objective}\n\n"@.is_prefix_of(objective_tex(template)));
}

proof fn lemma_mirror_method(campaign: ResearchCampaign, template: ExperimentTemplate)
    ensures
        "## Method & Setup\n\n"@.is_prefix_of(setup_text(campaign, template)),
        "\\section{Method \\& Setup}\n\n"@.is_prefix_of(setup_tex(campaign, template)),
{
    broadcast use lemma_opens;

    assert("## Method & Setup\n\n"@.is_prefix_of(setup_text(campaign, template))) by {
        reveal_strlit("## Method & Setup\n\n");
        reveal_strlit("## Method & Setup\n\n**Source**\n\n- URL: `");
        lemma_opening("## Method & Setup\n\n"@, "## Method & Setup\n\n**Source**\n\n- URL: `"@);
    }
    assert("\\section{Method \\& Setup}\n\n"@.is_prefix_of(setup_tex(campaign, template))) by {
        reveal_strlit("\\section{Method \\& Setup}\n\n");
        reveal_strlit("\\section{Method \\& Setup}\n\n\\subsection*{Source}\n\\begin{itemize}\n  \\item URL: \\texttt{");
        lemma_opening("\\section{Method \\& Setup}\n\n"@, "\\section{Method \\& Setup}\n\n\\subsection*{Source}\n\\begin{itemize}\n  \\item URL: \\texttt{"@);
    }
}

proof fn lemma_mirror_experiments(exps: Seq<Experiment>, metric: Seq<char>)
    ensures
        "## Experiments\n\n"@.is_prefix_of(experiments_section(exps, metric)),
        "\\section{Experiments}\n\n"@.is_prefix_of(experiment_table_tex(exps, metric)),
{
    broadcast use lemma_opens;

    assert("## Experiments\n\n"@.is_prefix_of(experiments_section(exps, metric))) by {
        reveal_strlit("## Experiments\n\n");
        reveal_strlit("## Experiments\n\n| # | Name | Hypothesis | Parameters | Objective Value | Phase | Decision |\n|---|------|------------|------------|-----------------|-------|----------|\n");
        lemma_opening("## Experiments\n\n"@, "## Experiments\n\n| # | Name | Hypothesis | Parameters | Objective Value | Phase | Decision |\n|---|------|------------|------------|-----------------|-------|----------|\n"@);
    }
    assert("\\section{Experiments}\n\n"@.is_prefix_of(experiment_table_tex(exps, metric))) by {
        reveal_strlit("\\section{Experiments}\n\n");
        reveal_strlit("\\section{Experiments}\n\n\\begin{tabular}{r l p{4cm} p{3.5cm} r l l}\n  \\toprule\n  \\# & Name & Hypothesis & Parameters & Objective Value & Phase & Decision \\\\\n  \\midrule\n");
        lemma_opening("\\section{Experiments}\n\n"@, "\\section{Experiments}\n\n\\begin{tabular}{r l p{4cm} p{3.5cm} r l l}\n  \\toprule\n  \\# & Name & Hypothesis & Parameters & Objective Value & Phase & Decision \\\\\n  \\midrule\n"@);
    }
}

proof fn lemma_mirror_search(exps: Seq<Experiment>)
    requires
        grounded(exps),
    ensures
        "## Search Tree\n\n"@.is_prefix_of(tree_section(exps)),
        "\\section{Search Tree}\n\n"@.is_prefix_of(tree_tex(exps)),
{
    broadcast use lemma_opens;

    assert("## Search Tree\n\n"@.is_prefix_of(tree_section(exps)));
    assert("\\section{Search Tree}\n\n"@.is_prefix_of(tree_tex(exps)));
}

proof fn lemma_mirror_results(campaign: ResearchCampaign)
    ensures
        "## Results\n\n"@.is_prefix_of(campaign_results(campaign)),
        "\\section{Results}\n\n"@.is_prefix_of(campaign_results_tex(campaign)),
{
    broadcast use lemma_opens;

    assert("## Results\n\n"@.is_prefix_of(campaign_results(campaign))) by {
        reveal_strlit("## Results\n\n");
        reveal_strlit("## Results\n\n**Best Experiment:** ");
        lemma_opening("## Results\n\n"@, "## Results\n\n**Best Experiment:** "@);
    }
    assert("\\section{Results}\n\n"@.is_prefix_of(campaign_results_tex(campaign))) by {
        reveal_strlit("\\section{Results}\n\n");
        reveal_strlit("\\section{Results}\n\n\\textbf{Best Experiment:} ");
        lemma_opening("\\section{Results}\n\n"@, "\\section{Results}\n\n\\textbf{Best Experiment:} "@);
    }
}

proof fn lemma_mirror_reproducibility(template: ExperimentTemplate, exps: Seq<Experiment>)
    ensures
        "## Reproducibility\n\n"@.is_prefix_of(repro_section(template, exps)),
        "\\section{Reproducibility}\n\n"@.is_prefix_of(repro_tex(template, exps)),
{
    broadcast use lemma_opens;

    assert("## Reproducibility\n\n"@.is_prefix_of(repro_section(template, exps))) by {
        reveal_strlit("## Reproducibility\n\n");
        reveal_strlit("## Reproducibility\n\n_Git commit: `");
        lemma_opening("## Reproducibility\n\n"@, "## Reproducibility\n\n_Git commit: `"@);
    }
    assert("\\section{Reproducibility}\n\n"@.is_prefix_of(repro_tex(template, exps))) by {
        reveal_strlit("\\section{Reproducibility}\n\n");
        reveal_strlit("\\section{Reproducibility}\n\nGit commit: \\texttt{");
        lemma_opening("\\section{Reproducibility}\n\n"@, "\\section{Reproducibility}\n\nGit commit: \\texttt{"@);
    }
}

proof fn lemma_mirror_campaign(exps: Seq<Experiment>, metric: Seq<char>)
    ensures
        "## Campaign Journal\n\n"@.is_prefix_of(journal_section(exps, metric)),
        "\\section{Campaign Journal}\n\n"@.is_prefix_of(journal_tex(exps, metric)),
{
    broadcast use lemma_opens;

    assert("## Campaign Journal\n\n"@.is_prefix_of(journal_section(exps, metric)));
    assert("\\section{Campaign Journal}\n\n"@.is_prefix_of(journal_tex(exps, metric))) by {
        reveal_strlit("\\section{Campaign Journal}\n\n");
        reveal_strlit("\\section{Campaign Journal}\n\n\\begin{itemize}\n");
        lemma_opening("\\section{Campaign Journal}\n\n"@, "\\section{Campaign Journal}\n\n\\begin{itemize}\n"@);
    }
}

proof fn lemma_mirror_artifact(exps: Seq<Experiment>, runs: Map<Seq<char>, Seq<BenchmarkRun>>)
    ensures
        "## Artifact Index\n\n"@.is_prefix_of(artifact_section(exps, runs)),
        "\\section{Artifact Index}\n\n"@.is_prefix_of(artifact_index_tex(exps, runs)),
{
    broadcast use lemma_opens;

    assert("## Artifact Index\n\n"@.is_prefix_of(artifact_section(exps, runs))) by {
        reveal_strlit("## Artifact Index\n\n");
        reveal_strlit("## Artifact Index\n\n| Experiment | Workspace | Journal | Provenance | Checkpoints | Benchmark Report |\n|------------|-----------|---------|------------|-------------|------------------|\n");
        lemma_opening("## Artifact Index\n\n"@, "## Artifact Index\n\n| Experiment | Workspace | Journal | Provenance | Checkpoints | Benchmark Report |\n|------------|-----------|---------|------------|-------------|------------------|\n"@);
    }
    assert("\\section{Artifact Index}\n\n"@.is_prefix_of(artifact_index_tex(exps, runs))) by {
        reveal_strlit("\\section{Artifact Index}\n\n");
        reveal_strlit("\\section{Artifact Index}\n\n\\begin{tabular}{l l l l l l}\n  \\toprule\n  Experiment & Workspace & Journal & Provenance & Checkpoints & Benchmark Report \\\\\n  \\midrule\n");
        lemma_opening("\\section{Artifact Index}\n\n"@, "\\section{Artifact Index}\n\n\\begin{tabular}{l l l l l l}\n  \\toprule\n  Experiment & Workspace & Journal & Provenance & Checkpoints & Benchmark Report \\\\\n  \\midrule\n"@);
    }
}

/// Every section of the Markdown stands in the LaTeX. Those that are always there open with
/// the same heading; those that depend on the inputs are there just where the Markdown has them.
pub proof fn every_section_is_mirrored(
    campaign: ResearchCampaign,
    template: ExperimentTemplate,
    exps: Seq<Experiment>,
    runs: Map<Seq<char>, Seq<BenchmarkRun>>,
    curation: Option<&Curation>,
)
    requires
        grounded(exps),
    ensures
        ({
            let metric = template.spec.objective.metric@;
            &&& "## Research Objective\n\n"@.is_prefix_of(objective_section(template))
            &&& "\\section{Research Objective}\n\n"@.is_prefix_of(objective_tex(template))
            &&& "## Method & Setup\n\n"@.is_prefix_of(setup_text(campaign, template))
            &&& "\\section{Method \\& Setup}\n\n"@.is_prefix_of(setup_tex(campaign, template))
            &&& "## Experiments\n\n"@.is_prefix_of(experiments_section(exps, metric))
            &&& "\\section{Experiments}\n\n"@.is_prefix_of(experiment_table_tex(exps, metric))
            &&& "## Search Tree\n\n"@.is_prefix_of(tree_section(exps))
            &&& "\\section{Search Tree}\n\n"@.is_prefix_of(tree_tex(exps))
            &&& "## Results\n\n"@.is_prefix_of(campaign_results(campaign))
            &&& "\\section{Results}\n\n"@.is_prefix_of(campaign_results_tex(campaign))
            &&& "## Reproducibility\n\n"@.is_prefix_of(repro_section(template, exps))
            &&& "\\section{Reproducibility}\n\n"@.is_prefix_of(repro_tex(template, exps))
            &&& "## Campaign Journal\n\n"@.is_prefix_of(journal_section(exps, metric))
            &&& "\\section{Campaign Journal}\n\n"@.is_prefix_of(journal_tex(exps, metric))
            &&& "## Artifact Index\n\n"@.is_prefix_of(artifact_section(exps, runs))
            &&& "\\section{Artifact Index}\n\n"@.is_prefix_of(artifact_index_tex(exps, runs))
        }),
        (authored_sections(curation).len() == 0) == (authored_sections_tex(curation).len() == 0),
        (parameter_glossary(template).len() == 0) == (parameter_glossary_tex(template).len() == 0),
        (metric_glossary(template).len() == 0) == (metric_glossary_tex(template).len() == 0),
        (benchmarks_text(exps, runs).len() == 0) == (benchmarks_tex(exps, runs).len() == 0),
        (seeds_section(curation).len() == 0) == (seeds_tex(curation).len() == 0),
        (references_section(curation).len() == 0) == (bibliography_tex(curation).len() == 0),
{
    let metric = template.spec.objective.metric@;
    lemma_mirror_research(template);
    lemma_mirror_method(campaign, template);
    lemma_mirror_experiments(exps, metric);
    lemma_mirror_search(exps);
    lemma_mirror_results(campaign);
    lemma_mirror_reproducibility(template, exps);
    lemma_mirror_campaign(exps, metric);
    lemma_mirror_artifact(exps, runs);
    reveal_strlit("\n\n");
    reveal_strlit("\n");
    if let Some(c) = curation {
        let all = c.sections.entries();
        let f = |entry: (Seq<char>, String)| authored_text(entry);
        let g = |entry: (Seq<char>, String)| authored_tex(entry);
        assert forall|i: int| 0 <= i < all.len() implies ((f(#[trigger] all[i]).len() == 0) == (g(
            all[i],
        ).len() == 0)) by {}
        lemma_rows_empty(all, f, g);
    }
    let f = |e: Experiment| benchmark_text(e, runs);
    let g = |e: Experiment| benchmark_tex(e, runs);
    reveal_strlit("}\n\n");
    assert forall|i: int| 0 <= i < exps.len() implies ((f(#[trigger] exps[i]).len() == 0) == (g(
        exps[i],
    ).len() == 0)) by {}
    lemma_rows_empty(exps, f, g);
    reveal_strlit("  \\bottomrule\n\\end{tabular}\n\n");
    reveal_strlit("\\end{itemize}\n\n");
    reveal_strlit("\\end{thebibliography}\n\n");
    reveal_strlit("## References\n\n");
}

} // verus!

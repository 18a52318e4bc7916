//! The dossier in Markdown.

use vstd::prelude::*;
use crate::benchmark_run::{BenchmarkRun, GateResult};
use crate::common::MetricAggregate;
use crate::dossier::citations::{
    citation_check, cites_to_footnotes, footnoted_from, is_undefined_list, uncited,
};
use crate::dossier::curation::{curate, derefs, kept, Curation};
use crate::dossier::escape::{md_cell, md_escaped, yaml_quoted, yaml_scalar};
use crate::dossier::forest::{
    build_forest, drawn_all, forest, grounded, indent, render_tree_node, trees,
};
use crate::dossier::parts::{
    artifacts, artifacts_of, best_objective, cost_str, cost_text, cutoff_of, data_cutoff,
    decision_str, decision_text, dossier_title, environment_str, environment_text, filled, is_filled,
    objective_of, or_text, params_str, params_text, phase_str, phase_text, provenance_str,
    provenance_text, report_str, report_text, rows, run_phase_str, run_phase_text, text_or, title_of, groups, unref,
};
use crate::experiment::{DerivationRelation, Experiment};
use crate::experiment_template::{DashboardMetric, ExperimentTemplate, ParameterSpec};
use crate::number::{fixed4_or_dash, fmt_f64_opt, Real};
use crate::numeral::{decimal, decimal_of};
use crate::research_campaign::ResearchCampaign;
use crate::research_report::{Reference, ReportSubject};
use crate::text::{join, joined, same};
use crate::textmap::TextMap;

verus! {

broadcast use vstd::seq_lib::group_seq_properties;

/// The version of the library that a dossier names as its author.
pub open spec fn version() -> Seq<char> {
    "0.1.0"@
}

// ---------------------------------------------------------------------------
// Frontmatter
// ---------------------------------------------------------------------------

/// Whether the document is finished: a completed campaign's is stable.
pub open spec fn status_text(campaign: ResearchCampaign) -> Seq<char> {
    if campaign.status matches Some(s) && s.phase matches Some(p) && p@ == "Completed"@ {
        "stable"@
    } else {
        "draft"@
    }
}

/// The line of the data cutoff, where there is one.
pub open spec fn cutoff_line(at: Option<Seq<char>>) -> Seq<char> {
    match at {
        Some(t) => "  at: "@ + t + "\n"@,
        None => Seq::empty(),
    }
}

/// What the document is about, and why it was written.
pub open spec fn about_text(about: Option<&ReportSubject>) -> Seq<char> {
    match about {
        Some(a) => "about:\n  kind: "@ + yaml_quoted(a.kind@) + "\n  name: "@ + yaml_quoted(a.name@)
            + "\n"@ + (match a.motivation {
            Some(m) => "  motivation: "@ + m.named() + "\n"@,
            None => Seq::empty(),
        }),
        None => Seq::empty(),
    }
}

/// Where a source is found: its URL, or its DOI.
pub open spec fn resource_line(r: Reference) -> Seq<char> {
    if is_filled(r.url) {
        "    resource: "@ + yaml_quoted(r.url->0@) + "\n"@
    } else if is_filled(r.doi) {
        "    resource: "@ + yaml_quoted("https://doi.org/"@ + r.doi->0@) + "\n"@
    } else {
        Seq::empty()
    }
}

/// One source of the frontmatter.
pub open spec fn source_text(r: Reference) -> Seq<char> {
    "  - id: "@ + yaml_quoted(r.key@) + "\n"@ + resource_line(r) + "    title: "@ + yaml_quoted(
        r.title@,
    ) + "\n"@ + (if is_filled(r.supports) {
        "    supports: "@ + yaml_quoted(r.supports->0@) + "\n"@
    } else {
        Seq::empty()
    })
}

/// The sources of the frontmatter.
pub open spec fn sources_text(refs: Seq<Reference>) -> Seq<char> {
    if refs.len() == 0 {
        Seq::empty()
    } else {
        "sources:\n"@ + rows(refs, |r: Reference| source_text(r))
    }
}

/// The references of the curation.
pub open spec fn references_of(curation: Option<&Curation>) -> Seq<Reference> {
    match curation {
        Some(c) => c.references@,
        None => Seq::empty(),
    }
}

/// What the curation is about.
pub open spec fn subject_of<'a>(curation: Option<&'a Curation<'a>>) -> Option<&'a ReportSubject> {
    match curation {
        Some(c) => c.about,
        None => None,
    }
}

/// The frontmatter between its fences.
pub open spec fn frontmatter_body(
    title: Seq<char>,
    status: Seq<char>,
    cutoff: Option<Seq<char>>,
    campaign_name: Seq<char>,
    namespace: Seq<char>,
    about: Option<&ReportSubject>,
    refs: Seq<Reference>,
) -> Seq<char> {
    "type: Research Report\ntitle: "@ + yaml_quoted(title) + "\nstatus: "@ + status
        + "\ngenerated:\n  by: athena/"@ + version() + "\n"@ + cutoff_line(cutoff)
        + "tags:\n  - campaign/"@ + campaign_name + "\n  - namespace/"@ + namespace + "\n"@
        + about_text(about) + sources_text(refs)
}

/// The OKF frontmatter.
pub open spec fn frontmatter_text(
    campaign_name: Seq<char>,
    namespace: Seq<char>,
    campaign: ResearchCampaign,
    exps: Seq<Experiment>,
    curation: Option<&Curation>,
) -> Seq<char> {
    "---\n"@ + frontmatter_body(
        title_of(curation, campaign_name),
        status_text(campaign),
        cutoff_of(exps),
        campaign_name,
        namespace,
        subject_of(curation),
        references_of(curation),
    ) + "---\n\n"@
}

fn write_about(about: Option<&ReportSubject>) -> (r: String)
    ensures
        r@ == about_text(about),
{
    match about {
        Some(a) => {
            let mut s = "about:\n  kind: ".to_owned();
            s.append(yaml_scalar(a.kind.as_str()).as_str());
            s.append("\n  name: ");
            s.append(yaml_scalar(a.name.as_str()).as_str());
            s.append("\n");
            let mut m = String::new();
            if let Some(why) = &a.motivation {
                m = "  motivation: ".to_owned();
                m.append(why.label());
                m.append("\n");
            }
            s.append(m.as_str());
            s
        },
        None => String::new(),
    }
}

fn write_resource(r: &Reference) -> (s: String)
    ensures
        s@ == resource_line(*r),
{
    if filled(&r.url) {
        let mut s = "    resource: ".to_owned();
        s.append(yaml_scalar(or_text(&r.url, "")).as_str());
        s.append("\n");
        s
    } else if filled(&r.doi) {
        let mut link = "https://doi.org/".to_owned();
        link.append(or_text(&r.doi, ""));
        let mut s = "    resource: ".to_owned();
        s.append(yaml_scalar(link.as_str()).as_str());
        s.append("\n");
        s
    } else {
        String::new()
    }
}

fn write_source(r: &Reference) -> (s: String)
    ensures
        s@ == source_text(*r),
{
    let mut s = "  - id: ".to_owned();
    s.append(yaml_scalar(r.key.as_str()).as_str());
    s.append("\n");
    s.append(write_resource(r).as_str());
    s.append("    title: ");
    s.append(yaml_scalar(r.title.as_str()).as_str());
    s.append("\n");
    let mut sup = String::new();
    if filled(&r.supports) {
        sup = "    supports: ".to_owned();
        sup.append(yaml_scalar(or_text(&r.supports, "")).as_str());
        sup.append("\n");
    }
    s.append(sup.as_str());
    s
}

fn write_sources(refs: &[Reference]) -> (s: String)
    ensures
        s@ == sources_text(refs@),
{
    if refs.len() == 0 {
        return String::new();
    }
    let ghost f = |r: Reference| source_text(r);
    let mut body = String::new();
    let mut i: usize = 0;
    while i < refs.len()
        invariant
            i <= refs.len(),
            f == (|r: Reference| source_text(r)),
            body@ == rows(refs@.take(i as int), f),
        decreases refs.len() - i,
    {
        assert(refs@.take(i + 1).drop_last() =~= refs@.take(i as int));
        body.append(write_source(&refs[i]).as_str());
        i = i + 1;
    }
    assert(refs@.take(i as int) =~= refs@);
    let mut s = "sources:\n".to_owned();
    s.append(body.as_str());
    s
}

fn write_frontmatter(
    campaign_name: &str,
    namespace: &str,
    campaign: &ResearchCampaign,
    exps: &Vec<&Experiment>,
    curation: Option<&Curation>,
) -> (r: String)
    ensures
        r@ == frontmatter_text(campaign_name@, namespace@, *campaign, derefs(exps@), curation),
{
    let title = dossier_title(curation, campaign_name);
    let mut s = "type: Research Report\ntitle: ".to_owned();
    s.append(yaml_scalar(title.as_str()).as_str());
    s.append("\nstatus: ");
    let completed = match &campaign.status {
        Some(st) => match &st.phase {
            Some(p) => same(p.as_str(), "Completed"),
            None => false,
        },
        None => false,
    };
    s.append(if completed { "stable" } else { "draft" });
    s.append("\ngenerated:\n  by: athena/");
    s.append("0.1.0");
    s.append("\n");
    let mut at = String::new();
    if let Some(t) = data_cutoff(exps.as_slice()) {
        at = "  at: ".to_owned();
        at.append(t.as_str());
        at.append("\n");
    }
    s.append(at.as_str());
    s.append("tags:\n  - campaign/");
    s.append(campaign_name);
    s.append("\n  - namespace/");
    s.append(namespace);
    s.append("\n");
    let about: Option<&ReportSubject> = match curation {
        Some(c) => c.about,
        None => None,
    };
    s.append(write_about(about).as_str());
    let sources = match curation {
        Some(c) => write_sources(c.references),
        None => String::new(),
    };
    s.append(sources.as_str());
    let mut r = "---\n".to_owned();
    r.append(s.as_str());
    r.append("---\n\n");
    r
}

// ---------------------------------------------------------------------------
// Title and objective
// ---------------------------------------------------------------------------

/// The title block.
pub open spec fn heading_text(
    campaign_name: Seq<char>,
    namespace: Seq<char>,
    included: nat,
    total: nat,
    curation: Option<&Curation>,
) -> Seq<char> {
    "# "@ + title_of(curation, campaign_name) + "\n\n_Campaign: "@ + campaign_name
        + " · Namespace: "@ + namespace + "_\n"@ + (if curation is Some {
        "_Curated: "@ + decimal(included) + " of "@ + decimal(total) + " experiments_\n"@
    } else {
        Seq::empty()
    }) + "\n"@
}

fn write_heading(
    campaign_name: &str,
    namespace: &str,
    included: usize,
    total: usize,
    curation: Option<&Curation>,
) -> (r: String)
    ensures
        r@ == heading_text(campaign_name@, namespace@, included as nat, total as nat, curation),
{
    let mut s = "# ".to_owned();
    s.append(dossier_title(curation, campaign_name).as_str());
    s.append("\n\n_Campaign: ");
    s.append(campaign_name);
    s.append(" · Namespace: ");
    s.append(namespace);
    s.append("_\n");
    let mut counts = String::new();
    if curation.is_some() {
        counts = "_Curated: ".to_owned();
        counts.append(decimal_of(included as u64).as_str());
        counts.append(" of ");
        counts.append(decimal_of(total as u64).as_str());
        counts.append(" experiments_\n");
    }
    s.append(counts.as_str());
    s.append("\n");
    s
}

/// The research objective.
pub open spec fn objective_section(template: ExperimentTemplate) -> Seq<char> {
    "## Research Objective\n\n"@ + text_or(template.spec.research_objective, "_not recorded_"@)
        + "\n\n"@
}

fn write_objective(template: &ExperimentTemplate) -> (r: String)
    ensures
        r@ == objective_section(*template),
{
    let mut s = "## Research Objective\n\n".to_owned();
    s.append(or_text(&template.spec.research_objective, "_not recorded_"));
    s.append("\n\n");
    s
}

/// One authored section, with its citations as footnotes.
pub open spec fn authored_text(entry: (Seq<char>, String)) -> Seq<char> {
    "## "@ + entry.0 + "\n\n"@ + footnoted_from(entry.1@, 0) + "\n\n"@
}

/// The authored sections.
pub open spec fn authored_sections(curation: Option<&Curation>) -> Seq<char> {
    match curation {
        Some(c) => rows(c.sections.entries(), |entry: (Seq<char>, String)| authored_text(entry)),
        None => Seq::empty(),
    }
}

fn write_authored(curation: Option<&Curation>) -> (r: String)
    ensures
        r@ == authored_sections(curation),
{
    let mut body = String::new();
    if let Some(c) = curation {
        let ghost f = |entry: (Seq<char>, String)| authored_text(entry);
        let ghost all = c.sections.entries();
        let n: usize = c.sections.len();
        let mut i: usize = 0;
        while i < n
            invariant
                i <= n,
                n == all.len(),
                all == c.sections.entries(),
                f == (|entry: (Seq<char>, String)| authored_text(entry)),
                body@ == rows(all.take(i as int), f),
            decreases n - i,
        {
            assert(all.take(i + 1).drop_last() =~= all.take(i as int));
            let mut s = "## ".to_owned();
            s.append(c.sections.key_at(i).as_str());
            s.append("\n\n");
            s.append(cites_to_footnotes(c.sections.value_at(i).as_str()).as_str());
            s.append("\n\n");
            body.append(s.as_str());
            i = i + 1;
        }
        assert(all.take(i as int) =~= all);
    }
    body
}

// ---------------------------------------------------------------------------
// Method and setup
// ---------------------------------------------------------------------------

/// Source, objective, strategy and budget.
pub open spec fn setup_text(campaign: ResearchCampaign, template: ExperimentTemplate) -> Seq<char> {
    let git = template.spec.source.git;
    "## Method & Setup\n\n**Source**\n\n- URL: `"@ + git.url@ + "`\n- Ref: `"@ + git.git_ref@
        + "`\n"@ + (match git.commit {
        Some(c) => "- Commit: `"@ + c@ + "`\n"@,
        None => Seq::empty(),
    }) + "\n**Objective**\n\n- Metric: `"@ + template.spec.objective.metric@ + "`\n- Goal: `"@
        + template.spec.objective.goal.named()
        + "`\n\n**Strategy & Budget**\n\n- Strategy: `"@ + campaign.spec.strategy.strategy_type@
        + "`\n- Max experiments: "@ + decimal(campaign.spec.budget.max_experiments as nat)
        + "\n- Max duration: `"@ + campaign.spec.budget.max_duration@ + "`\n\n"@
}

fn write_setup(campaign: &ResearchCampaign, template: &ExperimentTemplate) -> (r: String)
    ensures
        r@ == setup_text(*campaign, *template),
{
    let git = &template.spec.source.git;
    let mut s = "## Method & Setup\n\n**Source**\n\n- URL: `".to_owned();
    s.append(git.url.as_str());
    s.append("`\n- Ref: `");
    s.append(git.git_ref.as_str());
    s.append("`\n");
    let mut commit = String::new();
    if let Some(c) = &git.commit {
        commit = "- Commit: `".to_owned();
        commit.append(c.as_str());
        commit.append("`\n");
    }
    s.append(commit.as_str());
    s.append("\n**Objective**\n\n- Metric: `");
    s.append(template.spec.objective.metric.as_str());
    s.append("`\n- Goal: `");
    s.append(template.spec.objective.goal.label());
    s.append("`\n\n**Strategy & Budget**\n\n- Strategy: `");
    s.append(campaign.spec.strategy.strategy_type.as_str());
    s.append("`\n- Max experiments: ");
    s.append(decimal_of(campaign.spec.budget.max_experiments as u64).as_str());
    s.append("\n- Max duration: `");
    s.append(campaign.spec.budget.max_duration.as_str());
    s.append("`\n\n");
    s
}

/// One row of the parameter glossary.
pub open spec fn parameter_row(entry: (Seq<char>, ParameterSpec)) -> Seq<char> {
    "| `"@ + entry.0 + "` | "@ + entry.1.parameter_type@ + " | "@ + md_escaped(
        text_or(entry.1.description, "—"@),
    ) + " |\n"@
}

/// The parameter glossary.
pub open spec fn parameter_glossary(template: ExperimentTemplate) -> Seq<char> {
    let all = template.spec.parameter_schema.entries();
    if all.len() == 0 {
        Seq::empty()
    } else {
        "**Parameter Glossary**\n\n| Name | Type | Description |\n|------|------|-------------|\n"@
            + rows(all, |entry: (Seq<char>, ParameterSpec)| parameter_row(entry)) + "\n"@
    }
}

fn write_parameter_glossary(template: &ExperimentTemplate) -> (r: String)
    ensures
        r@ == parameter_glossary(*template),
{
    let m = &template.spec.parameter_schema;
    if m.is_empty() {
        return String::new();
    }
    let ghost f = |entry: (Seq<char>, ParameterSpec)| parameter_row(entry);
    let ghost all = m.entries();
    let n: usize = m.len();
    let mut body = String::new();
    let mut i: usize = 0;
    while i < n
        invariant
            i <= n,
            n == all.len(),
            all == m.entries(),
            f == (|entry: (Seq<char>, ParameterSpec)| parameter_row(entry)),
            body@ == rows(all.take(i as int), f),
        decreases n - i,
    {
        assert(all.take(i + 1).drop_last() =~= all.take(i as int));
        let p = m.value_at(i);
        let mut s = "| `".to_owned();
        s.append(m.key_at(i).as_str());
        s.append("` | ");
        s.append(p.parameter_type.as_str());
        s.append(" | ");
        s.append(md_cell(or_text(&p.description, "—")).as_str());
        s.append(" |\n");
        body.append(s.as_str());
        i = i + 1;
    }
    assert(all.take(i as int) =~= all);
    let mut s =
        "**Parameter Glossary**\n\n| Name | Type | Description |\n|------|------|-------------|\n".to_owned();
    s.append(body.as_str());
    s.append("\n");
    s
}

/// One row of the metric glossary.
pub open spec fn metric_row(entry: (Seq<char>, DashboardMetric)) -> Seq<char> {
    "| `"@ + entry.0 + "` | "@ + md_escaped(entry.1.label@) + " | "@ + text_or(entry.1.unit, "—"@)
        + " | "@ + md_escaped(text_or(entry.1.description, "—"@)) + " | "@ + (
    match entry.1.baseline {
        Some(b) => b.text@,
        None => "—"@,
    }) + " |\n"@
}

/// The metrics of the template's dashboard.
pub open spec fn dashboard_metrics(template: ExperimentTemplate) -> Seq<
    (Seq<char>, DashboardMetric),
> {
    match template.spec.dashboard {
        Some(d) => d.metrics.entries(),
        None => Seq::empty(),
    }
}

/// The metric glossary.
pub open spec fn metric_glossary(template: ExperimentTemplate) -> Seq<char> {
    let all = dashboard_metrics(template);
    if all.len() == 0 {
        Seq::empty()
    } else {
        "**Metric Glossary**\n\n| Name | Label | Unit | Description | Baseline |\n|------|-------|------|-------------|----------|\n"@
            + rows(all, |entry: (Seq<char>, DashboardMetric)| metric_row(entry)) + "\n"@
    }
}

/// The number, if there is one; else a dash.
pub fn baseline_str(b: &Option<Real>) -> (r: String)
    ensures
        r@ == (match *b {
            Some(b) => b.text@,
            None => "—"@,
        }),
{
    match b {
        Some(b) => b.text.clone(),
        None => "—".to_owned(),
    }
}

fn write_metric_glossary(template: &ExperimentTemplate) -> (r: String)
    ensures
        r@ == metric_glossary(*template),
{
    let m = match &template.spec.dashboard {
        Some(d) => &d.metrics,
        None => {
            return String::new();
        },
    };
    if m.is_empty() {
        return String::new();
    }
    let ghost f = |entry: (Seq<char>, DashboardMetric)| metric_row(entry);
    let ghost all = m.entries();
    let n: usize = m.len();
    let mut body = String::new();
    let mut i: usize = 0;
    while i < n
        invariant
            i <= n,
            n == all.len(),
            all == m.entries(),
            f == (|entry: (Seq<char>, DashboardMetric)| metric_row(entry)),
            body@ == rows(all.take(i as int), f),
        decreases n - i,
    {
        assert(all.take(i + 1).drop_last() =~= all.take(i as int));
        let d = m.value_at(i);
        let mut s = "| `".to_owned();
        s.append(m.key_at(i).as_str());
        s.append("` | ");
        s.append(md_cell(d.label.as_str()).as_str());
        s.append(" | ");
        s.append(or_text(&d.unit, "—"));
        s.append(" | ");
        s.append(md_cell(or_text(&d.description, "—")).as_str());
        s.append(" | ");
        s.append(baseline_str(&d.baseline).as_str());
        s.append(" |\n");
        body.append(s.as_str());
        i = i + 1;
    }
    assert(all.take(i as int) =~= all);
    let mut s =
        "**Metric Glossary**\n\n| Name | Label | Unit | Description | Baseline |\n|------|-------|------|-------------|----------|\n".to_owned();
    s.append(body.as_str());
    s.append("\n");
    s
}

// ---------------------------------------------------------------------------
// Experiments
// ---------------------------------------------------------------------------

/// One row of the experiment table; `number` counts from one.
pub open spec fn experiment_row_text(number: nat, e: Experiment, metric: Seq<char>) -> Seq<char> {
    "| "@ + decimal(number) + " | "@ + e.metadata.named() + " | "@ + md_escaped(e.spec.hypothesis@)
        + " | "@ + md_escaped(params_text(e)) + " | "@ + fixed4_or_dash(objective_of(e, metric))
        + " | "@ + phase_text(e) + " | "@ + decision_text(e) + " |\n"@
}

/// The rows of the experiment table.
pub open spec fn experiment_rows(exps: Seq<Experiment>, metric: Seq<char>) -> Seq<char>
    decreases exps.len(),
{
    if exps.len() == 0 {
        Seq::empty()
    } else {
        experiment_rows(exps.drop_last(), metric) + experiment_row_text(
            exps.len(),
            exps.last(),
            metric,
        )
    }
}

/// The experiment table.
pub open spec fn experiments_section(exps: Seq<Experiment>, metric: Seq<char>) -> Seq<char> {
    "## Experiments\n\n| # | Name | Hypothesis | Parameters | Objective Value | Phase | Decision |\n|---|------|------------|------------|-----------------|-------|----------|\n"@
        + experiment_rows(exps, metric) + "\n"@
}

fn write_experiment_row(number: usize, e: &Experiment, metric: &str) -> (r: String)
    ensures
        r@ == experiment_row_text(number as nat, *e, metric@),
{
    let mut s = "| ".to_owned();
    s.append(decimal_of(number as u64).as_str());
    s.append(" | ");
    s.append(e.metadata.name_any().as_str());
    s.append(" | ");
    s.append(md_cell(e.spec.hypothesis.as_str()).as_str());
    s.append(" | ");
    s.append(md_cell(params_str(e).as_str()).as_str());
    s.append(" | ");
    s.append(fmt_f64_opt(&best_objective(e, metric)).as_str());
    s.append(" | ");
    s.append(phase_str(e));
    s.append(" | ");
    s.append(decision_str(e));
    s.append(" |\n");
    s
}

fn write_experiments(exps: &Vec<&Experiment>, metric: &str) -> (r: String)
    ensures
        r@ == experiments_section(derefs(exps@), metric@),
{
    let ghost all = derefs(exps@);
    let mut body = String::new();
    let mut i: usize = 0;
    while i < exps.len()
        invariant
            i <= exps.len(),
            all == derefs(exps@),
            body@ == experiment_rows(all.take(i as int), metric@),
        decreases exps.len() - i,
    {
        assert(all.take(i + 1).drop_last() =~= all.take(i as int));
        assert(all.take(i + 1).last() == *exps@[i as int]);
        body.append(write_experiment_row(i + 1, exps[i], metric).as_str());
        i = i + 1;
    }
    assert(all.take(i as int) =~= all);
    let mut s =
        "## Experiments\n\n| # | Name | Hypothesis | Parameters | Objective Value | Phase | Decision |\n|---|------|------------|------------|-----------------|-------|----------|\n".to_owned();
    s.append(body.as_str());
    s.append("\n");
    s
}

// ---------------------------------------------------------------------------
// Search tree
// ---------------------------------------------------------------------------

/// How many experiments have the role.
pub open spec fn role_count(exps: Seq<Experiment>, role: DerivationRelation) -> nat
    decreases exps.len(),
{
    if exps.len() == 0 {
        0
    } else {
        role_count(exps.drop_last(), role) + if exps.last().spec.lineage matches Some(l)
            && l.relation == role {
            1nat
        } else {
            0nat
        }
    }
}

/// The role with its count, where any experiment has it.
pub open spec fn role_part(exps: Seq<Experiment>, role: DerivationRelation) -> Seq<Seq<char>> {
    if role_count(exps, role) == 0 {
        Seq::empty()
    } else {
        seq![role.named() + ": "@ + decimal(role_count(exps, role))]
    }
}

/// The roles that occur, in dictionary order, with their counts.
pub open spec fn role_parts(exps: Seq<Experiment>) -> Seq<Seq<char>> {
    role_part(exps, DerivationRelation::Baseline) + role_part(exps, DerivationRelation::Canary)
        + role_part(exps, DerivationRelation::Perturb) + role_part(
        exps,
        DerivationRelation::Remeasure,
    ) + role_part(exps, DerivationRelation::Replicate) + role_part(exps, DerivationRelation::Seed)
}

/// The derivation forest and the census of roles.
pub open spec fn tree_section(exps: Seq<Experiment>) -> Seq<char> {
    "## Search Tree\n\n"@ + (if forest(exps).len() == 0 {
        "_No lineage recorded — these experiments predate `spec.lineage`._\n\n"@
    } else {
        "```\n"@ + drawn_all(forest(exps), Seq::empty()) + "```\n\n"@ + (if role_parts(exps).len()
            == 0 {
            Seq::empty()
        } else {
            "**Node roles:** "@ + joined(role_parts(exps), " · "@) + "\n\n"@
        })
    })
}

fn count_role(exps: &Vec<&Experiment>, role: DerivationRelation) -> (r: usize)
    ensures
        r == role_count(derefs(exps@), role),
{
    let ghost all = derefs(exps@);
    let mut n: usize = 0;
    let mut i: usize = 0;
    while i < exps.len()
        invariant
            i <= exps.len(),
            n <= i,
            all == derefs(exps@),
            n == role_count(all.take(i as int), role),
        decreases exps.len() - i,
    {
        assert(all.take(i + 1).drop_last() =~= all.take(i as int));
        assert(all.take(i + 1).last() == *exps@[i as int]);
        if let Some(l) = &exps[i].spec.lineage {
            if l.relation == role {
                n = n + 1;
            }
        }
        i = i + 1;
    }
    assert(all.take(i as int) =~= all);
    n
}

fn push_role(parts: &mut Vec<String>, exps: &Vec<&Experiment>, role: DerivationRelation)
    ensures
        final(parts).deep_view() == old(parts).deep_view() + role_part(derefs(exps@), role),
{
    let ghost before = parts.deep_view();
    let n: usize = count_role(exps, role);
    if n > 0 {
        let mut text = role.label().to_owned();
        text.append(": ");
        text.append(decimal_of(n as u64).as_str());
        parts.push(text);
        assert(parts.deep_view() =~= before.push(text@));
    }
    assert(parts.deep_view() =~= before + role_part(derefs(exps@), role));
}

/// The roles that occur, in dictionary order, with their counts.
pub fn roles(exps: &Vec<&Experiment>) -> (r: Vec<String>)
    ensures
        r.deep_view() == role_parts(derefs(exps@)),
{
    let mut parts: Vec<String> = Vec::new();
    assert(parts.deep_view() =~= Seq::empty());
    push_role(&mut parts, exps, DerivationRelation::Baseline);
    assert(parts.deep_view() =~= role_part(derefs(exps@), DerivationRelation::Baseline));
    push_role(&mut parts, exps, DerivationRelation::Canary);
    push_role(&mut parts, exps, DerivationRelation::Perturb);
    push_role(&mut parts, exps, DerivationRelation::Remeasure);
    push_role(&mut parts, exps, DerivationRelation::Replicate);
    push_role(&mut parts, exps, DerivationRelation::Seed);
    parts
}

fn write_roles(exps: &Vec<&Experiment>) -> (r: String)
    ensures
        r@ == (if role_parts(derefs(exps@)).len() == 0 {
            Seq::empty()
        } else {
            "**Node roles:** "@ + joined(role_parts(derefs(exps@)), " · "@) + "\n\n"@
        }),
{
    let parts = roles(exps);
    if parts.len() == 0 {
        return String::new();
    }
    let mut s = "**Node roles:** ".to_owned();
    s.append(join(&parts, " · ").as_str());
    s.append("\n\n");
    s
}

fn write_tree(exps: &Vec<&Experiment>) -> (r: String)
    requires
        grounded(derefs(exps@)),
    ensures
        r@ == tree_section(derefs(exps@)),
{
    let nodes = build_forest(exps.as_slice());
    let mut body = String::new();
    let mut i: usize = 0;
    while i < nodes.len()
        invariant
            i <= nodes.len(),
            body@ == drawn_all(trees(nodes@.take(i as int)), Seq::empty()),
        decreases nodes.len() - i,
    {
        proof {
            let next = nodes@.take(i + 1);
            assert(next.drop_last() =~= nodes@.take(i as int));
            assert(trees(next).drop_last() =~= trees(nodes@.take(i as int)));
            assert(indent(0) =~= Seq::empty());
        }
        render_tree_node(&mut body, &nodes[i], 0);
        i = i + 1;
    }
    assert(nodes@.take(i as int) =~= nodes@);
    proof {
        lemma_trees_len(nodes@);
    }
    let mut s = "## Search Tree\n\n".to_owned();
    if nodes.len() == 0 {
        s.append("_No lineage recorded — these experiments predate `spec.lineage`._\n\n");
    } else {
        let mut t = "```\n".to_owned();
        t.append(body.as_str());
        t.append("```\n\n");
        t.append(write_roles(exps).as_str());
        s.append(t.as_str());
    }
    s
}

/// There is a tree for each node.
pub proof fn lemma_trees_len(nodes: Seq<crate::dossier::forest::TreeNode>)
    ensures
        trees(nodes).len() == nodes.len(),
    decreases nodes.len(),
{
    if nodes.len() > 0 {
        lemma_trees_len(nodes.drop_last());
    }
}

// ---------------------------------------------------------------------------
// Results
// ---------------------------------------------------------------------------

/// The number with four digits after the point, or `missing`.
pub open spec fn fixed4_or(v: Option<Real>, missing: Seq<char>) -> Seq<char> {
    match v {
        Some(x) => x.fixed4@,
        None => missing,
    }
}

/// The number with four digits after the point, or `missing`.
pub fn fixed4_text(v: &Option<Real>, missing: &str) -> (r: String)
    ensures
        r@ == fixed4_or(*v, missing@),
{
    match v {
        Some(x) => x.fixed4.clone(),
        None => missing.to_owned(),
    }
}

/// What the campaign's status says of its best.
pub open spec fn best_section(
    best_experiment: Option<String>,
    best_objective: Option<Real>,
    incumbent: Option<Real>,
    sigma: Option<Real>,
    control_runs: u32,
    bias: Option<Real>,
) -> Seq<char> {
    "## Results\n\n**Best Experiment:** "@ + text_or(best_experiment, "_not recorded_"@)
        + "\n\n**Best Objective (biased):** "@ + fixed4_or(best_objective, "_not recorded_"@)
        + " — max over N noisy draws; monotone by construction and therefore NOT evidence of progress.\n\n**Incumbent Re-measured (unbiased):** "@
        + fixed4_or(incumbent, "_no control runs yet_"@) + "\n\n**Seed noise (sigma):** "@
        + fixed4_or(sigma, "_not yet estimated_"@) + " over "@ + decimal(control_runs as nat)
        + " control run(s)\n\n"@ + (if best_objective is Some && incumbent is Some
        && bias is Some {
        "_Divergence between the two above is the maximization bias, made directly visible: "@
            + bias->0.fixed4@ + "._\n\n"@
    } else {
        Seq::empty()
    })
}

/// The results as the campaign's status gives them.
pub open spec fn campaign_results(campaign: ResearchCampaign) -> Seq<char> {
    match campaign.status {
        Some(s) => best_section(
            s.best_experiment,
            s.best_objective,
            s.incumbent_remeasured,
            s.seed_noise_sigma,
            s.control_runs,
            s.maximization_bias,
        ),
        None => best_section(None, None, None, None, 0, None),
    }
}

fn write_best(
    best_experiment: &Option<String>,
    best_objective: &Option<Real>,
    incumbent: &Option<Real>,
    sigma: &Option<Real>,
    control_runs: u32,
    bias: &Option<Real>,
) -> (r: String)
    ensures
        r@ == best_section(
            *best_experiment,
            *best_objective,
            *incumbent,
            *sigma,
            control_runs,
            *bias,
        ),
{
    let mut s = "## Results\n\n**Best Experiment:** ".to_owned();
    s.append(or_text(best_experiment, "_not recorded_"));
    s.append("\n\n**Best Objective (biased):** ");
    s.append(fixed4_text(best_objective, "_not recorded_").as_str());
    s.append(
        " — max over N noisy draws; monotone by construction and therefore NOT evidence of progress.\n\n**Incumbent Re-measured (unbiased):** ",
    );
    s.append(fixed4_text(incumbent, "_no control runs yet_").as_str());
    s.append("\n\n**Seed noise (sigma):** ");
    s.append(fixed4_text(sigma, "_not yet estimated_").as_str());
    s.append(" over ");
    s.append(decimal_of(control_runs as u64).as_str());
    s.append(" control run(s)\n\n");
    let mut t = String::new();
    if best_objective.is_some() && incumbent.is_some() {
        if let Some(b) = bias {
            t =
            "_Divergence between the two above is the maximization bias, made directly visible: ".to_owned();
            t.append(b.fixed4.as_str());
            t.append("._\n\n");
        }
    }
    s.append(t.as_str());
    s
}

fn write_campaign_results(campaign: &ResearchCampaign) -> (r: String)
    ensures
        r@ == campaign_results(*campaign),
{
    match &campaign.status {
        Some(s) => write_best(
            &s.best_experiment,
            &s.best_objective,
            &s.incumbent_remeasured,
            &s.seed_noise_sigma,
            s.control_runs,
            &s.maximization_bias,
        ),
        None => write_best(&None, &None, &None, &None, 0, &None),
    }
}

/// A count, or a dash.
pub open spec fn count_text(c: Option<u32>) -> Seq<char> {
    match c {
        Some(n) => decimal(n as nat),
        None => "—"@,
    }
}

/// A count, or a dash.
pub fn count_str(c: Option<u32>) -> (r: String)
    ensures
        r@ == count_text(c),
{
    match c {
        Some(n) => decimal_of(n as u64),
        None => "—".to_owned(),
    }
}

/// One row of the aggregate table.
pub open spec fn aggregate_row(entry: (Seq<char>, MetricAggregate)) -> Seq<char> {
    let a = entry.1;
    "| "@ + entry.0 + " | "@ + fixed4_or_dash(a.mean) + " | "@ + fixed4_or_dash(a.std) + " | "@
        + fixed4_or_dash(a.min) + " | "@ + fixed4_or_dash(a.max) + " | "@ + count_text(a.count)
        + " | "@ + fixed4_or_dash(a.ci_low) + " | "@ + fixed4_or_dash(a.ci_high) + " |\n"@
}

/// The aggregate table of a run.
pub open spec fn aggregate_table(all: Seq<(Seq<char>, MetricAggregate)>) -> Seq<char> {
    if all.len() == 0 {
        Seq::empty()
    } else {
        "| Metric | Mean | Std | Min | Max | Count | CI Low | CI High |\n|--------|------|-----|-----|-----|-------|--------|---------|\n"@
            + rows(all, |entry: (Seq<char>, MetricAggregate)| aggregate_row(entry)) + "\n"@
    }
}

fn write_aggregates(m: &TextMap<MetricAggregate>) -> (r: String)
    ensures
        r@ == aggregate_table(m.entries()),
{
    if m.is_empty() {
        return String::new();
    }
    let ghost f = |entry: (Seq<char>, MetricAggregate)| aggregate_row(entry);
    let ghost all = m.entries();
    let n: usize = m.len();
    let mut body = String::new();
    let mut i: usize = 0;
    while i < n
        invariant
            i <= n,
            n == all.len(),
            all == m.entries(),
            f == (|entry: (Seq<char>, MetricAggregate)| aggregate_row(entry)),
            body@ == rows(all.take(i as int), f),
        decreases n - i,
    {
        assert(all.take(i + 1).drop_last() =~= all.take(i as int));
        let a = m.value_at(i);
        let mut s = "| ".to_owned();
        s.append(m.key_at(i).as_str());
        s.append(" | ");
        s.append(fmt_f64_opt(&a.mean).as_str());
        s.append(" | ");
        s.append(fmt_f64_opt(&a.std).as_str());
        s.append(" | ");
        s.append(fmt_f64_opt(&a.min).as_str());
        s.append(" | ");
        s.append(fmt_f64_opt(&a.max).as_str());
        s.append(" | ");
        s.append(count_str(a.count).as_str());
        s.append(" | ");
        s.append(fmt_f64_opt(&a.ci_low).as_str());
        s.append(" | ");
        s.append(fmt_f64_opt(&a.ci_high).as_str());
        s.append(" |\n");
        body.append(s.as_str());
        i = i + 1;
    }
    assert(all.take(i as int) =~= all);
    let mut s =
        "| Metric | Mean | Std | Min | Max | Count | CI Low | CI High |\n|--------|------|-----|-----|-----|-------|--------|---------|\n".to_owned();
    s.append(body.as_str());
    s.append("\n");
    s
}

/// One row of a gate table.
pub open spec fn gate_row(g: GateResult) -> Seq<char> {
    "| "@ + g.metric@ + " | "@ + g.threshold.fixed4@ + " | "@ + fixed4_or_dash(g.actual) + " | "@
        + (if g.passed {
        "✓"@
    } else {
        "✗"@
    }) + " |\n"@
}

/// A gate table, for one run.
pub open spec fn gate_table(gates: Seq<GateResult>) -> Seq<char> {
    if gates.len() == 0 {
        Seq::empty()
    } else {
        "| Gate Metric | Threshold | Actual | Passed |\n|-------------|-----------|--------|--------|\n"@
            + rows(gates, |g: GateResult| gate_row(g)) + "\n"@
    }
}

fn write_gates(gates: &Vec<GateResult>) -> (r: String)
    ensures
        r@ == gate_table(gates@),
{
    if gates.len() == 0 {
        return String::new();
    }
    let ghost f = |g: GateResult| gate_row(g);
    let mut body = String::new();
    let mut i: usize = 0;
    while i < gates.len()
        invariant
            i <= gates.len(),
            f == (|g: GateResult| gate_row(g)),
            body@ == rows(gates@.take(i as int), f),
        decreases gates.len() - i,
    {
        assert(gates@.take(i + 1).drop_last() =~= gates@.take(i as int));
        let g = &gates[i];
        let mut s = "| ".to_owned();
        s.append(g.metric.as_str());
        s.append(" | ");
        s.append(g.threshold.fixed4.as_str());
        s.append(" | ");
        s.append(fmt_f64_opt(&g.actual).as_str());
        s.append(" | ");
        s.append(if g.passed { "✓" } else { "✗" });
        s.append(" |\n");
        body.append(s.as_str());
        i = i + 1;
    }
    assert(gates@.take(i as int) =~= gates@);
    let mut s =
        "| Gate Metric | Threshold | Actual | Passed |\n|-------------|-----------|--------|--------|\n".to_owned();
    s.append(body.as_str());
    s.append("\n");
    s
}

/// What the dossier says of one benchmark run.
pub open spec fn run_text(run: BenchmarkRun) -> Seq<char> {
    "**BenchmarkRun:** `"@ + run.metadata.named() + "`  Phase: `"@ + run_phase_text(run) + "`\n\n"@
        + (match run.status {
        Some(s) => aggregate_table(s.aggregate_metrics.entries()) + gate_table(s.gates@),
        None => Seq::empty(),
    })
}

fn write_run(run: &BenchmarkRun) -> (r: String)
    ensures
        r@ == run_text(*run),
{
    let mut s = "**BenchmarkRun:** `".to_owned();
    s.append(run.metadata.name_any().as_str());
    s.append("`  Phase: `");
    s.append(run_phase_str(run));
    s.append("`\n\n");
    let mut t = String::new();
    if let Some(st) = &run.status {
        t = write_aggregates(&st.aggregate_metrics);
        t.append(write_gates(&st.gates).as_str());
    }
    s.append(t.as_str());
    s
}

/// The benchmark runs of one experiment.
pub open spec fn benchmark_text(
    e: Experiment,
    runs: Map<Seq<char>, Seq<BenchmarkRun>>,
) -> Seq<char> {
    let name = e.metadata.named();
    if runs.contains_key(name) {
        "### Benchmark: "@ + name + "\n\n"@ + rows(runs[name], |run: BenchmarkRun| run_text(run))
    } else {
        Seq::empty()
    }
}

/// The benchmark runs of the experiments.
pub open spec fn benchmarks_text(
    exps: Seq<Experiment>,
    runs: Map<Seq<char>, Seq<BenchmarkRun>>,
) -> Seq<char> {
    rows(exps, |e: Experiment| benchmark_text(e, runs))
}

fn write_benchmark(e: &Experiment, runs: &TextMap<Vec<&BenchmarkRun>>) -> (r: String)
    ensures
        r@ == benchmark_text(*e, groups(runs@)),
{
    let name = e.metadata.name_any();
    match runs.get(name.as_str()) {
        Some(v) => {
            let ghost f = |run: BenchmarkRun| run_text(run);
            let ghost all = unref(v@);
            let mut body = String::new();
            let mut i: usize = 0;
            while i < v.len()
                invariant
                    i <= v.len(),
                    all == unref(v@),
                    f == (|run: BenchmarkRun| run_text(run)),
                    body@ == rows(all.take(i as int), f),
                decreases v.len() - i,
            {
                assert(all.take(i + 1).drop_last() =~= all.take(i as int));
                assert(all.take(i + 1).last() == *v@[i as int]);
                body.append(write_run(v[i]).as_str());
                i = i + 1;
            }
            assert(all.take(i as int) =~= all);
            let mut s = "### Benchmark: ".to_owned();
            s.append(name.as_str());
            s.append("\n\n");
            s.append(body.as_str());
            s
        },
        None => String::new(),
    }
}

fn write_benchmarks(exps: &Vec<&Experiment>, runs: &TextMap<Vec<&BenchmarkRun>>) -> (r: String)
    ensures
        r@ == benchmarks_text(derefs(exps@), groups(runs@)),
{
    let ghost all = derefs(exps@);
    let ghost f = |e: Experiment| benchmark_text(e, groups(runs@));
    let mut body = String::new();
    let mut i: usize = 0;
    while i < exps.len()
        invariant
            i <= exps.len(),
            all == derefs(exps@),
            f == (|e: Experiment| benchmark_text(e, groups(runs@))),
            body@ == rows(all.take(i as int), f),
        decreases exps.len() - i,
    {
        assert(all.take(i + 1).drop_last() =~= all.take(i as int));
        assert(all.take(i + 1).last() == *exps@[i as int]);
        body.append(write_benchmark(exps[i], runs).as_str());
        i = i + 1;
    }
    assert(all.take(i as int) =~= all);
    body
}

// ---------------------------------------------------------------------------
// Reproducibility and journal
// ---------------------------------------------------------------------------

/// How one experiment can be repeated.
pub open spec fn repro_line(e: Experiment) -> Seq<char> {
    "- **"@ + e.metadata.named() + "**: params=["@ + params_text(e) + "] | env="@
        + environment_text(e, "_not recorded_"@) + " | cost="@ + cost_text(e, "_not recorded_"@)
        + " | provenance=`"@ + provenance_text(e, "_not recorded_"@) + "`\n"@
}

/// How the experiments can be repeated.
pub open spec fn repro_section(template: ExperimentTemplate, exps: Seq<Experiment>) -> Seq<char> {
    "## Reproducibility\n\n_Git commit: `"@ + text_or(
        template.spec.source.git.commit,
        "_not recorded_"@,
    ) + "`_\n\n"@ + rows(exps, |e: Experiment| repro_line(e)) + "\n"@
}

fn write_repro_line(e: &Experiment) -> (r: String)
    ensures
        r@ == repro_line(*e),
{
    let mut s = "- **".to_owned();
    s.append(e.metadata.name_any().as_str());
    s.append("**: params=[");
    s.append(params_str(e).as_str());
    s.append("] | env=");
    s.append(environment_str(e, "_not recorded_").as_str());
    s.append(" | cost=");
    s.append(cost_str(e, "_not recorded_").as_str());
    s.append(" | provenance=`");
    s.append(provenance_str(e, "_not recorded_"));
    s.append("`\n");
    s
}

fn write_repro(template: &ExperimentTemplate, exps: &Vec<&Experiment>) -> (r: String)
    ensures
        r@ == repro_section(*template, derefs(exps@)),
{
    let ghost all = derefs(exps@);
    let ghost f = |e: Experiment| repro_line(e);
    let mut body = String::new();
    let mut i: usize = 0;
    while i < exps.len()
        invariant
            i <= exps.len(),
            all == derefs(exps@),
            f == (|e: Experiment| repro_line(e)),
            body@ == rows(all.take(i as int), f),
        decreases exps.len() - i,
    {
        assert(all.take(i + 1).drop_last() =~= all.take(i as int));
        assert(all.take(i + 1).last() == *exps@[i as int]);
        body.append(write_repro_line(exps[i]).as_str());
        i = i + 1;
    }
    assert(all.take(i as int) =~= all);
    let mut s = "## Reproducibility\n\n_Git commit: `".to_owned();
    s.append(or_text(&template.spec.source.git.commit, "_not recorded_"));
    s.append("`_\n\n");
    s.append(body.as_str());
    s.append("\n");
    s
}

/// What the journal says of one experiment.
pub open spec fn journal_line(e: Experiment, metric: Seq<char>) -> Seq<char> {
    "- **"@ + e.metadata.named() + "**: "@ + e.spec.hypothesis@ + " → objective "@
        + fixed4_or_dash(objective_of(e, metric)) + ", decision "@ + decision_text(e) + "\n"@
}

/// The campaign journal.
pub open spec fn journal_section(exps: Seq<Experiment>, metric: Seq<char>) -> Seq<char> {
    "## Campaign Journal\n\n"@ + rows(exps, |e: Experiment| journal_line(e, metric)) + "\n"@
}

fn write_journal_line(e: &Experiment, metric: &str) -> (r: String)
    ensures
        r@ == journal_line(*e, metric@),
{
    let mut s = "- **".to_owned();
    s.append(e.metadata.name_any().as_str());
    s.append("**: ");
    s.append(e.spec.hypothesis.as_str());
    s.append(" → objective ");
    s.append(fmt_f64_opt(&best_objective(e, metric)).as_str());
    s.append(", decision ");
    s.append(decision_str(e));
    s.append("\n");
    s
}

fn write_journal(exps: &Vec<&Experiment>, metric: &str) -> (r: String)
    ensures
        r@ == journal_section(derefs(exps@), metric@),
{
    let ghost all = derefs(exps@);
    let ghost f = |e: Experiment| journal_line(e, metric@);
    let mut body = String::new();
    let mut i: usize = 0;
    while i < exps.len()
        invariant
            i <= exps.len(),
            all == derefs(exps@),
            f == (|e: Experiment| journal_line(e, metric@)),
            body@ == rows(all.take(i as int), f),
        decreases exps.len() - i,
    {
        assert(all.take(i + 1).drop_last() =~= all.take(i as int));
        assert(all.take(i + 1).last() == *exps@[i as int]);
        body.append(write_journal_line(exps[i], metric).as_str());
        i = i + 1;
    }
    assert(all.take(i as int) =~= all);
    let mut s = "## Campaign Journal\n\n".to_owned();
    s.append(body.as_str());
    s.append("\n");
    s
}

// ---------------------------------------------------------------------------
// Future work, references, artifacts
// ---------------------------------------------------------------------------

/// The seeded hypotheses.
pub open spec fn seeds_section(curation: Option<&Curation>) -> Seq<char> {
    match curation {
        Some(c) => if c.seeded_hypotheses@.len() == 0 {
            Seq::empty()
        } else {
            "## Seeded Hypotheses / Future Work\n\n"@ + rows(
                c.seeded_hypotheses@,
                |h: String| "- "@ + h@ + "\n"@,
            ) + "\n"@
        },
        None => Seq::empty(),
    }
}

fn write_seeds(curation: Option<&Curation>) -> (r: String)
    ensures
        r@ == seeds_section(curation),
{
    let seeds = match curation {
        Some(c) => c.seeded_hypotheses,
        None => {
            return String::new();
        },
    };
    if seeds.len() == 0 {
        return String::new();
    }
    let ghost f = |h: String| "- "@ + h@ + "\n"@;
    let mut body = String::new();
    let mut i: usize = 0;
    while i < seeds.len()
        invariant
            i <= seeds.len(),
            f == (|h: String| "- "@ + h@ + "\n"@),
            body@ == rows(seeds@.take(i as int), f),
        decreases seeds.len() - i,
    {
        assert(seeds@.take(i + 1).drop_last() =~= seeds@.take(i as int));
        let mut s = "- ".to_owned();
        s.append(seeds[i].as_str());
        s.append("\n");
        body.append(s.as_str());
        i = i + 1;
    }
    assert(seeds@.take(i as int) =~= seeds@);
    let mut s = "## Seeded Hypotheses / Future Work\n\n".to_owned();
    s.append(body.as_str());
    s.append("\n");
    s
}

/// `before`, the text and `after`, where there is a text.
pub open spec fn wrapped(o: Option<String>, before: Seq<char>, after: Seq<char>) -> Seq<char> {
    match o {
        Some(t) => before + t@ + after,
        None => Seq::empty(),
    }
}

/// `before`, the text and `after`, where there is a text.
pub fn wrap(o: &Option<String>, before: &str, after: &str) -> (r: String)
    ensures
        r@ == wrapped(*o, before@, after@),
{
    match o {
        Some(t) => {
            let mut s = before.to_owned();
            s.append(t.as_str());
            s.append(after);
            s
        },
        None => String::new(),
    }
}

/// The footnote definition of one reference.
pub open spec fn reference_line(r: Reference) -> Seq<char> {
    "[^"@ + r.key@ + "]: "@ + r.title@ + wrapped(r.url, " — <"@, ">"@) + wrapped(
        r.doi,
        " (doi:"@,
        ")"@,
    ) + wrapped(r.supports, " — supports: \""@, "\""@) + "\n"@
}

fn write_reference_line(r: &Reference) -> (s: String)
    ensures
        s@ == reference_line(*r),
{
    let mut s = "[^".to_owned();
    s.append(r.key.as_str());
    s.append("]: ");
    s.append(r.title.as_str());
    s.append(wrap(&r.url, " — <", ">").as_str());
    s.append(wrap(&r.doi, " (doi:", ")").as_str());
    s.append(wrap(&r.supports, " — supports: \"", "\"").as_str());
    s.append("\n");
    s
}

/// `label` and the keys, where there are any.
pub open spec fn keys_line(label: Seq<char>, keys: Seq<Seq<char>>, end: Seq<char>) -> Seq<char> {
    if keys.len() == 0 {
        Seq::empty()
    } else {
        label + joined(keys, ", "@) + end
    }
}

/// `label` and the keys, where there are any.
pub fn write_keys(label: &str, keys: &Vec<String>, end: &str) -> (r: String)
    ensures
        r@ == keys_line(label@, keys.deep_view(), end@),
{
    if keys.len() == 0 {
        return String::new();
    }
    let mut s = label.to_owned();
    s.append(join(keys, ", ").as_str());
    s.append(end);
    s
}

/// What the citations and the references do not agree on.
pub open spec fn reconciliation_text(
    undefined: Seq<Seq<char>>,
    unused: Seq<Seq<char>>,
) -> Seq<char> {
    if undefined.len() == 0 && unused.len() == 0 {
        Seq::empty()
    } else {
        "## Citation Reconciliation\n\n"@ + keys_line("cited but undefined: "@, undefined, "\n"@)
            + keys_line("defined but never cited: "@, unused, "\n"@) + "\n"@
    }
}

/// The list of the keys that are cited and not defined.
pub open spec fn undefined_keys(
    sections: Seq<(Seq<char>, String)>,
    references: Seq<Reference>,
) -> Seq<Seq<char>> {
    choose|keys: Seq<Seq<char>>| is_undefined_list(keys, sections, references)
}

/// The references, and how they agree with the citations.
pub open spec fn references_section(curation: Option<&Curation>) -> Seq<char> {
    match curation {
        Some(c) => if c.references@.len() == 0 {
            Seq::empty()
        } else {
            "## References\n\n"@ + rows(c.references@, |r: Reference| reference_line(r)) + "\n"@
                + reconciliation_text(
                undefined_keys(c.sections.entries(), c.references@),
                uncited(c.sections.entries(), c.references@),
            )
        },
        None => Seq::empty(),
    }
}

/// There is only one such list.
pub proof fn lemma_undefined_keys(
    keys: Seq<Seq<char>>,
    sections: Seq<(Seq<char>, String)>,
    references: Seq<Reference>,
)
    requires
        is_undefined_list(keys, sections, references),
    ensures
        undefined_keys(sections, references) == keys,
{
    let other = undefined_keys(sections, references);
    assert(is_undefined_list(other, sections, references));
    assert(other.to_set() =~= keys.to_set()) by {
        assert forall|k: Seq<char>| other.to_set().contains(k) == keys.to_set().contains(k) by {
            assert(other.contains(k) == keys.contains(k));
        }
    }
    crate::textset::lemma_ascending_unique(other, keys);
}

fn write_references(curation: Option<&Curation>) -> (r: String)
    ensures
        r@ == references_section(curation),
{
    let c = match curation {
        Some(c) => c,
        None => {
            return String::new();
        },
    };
    let refs = c.references;
    if refs.len() == 0 {
        return String::new();
    }
    let ghost f = |r: Reference| reference_line(r);
    let mut body = String::new();
    let mut i: usize = 0;
    while i < refs.len()
        invariant
            i <= refs.len(),
            f == (|r: Reference| reference_line(r)),
            body@ == rows(refs@.take(i as int), f),
        decreases refs.len() - i,
    {
        assert(refs@.take(i + 1).drop_last() =~= refs@.take(i as int));
        body.append(write_reference_line(&refs[i]).as_str());
        i = i + 1;
    }
    assert(refs@.take(i as int) =~= refs@);
    let check = citation_check(c.sections, refs);
    proof {
        lemma_undefined_keys(check.cited_undefined.deep_view(), c.sections.entries(), refs@);
    }
    let mut t = String::new();
    if check.cited_undefined.len() > 0 || check.defined_uncited.len() > 0 {
        t = "## Citation Reconciliation\n\n".to_owned();
        t.append(write_keys("cited but undefined: ", &check.cited_undefined, "\n").as_str());
        t.append(write_keys("defined but never cited: ", &check.defined_uncited, "\n").as_str());
        t.append("\n");
    }
    let mut s = "## References\n\n".to_owned();
    s.append(body.as_str());
    s.append("\n");
    s.append(t.as_str());
    s
}

/// One row of the artifact index.
pub open spec fn artifact_row(e: Experiment, runs: Map<Seq<char>, Seq<BenchmarkRun>>) -> Seq<
    char,
> {
    let (workspace, journal, provenance, checkpoints) = match artifacts_of(e) {
        Some(a) => (
            text_or(a.workspace_uri, "—"@),
            text_or(a.journal_uri, "—"@),
            text_or(a.provenance_uri, "—"@),
            text_or(a.checkpoints_uri, "—"@),
        ),
        None => ("—"@, "—"@, "—"@, "—"@),
    };
    "| "@ + e.metadata.named() + " | "@ + workspace + " | "@ + journal + " | "@ + provenance
        + " | "@ + checkpoints + " | "@ + report_text(runs, e.metadata.named()) + " |\n"@
}

/// The artifact index.
pub open spec fn artifact_section(
    exps: Seq<Experiment>,
    runs: Map<Seq<char>, Seq<BenchmarkRun>>,
) -> Seq<char> {
    "## Artifact Index\n\n| Experiment | Workspace | Journal | Provenance | Checkpoints | Benchmark Report |\n|------------|-----------|---------|------------|-------------|------------------|\n"@
        + rows(exps, |e: Experiment| artifact_row(e, runs)) + "\n"@
}

fn write_artifact_row(e: &Experiment, runs: &TextMap<Vec<&BenchmarkRun>>) -> (r: String)
    ensures
        r@ == artifact_row(*e, groups(runs@)),
{
    let name = e.metadata.name_any();
    let (workspace, journal, provenance, checkpoints) = match artifacts(e) {
        Some(a) => (
            or_text(&a.workspace_uri, "—"),
            or_text(&a.journal_uri, "—"),
            or_text(&a.provenance_uri, "—"),
            or_text(&a.checkpoints_uri, "—"),
        ),
        None => ("—", "—", "—", "—"),
    };
    let mut s = "| ".to_owned();
    s.append(name.as_str());
    s.append(" | ");
    s.append(workspace);
    s.append(" | ");
    s.append(journal);
    s.append(" | ");
    s.append(provenance);
    s.append(" | ");
    s.append(checkpoints);
    s.append(" | ");
    s.append(report_str(runs, name.as_str()));
    s.append(" |\n");
    s
}

fn write_artifacts(exps: &Vec<&Experiment>, runs: &TextMap<Vec<&BenchmarkRun>>) -> (r: String)
    ensures
        r@ == artifact_section(derefs(exps@), groups(runs@)),
{
    let ghost all = derefs(exps@);
    let ghost f = |e: Experiment| artifact_row(e, groups(runs@));
    let mut body = String::new();
    let mut i: usize = 0;
    while i < exps.len()
        invariant
            i <= exps.len(),
            all == derefs(exps@),
            f == (|e: Experiment| artifact_row(e, groups(runs@))),
            body@ == rows(all.take(i as int), f),
        decreases exps.len() - i,
    {
        assert(all.take(i + 1).drop_last() =~= all.take(i as int));
        assert(all.take(i + 1).last() == *exps@[i as int]);
        body.append(write_artifact_row(exps[i], runs).as_str());
        i = i + 1;
    }
    assert(all.take(i as int) =~= all);
    let mut s =
        "## Artifact Index\n\n| Experiment | Workspace | Journal | Provenance | Checkpoints | Benchmark Report |\n|------------|-----------|---------|------------|-------------|------------------|\n".to_owned();
    s.append(body.as_str());
    s.append("\n");
    s
}

// ---------------------------------------------------------------------------
// The document
// ---------------------------------------------------------------------------

/// The document below its frontmatter.
pub open spec fn markdown_body(
    campaign_name: Seq<char>,
    namespace: Seq<char>,
    campaign: ResearchCampaign,
    template: ExperimentTemplate,
    experiments: Seq<Experiment>,
    runs: Map<Seq<char>, Seq<BenchmarkRun>>,
    curation: Option<&Curation>,
) -> Seq<char> {
    let exps = kept(experiments, curation);
    let metric = template.spec.objective.metric@;
    heading_text(campaign_name, namespace, exps.len(), experiments.len(), curation)
        + objective_section(template) + authored_sections(curation) + setup_text(campaign, template)
        + parameter_glossary(template) + metric_glossary(template) + experiments_section(
        exps,
        metric,
    ) + tree_section(exps) + campaign_results(campaign) + benchmarks_text(exps, runs)
        + repro_section(template, exps) + journal_section(exps, metric) + seeds_section(curation)
        + references_section(curation) + artifact_section(exps, runs)
}

/// The dossier in Markdown.
pub open spec fn markdown(
    campaign_name: Seq<char>,
    namespace: Seq<char>,
    campaign: ResearchCampaign,
    template: ExperimentTemplate,
    experiments: Seq<Experiment>,
    runs: Map<Seq<char>, Seq<BenchmarkRun>>,
    curation: Option<&Curation>,
) -> Seq<char> {
    frontmatter_text(campaign_name, namespace, campaign, kept(experiments, curation), curation)
        + markdown_body(
        campaign_name,
        namespace,
        campaign,
        template,
        experiments,
        runs,
        curation,
    )
}

/// Assemble the dossier Markdown into `out`. Writing to a `String` is infallible;
/// the `fmt::Result` is always `Ok`.
///
/// The text is a function of the inputs alone. There is no clock in it: the reconciler
/// content-diffs the output to decide whether to rewrite the ConfigMap, and the data cutoff
/// says what the document is current AS OF.
pub fn render(
    out: &mut String,
    campaign_name: &str,
    namespace: &str,
    campaign: &ResearchCampaign,
    template: &ExperimentTemplate,
    experiments: &[Experiment],
    runs_by_experiment: &TextMap<Vec<&BenchmarkRun>>,
    curation: Option<&Curation>,
) -> (r: std::fmt::Result)
    requires
        grounded(kept(experiments@, curation)),
    ensures
        r is Ok,
        final(out)@ == old(out)@ + markdown(
            campaign_name@,
            namespace@,
            *campaign,
            *template,
            experiments@,
            groups(runs_by_experiment@),
            curation,
        ),
{
    let exps = curate(experiments, curation);
    let metric = template.spec.objective.metric.as_str();
    let mut doc = write_frontmatter(campaign_name, namespace, campaign, &exps, curation);
    let mut body = write_heading(
        campaign_name,
        namespace,
        exps.len(),
        experiments.len(),
        curation,
    );
    body.append(write_objective(template).as_str());
    body.append(write_authored(curation).as_str());
    body.append(write_setup(campaign, template).as_str());
    body.append(write_parameter_glossary(template).as_str());
    body.append(write_metric_glossary(template).as_str());
    body.append(write_experiments(&exps, metric).as_str());
    body.append(write_tree(&exps).as_str());
    body.append(write_campaign_results(campaign).as_str());
    body.append(write_benchmarks(&exps, runs_by_experiment).as_str());
    body.append(write_repro(template, &exps).as_str());
    body.append(write_journal(&exps, metric).as_str());
    body.append(write_seeds(curation).as_str());
    body.append(write_references(curation).as_str());
    body.append(write_artifacts(&exps, runs_by_experiment).as_str());
    doc.append(body.as_str());
    out.append(doc.as_str());
    Ok(())
}

} // verus!

//! What stands around the tables of the two documents: titles, counts, metadata, setup, references,
//! and that nothing is left out.

use vstd::prelude::*;
use crate::benchmark_run::{BenchmarkRun, GateResult};
use crate::common::MetricAggregate;
use crate::dossier::citations::{footnoted_from, tex_cited_from, uncited};
use crate::dossier::curation::{kept, Curation};
use crate::dossier::escape::{tex_escaped, yaml_quoted};
use crate::dossier::forest::{drawn_all, forest, grounded, Tree};
use crate::dossier::latex::{
    aggregate_table_tex, aggregate_tex, all_drawn_tex, all_escaped, artifact_index_tex,
    artifact_tex, authored_sections_tex, authored_tex, benchmarks_tex, bib_item, bib_key,
    bibliography_tex, campaign_results_tex, drawn_tex, experiment_table_tex, experiment_tex,
    experiments_tex, gate_table_tex, gate_tex, journal_item, journal_tex, latex,
    metric_glossary_tex, metric_tex, node_tex, objective_tex, parameter_glossary_tex,
    parameter_tex, preamble_text, reconciliation_tex, repro_item, repro_tex, roles_tex, seeds_tex,
    setup_tex, tree_tex,
};
use crate::dossier::markdown::{
    about_text, aggregate_row, aggregate_table, artifact_row, artifact_section, authored_sections,
    authored_text, benchmarks_text, campaign_results, cutoff_line, dashboard_metrics,
    experiment_row_text, experiment_rows, experiments_section, frontmatter_body, frontmatter_text,
    gate_row, gate_table, heading_text, journal_line, journal_section, keys_line, markdown,
    markdown_body, metric_glossary, metric_row, objective_section, parameter_glossary,
    parameter_row, reconciliation_text, reference_line, references_section, repro_line,
    repro_section, role_count, role_part, role_parts, seeds_section, setup_text, source_text,
    sources_text, status_text, tree_section,
};
use crate::dossier::parts::{is_filled, rows, text_or, title_of};
use crate::dossier::sensitivity::figure_text;
use crate::dossier::shown::{lemma_rows_split, lemma_shows_through, rows_from};
use crate::experiment::{DerivationRelation, Experiment};
use crate::experiment_template::{DashboardMetric, ExperimentTemplate, ParameterSpec};
use crate::numeral::decimal;
use crate::research_campaign::ResearchCampaign;
use crate::research_report::{Reference, ReportSubject};
use crate::text::{
    joined, lemma_shows_back, lemma_shows_between, lemma_shows_enclosed, lemma_shows_front,
    lemma_shows_itself, lemma_shows_joined, lemma_shows_part, shows,
};

verus! {

// ---------------------------------------------------------------------------
// Titles and counts
// ---------------------------------------------------------------------------

/// A dossier carries the title that its curator gave it, and else the name of its campaign.
pub proof fn the_title_is_the_curators(curation: Option<&Curation>, campaign_name: Seq<char>)
    ensures
        curation is Some && curation->0.title is Some ==> title_of(curation, campaign_name)
            == curation->0.title->0@,
        curation is None || curation->0.title is None ==> title_of(curation, campaign_name)
            == "Research Dossier: "@ + campaign_name,
{
}

/// The heading gives the title, the campaign and the namespace; a curated dossier also says how
/// many experiments were kept out of how many, and one that is not curated says nothing of that.
pub proof fn the_heading_says_what_it_is_about(
    campaign_name: Seq<char>,
    namespace: Seq<char>,
    included: nat,
    total: nat,
    curation: Option<&Curation>,
)
    ensures
        ({
            let h = heading_text(campaign_name, namespace, included, total, curation);
            &&& shows(h, "# "@ + title_of(curation, campaign_name) + "\n"@)
            &&& shows(h, "_Campaign: "@ + campaign_name + " "@)
            &&& shows(h, "Namespace: "@ + namespace + "_\n"@)
            &&& curation is Some ==> shows(h, "_Curated: "@ + decimal(included) + " of "@)
            &&& curation is Some ==> shows(h, " of "@ + decimal(total) + " experiments_"@)
            &&& curation is None ==> forall|n: nat, m: nat|
                #[trigger] heading_text(campaign_name, namespace, n, m, curation) == h
        }),
{
    let c = if curation is Some {
        "_Curated: "@ + decimal(included) + " of "@ + decimal(total) + " experiments_\n"@
    } else {
        Seq::empty()
    };
    let t = title_of(curation, campaign_name);
    let h = heading_text(campaign_name, namespace, included, total, curation);
    lemma_heading(t, campaign_name, namespace, c, "\n"@);
    if curation is Some {
        lemma_curated(decimal(included), decimal(total));
        let front = "# "@ + t + "\n\n_Campaign: "@ + campaign_name + " · Namespace: "@ + namespace
            + "_\n"@;
        lemma_shows_part(front, c, "\n"@, "_Curated: "@ + decimal(included) + " of "@);
        lemma_shows_part(front, c, "\n"@, " of "@ + decimal(total) + " experiments_"@);
    }
}

/// The preamble says the same.
pub proof fn the_preamble_says_what_it_is_about(
    campaign_name: Seq<char>,
    namespace: Seq<char>,
    included: nat,
    total: nat,
    curation: Option<&Curation>,
)
    ensures
        ({
            let h = preamble_text(campaign_name, namespace, included, total, curation);
            &&& shows(h, "\\title{"@ + tex_escaped(title_of(curation, campaign_name)) + "}\n"@)
            &&& shows(h, "Campaign: "@ + tex_escaped(campaign_name) + " "@)
            &&& shows(h, "Namespace: "@ + tex_escaped(namespace) + "}"@)
            &&& curation is Some ==> shows(h, "Curated: "@ + decimal(included) + " of "@)
            &&& curation is Some ==> shows(h, " of "@ + decimal(total) + " experiments"@)
            &&& curation is None ==> forall|n: nat, m: nat|
                #[trigger] preamble_text(campaign_name, namespace, n, m, curation) == h
        }),
{
    let c = if curation is Some {
        "\\\\\\textit{Curated: "@ + decimal(included) + " of "@ + decimal(total)
            + " experiments}\n"@
    } else {
        Seq::empty()
    };
    let t = tex_escaped(title_of(curation, campaign_name));
    lemma_preamble(t, tex_escaped(campaign_name), tex_escaped(namespace), c, "\n"@);
    if curation is Some {
        lemma_curated_tex(decimal(included), decimal(total));
        let front = "\\documentclass{article}\n\\usepackage[T1]{fontenc}\n\\usepackage{booktabs}\n\\usepackage{pgfplots}\n\\pgfplotsset{compat=1.18}\n\\usepackage{hyperref}\n\\usepackage[margin=1in]{geometry}\n\\title{"@ + t + "}\n\\author{Athena autonomous research platform}\n\\date{\\today}\n\\begin{document}\n\\maketitle\n\n\\noindent\\textit{Campaign: "@ + tex_escaped(campaign_name) + " \\textperiodcentered{} Namespace: "@ + tex_escaped(namespace)
            + "}\n"@;
        lemma_shows_part(front, c, "\n"@, "Curated: "@ + decimal(included) + " of "@);
        lemma_shows_part(front, c, "\n"@, " of "@ + decimal(total) + " experiments"@);
    }
}

proof fn lemma_heading(t: Seq<char>, n: Seq<char>, s: Seq<char>, c: Seq<char>, e: Seq<char>)
    ensures
        shows("# "@ + t + "\n\n_Campaign: "@ + n + " · Namespace: "@ + s + "_\n"@ + c + e, "# "@ + t + "\n"@),
        shows("# "@ + t + "\n\n_Campaign: "@ + n + " · Namespace: "@ + s + "_\n"@ + c + e, "_Campaign: "@ + n + " "@),
        shows("# "@ + t + "\n\n_Campaign: "@ + n + " · Namespace: "@ + s + "_\n"@ + c + e, "Namespace: "@ + s + "_\n"@),
{
    assert("# "@ =~= Seq::<char>::empty() + "# "@);
    assert("\n\n_Campaign: "@ =~= "\n"@ + "\n_Campaign: "@) by {
        reveal_strlit("\n\n_Campaign: ");
        reveal_strlit("\n");
        reveal_strlit("\n_Campaign: ");
    }
    lemma_shows_enclosed(Seq::<char>::empty(), Seq::<char>::empty(), "# "@, t, "\n"@, "\n_Campaign: "@);
    assert(Seq::<char>::empty() + "# "@ =~= "# "@);
    lemma_shows_front("# "@ + t + "\n\n_Campaign: "@, n, "# "@ + t + "\n"@);
    lemma_shows_front("# "@ + t + "\n\n_Campaign: "@ + n, " · Namespace: "@, "# "@ + t + "\n"@);
    lemma_shows_front("# "@ + t + "\n\n_Campaign: "@ + n + " · Namespace: "@, s, "# "@ + t + "\n"@);
    lemma_shows_front("# "@ + t + "\n\n_Campaign: "@ + n + " · Namespace: "@ + s, "_\n"@, "# "@ + t + "\n"@);
    lemma_shows_front("# "@ + t + "\n\n_Campaign: "@ + n + " · Namespace: "@ + s + "_\n"@, c, "# "@ + t + "\n"@);
    lemma_shows_front("# "@ + t + "\n\n_Campaign: "@ + n + " · Namespace: "@ + s + "_\n"@ + c, e, "# "@ + t + "\n"@);
    assert("\n\n_Campaign: "@ =~= "\n\n"@ + "_Campaign: "@) by {
        reveal_strlit("\n\n_Campaign: ");
        reveal_strlit("\n\n");
        reveal_strlit("_Campaign: ");
    }
    assert(" · Namespace: "@ =~= " "@ + "· Namespace: "@) by {
        reveal_strlit(" · Namespace: ");
        reveal_strlit(" ");
        reveal_strlit("· Namespace: ");
    }
    lemma_shows_enclosed("# "@ + t, "\n\n"@, "_Campaign: "@, n, " "@, "· Namespace: "@);
    lemma_shows_front("# "@ + t + "\n\n_Campaign: "@ + n + " · Namespace: "@, s, "_Campaign: "@ + n + " "@);
    lemma_shows_front("# "@ + t + "\n\n_Campaign: "@ + n + " · Namespace: "@ + s, "_\n"@, "_Campaign: "@ + n + " "@);
    lemma_shows_front("# "@ + t + "\n\n_Campaign: "@ + n + " · Namespace: "@ + s + "_\n"@, c, "_Campaign: "@ + n + " "@);
    lemma_shows_front("# "@ + t + "\n\n_Campaign: "@ + n + " · Namespace: "@ + s + "_\n"@ + c, e, "_Campaign: "@ + n + " "@);
    assert(" · Namespace: "@ =~= " · "@ + "Namespace: "@) by {
        reveal_strlit(" · Namespace: ");
        reveal_strlit(" · ");
        reveal_strlit("Namespace: ");
    }
    assert("_\n"@ =~= "_\n"@ + Seq::<char>::empty());
    lemma_shows_enclosed("# "@ + t + "\n\n_Campaign: "@ + n, " · "@, "Namespace: "@, s, "_\n"@, Seq::<char>::empty());
    lemma_shows_front("# "@ + t + "\n\n_Campaign: "@ + n + " · Namespace: "@ + s + "_\n"@, c, "Namespace: "@ + s + "_\n"@);
    lemma_shows_front("# "@ + t + "\n\n_Campaign: "@ + n + " · Namespace: "@ + s + "_\n"@ + c, e, "Namespace: "@ + s + "_\n"@);
}

proof fn lemma_curated(i: Seq<char>, t: Seq<char>)
    ensures
        shows("_Curated: "@ + i + " of "@ + t + " experiments_\n"@, "_Curated: "@ + i + " of "@),
        shows("_Curated: "@ + i + " of "@ + t + " experiments_\n"@, " of "@ + t + " experiments_"@),
{
    assert("_Curated: "@ =~= Seq::<char>::empty() + "_Curated: "@);
    assert(" of "@ =~= " of "@ + Seq::<char>::empty());
    lemma_shows_enclosed(Seq::<char>::empty(), Seq::<char>::empty(), "_Curated: "@, i, " of "@, Seq::<char>::empty());
    assert(Seq::<char>::empty() + "_Curated: "@ =~= "_Curated: "@);
    lemma_shows_front("_Curated: "@ + i + " of "@, t, "_Curated: "@ + i + " of "@);
    lemma_shows_front("_Curated: "@ + i + " of "@ + t, " experiments_\n"@, "_Curated: "@ + i + " of "@);
    assert(" of "@ =~= Seq::<char>::empty() + " of "@);
    assert(" experiments_\n"@ =~= " experiments_"@ + "\n"@) by {
        reveal_strlit(" experiments_\n");
        reveal_strlit(" experiments_");
        reveal_strlit("\n");
    }
    lemma_shows_enclosed("_Curated: "@ + i, Seq::<char>::empty(), " of "@, t, " experiments_"@, "\n"@);
}

proof fn lemma_preamble(t: Seq<char>, n: Seq<char>, s: Seq<char>, c: Seq<char>, e: Seq<char>)
    ensures
        shows("\\documentclass{article}\n\\usepackage[T1]{fontenc}\n\\usepackage{booktabs}\n\\usepackage{pgfplots}\n\\pgfplotsset{compat=1.18}\n\\usepackage{hyperref}\n\\usepackage[margin=1in]{geometry}\n\\title{"@ + t + "}\n\\author{Athena autonomous research platform}\n\\date{\\today}\n\\begin{document}\n\\maketitle\n\n\\noindent\\textit{Campaign: "@ + n + " \\textperiodcentered{} Namespace: "@ + s + "}\n"@ + c + e, "\\title{"@ + t + "}\n"@),
        shows("\\documentclass{article}\n\\usepackage[T1]{fontenc}\n\\usepackage{booktabs}\n\\usepackage{pgfplots}\n\\pgfplotsset{compat=1.18}\n\\usepackage{hyperref}\n\\usepackage[margin=1in]{geometry}\n\\title{"@ + t + "}\n\\author{Athena autonomous research platform}\n\\date{\\today}\n\\begin{document}\n\\maketitle\n\n\\noindent\\textit{Campaign: "@ + n + " \\textperiodcentered{} Namespace: "@ + s + "}\n"@ + c + e, "Campaign: "@ + n + " "@),
        shows("\\documentclass{article}\n\\usepackage[T1]{fontenc}\n\\usepackage{booktabs}\n\\usepackage{pgfplots}\n\\pgfplotsset{compat=1.18}\n\\usepackage{hyperref}\n\\usepackage[margin=1in]{geometry}\n\\title{"@ + t + "}\n\\author{Athena autonomous research platform}\n\\date{\\today}\n\\begin{document}\n\\maketitle\n\n\\noindent\\textit{Campaign: "@ + n + " \\textperiodcentered{} Namespace: "@ + s + "}\n"@ + c + e, "Namespace: "@ + s + "}"@),
{
    assert("\\documentclass{article}\n\\usepackage[T1]{fontenc}\n\\usepackage{booktabs}\n\\usepackage{pgfplots}\n\\pgfplotsset{compat=1.18}\n\\usepackage{hyperref}\n\\usepackage[margin=1in]{geometry}\n\\title{"@ =~= "\\documentclass{article}\n\\usepackage[T1]{fontenc}\n\\usepackage{booktabs}\n\\usepackage{pgfplots}\n\\pgfplotsset{compat=1.18}\n\\usepackage{hyperref}\n\\usepackage[margin=1in]{geometry}\n"@ + "\\title{"@) by {
        reveal_strlit("\\documentclass{article}\n\\usepackage[T1]{fontenc}\n\\usepackage{booktabs}\n\\usepackage{pgfplots}\n\\pgfplotsset{compat=1.18}\n\\usepackage{hyperref}\n\\usepackage[margin=1in]{geometry}\n\\title{");
        reveal_strlit("\\documentclass{article}\n\\usepackage[T1]{fontenc}\n\\usepackage{booktabs}\n\\usepackage{pgfplots}\n\\pgfplotsset{compat=1.18}\n\\usepackage{hyperref}\n\\usepackage[margin=1in]{geometry}\n");
        reveal_strlit("\\title{");
    }
    assert("}\n\\author{Athena autonomous research platform}\n\\date{\\today}\n\\begin{document}\n\\maketitle\n\n\\noindent\\textit{Campaign: "@ =~= "}\n"@ + "\\author{Athena autonomous research platform}\n\\date{\\today}\n\\begin{document}\n\\maketitle\n\n\\noindent\\textit{Campaign: "@) by {
        reveal_strlit("}\n\\author{Athena autonomous research platform}\n\\date{\\today}\n\\begin{document}\n\\maketitle\n\n\\noindent\\textit{Campaign: ");
        reveal_strlit("}\n");
        reveal_strlit("\\author{Athena autonomous research platform}\n\\date{\\today}\n\\begin{document}\n\\maketitle\n\n\\noindent\\textit{Campaign: ");
    }
    lemma_shows_enclosed(Seq::<char>::empty(), "\\documentclass{article}\n\\usepackage[T1]{fontenc}\n\\usepackage{booktabs}\n\\usepackage{pgfplots}\n\\pgfplotsset{compat=1.18}\n\\usepackage{hyperref}\n\\usepackage[margin=1in]{geometry}\n"@, "\\title{"@, t, "}\n"@, "\\author{Athena autonomous research platform}\n\\date{\\today}\n\\begin{document}\n\\maketitle\n\n\\noindent\\textit{Campaign: "@);
    assert(Seq::<char>::empty() + "\\documentclass{article}\n\\usepackage[T1]{fontenc}\n\\usepackage{booktabs}\n\\usepackage{pgfplots}\n\\pgfplotsset{compat=1.18}\n\\usepackage{hyperref}\n\\usepackage[margin=1in]{geometry}\n\\title{"@ =~= "\\documentclass{article}\n\\usepackage[T1]{fontenc}\n\\usepackage{booktabs}\n\\usepackage{pgfplots}\n\\pgfplotsset{compat=1.18}\n\\usepackage{hyperref}\n\\usepackage[margin=1in]{geometry}\n\\title{"@);
    lemma_shows_front("\\documentclass{article}\n\\usepackage[T1]{fontenc}\n\\usepackage{booktabs}\n\\usepackage{pgfplots}\n\\pgfplotsset{compat=1.18}\n\\usepackage{hyperref}\n\\usepackage[margin=1in]{geometry}\n\\title{"@ + t + "}\n\\author{Athena autonomous research platform}\n\\date{\\today}\n\\begin{document}\n\\maketitle\n\n\\noindent\\textit{Campaign: "@, n, "\\title{"@ + t + "}\n"@);
    lemma_shows_front("\\documentclass{article}\n\\usepackage[T1]{fontenc}\n\\usepackage{booktabs}\n\\usepackage{pgfplots}\n\\pgfplotsset{compat=1.18}\n\\usepackage{hyperref}\n\\usepackage[margin=1in]{geometry}\n\\title{"@ + t + "}\n\\author{Athena autonomous research platform}\n\\date{\\today}\n\\begin{document}\n\\maketitle\n\n\\noindent\\textit{Campaign: "@ + n, " \\textperiodcentered{} Namespace: "@, "\\title{"@ + t + "}\n"@);
    lemma_shows_front("\\documentclass{article}\n\\usepackage[T1]{fontenc}\n\\usepackage{booktabs}\n\\usepackage{pgfplots}\n\\pgfplotsset{compat=1.18}\n\\usepackage{hyperref}\n\\usepackage[margin=1in]{geometry}\n\\title{"@ + t + "}\n\\author{Athena autonomous research platform}\n\\date{\\today}\n\\begin{document}\n\\maketitle\n\n\\noindent\\textit{Campaign: "@ + n + " \\textperiodcentered{} Namespace: "@, s, "\\title{"@ + t + "}\n"@);
    lemma_shows_front("\\documentclass{article}\n\\usepackage[T1]{fontenc}\n\\usepackage{booktabs}\n\\usepackage{pgfplots}\n\\pgfplotsset{compat=1.18}\n\\usepackage{hyperref}\n\\usepackage[margin=1in]{geometry}\n\\title{"@ + t + "}\n\\author{Athena autonomous research platform}\n\\date{\\today}\n\\begin{document}\n\\maketitle\n\n\\noindent\\textit{Campaign: "@ + n + " \\textperiodcentered{} Namespace: "@ + s, "}\n"@, "\\title{"@ + t + "}\n"@);
    lemma_shows_front("\\documentclass{article}\n\\usepackage[T1]{fontenc}\n\\usepackage{booktabs}\n\\usepackage{pgfplots}\n\\pgfplotsset{compat=1.18}\n\\usepackage{hyperref}\n\\usepackage[margin=1in]{geometry}\n\\title{"@ + t + "}\n\\author{Athena autonomous research platform}\n\\date{\\today}\n\\begin{document}\n\\maketitle\n\n\\noindent\\textit{Campaign: "@ + n + " \\textperiodcentered{} Namespace: "@ + s + "}\n"@, c, "\\title{"@ + t + "}\n"@);
    lemma_shows_front("\\documentclass{article}\n\\usepackage[T1]{fontenc}\n\\usepackage{booktabs}\n\\usepackage{pgfplots}\n\\pgfplotsset{compat=1.18}\n\\usepackage{hyperref}\n\\usepackage[margin=1in]{geometry}\n\\title{"@ + t + "}\n\\author{Athena autonomous research platform}\n\\date{\\today}\n\\begin{document}\n\\maketitle\n\n\\noindent\\textit{Campaign: "@ + n + " \\textperiodcentered{} Namespace: "@ + s + "}\n"@ + c, e, "\\title{"@ + t + "}\n"@);
    assert("}\n\\author{Athena autonomous research platform}\n\\date{\\today}\n\\begin{document}\n\\maketitle\n\n\\noindent\\textit{Campaign: "@ =~= "}\n\\author{Athena autonomous research platform}\n\\date{\\today}\n\\begin{document}\n\\maketitle\n\n\\noindent\\textit{"@ + "Campaign: "@) by {
        reveal_strlit("}\n\\author{Athena autonomous research platform}\n\\date{\\today}\n\\begin{document}\n\\maketitle\n\n\\noindent\\textit{Campaign: ");
        reveal_strlit("}\n\\author{Athena autonomous research platform}\n\\date{\\today}\n\\begin{document}\n\\maketitle\n\n\\noindent\\textit{");
        reveal_strlit("Campaign: ");
    }
    assert(" \\textperiodcentered{} Namespace: "@ =~= " "@ + "\\textperiodcentered{} Namespace: "@) by {
        reveal_strlit(" \\textperiodcentered{} Namespace: ");
        reveal_strlit(" ");
        reveal_strlit("\\textperiodcentered{} Namespace: ");
    }
    lemma_shows_enclosed("\\documentclass{article}\n\\usepackage[T1]{fontenc}\n\\usepackage{booktabs}\n\\usepackage{pgfplots}\n\\pgfplotsset{compat=1.18}\n\\usepackage{hyperref}\n\\usepackage[margin=1in]{geometry}\n\\title{"@ + t, "}\n\\author{Athena autonomous research platform}\n\\date{\\today}\n\\begin{document}\n\\maketitle\n\n\\noindent\\textit{"@, "Campaign: "@, n, " "@, "\\textperiodcentered{} Namespace: "@);
    lemma_shows_front("\\documentclass{article}\n\\usepackage[T1]{fontenc}\n\\usepackage{booktabs}\n\\usepackage{pgfplots}\n\\pgfplotsset{compat=1.18}\n\\usepackage{hyperref}\n\\usepackage[margin=1in]{geometry}\n\\title{"@ + t + "}\n\\author{Athena autonomous research platform}\n\\date{\\today}\n\\begin{document}\n\\maketitle\n\n\\noindent\\textit{Campaign: "@ + n + " \\textperiodcentered{} Namespace: "@, s, "Campaign: "@ + n + " "@);
    lemma_shows_front("\\documentclass{article}\n\\usepackage[T1]{fontenc}\n\\usepackage{booktabs}\n\\usepackage{pgfplots}\n\\pgfplotsset{compat=1.18}\n\\usepackage{hyperref}\n\\usepackage[margin=1in]{geometry}\n\\title{"@ + t + "}\n\\author{Athena autonomous research platform}\n\\date{\\today}\n\\begin{document}\n\\maketitle\n\n\\noindent\\textit{Campaign: "@ + n + " \\textperiodcentered{} Namespace: "@ + s, "}\n"@, "Campaign: "@ + n + " "@);
    lemma_shows_front("\\documentclass{article}\n\\usepackage[T1]{fontenc}\n\\usepackage{booktabs}\n\\usepackage{pgfplots}\n\\pgfplotsset{compat=1.18}\n\\usepackage{hyperref}\n\\usepackage[margin=1in]{geometry}\n\\title{"@ + t + "}\n\\author{Athena autonomous research platform}\n\\date{\\today}\n\\begin{document}\n\\maketitle\n\n\\noindent\\textit{Campaign: "@ + n + " \\textperiodcentered{} Namespace: "@ + s + "}\n"@, c, "Campaign: "@ + n + " "@);
    lemma_shows_front("\\documentclass{article}\n\\usepackage[T1]{fontenc}\n\\usepackage{booktabs}\n\\usepackage{pgfplots}\n\\pgfplotsset{compat=1.18}\n\\usepackage{hyperref}\n\\usepackage[margin=1in]{geometry}\n\\title{"@ + t + "}\n\\author{Athena autonomous research platform}\n\\date{\\today}\n\\begin{document}\n\\maketitle\n\n\\noindent\\textit{Campaign: "@ + n + " \\textperiodcentered{} Namespace: "@ + s + "}\n"@ + c, e, "Campaign: "@ + n + " "@);
    assert(" \\textperiodcentered{} Namespace: "@ =~= " \\textperiodcentered{} "@ + "Namespace: "@) by {
        reveal_strlit(" \\textperiodcentered{} Namespace: ");
        reveal_strlit(" \\textperiodcentered{} ");
        reveal_strlit("Namespace: ");
    }
    assert("}\n"@ =~= "}"@ + "\n"@) by {
        reveal_strlit("}\n");
        reveal_strlit("}");
        reveal_strlit("\n");
    }
    lemma_shows_enclosed("\\documentclass{article}\n\\usepackage[T1]{fontenc}\n\\usepackage{booktabs}\n\\usepackage{pgfplots}\n\\pgfplotsset{compat=1.18}\n\\usepackage{hyperref}\n\\usepackage[margin=1in]{geometry}\n\\title{"@ + t + "}\n\\author{Athena autonomous research platform}\n\\date{\\today}\n\\begin{document}\n\\maketitle\n\n\\noindent\\textit{Campaign: "@ + n, " \\textperiodcentered{} "@, "Namespace: "@, s, "}"@, "\n"@);
    lemma_shows_front("\\documentclass{article}\n\\usepackage[T1]{fontenc}\n\\usepackage{booktabs}\n\\usepackage{pgfplots}\n\\pgfplotsset{compat=1.18}\n\\usepackage{hyperref}\n\\usepackage[margin=1in]{geometry}\n\\title{"@ + t + "}\n\\author{Athena autonomous research platform}\n\\date{\\today}\n\\begin{document}\n\\maketitle\n\n\\noindent\\textit{Campaign: "@ + n + " \\textperiodcentered{} Namespace: "@ + s + "}\n"@, c, "Namespace: "@ + s + "}"@);
    lemma_shows_front("\\documentclass{article}\n\\usepackage[T1]{fontenc}\n\\usepackage{booktabs}\n\\usepackage{pgfplots}\n\\pgfplotsset{compat=1.18}\n\\usepackage{hyperref}\n\\usepackage[margin=1in]{geometry}\n\\title{"@ + t + "}\n\\author{Athena autonomous research platform}\n\\date{\\today}\n\\begin{document}\n\\maketitle\n\n\\noindent\\textit{Campaign: "@ + n + " \\textperiodcentered{} Namespace: "@ + s + "}\n"@ + c, e, "Namespace: "@ + s + "}"@);
}

proof fn lemma_curated_tex(i: Seq<char>, t: Seq<char>)
    ensures
        shows("\\\\\\textit{Curated: "@ + i + " of "@ + t + " experiments}\n"@, "Curated: "@ + i + " of "@),
        shows("\\\\\\textit{Curated: "@ + i + " of "@ + t + " experiments}\n"@, " of "@ + t + " experiments"@),
{
    assert("\\\\\\textit{Curated: "@ =~= "\\\\\\textit{"@ + "Curated: "@) by {
        reveal_strlit("\\\\\\textit{Curated: ");
        reveal_strlit("\\\\\\textit{");
        reveal_strlit("Curated: ");
    }
    assert(" of "@ =~= " of "@ + Seq::<char>::empty());
    lemma_shows_enclosed(Seq::<char>::empty(), "\\\\\\textit{"@, "Curated: "@, i, " of "@, Seq::<char>::empty());
    assert(Seq::<char>::empty() + "\\\\\\textit{Curated: "@ =~= "\\\\\\textit{Curated: "@);
    lemma_shows_front("\\\\\\textit{Curated: "@ + i + " of "@, t, "Curated: "@ + i + " of "@);
    lemma_shows_front("\\\\\\textit{Curated: "@ + i + " of "@ + t, " experiments}\n"@, "Curated: "@ + i + " of "@);
    assert(" of "@ =~= Seq::<char>::empty() + " of "@);
    assert(" experiments}\n"@ =~= " experiments"@ + "}\n"@) by {
        reveal_strlit(" experiments}\n");
        reveal_strlit(" experiments");
        reveal_strlit("}\n");
    }
    lemma_shows_enclosed("\\\\\\textit{Curated: "@ + i, Seq::<char>::empty(), " of "@, t, " experiments"@, "}\n"@);
}

// ---------------------------------------------------------------------------
// Metadata
// ---------------------------------------------------------------------------

/// A report is stable exactly when its campaign is completed, and a draft until then.
pub proof fn a_report_is_stable_once_its_campaign_is_completed(campaign: ResearchCampaign)
    ensures
        status_text(campaign) == "stable"@ <==> campaign.status is Some
            && campaign.status->0.phase is Some && campaign.status->0.phase->0@ == "Completed"@,
        status_text(campaign) == "draft"@ <==> !(campaign.status is Some
            && campaign.status->0.phase is Some && campaign.status->0.phase->0@ == "Completed"@),
{
    reveal_strlit("stable");
    reveal_strlit("draft");
    assert("stable"@.len() != "draft"@.len());
}

/// The metadata give the type, the title, the status, the time of the last result where there is
/// one, and the campaign and the namespace as tags.
pub proof fn the_metadata_go_by_their_labels(
    title: Seq<char>,
    status: Seq<char>,
    cutoff: Option<Seq<char>>,
    campaign_name: Seq<char>,
    namespace: Seq<char>,
    about: Option<&ReportSubject>,
    refs: Seq<Reference>,
)
    ensures
        ({
            let f = frontmatter_body(title, status, cutoff, campaign_name, namespace, about, refs);
            &&& shows(f, "type: Research Report\ntitle: "@ + yaml_quoted(title) + "\n"@)
            &&& shows(f, "status: "@ + status + "\n"@)
            &&& cutoff matches Some(t) ==> shows(f, "  at: "@ + t + "\n"@)
            &&& shows(f, "  - campaign/"@ + campaign_name + "\n"@)
            &&& shows(f, "  - namespace/"@ + namespace + "\n"@)
            &&& shows(f, about_text(about))
            &&& shows(f, sources_text(refs))
        }),
{
    lemma_metadata(
        yaml_quoted(title),
        status,
        crate::dossier::markdown::version(),
        cutoff_line(cutoff),
        campaign_name,
        namespace,
        about_text(about),
        sources_text(refs),
    );
}

/// A report about something names its kind, its name and, where it has one, its motivation; a
/// report about nothing names none.
pub proof fn the_subject_goes_by_its_labels(a: &ReportSubject)
    ensures
        shows(about_text(Some(a)), "  kind: "@ + yaml_quoted(a.kind@) + "\n"@),
        shows(about_text(Some(a)), "  name: "@ + yaml_quoted(a.name@) + "\n"@),
        a.motivation matches Some(m) ==> shows(
            about_text(Some(a)),
            "  motivation: "@ + m.named() + "\n"@,
        ),
        about_text(None).len() == 0,
{
    let tail = match a.motivation {
        Some(m) => "  motivation: "@ + m.named() + "\n"@,
        None => Seq::empty(),
    };
    lemma_subject(yaml_quoted(a.kind@), yaml_quoted(a.name@), tail);
}

/// A source gives its key and its title, leads to its address, or else to its DOI, and says what
/// it supports where that was written down.
pub proof fn a_source_goes_by_its_labels(r: Reference)
    ensures
        ({
            let s = source_text(r);
            &&& shows(s, "  - id: "@ + yaml_quoted(r.key@) + "\n"@)
            &&& shows(s, "    title: "@ + yaml_quoted(r.title@) + "\n"@)
            &&& r.url is Some && r.url->0@.len() > 0 ==> shows(
                s,
                "    resource: "@ + yaml_quoted(r.url->0@) + "\n"@,
            )
            &&& (r.url is None || r.url->0@.len() == 0) && r.doi is Some && r.doi->0@.len() > 0
                ==> shows(s, "    resource: "@ + yaml_quoted("https://doi.org/"@ + r.doi->0@) + "\n"@)
            &&& r.supports is Some && r.supports->0@.len() > 0 ==> shows(
                s,
                "    supports: "@ + yaml_quoted(r.supports->0@) + "\n"@,
            )
        }),
{
    let res = crate::dossier::markdown::resource_line(r);
    let sup = if is_filled(r.supports) {
        "    supports: "@ + yaml_quoted(r.supports->0@) + "\n"@
    } else {
        Seq::empty()
    };
    lemma_source(yaml_quoted(r.key@), res, yaml_quoted(r.title@), sup);
}

proof fn lemma_metadata_labels(t: Seq<char>, s: Seq<char>, v: Seq<char>, c: Seq<char>, n: Seq<char>, m: Seq<char>, a: Seq<char>, r: Seq<char>)
    ensures
        shows("type: Research Report\ntitle: "@ + t + "\nstatus: "@ + s + "\ngenerated:\n  by: athena/"@ + v + "\n"@ + c + "tags:\n  - campaign/"@ + n + "\n  - namespace/"@ + m + "\n"@ + a + r, "type: Research Report\ntitle: "@ + t + "\n"@),
        shows("type: Research Report\ntitle: "@ + t + "\nstatus: "@ + s + "\ngenerated:\n  by: athena/"@ + v + "\n"@ + c + "tags:\n  - campaign/"@ + n + "\n  - namespace/"@ + m + "\n"@ + a + r, "status: "@ + s + "\n"@),
        shows("type: Research Report\ntitle: "@ + t + "\nstatus: "@ + s + "\ngenerated:\n  by: athena/"@ + v + "\n"@ + c + "tags:\n  - campaign/"@ + n + "\n  - namespace/"@ + m + "\n"@ + a + r, "  - campaign/"@ + n + "\n"@),
        shows("type: Research Report\ntitle: "@ + t + "\nstatus: "@ + s + "\ngenerated:\n  by: athena/"@ + v + "\n"@ + c + "tags:\n  - campaign/"@ + n + "\n  - namespace/"@ + m + "\n"@ + a + r, "  - namespace/"@ + m + "\n"@),
{
    assert("type: Research Report\ntitle: "@ =~= Seq::<char>::empty() + "type: Research Report\ntitle: "@);
    assert("\nstatus: "@ =~= "\n"@ + "status: "@) by {
        reveal_strlit("\nstatus: ");
        reveal_strlit("\n");
        reveal_strlit("status: ");
    }
    lemma_shows_enclosed(Seq::<char>::empty(), Seq::<char>::empty(), "type: Research Report\ntitle: "@, t, "\n"@, "status: "@);
    assert(Seq::<char>::empty() + "type: Research Report\ntitle: "@ =~= "type: Research Report\ntitle: "@);
    lemma_shows_front("type: Research Report\ntitle: "@ + t + "\nstatus: "@, s, "type: Research Report\ntitle: "@ + t + "\n"@);
    lemma_shows_front("type: Research Report\ntitle: "@ + t + "\nstatus: "@ + s, "\ngenerated:\n  by: athena/"@, "type: Research Report\ntitle: "@ + t + "\n"@);
    lemma_shows_front("type: Research Report\ntitle: "@ + t + "\nstatus: "@ + s + "\ngenerated:\n  by: athena/"@, v, "type: Research Report\ntitle: "@ + t + "\n"@);
    lemma_shows_front("type: Research Report\ntitle: "@ + t + "\nstatus: "@ + s + "\ngenerated:\n  by: athena/"@ + v, "\n"@, "type: Research Report\ntitle: "@ + t + "\n"@);
    lemma_shows_front("type: Research Report\ntitle: "@ + t + "\nstatus: "@ + s + "\ngenerated:\n  by: athena/"@ + v + "\n"@, c, "type: Research Report\ntitle: "@ + t + "\n"@);
    lemma_shows_front("type: Research Report\ntitle: "@ + t + "\nstatus: "@ + s + "\ngenerated:\n  by: athena/"@ + v + "\n"@ + c, "tags:\n  - campaign/"@, "type: Research Report\ntitle: "@ + t + "\n"@);
    lemma_shows_front("type: Research Report\ntitle: "@ + t + "\nstatus: "@ + s + "\ngenerated:\n  by: athena/"@ + v + "\n"@ + c + "tags:\n  - campaign/"@, n, "type: Research Report\ntitle: "@ + t + "\n"@);
    lemma_shows_front("type: Research Report\ntitle: "@ + t + "\nstatus: "@ + s + "\ngenerated:\n  by: athena/"@ + v + "\n"@ + c + "tags:\n  - campaign/"@ + n, "\n  - namespace/"@, "type: Research Report\ntitle: "@ + t + "\n"@);
    lemma_shows_front("type: Research Report\ntitle: "@ + t + "\nstatus: "@ + s + "\ngenerated:\n  by: athena/"@ + v + "\n"@ + c + "tags:\n  - campaign/"@ + n + "\n  - namespace/"@, m, "type: Research Report\ntitle: "@ + t + "\n"@);
    lemma_shows_front("type: Research Report\ntitle: "@ + t + "\nstatus: "@ + s + "\ngenerated:\n  by: athena/"@ + v + "\n"@ + c + "tags:\n  - campaign/"@ + n + "\n  - namespace/"@ + m, "\n"@, "type: Research Report\ntitle: "@ + t + "\n"@);
    lemma_shows_front("type: Research Report\ntitle: "@ + t + "\nstatus: "@ + s + "\ngenerated:\n  by: athena/"@ + v + "\n"@ + c + "tags:\n  - campaign/"@ + n + "\n  - namespace/"@ + m + "\n"@, a, "type: Research Report\ntitle: "@ + t + "\n"@);
    lemma_shows_front("type: Research Report\ntitle: "@ + t + "\nstatus: "@ + s + "\ngenerated:\n  by: athena/"@ + v + "\n"@ + c + "tags:\n  - campaign/"@ + n + "\n  - namespace/"@ + m + "\n"@ + a, r, "type: Research Report\ntitle: "@ + t + "\n"@);
    assert("\nstatus: "@ =~= "\n"@ + "status: "@) by {
        reveal_strlit("\nstatus: ");
        reveal_strlit("\n");
        reveal_strlit("status: ");
    }
    assert("\ngenerated:\n  by: athena/"@ =~= "\n"@ + "generated:\n  by: athena/"@) by {
        reveal_strlit("\ngenerated:\n  by: athena/");
        reveal_strlit("\n");
        reveal_strlit("generated:\n  by: athena/");
    }
    lemma_shows_enclosed("type: Research Report\ntitle: "@ + t, "\n"@, "status: "@, s, "\n"@, "generated:\n  by: athena/"@);
    lemma_shows_front("type: Research Report\ntitle: "@ + t + "\nstatus: "@ + s + "\ngenerated:\n  by: athena/"@, v, "status: "@ + s + "\n"@);
    lemma_shows_front("type: Research Report\ntitle: "@ + t + "\nstatus: "@ + s + "\ngenerated:\n  by: athena/"@ + v, "\n"@, "status: "@ + s + "\n"@);
    lemma_shows_front("type: Research Report\ntitle: "@ + t + "\nstatus: "@ + s + "\ngenerated:\n  by: athena/"@ + v + "\n"@, c, "status: "@ + s + "\n"@);
    lemma_shows_front("type: Research Report\ntitle: "@ + t + "\nstatus: "@ + s + "\ngenerated:\n  by: athena/"@ + v + "\n"@ + c, "tags:\n  - campaign/"@, "status: "@ + s + "\n"@);
    lemma_shows_front("type: Research Report\ntitle: "@ + t + "\nstatus: "@ + s + "\ngenerated:\n  by: athena/"@ + v + "\n"@ + c + "tags:\n  - campaign/"@, n, "status: "@ + s + "\n"@);
    lemma_shows_front("type: Research Report\ntitle: "@ + t + "\nstatus: "@ + s + "\ngenerated:\n  by: athena/"@ + v + "\n"@ + c + "tags:\n  - campaign/"@ + n, "\n  - namespace/"@, "status: "@ + s + "\n"@);
    lemma_shows_front("type: Research Report\ntitle: "@ + t + "\nstatus: "@ + s + "\ngenerated:\n  by: athena/"@ + v + "\n"@ + c + "tags:\n  - campaign/"@ + n + "\n  - namespace/"@, m, "status: "@ + s + "\n"@);
    lemma_shows_front("type: Research Report\ntitle: "@ + t + "\nstatus: "@ + s + "\ngenerated:\n  by: athena/"@ + v + "\n"@ + c + "tags:\n  - campaign/"@ + n + "\n  - namespace/"@ + m, "\n"@, "status: "@ + s + "\n"@);
    lemma_shows_front("type: Research Report\ntitle: "@ + t + "\nstatus: "@ + s + "\ngenerated:\n  by: athena/"@ + v + "\n"@ + c + "tags:\n  - campaign/"@ + n + "\n  - namespace/"@ + m + "\n"@, a, "status: "@ + s + "\n"@);
    lemma_shows_front("type: Research Report\ntitle: "@ + t + "\nstatus: "@ + s + "\ngenerated:\n  by: athena/"@ + v + "\n"@ + c + "tags:\n  - campaign/"@ + n + "\n  - namespace/"@ + m + "\n"@ + a, r, "status: "@ + s + "\n"@);
    assert("tags:\n  - campaign/"@ =~= "tags:\n"@ + "  - campaign/"@) by {
        reveal_strlit("tags:\n  - campaign/");
        reveal_strlit("tags:\n");
        reveal_strlit("  - campaign/");
    }
    assert("\n  - namespace/"@ =~= "\n"@ + "  - namespace/"@) by {
        reveal_strlit("\n  - namespace/");
        reveal_strlit("\n");
        reveal_strlit("  - namespace/");
    }
    lemma_shows_enclosed("type: Research Report\ntitle: "@ + t + "\nstatus: "@ + s + "\ngenerated:\n  by: athena/"@ + v + "\n"@ + c, "tags:\n"@, "  - campaign/"@, n, "\n"@, "  - namespace/"@);
    lemma_shows_front("type: Research Report\ntitle: "@ + t + "\nstatus: "@ + s + "\ngenerated:\n  by: athena/"@ + v + "\n"@ + c + "tags:\n  - campaign/"@ + n + "\n  - namespace/"@, m, "  - campaign/"@ + n + "\n"@);
    lemma_shows_front("type: Research Report\ntitle: "@ + t + "\nstatus: "@ + s + "\ngenerated:\n  by: athena/"@ + v + "\n"@ + c + "tags:\n  - campaign/"@ + n + "\n  - namespace/"@ + m, "\n"@, "  - campaign/"@ + n + "\n"@);
    lemma_shows_front("type: Research Report\ntitle: "@ + t + "\nstatus: "@ + s + "\ngenerated:\n  by: athena/"@ + v + "\n"@ + c + "tags:\n  - campaign/"@ + n + "\n  - namespace/"@ + m + "\n"@, a, "  - campaign/"@ + n + "\n"@);
    lemma_shows_front("type: Research Report\ntitle: "@ + t + "\nstatus: "@ + s + "\ngenerated:\n  by: athena/"@ + v + "\n"@ + c + "tags:\n  - campaign/"@ + n + "\n  - namespace/"@ + m + "\n"@ + a, r, "  - campaign/"@ + n + "\n"@);
    assert("\n  - namespace/"@ =~= "\n"@ + "  - namespace/"@) by {
        reveal_strlit("\n  - namespace/");
        reveal_strlit("\n");
        reveal_strlit("  - namespace/");
    }
    assert("\n"@ =~= "\n"@ + Seq::<char>::empty());
    lemma_shows_enclosed("type: Research Report\ntitle: "@ + t + "\nstatus: "@ + s + "\ngenerated:\n  by: athena/"@ + v + "\n"@ + c + "tags:\n  - campaign/"@ + n, "\n"@, "  - namespace/"@, m, "\n"@, Seq::<char>::empty());
    lemma_shows_front("type: Research Report\ntitle: "@ + t + "\nstatus: "@ + s + "\ngenerated:\n  by: athena/"@ + v + "\n"@ + c + "tags:\n  - campaign/"@ + n + "\n  - namespace/"@ + m + "\n"@, a, "  - namespace/"@ + m + "\n"@);
    lemma_shows_front("type: Research Report\ntitle: "@ + t + "\nstatus: "@ + s + "\ngenerated:\n  by: athena/"@ + v + "\n"@ + c + "tags:\n  - campaign/"@ + n + "\n  - namespace/"@ + m + "\n"@ + a, r, "  - namespace/"@ + m + "\n"@);
}

proof fn lemma_metadata(
    t: Seq<char>,
    s: Seq<char>,
    v: Seq<char>,
    c: Seq<char>,
    n: Seq<char>,
    m: Seq<char>,
    a: Seq<char>,
    r: Seq<char>,
)
    ensures
        ({
            let f = "type: Research Report\ntitle: "@ + t + "\nstatus: "@ + s + "\ngenerated:\n  by: athena/"@ + v + "\n"@ + c + "tags:\n  - campaign/"@ + n + "\n  - namespace/"@ + m + "\n"@ + a + r;
            &&& shows(f, "type: Research Report\ntitle: "@ + t + "\n"@)
            &&& shows(f, "status: "@ + s + "\n"@)
            &&& shows(f, c)
            &&& shows(f, "  - campaign/"@ + n + "\n"@)
            &&& shows(f, "  - namespace/"@ + m + "\n"@)
            &&& shows(f, a)
            &&& shows(f, r)
        }),
{
    lemma_metadata_labels(t, s, v, c, n, m, a, r);
    let head = "type: Research Report\ntitle: "@ + t + "\nstatus: "@ + s + "\ngenerated:\n  by: athena/"@ + v + "\n"@;
    let x1 = head + c;
    let x2 = x1 + "tags:\n  - campaign/"@;
    let x3 = x2 + n;
    let x4 = x3 + "\n  - namespace/"@;
    let x5 = x4 + m;
    let x6 = x5 + "\n"@;
    let x7 = x6 + a;
    lemma_shows_itself(c);
    lemma_shows_back(head, c, c);
    lemma_shows_front(x1, "tags:\n  - campaign/"@, c);
    lemma_shows_front(x2, n, c);
    lemma_shows_front(x3, "\n  - namespace/"@, c);
    lemma_shows_front(x4, m, c);
    lemma_shows_front(x5, "\n"@, c);
    lemma_shows_front(x6, a, c);
    lemma_shows_front(x7, r, c);
    lemma_shows_itself(a);
    lemma_shows_back(x6, a, a);
    lemma_shows_front(x7, r, a);
    lemma_shows_itself(r);
    lemma_shows_back(x7, r, r);
}

proof fn lemma_subject_labels(k: Seq<char>, n: Seq<char>, t: Seq<char>)
    ensures
        shows("about:\n  kind: "@ + k + "\n  name: "@ + n + "\n"@ + t, "  kind: "@ + k + "\n"@),
        shows("about:\n  kind: "@ + k + "\n  name: "@ + n + "\n"@ + t, "  name: "@ + n + "\n"@),
{
    assert("about:\n  kind: "@ =~= "about:\n"@ + "  kind: "@) by {
        reveal_strlit("about:\n  kind: ");
        reveal_strlit("about:\n");
        reveal_strlit("  kind: ");
    }
    assert("\n  name: "@ =~= "\n"@ + "  name: "@) by {
        reveal_strlit("\n  name: ");
        reveal_strlit("\n");
        reveal_strlit("  name: ");
    }
    lemma_shows_enclosed(Seq::<char>::empty(), "about:\n"@, "  kind: "@, k, "\n"@, "  name: "@);
    assert(Seq::<char>::empty() + "about:\n  kind: "@ =~= "about:\n  kind: "@);
    lemma_shows_front("about:\n  kind: "@ + k + "\n  name: "@, n, "  kind: "@ + k + "\n"@);
    lemma_shows_front("about:\n  kind: "@ + k + "\n  name: "@ + n, "\n"@, "  kind: "@ + k + "\n"@);
    lemma_shows_front("about:\n  kind: "@ + k + "\n  name: "@ + n + "\n"@, t, "  kind: "@ + k + "\n"@);
    assert("\n  name: "@ =~= "\n"@ + "  name: "@) by {
        reveal_strlit("\n  name: ");
        reveal_strlit("\n");
        reveal_strlit("  name: ");
    }
    assert("\n"@ =~= "\n"@ + Seq::<char>::empty());
    lemma_shows_enclosed("about:\n  kind: "@ + k, "\n"@, "  name: "@, n, "\n"@, Seq::<char>::empty());
    lemma_shows_front("about:\n  kind: "@ + k + "\n  name: "@ + n + "\n"@, t, "  name: "@ + n + "\n"@);
}

proof fn lemma_subject(k: Seq<char>, n: Seq<char>, t: Seq<char>)
    ensures
        ({
            let s = "about:\n  kind: "@ + k + "\n  name: "@ + n + "\n"@ + t;
            &&& shows(s, "  kind: "@ + k + "\n"@)
            &&& shows(s, "  name: "@ + n + "\n"@)
            &&& shows(s, t)
        }),
{
    lemma_subject_labels(k, n, t);
    lemma_shows_itself(t);
    lemma_shows_back("about:\n  kind: "@ + k + "\n  name: "@ + n + "\n"@, t, t);
}

proof fn lemma_source_labels(k: Seq<char>, r: Seq<char>, t: Seq<char>, s: Seq<char>)
    ensures
        shows("  - id: "@ + k + "\n"@ + r + "    title: "@ + t + "\n"@ + s, "  - id: "@ + k + "\n"@),
        shows("  - id: "@ + k + "\n"@ + r + "    title: "@ + t + "\n"@ + s, "    title: "@ + t + "\n"@),
{
    assert("  - id: "@ =~= Seq::<char>::empty() + "  - id: "@);
    assert("\n"@ =~= "\n"@ + Seq::<char>::empty());
    lemma_shows_enclosed(Seq::<char>::empty(), Seq::<char>::empty(), "  - id: "@, k, "\n"@, Seq::<char>::empty());
    assert(Seq::<char>::empty() + "  - id: "@ =~= "  - id: "@);
    lemma_shows_front("  - id: "@ + k + "\n"@, r, "  - id: "@ + k + "\n"@);
    lemma_shows_front("  - id: "@ + k + "\n"@ + r, "    title: "@, "  - id: "@ + k + "\n"@);
    lemma_shows_front("  - id: "@ + k + "\n"@ + r + "    title: "@, t, "  - id: "@ + k + "\n"@);
    lemma_shows_front("  - id: "@ + k + "\n"@ + r + "    title: "@ + t, "\n"@, "  - id: "@ + k + "\n"@);
    lemma_shows_front("  - id: "@ + k + "\n"@ + r + "    title: "@ + t + "\n"@, s, "  - id: "@ + k + "\n"@);
    assert("    title: "@ =~= Seq::<char>::empty() + "    title: "@);
    assert("\n"@ =~= "\n"@ + Seq::<char>::empty());
    lemma_shows_enclosed("  - id: "@ + k + "\n"@ + r, Seq::<char>::empty(), "    title: "@, t, "\n"@, Seq::<char>::empty());
    lemma_shows_front("  - id: "@ + k + "\n"@ + r + "    title: "@ + t + "\n"@, s, "    title: "@ + t + "\n"@);
}

proof fn lemma_source(k: Seq<char>, r: Seq<char>, t: Seq<char>, s: Seq<char>)
    ensures
        ({
            let x = "  - id: "@ + k + "\n"@ + r + "    title: "@ + t + "\n"@ + s;
            &&& shows(x, "  - id: "@ + k + "\n"@)
            &&& shows(x, "    title: "@ + t + "\n"@)
            &&& shows(x, r)
            &&& shows(x, s)
        }),
{
    lemma_source_labels(k, r, t, s);
    let x1 = "  - id: "@ + k + "\n"@ + r;
    lemma_shows_itself(r);
    lemma_shows_back("  - id: "@ + k + "\n"@, r, r);
    lemma_shows_front(x1, "    title: "@, r);
    lemma_shows_front(x1 + "    title: "@, t, r);
    lemma_shows_front(x1 + "    title: "@ + t, "\n"@, r);
    lemma_shows_front(x1 + "    title: "@ + t + "\n"@, s, r);
    lemma_shows_itself(s);
    lemma_shows_back(x1 + "    title: "@ + t + "\n"@, s, s);
}

// ---------------------------------------------------------------------------
// Sections
// ---------------------------------------------------------------------------

/// The research objective is given in the template's words, or said not to be recorded.
pub proof fn the_objective_is_the_templates(template: ExperimentTemplate)
    ensures
        template.spec.research_objective matches Some(o) ==> shows(
            objective_section(template),
            "## Research Objective\n\n"@ + o@ + "\n"@,
        ) && shows(
            objective_tex(template),
            "\\section{Research Objective}\n\n"@ + tex_escaped(o@) + "\n"@,
        ),
        template.spec.research_objective is None ==> shows(
            objective_section(template),
            "_not recorded_"@,
        ) && shows(objective_tex(template), "\\textit{not recorded}"@),
{
    let md = match template.spec.research_objective {
        Some(o) => o@,
        None => "_not recorded_"@,
    };
    let tex = match template.spec.research_objective {
        Some(o) => tex_escaped(o@),
        None => "\\textit{not recorded}"@,
    };
    lemma_objective_md(md);
    lemma_objective_latex(tex);
    lemma_shows_between("## Research Objective\n\n"@, md, "\n\n"@);
    lemma_shows_between("\\section{Research Objective}\n\n"@, tex, "\n\n"@);
}

/// A section of the curator's stands under its own name with its own words, the citations in it
/// turned as the format wants them.
pub proof fn an_authored_section_stands_under_its_name(c: &Curation, k: int)
    requires
        0 <= k < c.sections.entries().len(),
    ensures
        ({
            let entry = c.sections.entries()[k];
            &&& shows(
                authored_sections(Some(c)),
                "## "@ + entry.0 + "\n\n"@ + footnoted_from(entry.1@, 0) + "\n\n"@,
            )
            &&& shows(
                authored_sections_tex(Some(c)),
                "\\section{"@ + tex_escaped(entry.0) + "}\n\n"@ + tex_cited_from(entry.1@, 0)
                    + "\n\n"@,
            )
        }),
        authored_sections(None).len() == 0,
        authored_sections_tex(None).len() == 0,
{
    let all = c.sections.entries();
    let f = |entry: (Seq<char>, String)| authored_text(entry);
    let g = |entry: (Seq<char>, String)| authored_tex(entry);
    lemma_rows_split(all, f, k);
    lemma_rows_split(all, g, k);
    lemma_shows_between(rows(all.take(k), f), f(all[k]), rows_from(all, f, k + 1));
    lemma_shows_between(rows(all.take(k), g), g(all[k]), rows_from(all, g, k + 1));
}

/// The setup gives the address, the reference and the commit of the source, the metric and the
/// goal, the strategy and both limits of the budget, each behind its label.
pub proof fn the_setup_goes_by_its_labels(
    campaign: ResearchCampaign,
    template: ExperimentTemplate,
)
    ensures
        ({
            let git = template.spec.source.git;
            let s = setup_text(campaign, template);
            &&& shows(s, "- URL: `"@ + git.url@ + "`\n"@)
            &&& shows(s, "- Ref: `"@ + git.git_ref@ + "`\n"@)
            &&& git.commit matches Some(c) ==> shows(s, "- Commit: `"@ + c@ + "`\n"@)
            &&& shows(s, "- Metric: `"@ + template.spec.objective.metric@ + "`\n"@)
            &&& shows(s, "- Goal: `"@ + template.spec.objective.goal.named() + "`\n"@)
            &&& shows(s, "- Strategy: `"@ + campaign.spec.strategy.strategy_type@ + "`\n"@)
            &&& shows(
                s,
                "- Max experiments: "@ + decimal(campaign.spec.budget.max_experiments as nat)
                    + "\n"@,
            )
            &&& shows(s, "- Max duration: `"@ + campaign.spec.budget.max_duration@ + "`\n"@)
        }),
{
    let git = template.spec.source.git;
    let commit = match git.commit {
        Some(c) => "- Commit: `"@ + c@ + "`\n"@,
        None => Seq::empty(),
    };
    lemma_setup(
        git.url@,
        git.git_ref@,
        commit,
        template.spec.objective.metric@,
        template.spec.objective.goal.named(),
        campaign.spec.strategy.strategy_type@,
        decimal(campaign.spec.budget.max_experiments as nat),
        campaign.spec.budget.max_duration@,
    );
}

/// The setup of the LaTeX document gives the same.
pub proof fn the_latex_setup_goes_by_its_labels(
    campaign: ResearchCampaign,
    template: ExperimentTemplate,
)
    ensures
        ({
            let git = template.spec.source.git;
            let s = setup_tex(campaign, template);
            &&& shows(s, "\\item URL: \\texttt{"@ + tex_escaped(git.url@) + "}\n"@)
            &&& shows(s, "\\item Ref: \\texttt{"@ + tex_escaped(git.git_ref@) + "}\n"@)
            &&& git.commit matches Some(c) ==> shows(
                s,
                "  \\item Commit: \\texttt{"@ + tex_escaped(c@) + "}\n"@,
            )
            &&& shows(
                s,
                "\\item Metric: \\texttt{"@ + tex_escaped(template.spec.objective.metric@) + "}\n"@,
            )
            &&& shows(s, "\\item Goal: \\texttt{"@ + template.spec.objective.goal.named() + "}\n"@)
            &&& shows(
                s,
                "\\item Strategy: \\texttt{"@ + tex_escaped(campaign.spec.strategy.strategy_type@)
                    + "}\n"@,
            )
            &&& shows(
                s,
                "\\item Max experiments: "@ + decimal(campaign.spec.budget.max_experiments as nat)
                    + "\n"@,
            )
            &&& shows(
                s,
                "\\item Max duration: \\texttt{"@ + tex_escaped(campaign.spec.budget.max_duration@)
                    + "}\n"@,
            )
        }),
{
    let git = template.spec.source.git;
    let commit = match git.commit {
        Some(c) => "  \\item Commit: \\texttt{"@ + tex_escaped(c@) + "}\n"@,
        None => Seq::empty(),
    };
    lemma_setup_tex(
        tex_escaped(git.url@),
        tex_escaped(git.git_ref@),
        commit,
        tex_escaped(template.spec.objective.metric@),
        template.spec.objective.goal.named(),
        tex_escaped(campaign.spec.strategy.strategy_type@),
        decimal(campaign.spec.budget.max_experiments as nat),
        tex_escaped(campaign.spec.budget.max_duration@),
    );
}

proof fn lemma_objective_md(o: Seq<char>)
    ensures
        shows("## Research Objective\n\n"@ + o + "\n\n"@, "## Research Objective\n\n"@ + o + "\n"@),
{
    assert("## Research Objective\n\n"@ =~= Seq::<char>::empty() + "## Research Objective\n\n"@);
    assert("\n\n"@ =~= "\n"@ + "\n"@) by {
        reveal_strlit("\n\n");
        reveal_strlit("\n");
        reveal_strlit("\n");
    }
    lemma_shows_enclosed(Seq::<char>::empty(), Seq::<char>::empty(), "## Research Objective\n\n"@, o, "\n"@, "\n"@);
    assert(Seq::<char>::empty() + "## Research Objective\n\n"@ =~= "## Research Objective\n\n"@);
}

proof fn lemma_objective_latex(o: Seq<char>)
    ensures
        shows("\\section{Research Objective}\n\n"@ + o + "\n\n"@, "\\section{Research Objective}\n\n"@ + o + "\n"@),
{
    assert("\\section{Research Objective}\n\n"@ =~= Seq::<char>::empty() + "\\section{Research Objective}\n\n"@);
    assert("\n\n"@ =~= "\n"@ + "\n"@) by {
        reveal_strlit("\n\n");
        reveal_strlit("\n");
        reveal_strlit("\n");
    }
    lemma_shows_enclosed(Seq::<char>::empty(), Seq::<char>::empty(), "\\section{Research Objective}\n\n"@, o, "\n"@, "\n"@);
    assert(Seq::<char>::empty() + "\\section{Research Objective}\n\n"@ =~= "\\section{Research Objective}\n\n"@);
}

proof fn lemma_setup_labels(u: Seq<char>, r: Seq<char>, c: Seq<char>, m: Seq<char>, g: Seq<char>, s: Seq<char>, x: Seq<char>, d: Seq<char>)
    ensures
        shows("## Method & Setup\n\n**Source**\n\n- URL: `"@ + u + "`\n- Ref: `"@ + r + "`\n"@ + c + "\n**Objective**\n\n- Metric: `"@ + m + "`\n- Goal: `"@ + g + "`\n\n**Strategy & Budget**\n\n- Strategy: `"@ + s + "`\n- Max experiments: "@ + x + "\n- Max duration: `"@ + d + "`\n\n"@, "- URL: `"@ + u + "`\n"@),
        shows("## Method & Setup\n\n**Source**\n\n- URL: `"@ + u + "`\n- Ref: `"@ + r + "`\n"@ + c + "\n**Objective**\n\n- Metric: `"@ + m + "`\n- Goal: `"@ + g + "`\n\n**Strategy & Budget**\n\n- Strategy: `"@ + s + "`\n- Max experiments: "@ + x + "\n- Max duration: `"@ + d + "`\n\n"@, "- Ref: `"@ + r + "`\n"@),
        shows("## Method & Setup\n\n**Source**\n\n- URL: `"@ + u + "`\n- Ref: `"@ + r + "`\n"@ + c + "\n**Objective**\n\n- Metric: `"@ + m + "`\n- Goal: `"@ + g + "`\n\n**Strategy & Budget**\n\n- Strategy: `"@ + s + "`\n- Max experiments: "@ + x + "\n- Max duration: `"@ + d + "`\n\n"@, "- Metric: `"@ + m + "`\n"@),
        shows("## Method & Setup\n\n**Source**\n\n- URL: `"@ + u + "`\n- Ref: `"@ + r + "`\n"@ + c + "\n**Objective**\n\n- Metric: `"@ + m + "`\n- Goal: `"@ + g + "`\n\n**Strategy & Budget**\n\n- Strategy: `"@ + s + "`\n- Max experiments: "@ + x + "\n- Max duration: `"@ + d + "`\n\n"@, "- Goal: `"@ + g + "`\n"@),
        shows("## Method & Setup\n\n**Source**\n\n- URL: `"@ + u + "`\n- Ref: `"@ + r + "`\n"@ + c + "\n**Objective**\n\n- Metric: `"@ + m + "`\n- Goal: `"@ + g + "`\n\n**Strategy & Budget**\n\n- Strategy: `"@ + s + "`\n- Max experiments: "@ + x + "\n- Max duration: `"@ + d + "`\n\n"@, "- Strategy: `"@ + s + "`\n"@),
        shows("## Method & Setup\n\n**Source**\n\n- URL: `"@ + u + "`\n- Ref: `"@ + r + "`\n"@ + c + "\n**Objective**\n\n- Metric: `"@ + m + "`\n- Goal: `"@ + g + "`\n\n**Strategy & Budget**\n\n- Strategy: `"@ + s + "`\n- Max experiments: "@ + x + "\n- Max duration: `"@ + d + "`\n\n"@, "- Max experiments: "@ + x + "\n"@),
        shows("## Method & Setup\n\n**Source**\n\n- URL: `"@ + u + "`\n- Ref: `"@ + r + "`\n"@ + c + "\n**Objective**\n\n- Metric: `"@ + m + "`\n- Goal: `"@ + g + "`\n\n**Strategy & Budget**\n\n- Strategy: `"@ + s + "`\n- Max experiments: "@ + x + "\n- Max duration: `"@ + d + "`\n\n"@, "- Max duration: `"@ + d + "`\n"@),
{
    assert("## Method & Setup\n\n**Source**\n\n- URL: `"@ =~= "## Method & Setup\n\n**Source**\n\n"@ + "- URL: `"@) by {
        reveal_strlit("## Method & Setup\n\n**Source**\n\n- URL: `");
        reveal_strlit("## Method & Setup\n\n**Source**\n\n");
        reveal_strlit("- URL: `");
    }
    assert("`\n- Ref: `"@ =~= "`\n"@ + "- Ref: `"@) by {
        reveal_strlit("`\n- Ref: `");
        reveal_strlit("`\n");
        reveal_strlit("- Ref: `");
    }
    lemma_shows_enclosed(Seq::<char>::empty(), "## Method & Setup\n\n**Source**\n\n"@, "- URL: `"@, u, "`\n"@, "- Ref: `"@);
    assert(Seq::<char>::empty() + "## Method & Setup\n\n**Source**\n\n- URL: `"@ =~= "## Method & Setup\n\n**Source**\n\n- URL: `"@);
    lemma_shows_front("## Method & Setup\n\n**Source**\n\n- URL: `"@ + u + "`\n- Ref: `"@, r, "- URL: `"@ + u + "`\n"@);
    lemma_shows_front("## Method & Setup\n\n**Source**\n\n- URL: `"@ + u + "`\n- Ref: `"@ + r, "`\n"@, "- URL: `"@ + u + "`\n"@);
    lemma_shows_front("## Method & Setup\n\n**Source**\n\n- URL: `"@ + u + "`\n- Ref: `"@ + r + "`\n"@, c, "- URL: `"@ + u + "`\n"@);
    lemma_shows_front("## Method & Setup\n\n**Source**\n\n- URL: `"@ + u + "`\n- Ref: `"@ + r + "`\n"@ + c, "\n**Objective**\n\n- Metric: `"@, "- URL: `"@ + u + "`\n"@);
    lemma_shows_front("## Method & Setup\n\n**Source**\n\n- URL: `"@ + u + "`\n- Ref: `"@ + r + "`\n"@ + c + "\n**Objective**\n\n- Metric: `"@, m, "- URL: `"@ + u + "`\n"@);
    lemma_shows_front("## Method & Setup\n\n**Source**\n\n- URL: `"@ + u + "`\n- Ref: `"@ + r + "`\n"@ + c + "\n**Objective**\n\n- Metric: `"@ + m, "`\n- Goal: `"@, "- URL: `"@ + u + "`\n"@);
    lemma_shows_front("## Method & Setup\n\n**Source**\n\n- URL: `"@ + u + "`\n- Ref: `"@ + r + "`\n"@ + c + "\n**Objective**\n\n- Metric: `"@ + m + "`\n- Goal: `"@, g, "- URL: `"@ + u + "`\n"@);
    lemma_shows_front("## Method & Setup\n\n**Source**\n\n- URL: `"@ + u + "`\n- Ref: `"@ + r + "`\n"@ + c + "\n**Objective**\n\n- Metric: `"@ + m + "`\n- Goal: `"@ + g, "`\n\n**Strategy & Budget**\n\n- Strategy: `"@, "- URL: `"@ + u + "`\n"@);
    lemma_shows_front("## Method & Setup\n\n**Source**\n\n- URL: `"@ + u + "`\n- Ref: `"@ + r + "`\n"@ + c + "\n**Objective**\n\n- Metric: `"@ + m + "`\n- Goal: `"@ + g + "`\n\n**Strategy & Budget**\n\n- Strategy: `"@, s, "- URL: `"@ + u + "`\n"@);
    lemma_shows_front("## Method & Setup\n\n**Source**\n\n- URL: `"@ + u + "`\n- Ref: `"@ + r + "`\n"@ + c + "\n**Objective**\n\n- Metric: `"@ + m + "`\n- Goal: `"@ + g + "`\n\n**Strategy & Budget**\n\n- Strategy: `"@ + s, "`\n- Max experiments: "@, "- URL: `"@ + u + "`\n"@);
    lemma_shows_front("## Method & Setup\n\n**Source**\n\n- URL: `"@ + u + "`\n- Ref: `"@ + r + "`\n"@ + c + "\n**Objective**\n\n- Metric: `"@ + m + "`\n- Goal: `"@ + g + "`\n\n**Strategy & Budget**\n\n- Strategy: `"@ + s + "`\n- Max experiments: "@, x, "- URL: `"@ + u + "`\n"@);
    lemma_shows_front("## Method & Setup\n\n**Source**\n\n- URL: `"@ + u + "`\n- Ref: `"@ + r + "`\n"@ + c + "\n**Objective**\n\n- Metric: `"@ + m + "`\n- Goal: `"@ + g + "`\n\n**Strategy & Budget**\n\n- Strategy: `"@ + s + "`\n- Max experiments: "@ + x, "\n- Max duration: `"@, "- URL: `"@ + u + "`\n"@);
    lemma_shows_front("## Method & Setup\n\n**Source**\n\n- URL: `"@ + u + "`\n- Ref: `"@ + r + "`\n"@ + c + "\n**Objective**\n\n- Metric: `"@ + m + "`\n- Goal: `"@ + g + "`\n\n**Strategy & Budget**\n\n- Strategy: `"@ + s + "`\n- Max experiments: "@ + x + "\n- Max duration: `"@, d, "- URL: `"@ + u + "`\n"@);
    lemma_shows_front("## Method & Setup\n\n**Source**\n\n- URL: `"@ + u + "`\n- Ref: `"@ + r + "`\n"@ + c + "\n**Objective**\n\n- Metric: `"@ + m + "`\n- Goal: `"@ + g + "`\n\n**Strategy & Budget**\n\n- Strategy: `"@ + s + "`\n- Max experiments: "@ + x + "\n- Max duration: `"@ + d, "`\n\n"@, "- URL: `"@ + u + "`\n"@);
    assert("`\n- Ref: `"@ =~= "`\n"@ + "- Ref: `"@) by {
        reveal_strlit("`\n- Ref: `");
        reveal_strlit("`\n");
        reveal_strlit("- Ref: `");
    }
    assert("`\n"@ =~= "`\n"@ + Seq::<char>::empty());
    lemma_shows_enclosed("## Method & Setup\n\n**Source**\n\n- URL: `"@ + u, "`\n"@, "- Ref: `"@, r, "`\n"@, Seq::<char>::empty());
    lemma_shows_front("## Method & Setup\n\n**Source**\n\n- URL: `"@ + u + "`\n- Ref: `"@ + r + "`\n"@, c, "- Ref: `"@ + r + "`\n"@);
    lemma_shows_front("## Method & Setup\n\n**Source**\n\n- URL: `"@ + u + "`\n- Ref: `"@ + r + "`\n"@ + c, "\n**Objective**\n\n- Metric: `"@, "- Ref: `"@ + r + "`\n"@);
    lemma_shows_front("## Method & Setup\n\n**Source**\n\n- URL: `"@ + u + "`\n- Ref: `"@ + r + "`\n"@ + c + "\n**Objective**\n\n- Metric: `"@, m, "- Ref: `"@ + r + "`\n"@);
    lemma_shows_front("## Method & Setup\n\n**Source**\n\n- URL: `"@ + u + "`\n- Ref: `"@ + r + "`\n"@ + c + "\n**Objective**\n\n- Metric: `"@ + m, "`\n- Goal: `"@, "- Ref: `"@ + r + "`\n"@);
    lemma_shows_front("## Method & Setup\n\n**Source**\n\n- URL: `"@ + u + "`\n- Ref: `"@ + r + "`\n"@ + c + "\n**Objective**\n\n- Metric: `"@ + m + "`\n- Goal: `"@, g, "- Ref: `"@ + r + "`\n"@);
    lemma_shows_front("## Method & Setup\n\n**Source**\n\n- URL: `"@ + u + "`\n- Ref: `"@ + r + "`\n"@ + c + "\n**Objective**\n\n- Metric: `"@ + m + "`\n- Goal: `"@ + g, "`\n\n**Strategy & Budget**\n\n- Strategy: `"@, "- Ref: `"@ + r + "`\n"@);
    lemma_shows_front("## Method & Setup\n\n**Source**\n\n- URL: `"@ + u + "`\n- Ref: `"@ + r + "`\n"@ + c + "\n**Objective**\n\n- Metric: `"@ + m + "`\n- Goal: `"@ + g + "`\n\n**Strategy & Budget**\n\n- Strategy: `"@, s, "- Ref: `"@ + r + "`\n"@);
    lemma_shows_front("## Method & Setup\n\n**Source**\n\n- URL: `"@ + u + "`\n- Ref: `"@ + r + "`\n"@ + c + "\n**Objective**\n\n- Metric: `"@ + m + "`\n- Goal: `"@ + g + "`\n\n**Strategy & Budget**\n\n- Strategy: `"@ + s, "`\n- Max experiments: "@, "- Ref: `"@ + r + "`\n"@);
    lemma_shows_front("## Method & Setup\n\n**Source**\n\n- URL: `"@ + u + "`\n- Ref: `"@ + r + "`\n"@ + c + "\n**Objective**\n\n- Metric: `"@ + m + "`\n- Goal: `"@ + g + "`\n\n**Strategy & Budget**\n\n- Strategy: `"@ + s + "`\n- Max experiments: "@, x, "- Ref: `"@ + r + "`\n"@);
    lemma_shows_front("## Method & Setup\n\n**Source**\n\n- URL: `"@ + u + "`\n- Ref: `"@ + r + "`\n"@ + c + "\n**Objective**\n\n- Metric: `"@ + m + "`\n- Goal: `"@ + g + "`\n\n**Strategy & Budget**\n\n- Strategy: `"@ + s + "`\n- Max experiments: "@ + x, "\n- Max duration: `"@, "- Ref: `"@ + r + "`\n"@);
    lemma_shows_front("## Method & Setup\n\n**Source**\n\n- URL: `"@ + u + "`\n- Ref: `"@ + r + "`\n"@ + c + "\n**Objective**\n\n- Metric: `"@ + m + "`\n- Goal: `"@ + g + "`\n\n**Strategy & Budget**\n\n- Strategy: `"@ + s + "`\n- Max experiments: "@ + x + "\n- Max duration: `"@, d, "- Ref: `"@ + r + "`\n"@);
    lemma_shows_front("## Method & Setup\n\n**Source**\n\n- URL: `"@ + u + "`\n- Ref: `"@ + r + "`\n"@ + c + "\n**Objective**\n\n- Metric: `"@ + m + "`\n- Goal: `"@ + g + "`\n\n**Strategy & Budget**\n\n- Strategy: `"@ + s + "`\n- Max experiments: "@ + x + "\n- Max duration: `"@ + d, "`\n\n"@, "- Ref: `"@ + r + "`\n"@);
    assert("\n**Objective**\n\n- Metric: `"@ =~= "\n**Objective**\n\n"@ + "- Metric: `"@) by {
        reveal_strlit("\n**Objective**\n\n- Metric: `");
        reveal_strlit("\n**Objective**\n\n");
        reveal_strlit("- Metric: `");
    }
    assert("`\n- Goal: `"@ =~= "`\n"@ + "- Goal: `"@) by {
        reveal_strlit("`\n- Goal: `");
        reveal_strlit("`\n");
        reveal_strlit("- Goal: `");
    }
    lemma_shows_enclosed("## Method & Setup\n\n**Source**\n\n- URL: `"@ + u + "`\n- Ref: `"@ + r + "`\n"@ + c, "\n**Objective**\n\n"@, "- Metric: `"@, m, "`\n"@, "- Goal: `"@);
    lemma_shows_front("## Method & Setup\n\n**Source**\n\n- URL: `"@ + u + "`\n- Ref: `"@ + r + "`\n"@ + c + "\n**Objective**\n\n- Metric: `"@ + m + "`\n- Goal: `"@, g, "- Metric: `"@ + m + "`\n"@);
    lemma_shows_front("## Method & Setup\n\n**Source**\n\n- URL: `"@ + u + "`\n- Ref: `"@ + r + "`\n"@ + c + "\n**Objective**\n\n- Metric: `"@ + m + "`\n- Goal: `"@ + g, "`\n\n**Strategy & Budget**\n\n- Strategy: `"@, "- Metric: `"@ + m + "`\n"@);
    lemma_shows_front("## Method & Setup\n\n**Source**\n\n- URL: `"@ + u + "`\n- Ref: `"@ + r + "`\n"@ + c + "\n**Objective**\n\n- Metric: `"@ + m + "`\n- Goal: `"@ + g + "`\n\n**Strategy & Budget**\n\n- Strategy: `"@, s, "- Metric: `"@ + m + "`\n"@);
    lemma_shows_front("## Method & Setup\n\n**Source**\n\n- URL: `"@ + u + "`\n- Ref: `"@ + r + "`\n"@ + c + "\n**Objective**\n\n- Metric: `"@ + m + "`\n- Goal: `"@ + g + "`\n\n**Strategy & Budget**\n\n- Strategy: `"@ + s, "`\n- Max experiments: "@, "- Metric: `"@ + m + "`\n"@);
    lemma_shows_front("## Method & Setup\n\n**Source**\n\n- URL: `"@ + u + "`\n- Ref: `"@ + r + "`\n"@ + c + "\n**Objective**\n\n- Metric: `"@ + m + "`\n- Goal: `"@ + g + "`\n\n**Strategy & Budget**\n\n- Strategy: `"@ + s + "`\n- Max experiments: "@, x, "- Metric: `"@ + m + "`\n"@);
    lemma_shows_front("## Method & Setup\n\n**Source**\n\n- URL: `"@ + u + "`\n- Ref: `"@ + r + "`\n"@ + c + "\n**Objective**\n\n- Metric: `"@ + m + "`\n- Goal: `"@ + g + "`\n\n**Strategy & Budget**\n\n- Strategy: `"@ + s + "`\n- Max experiments: "@ + x, "\n- Max duration: `"@, "- Metric: `"@ + m + "`\n"@);
    lemma_shows_front("## Method & Setup\n\n**Source**\n\n- URL: `"@ + u + "`\n- Ref: `"@ + r + "`\n"@ + c + "\n**Objective**\n\n- Metric: `"@ + m + "`\n- Goal: `"@ + g + "`\n\n**Strategy & Budget**\n\n- Strategy: `"@ + s + "`\n- Max experiments: "@ + x + "\n- Max duration: `"@, d, "- Metric: `"@ + m + "`\n"@);
    lemma_shows_front("## Method & Setup\n\n**Source**\n\n- URL: `"@ + u + "`\n- Ref: `"@ + r + "`\n"@ + c + "\n**Objective**\n\n- Metric: `"@ + m + "`\n- Goal: `"@ + g + "`\n\n**Strategy & Budget**\n\n- Strategy: `"@ + s + "`\n- Max experiments: "@ + x + "\n- Max duration: `"@ + d, "`\n\n"@, "- Metric: `"@ + m + "`\n"@);
    assert("`\n- Goal: `"@ =~= "`\n"@ + "- Goal: `"@) by {
        reveal_strlit("`\n- Goal: `");
        reveal_strlit("`\n");
        reveal_strlit("- Goal: `");
    }
    assert("`\n\n**Strategy & Budget**\n\n- Strategy: `"@ =~= "`\n"@ + "\n**Strategy & Budget**\n\n- Strategy: `"@) by {
        reveal_strlit("`\n\n**Strategy & Budget**\n\n- Strategy: `");
        reveal_strlit("`\n");
        reveal_strlit("\n**Strategy & Budget**\n\n- Strategy: `");
    }
    lemma_shows_enclosed("## Method & Setup\n\n**Source**\n\n- URL: `"@ + u + "`\n- Ref: `"@ + r + "`\n"@ + c + "\n**Objective**\n\n- Metric: `"@ + m, "`\n"@, "- Goal: `"@, g, "`\n"@, "\n**Strategy & Budget**\n\n- Strategy: `"@);
    lemma_shows_front("## Method & Setup\n\n**Source**\n\n- URL: `"@ + u + "`\n- Ref: `"@ + r + "`\n"@ + c + "\n**Objective**\n\n- Metric: `"@ + m + "`\n- Goal: `"@ + g + "`\n\n**Strategy & Budget**\n\n- Strategy: `"@, s, "- Goal: `"@ + g + "`\n"@);
    lemma_shows_front("## Method & Setup\n\n**Source**\n\n- URL: `"@ + u + "`\n- Ref: `"@ + r + "`\n"@ + c + "\n**Objective**\n\n- Metric: `"@ + m + "`\n- Goal: `"@ + g + "`\n\n**Strategy & Budget**\n\n- Strategy: `"@ + s, "`\n- Max experiments: "@, "- Goal: `"@ + g + "`\n"@);
    lemma_shows_front("## Method & Setup\n\n**Source**\n\n- URL: `"@ + u + "`\n- Ref: `"@ + r + "`\n"@ + c + "\n**Objective**\n\n- Metric: `"@ + m + "`\n- Goal: `"@ + g + "`\n\n**Strategy & Budget**\n\n- Strategy: `"@ + s + "`\n- Max experiments: "@, x, "- Goal: `"@ + g + "`\n"@);
    lemma_shows_front("## Method & Setup\n\n**Source**\n\n- URL: `"@ + u + "`\n- Ref: `"@ + r + "`\n"@ + c + "\n**Objective**\n\n- Metric: `"@ + m + "`\n- Goal: `"@ + g + "`\n\n**Strategy & Budget**\n\n- Strategy: `"@ + s + "`\n- Max experiments: "@ + x, "\n- Max duration: `"@, "- Goal: `"@ + g + "`\n"@);
    lemma_shows_front("## Method & Setup\n\n**Source**\n\n- URL: `"@ + u + "`\n- Ref: `"@ + r + "`\n"@ + c + "\n**Objective**\n\n- Metric: `"@ + m + "`\n- Goal: `"@ + g + "`\n\n**Strategy & Budget**\n\n- Strategy: `"@ + s + "`\n- Max experiments: "@ + x + "\n- Max duration: `"@, d, "- Goal: `"@ + g + "`\n"@);
    lemma_shows_front("## Method & Setup\n\n**Source**\n\n- URL: `"@ + u + "`\n- Ref: `"@ + r + "`\n"@ + c + "\n**Objective**\n\n- Metric: `"@ + m + "`\n- Goal: `"@ + g + "`\n\n**Strategy & Budget**\n\n- Strategy: `"@ + s + "`\n- Max experiments: "@ + x + "\n- Max duration: `"@ + d, "`\n\n"@, "- Goal: `"@ + g + "`\n"@);
    assert("`\n\n**Strategy & Budget**\n\n- Strategy: `"@ =~= "`\n\n**Strategy & Budget**\n\n"@ + "- Strategy: `"@) by {
        reveal_strlit("`\n\n**Strategy & Budget**\n\n- Strategy: `");
        reveal_strlit("`\n\n**Strategy & Budget**\n\n");
        reveal_strlit("- Strategy: `");
    }
    assert("`\n- Max experiments: "@ =~= "`\n"@ + "- Max experiments: "@) by {
        reveal_strlit("`\n- Max experiments: ");
        reveal_strlit("`\n");
        reveal_strlit("- Max experiments: ");
    }
    lemma_shows_enclosed("## Method & Setup\n\n**Source**\n\n- URL: `"@ + u + "`\n- Ref: `"@ + r + "`\n"@ + c + "\n**Objective**\n\n- Metric: `"@ + m + "`\n- Goal: `"@ + g, "`\n\n**Strategy & Budget**\n\n"@, "- Strategy: `"@, s, "`\n"@, "- Max experiments: "@);
    lemma_shows_front("## Method & Setup\n\n**Source**\n\n- URL: `"@ + u + "`\n- Ref: `"@ + r + "`\n"@ + c + "\n**Objective**\n\n- Metric: `"@ + m + "`\n- Goal: `"@ + g + "`\n\n**Strategy & Budget**\n\n- Strategy: `"@ + s + "`\n- Max experiments: "@, x, "- Strategy: `"@ + s + "`\n"@);
    lemma_shows_front("## Method & Setup\n\n**Source**\n\n- URL: `"@ + u + "`\n- Ref: `"@ + r + "`\n"@ + c + "\n**Objective**\n\n- Metric: `"@ + m + "`\n- Goal: `"@ + g + "`\n\n**Strategy & Budget**\n\n- Strategy: `"@ + s + "`\n- Max experiments: "@ + x, "\n- Max duration: `"@, "- Strategy: `"@ + s + "`\n"@);
    lemma_shows_front("## Method & Setup\n\n**Source**\n\n- URL: `"@ + u + "`\n- Ref: `"@ + r + "`\n"@ + c + "\n**Objective**\n\n- Metric: `"@ + m + "`\n- Goal: `"@ + g + "`\n\n**Strategy & Budget**\n\n- Strategy: `"@ + s + "`\n- Max experiments: "@ + x + "\n- Max duration: `"@, d, "- Strategy: `"@ + s + "`\n"@);
    lemma_shows_front("## Method & Setup\n\n**Source**\n\n- URL: `"@ + u + "`\n- Ref: `"@ + r + "`\n"@ + c + "\n**Objective**\n\n- Metric: `"@ + m + "`\n- Goal: `"@ + g + "`\n\n**Strategy & Budget**\n\n- Strategy: `"@ + s + "`\n- Max experiments: "@ + x + "\n- Max duration: `"@ + d, "`\n\n"@, "- Strategy: `"@ + s + "`\n"@);
    assert("`\n- Max experiments: "@ =~= "`\n"@ + "- Max experiments: "@) by {
        reveal_strlit("`\n- Max experiments: ");
        reveal_strlit("`\n");
        reveal_strlit("- Max experiments: ");
    }
    assert("\n- Max duration: `"@ =~= "\n"@ + "- Max duration: `"@) by {
        reveal_strlit("\n- Max duration: `");
        reveal_strlit("\n");
        reveal_strlit("- Max duration: `");
    }
    lemma_shows_enclosed("## Method & Setup\n\n**Source**\n\n- URL: `"@ + u + "`\n- Ref: `"@ + r + "`\n"@ + c + "\n**Objective**\n\n- Metric: `"@ + m + "`\n- Goal: `"@ + g + "`\n\n**Strategy & Budget**\n\n- Strategy: `"@ + s, "`\n"@, "- Max experiments: "@, x, "\n"@, "- Max duration: `"@);
    lemma_shows_front("## Method & Setup\n\n**Source**\n\n- URL: `"@ + u + "`\n- Ref: `"@ + r + "`\n"@ + c + "\n**Objective**\n\n- Metric: `"@ + m + "`\n- Goal: `"@ + g + "`\n\n**Strategy & Budget**\n\n- Strategy: `"@ + s + "`\n- Max experiments: "@ + x + "\n- Max duration: `"@, d, "- Max experiments: "@ + x + "\n"@);
    lemma_shows_front("## Method & Setup\n\n**Source**\n\n- URL: `"@ + u + "`\n- Ref: `"@ + r + "`\n"@ + c + "\n**Objective**\n\n- Metric: `"@ + m + "`\n- Goal: `"@ + g + "`\n\n**Strategy & Budget**\n\n- Strategy: `"@ + s + "`\n- Max experiments: "@ + x + "\n- Max duration: `"@ + d, "`\n\n"@, "- Max experiments: "@ + x + "\n"@);
    assert("\n- Max duration: `"@ =~= "\n"@ + "- Max duration: `"@) by {
        reveal_strlit("\n- Max duration: `");
        reveal_strlit("\n");
        reveal_strlit("- Max duration: `");
    }
    assert("`\n\n"@ =~= "`\n"@ + "\n"@) by {
        reveal_strlit("`\n\n");
        reveal_strlit("`\n");
        reveal_strlit("\n");
    }
    lemma_shows_enclosed("## Method & Setup\n\n**Source**\n\n- URL: `"@ + u + "`\n- Ref: `"@ + r + "`\n"@ + c + "\n**Objective**\n\n- Metric: `"@ + m + "`\n- Goal: `"@ + g + "`\n\n**Strategy & Budget**\n\n- Strategy: `"@ + s + "`\n- Max experiments: "@ + x, "\n"@, "- Max duration: `"@, d, "`\n"@, "\n"@);
}

proof fn lemma_setup(u: Seq<char>, r: Seq<char>, c: Seq<char>, m: Seq<char>, g: Seq<char>, s: Seq<char>, x: Seq<char>, d: Seq<char>)
    ensures
        shows("## Method & Setup\n\n**Source**\n\n- URL: `"@ + u + "`\n- Ref: `"@ + r + "`\n"@ + c + "\n**Objective**\n\n- Metric: `"@ + m + "`\n- Goal: `"@ + g + "`\n\n**Strategy & Budget**\n\n- Strategy: `"@ + s + "`\n- Max experiments: "@ + x + "\n- Max duration: `"@ + d + "`\n\n"@, "- URL: `"@ + u + "`\n"@),
        shows("## Method & Setup\n\n**Source**\n\n- URL: `"@ + u + "`\n- Ref: `"@ + r + "`\n"@ + c + "\n**Objective**\n\n- Metric: `"@ + m + "`\n- Goal: `"@ + g + "`\n\n**Strategy & Budget**\n\n- Strategy: `"@ + s + "`\n- Max experiments: "@ + x + "\n- Max duration: `"@ + d + "`\n\n"@, "- Ref: `"@ + r + "`\n"@),
        shows("## Method & Setup\n\n**Source**\n\n- URL: `"@ + u + "`\n- Ref: `"@ + r + "`\n"@ + c + "\n**Objective**\n\n- Metric: `"@ + m + "`\n- Goal: `"@ + g + "`\n\n**Strategy & Budget**\n\n- Strategy: `"@ + s + "`\n- Max experiments: "@ + x + "\n- Max duration: `"@ + d + "`\n\n"@, "- Metric: `"@ + m + "`\n"@),
        shows("## Method & Setup\n\n**Source**\n\n- URL: `"@ + u + "`\n- Ref: `"@ + r + "`\n"@ + c + "\n**Objective**\n\n- Metric: `"@ + m + "`\n- Goal: `"@ + g + "`\n\n**Strategy & Budget**\n\n- Strategy: `"@ + s + "`\n- Max experiments: "@ + x + "\n- Max duration: `"@ + d + "`\n\n"@, "- Goal: `"@ + g + "`\n"@),
        shows("## Method & Setup\n\n**Source**\n\n- URL: `"@ + u + "`\n- Ref: `"@ + r + "`\n"@ + c + "\n**Objective**\n\n- Metric: `"@ + m + "`\n- Goal: `"@ + g + "`\n\n**Strategy & Budget**\n\n- Strategy: `"@ + s + "`\n- Max experiments: "@ + x + "\n- Max duration: `"@ + d + "`\n\n"@, "- Strategy: `"@ + s + "`\n"@),
        shows("## Method & Setup\n\n**Source**\n\n- URL: `"@ + u + "`\n- Ref: `"@ + r + "`\n"@ + c + "\n**Objective**\n\n- Metric: `"@ + m + "`\n- Goal: `"@ + g + "`\n\n**Strategy & Budget**\n\n- Strategy: `"@ + s + "`\n- Max experiments: "@ + x + "\n- Max duration: `"@ + d + "`\n\n"@, "- Max experiments: "@ + x + "\n"@),
        shows("## Method & Setup\n\n**Source**\n\n- URL: `"@ + u + "`\n- Ref: `"@ + r + "`\n"@ + c + "\n**Objective**\n\n- Metric: `"@ + m + "`\n- Goal: `"@ + g + "`\n\n**Strategy & Budget**\n\n- Strategy: `"@ + s + "`\n- Max experiments: "@ + x + "\n- Max duration: `"@ + d + "`\n\n"@, "- Max duration: `"@ + d + "`\n"@),
        shows("## Method & Setup\n\n**Source**\n\n- URL: `"@ + u + "`\n- Ref: `"@ + r + "`\n"@ + c + "\n**Objective**\n\n- Metric: `"@ + m + "`\n- Goal: `"@ + g + "`\n\n**Strategy & Budget**\n\n- Strategy: `"@ + s + "`\n- Max experiments: "@ + x + "\n- Max duration: `"@ + d + "`\n\n"@, c),
{
    lemma_setup_labels(u, r, c, m, g, s, x, d);
    lemma_shows_itself(c);
    lemma_shows_back("## Method & Setup\n\n**Source**\n\n- URL: `"@ + u + "`\n- Ref: `"@ + r + "`\n"@, c, c);
    lemma_shows_front("## Method & Setup\n\n**Source**\n\n- URL: `"@ + u + "`\n- Ref: `"@ + r + "`\n"@ + c, "\n**Objective**\n\n- Metric: `"@, c);
    lemma_shows_front("## Method & Setup\n\n**Source**\n\n- URL: `"@ + u + "`\n- Ref: `"@ + r + "`\n"@ + c + "\n**Objective**\n\n- Metric: `"@, m, c);
    lemma_shows_front("## Method & Setup\n\n**Source**\n\n- URL: `"@ + u + "`\n- Ref: `"@ + r + "`\n"@ + c + "\n**Objective**\n\n- Metric: `"@ + m, "`\n- Goal: `"@, c);
    lemma_shows_front("## Method & Setup\n\n**Source**\n\n- URL: `"@ + u + "`\n- Ref: `"@ + r + "`\n"@ + c + "\n**Objective**\n\n- Metric: `"@ + m + "`\n- Goal: `"@, g, c);
    lemma_shows_front("## Method & Setup\n\n**Source**\n\n- URL: `"@ + u + "`\n- Ref: `"@ + r + "`\n"@ + c + "\n**Objective**\n\n- Metric: `"@ + m + "`\n- Goal: `"@ + g, "`\n\n**Strategy & Budget**\n\n- Strategy: `"@, c);
    lemma_shows_front("## Method & Setup\n\n**Source**\n\n- URL: `"@ + u + "`\n- Ref: `"@ + r + "`\n"@ + c + "\n**Objective**\n\n- Metric: `"@ + m + "`\n- Goal: `"@ + g + "`\n\n**Strategy & Budget**\n\n- Strategy: `"@, s, c);
    lemma_shows_front("## Method & Setup\n\n**Source**\n\n- URL: `"@ + u + "`\n- Ref: `"@ + r + "`\n"@ + c + "\n**Objective**\n\n- Metric: `"@ + m + "`\n- Goal: `"@ + g + "`\n\n**Strategy & Budget**\n\n- Strategy: `"@ + s, "`\n- Max experiments: "@, c);
    lemma_shows_front("## Method & Setup\n\n**Source**\n\n- URL: `"@ + u + "`\n- Ref: `"@ + r + "`\n"@ + c + "\n**Objective**\n\n- Metric: `"@ + m + "`\n- Goal: `"@ + g + "`\n\n**Strategy & Budget**\n\n- Strategy: `"@ + s + "`\n- Max experiments: "@, x, c);
    lemma_shows_front("## Method & Setup\n\n**Source**\n\n- URL: `"@ + u + "`\n- Ref: `"@ + r + "`\n"@ + c + "\n**Objective**\n\n- Metric: `"@ + m + "`\n- Goal: `"@ + g + "`\n\n**Strategy & Budget**\n\n- Strategy: `"@ + s + "`\n- Max experiments: "@ + x, "\n- Max duration: `"@, c);
    lemma_shows_front("## Method & Setup\n\n**Source**\n\n- URL: `"@ + u + "`\n- Ref: `"@ + r + "`\n"@ + c + "\n**Objective**\n\n- Metric: `"@ + m + "`\n- Goal: `"@ + g + "`\n\n**Strategy & Budget**\n\n- Strategy: `"@ + s + "`\n- Max experiments: "@ + x + "\n- Max duration: `"@, d, c);
    lemma_shows_front("## Method & Setup\n\n**Source**\n\n- URL: `"@ + u + "`\n- Ref: `"@ + r + "`\n"@ + c + "\n**Objective**\n\n- Metric: `"@ + m + "`\n- Goal: `"@ + g + "`\n\n**Strategy & Budget**\n\n- Strategy: `"@ + s + "`\n- Max experiments: "@ + x + "\n- Max duration: `"@ + d, "`\n\n"@, c);
}

proof fn lemma_setup_tex_labels(u: Seq<char>, r: Seq<char>, c: Seq<char>, m: Seq<char>, g: Seq<char>, s: Seq<char>, x: Seq<char>, d: Seq<char>)
    ensures
        shows("\\section{Method \\& Setup}\n\n\\subsection*{Source}\n\\begin{itemize}\n  \\item URL: \\texttt{"@ + u + "}\n  \\item Ref: \\texttt{"@ + r + "}\n"@ + c + "\\end{itemize}\n\n\\subsection*{Objective}\n\\begin{itemize}\n  \\item Metric: \\texttt{"@ + m + "}\n  \\item Goal: \\texttt{"@ + g + "}\n\\end{itemize}\n\n\\subsection*{Strategy \\& Budget}\n\\begin{itemize}\n  \\item Strategy: \\texttt{"@ + s + "}\n  \\item Max experiments: "@ + x + "\n  \\item Max duration: \\texttt{"@ + d + "}\n\\end{itemize}\n\n"@, "\\item URL: \\texttt{"@ + u + "}\n"@),
        shows("\\section{Method \\& Setup}\n\n\\subsection*{Source}\n\\begin{itemize}\n  \\item URL: \\texttt{"@ + u + "}\n  \\item Ref: \\texttt{"@ + r + "}\n"@ + c + "\\end{itemize}\n\n\\subsection*{Objective}\n\\begin{itemize}\n  \\item Metric: \\texttt{"@ + m + "}\n  \\item Goal: \\texttt{"@ + g + "}\n\\end{itemize}\n\n\\subsection*{Strategy \\& Budget}\n\\begin{itemize}\n  \\item Strategy: \\texttt{"@ + s + "}\n  \\item Max experiments: "@ + x + "\n  \\item Max duration: \\texttt{"@ + d + "}\n\\end{itemize}\n\n"@, "\\item Ref: \\texttt{"@ + r + "}\n"@),
        shows("\\section{Method \\& Setup}\n\n\\subsection*{Source}\n\\begin{itemize}\n  \\item URL: \\texttt{"@ + u + "}\n  \\item Ref: \\texttt{"@ + r + "}\n"@ + c + "\\end{itemize}\n\n\\subsection*{Objective}\n\\begin{itemize}\n  \\item Metric: \\texttt{"@ + m + "}\n  \\item Goal: \\texttt{"@ + g + "}\n\\end{itemize}\n\n\\subsection*{Strategy \\& Budget}\n\\begin{itemize}\n  \\item Strategy: \\texttt{"@ + s + "}\n  \\item Max experiments: "@ + x + "\n  \\item Max duration: \\texttt{"@ + d + "}\n\\end{itemize}\n\n"@, "\\item Metric: \\texttt{"@ + m + "}\n"@),
        shows("\\section{Method \\& Setup}\n\n\\subsection*{Source}\n\\begin{itemize}\n  \\item URL: \\texttt{"@ + u + "}\n  \\item Ref: \\texttt{"@ + r + "}\n"@ + c + "\\end{itemize}\n\n\\subsection*{Objective}\n\\begin{itemize}\n  \\item Metric: \\texttt{"@ + m + "}\n  \\item Goal: \\texttt{"@ + g + "}\n\\end{itemize}\n\n\\subsection*{Strategy \\& Budget}\n\\begin{itemize}\n  \\item Strategy: \\texttt{"@ + s + "}\n  \\item Max experiments: "@ + x + "\n  \\item Max duration: \\texttt{"@ + d + "}\n\\end{itemize}\n\n"@, "\\item Goal: \\texttt{"@ + g + "}\n"@),
        shows("\\section{Method \\& Setup}\n\n\\subsection*{Source}\n\\begin{itemize}\n  \\item URL: \\texttt{"@ + u + "}\n  \\item Ref: \\texttt{"@ + r + "}\n"@ + c + "\\end{itemize}\n\n\\subsection*{Objective}\n\\begin{itemize}\n  \\item Metric: \\texttt{"@ + m + "}\n  \\item Goal: \\texttt{"@ + g + "}\n\\end{itemize}\n\n\\subsection*{Strategy \\& Budget}\n\\begin{itemize}\n  \\item Strategy: \\texttt{"@ + s + "}\n  \\item Max experiments: "@ + x + "\n  \\item Max duration: \\texttt{"@ + d + "}\n\\end{itemize}\n\n"@, "\\item Strategy: \\texttt{"@ + s + "}\n"@),
        shows("\\section{Method \\& Setup}\n\n\\subsection*{Source}\n\\begin{itemize}\n  \\item URL: \\texttt{"@ + u + "}\n  \\item Ref: \\texttt{"@ + r + "}\n"@ + c + "\\end{itemize}\n\n\\subsection*{Objective}\n\\begin{itemize}\n  \\item Metric: \\texttt{"@ + m + "}\n  \\item Goal: \\texttt{"@ + g + "}\n\\end{itemize}\n\n\\subsection*{Strategy \\& Budget}\n\\begin{itemize}\n  \\item Strategy: \\texttt{"@ + s + "}\n  \\item Max experiments: "@ + x + "\n  \\item Max duration: \\texttt{"@ + d + "}\n\\end{itemize}\n\n"@, "\\item Max experiments: "@ + x + "\n"@),
        shows("\\section{Method \\& Setup}\n\n\\subsection*{Source}\n\\begin{itemize}\n  \\item URL: \\texttt{"@ + u + "}\n  \\item Ref: \\texttt{"@ + r + "}\n"@ + c + "\\end{itemize}\n\n\\subsection*{Objective}\n\\begin{itemize}\n  \\item Metric: \\texttt{"@ + m + "}\n  \\item Goal: \\texttt{"@ + g + "}\n\\end{itemize}\n\n\\subsection*{Strategy \\& Budget}\n\\begin{itemize}\n  \\item Strategy: \\texttt{"@ + s + "}\n  \\item Max experiments: "@ + x + "\n  \\item Max duration: \\texttt{"@ + d + "}\n\\end{itemize}\n\n"@, "\\item Max duration: \\texttt{"@ + d + "}\n"@),
{
    assert("\\section{Method \\& Setup}\n\n\\subsection*{Source}\n\\begin{itemize}\n  \\item URL: \\texttt{"@ =~= "\\section{Method \\& Setup}\n\n\\subsection*{Source}\n\\begin{itemize}\n  "@ + "\\item URL: \\texttt{"@) by {
        reveal_strlit("\\section{Method \\& Setup}\n\n\\subsection*{Source}\n\\begin{itemize}\n  \\item URL: \\texttt{");
        reveal_strlit("\\section{Method \\& Setup}\n\n\\subsection*{Source}\n\\begin{itemize}\n  ");
        reveal_strlit("\\item URL: \\texttt{");
    }
    assert("}\n  \\item Ref: \\texttt{"@ =~= "}\n"@ + "  \\item Ref: \\texttt{"@) by {
        reveal_strlit("}\n  \\item Ref: \\texttt{");
        reveal_strlit("}\n");
        reveal_strlit("  \\item Ref: \\texttt{");
    }
    lemma_shows_enclosed(Seq::<char>::empty(), "\\section{Method \\& Setup}\n\n\\subsection*{Source}\n\\begin{itemize}\n  "@, "\\item URL: \\texttt{"@, u, "}\n"@, "  \\item Ref: \\texttt{"@);
    assert(Seq::<char>::empty() + "\\section{Method \\& Setup}\n\n\\subsection*{Source}\n\\begin{itemize}\n  \\item URL: \\texttt{"@ =~= "\\section{Method \\& Setup}\n\n\\subsection*{Source}\n\\begin{itemize}\n  \\item URL: \\texttt{"@);
    lemma_shows_front("\\section{Method \\& Setup}\n\n\\subsection*{Source}\n\\begin{itemize}\n  \\item URL: \\texttt{"@ + u + "}\n  \\item Ref: \\texttt{"@, r, "\\item URL: \\texttt{"@ + u + "}\n"@);
    lemma_shows_front("\\section{Method \\& Setup}\n\n\\subsection*{Source}\n\\begin{itemize}\n  \\item URL: \\texttt{"@ + u + "}\n  \\item Ref: \\texttt{"@ + r, "}\n"@, "\\item URL: \\texttt{"@ + u + "}\n"@);
    lemma_shows_front("\\section{Method \\& Setup}\n\n\\subsection*{Source}\n\\begin{itemize}\n  \\item URL: \\texttt{"@ + u + "}\n  \\item Ref: \\texttt{"@ + r + "}\n"@, c, "\\item URL: \\texttt{"@ + u + "}\n"@);
    lemma_shows_front("\\section{Method \\& Setup}\n\n\\subsection*{Source}\n\\begin{itemize}\n  \\item URL: \\texttt{"@ + u + "}\n  \\item Ref: \\texttt{"@ + r + "}\n"@ + c, "\\end{itemize}\n\n\\subsection*{Objective}\n\\begin{itemize}\n  \\item Metric: \\texttt{"@, "\\item URL: \\texttt{"@ + u + "}\n"@);
    lemma_shows_front("\\section{Method \\& Setup}\n\n\\subsection*{Source}\n\\begin{itemize}\n  \\item URL: \\texttt{"@ + u + "}\n  \\item Ref: \\texttt{"@ + r + "}\n"@ + c + "\\end{itemize}\n\n\\subsection*{Objective}\n\\begin{itemize}\n  \\item Metric: \\texttt{"@, m, "\\item URL: \\texttt{"@ + u + "}\n"@);
    lemma_shows_front("\\section{Method \\& Setup}\n\n\\subsection*{Source}\n\\begin{itemize}\n  \\item URL: \\texttt{"@ + u + "}\n  \\item Ref: \\texttt{"@ + r + "}\n"@ + c + "\\end{itemize}\n\n\\subsection*{Objective}\n\\begin{itemize}\n  \\item Metric: \\texttt{"@ + m, "}\n  \\item Goal: \\texttt{"@, "\\item URL: \\texttt{"@ + u + "}\n"@);
    lemma_shows_front("\\section{Method \\& Setup}\n\n\\subsection*{Source}\n\\begin{itemize}\n  \\item URL: \\texttt{"@ + u + "}\n  \\item Ref: \\texttt{"@ + r + "}\n"@ + c + "\\end{itemize}\n\n\\subsection*{Objective}\n\\begin{itemize}\n  \\item Metric: \\texttt{"@ + m + "}\n  \\item Goal: \\texttt{"@, g, "\\item URL: \\texttt{"@ + u + "}\n"@);
    lemma_shows_front("\\section{Method \\& Setup}\n\n\\subsection*{Source}\n\\begin{itemize}\n  \\item URL: \\texttt{"@ + u + "}\n  \\item Ref: \\texttt{"@ + r + "}\n"@ + c + "\\end{itemize}\n\n\\subsection*{Objective}\n\\begin{itemize}\n  \\item Metric: \\texttt{"@ + m + "}\n  \\item Goal: \\texttt{"@ + g, "}\n\\end{itemize}\n\n\\subsection*{Strategy \\& Budget}\n\\begin{itemize}\n  \\item Strategy: \\texttt{"@, "\\item URL: \\texttt{"@ + u + "}\n"@);
    lemma_shows_front("\\section{Method \\& Setup}\n\n\\subsection*{Source}\n\\begin{itemize}\n  \\item URL: \\texttt{"@ + u + "}\n  \\item Ref: \\texttt{"@ + r + "}\n"@ + c + "\\end{itemize}\n\n\\subsection*{Objective}\n\\begin{itemize}\n  \\item Metric: \\texttt{"@ + m + "}\n  \\item Goal: \\texttt{"@ + g + "}\n\\end{itemize}\n\n\\subsection*{Strategy \\& Budget}\n\\begin{itemize}\n  \\item Strategy: \\texttt{"@, s, "\\item URL: \\texttt{"@ + u + "}\n"@);
    lemma_shows_front("\\section{Method \\& Setup}\n\n\\subsection*{Source}\n\\begin{itemize}\n  \\item URL: \\texttt{"@ + u + "}\n  \\item Ref: \\texttt{"@ + r + "}\n"@ + c + "\\end{itemize}\n\n\\subsection*{Objective}\n\\begin{itemize}\n  \\item Metric: \\texttt{"@ + m + "}\n  \\item Goal: \\texttt{"@ + g + "}\n\\end{itemize}\n\n\\subsection*{Strategy \\& Budget}\n\\begin{itemize}\n  \\item Strategy: \\texttt{"@ + s, "}\n  \\item Max experiments: "@, "\\item URL: \\texttt{"@ + u + "}\n"@);
    lemma_shows_front("\\section{Method \\& Setup}\n\n\\subsection*{Source}\n\\begin{itemize}\n  \\item URL: \\texttt{"@ + u + "}\n  \\item Ref: \\texttt{"@ + r + "}\n"@ + c + "\\end{itemize}\n\n\\subsection*{Objective}\n\\begin{itemize}\n  \\item Metric: \\texttt{"@ + m + "}\n  \\item Goal: \\texttt{"@ + g + "}\n\\end{itemize}\n\n\\subsection*{Strategy \\& Budget}\n\\begin{itemize}\n  \\item Strategy: \\texttt{"@ + s + "}\n  \\item Max experiments: "@, x, "\\item URL: \\texttt{"@ + u + "}\n"@);
    lemma_shows_front("\\section{Method \\& Setup}\n\n\\subsection*{Source}\n\\begin{itemize}\n  \\item URL: \\texttt{"@ + u + "}\n  \\item Ref: \\texttt{"@ + r + "}\n"@ + c + "\\end{itemize}\n\n\\subsection*{Objective}\n\\begin{itemize}\n  \\item Metric: \\texttt{"@ + m + "}\n  \\item Goal: \\texttt{"@ + g + "}\n\\end{itemize}\n\n\\subsection*{Strategy \\& Budget}\n\\begin{itemize}\n  \\item Strategy: \\texttt{"@ + s + "}\n  \\item Max experiments: "@ + x, "\n  \\item Max duration: \\texttt{"@, "\\item URL: \\texttt{"@ + u + "}\n"@);
    lemma_shows_front("\\section{Method \\& Setup}\n\n\\subsection*{Source}\n\\begin{itemize}\n  \\item URL: \\texttt{"@ + u + "}\n  \\item Ref: \\texttt{"@ + r + "}\n"@ + c + "\\end{itemize}\n\n\\subsection*{Objective}\n\\begin{itemize}\n  \\item Metric: \\texttt{"@ + m + "}\n  \\item Goal: \\texttt{"@ + g + "}\n\\end{itemize}\n\n\\subsection*{Strategy \\& Budget}\n\\begin{itemize}\n  \\item Strategy: \\texttt{"@ + s + "}\n  \\item Max experiments: "@ + x + "\n  \\item Max duration: \\texttt{"@, d, "\\item URL: \\texttt{"@ + u + "}\n"@);
    lemma_shows_front("\\section{Method \\& Setup}\n\n\\subsection*{Source}\n\\begin{itemize}\n  \\item URL: \\texttt{"@ + u + "}\n  \\item Ref: \\texttt{"@ + r + "}\n"@ + c + "\\end{itemize}\n\n\\subsection*{Objective}\n\\begin{itemize}\n  \\item Metric: \\texttt{"@ + m + "}\n  \\item Goal: \\texttt{"@ + g + "}\n\\end{itemize}\n\n\\subsection*{Strategy \\& Budget}\n\\begin{itemize}\n  \\item Strategy: \\texttt{"@ + s + "}\n  \\item Max experiments: "@ + x + "\n  \\item Max duration: \\texttt{"@ + d, "}\n\\end{itemize}\n\n"@, "\\item URL: \\texttt{"@ + u + "}\n"@);
    assert("}\n  \\item Ref: \\texttt{"@ =~= "}\n  "@ + "\\item Ref: \\texttt{"@) by {
        reveal_strlit("}\n  \\item Ref: \\texttt{");
        reveal_strlit("}\n  ");
        reveal_strlit("\\item Ref: \\texttt{");
    }
    assert("}\n"@ =~= "}\n"@ + Seq::<char>::empty());
    lemma_shows_enclosed("\\section{Method \\& Setup}\n\n\\subsection*{Source}\n\\begin{itemize}\n  \\item URL: \\texttt{"@ + u, "}\n  "@, "\\item Ref: \\texttt{"@, r, "}\n"@, Seq::<char>::empty());
    lemma_shows_front("\\section{Method \\& Setup}\n\n\\subsection*{Source}\n\\begin{itemize}\n  \\item URL: \\texttt{"@ + u + "}\n  \\item Ref: \\texttt{"@ + r + "}\n"@, c, "\\item Ref: \\texttt{"@ + r + "}\n"@);
    lemma_shows_front("\\section{Method \\& Setup}\n\n\\subsection*{Source}\n\\begin{itemize}\n  \\item URL: \\texttt{"@ + u + "}\n  \\item Ref: \\texttt{"@ + r + "}\n"@ + c, "\\end{itemize}\n\n\\subsection*{Objective}\n\\begin{itemize}\n  \\item Metric: \\texttt{"@, "\\item Ref: \\texttt{"@ + r + "}\n"@);
    lemma_shows_front("\\section{Method \\& Setup}\n\n\\subsection*{Source}\n\\begin{itemize}\n  \\item URL: \\texttt{"@ + u + "}\n  \\item Ref: \\texttt{"@ + r + "}\n"@ + c + "\\end{itemize}\n\n\\subsection*{Objective}\n\\begin{itemize}\n  \\item Metric: \\texttt{"@, m, "\\item Ref: \\texttt{"@ + r + "}\n"@);
    lemma_shows_front("\\section{Method \\& Setup}\n\n\\subsection*{Source}\n\\begin{itemize}\n  \\item URL: \\texttt{"@ + u + "}\n  \\item Ref: \\texttt{"@ + r + "}\n"@ + c + "\\end{itemize}\n\n\\subsection*{Objective}\n\\begin{itemize}\n  \\item Metric: \\texttt{"@ + m, "}\n  \\item Goal: \\texttt{"@, "\\item Ref: \\texttt{"@ + r + "}\n"@);
    lemma_shows_front("\\section{Method \\& Setup}\n\n\\subsection*{Source}\n\\begin{itemize}\n  \\item URL: \\texttt{"@ + u + "}\n  \\item Ref: \\texttt{"@ + r + "}\n"@ + c + "\\end{itemize}\n\n\\subsection*{Objective}\n\\begin{itemize}\n  \\item Metric: \\texttt{"@ + m + "}\n  \\item Goal: \\texttt{"@, g, "\\item Ref: \\texttt{"@ + r + "}\n"@);
    lemma_shows_front("\\section{Method \\& Setup}\n\n\\subsection*{Source}\n\\begin{itemize}\n  \\item URL: \\texttt{"@ + u + "}\n  \\item Ref: \\texttt{"@ + r + "}\n"@ + c + "\\end{itemize}\n\n\\subsection*{Objective}\n\\begin{itemize}\n  \\item Metric: \\texttt{"@ + m + "}\n  \\item Goal: \\texttt{"@ + g, "}\n\\end{itemize}\n\n\\subsection*{Strategy \\& Budget}\n\\begin{itemize}\n  \\item Strategy: \\texttt{"@, "\\item Ref: \\texttt{"@ + r + "}\n"@);
    lemma_shows_front("\\section{Method \\& Setup}\n\n\\subsection*{Source}\n\\begin{itemize}\n  \\item URL: \\texttt{"@ + u + "}\n  \\item Ref: \\texttt{"@ + r + "}\n"@ + c + "\\end{itemize}\n\n\\subsection*{Objective}\n\\begin{itemize}\n  \\item Metric: \\texttt{"@ + m + "}\n  \\item Goal: \\texttt{"@ + g + "}\n\\end{itemize}\n\n\\subsection*{Strategy \\& Budget}\n\\begin{itemize}\n  \\item Strategy: \\texttt{"@, s, "\\item Ref: \\texttt{"@ + r + "}\n"@);
    lemma_shows_front("\\section{Method \\& Setup}\n\n\\subsection*{Source}\n\\begin{itemize}\n  \\item URL: \\texttt{"@ + u + "}\n  \\item Ref: \\texttt{"@ + r + "}\n"@ + c + "\\end{itemize}\n\n\\subsection*{Objective}\n\\begin{itemize}\n  \\item Metric: \\texttt{"@ + m + "}\n  \\item Goal: \\texttt{"@ + g + "}\n\\end{itemize}\n\n\\subsection*{Strategy \\& Budget}\n\\begin{itemize}\n  \\item Strategy: \\texttt{"@ + s, "}\n  \\item Max experiments: "@, "\\item Ref: \\texttt{"@ + r + "}\n"@);
    lemma_shows_front("\\section{Method \\& Setup}\n\n\\subsection*{Source}\n\\begin{itemize}\n  \\item URL: \\texttt{"@ + u + "}\n  \\item Ref: \\texttt{"@ + r + "}\n"@ + c + "\\end{itemize}\n\n\\subsection*{Objective}\n\\begin{itemize}\n  \\item Metric: \\texttt{"@ + m + "}\n  \\item Goal: \\texttt{"@ + g + "}\n\\end{itemize}\n\n\\subsection*{Strategy \\& Budget}\n\\begin{itemize}\n  \\item Strategy: \\texttt{"@ + s + "}\n  \\item Max experiments: "@, x, "\\item Ref: \\texttt{"@ + r + "}\n"@);
    lemma_shows_front("\\section{Method \\& Setup}\n\n\\subsection*{Source}\n\\begin{itemize}\n  \\item URL: \\texttt{"@ + u + "}\n  \\item Ref: \\texttt{"@ + r + "}\n"@ + c + "\\end{itemize}\n\n\\subsection*{Objective}\n\\begin{itemize}\n  \\item Metric: \\texttt{"@ + m + "}\n  \\item Goal: \\texttt{"@ + g + "}\n\\end{itemize}\n\n\\subsection*{Strategy \\& Budget}\n\\begin{itemize}\n  \\item Strategy: \\texttt{"@ + s + "}\n  \\item Max experiments: "@ + x, "\n  \\item Max duration: \\texttt{"@, "\\item Ref: \\texttt{"@ + r + "}\n"@);
    lemma_shows_front("\\section{Method \\& Setup}\n\n\\subsection*{Source}\n\\begin{itemize}\n  \\item URL: \\texttt{"@ + u + "}\n  \\item Ref: \\texttt{"@ + r + "}\n"@ + c + "\\end{itemize}\n\n\\subsection*{Objective}\n\\begin{itemize}\n  \\item Metric: \\texttt{"@ + m + "}\n  \\item Goal: \\texttt{"@ + g + "}\n\\end{itemize}\n\n\\subsection*{Strategy \\& Budget}\n\\begin{itemize}\n  \\item Strategy: \\texttt{"@ + s + "}\n  \\item Max experiments: "@ + x + "\n  \\item Max duration: \\texttt{"@, d, "\\item Ref: \\texttt{"@ + r + "}\n"@);
    lemma_shows_front("\\section{Method \\& Setup}\n\n\\subsection*{Source}\n\\begin{itemize}\n  \\item URL: \\texttt{"@ + u + "}\n  \\item Ref: \\texttt{"@ + r + "}\n"@ + c + "\\end{itemize}\n\n\\subsection*{Objective}\n\\begin{itemize}\n  \\item Metric: \\texttt{"@ + m + "}\n  \\item Goal: \\texttt{"@ + g + "}\n\\end{itemize}\n\n\\subsection*{Strategy \\& Budget}\n\\begin{itemize}\n  \\item Strategy: \\texttt{"@ + s + "}\n  \\item Max experiments: "@ + x + "\n  \\item Max duration: \\texttt{"@ + d, "}\n\\end{itemize}\n\n"@, "\\item Ref: \\texttt{"@ + r + "}\n"@);
    assert("\\end{itemize}\n\n\\subsection*{Objective}\n\\begin{itemize}\n  \\item Metric: \\texttt{"@ =~= "\\end{itemize}\n\n\\subsection*{Objective}\n\\begin{itemize}\n  "@ + "\\item Metric: \\texttt{"@) by {
        reveal_strlit("\\end{itemize}\n\n\\subsection*{Objective}\n\\begin{itemize}\n  \\item Metric: \\texttt{");
        reveal_strlit("\\end{itemize}\n\n\\subsection*{Objective}\n\\begin{itemize}\n  ");
        reveal_strlit("\\item Metric: \\texttt{");
    }
    assert("}\n  \\item Goal: \\texttt{"@ =~= "}\n"@ + "  \\item Goal: \\texttt{"@) by {
        reveal_strlit("}\n  \\item Goal: \\texttt{");
        reveal_strlit("}\n");
        reveal_strlit("  \\item Goal: \\texttt{");
    }
    lemma_shows_enclosed("\\section{Method \\& Setup}\n\n\\subsection*{Source}\n\\begin{itemize}\n  \\item URL: \\texttt{"@ + u + "}\n  \\item Ref: \\texttt{"@ + r + "}\n"@ + c, "\\end{itemize}\n\n\\subsection*{Objective}\n\\begin{itemize}\n  "@, "\\item Metric: \\texttt{"@, m, "}\n"@, "  \\item Goal: \\texttt{"@);
    lemma_shows_front("\\section{Method \\& Setup}\n\n\\subsection*{Source}\n\\begin{itemize}\n  \\item URL: \\texttt{"@ + u + "}\n  \\item Ref: \\texttt{"@ + r + "}\n"@ + c + "\\end{itemize}\n\n\\subsection*{Objective}\n\\begin{itemize}\n  \\item Metric: \\texttt{"@ + m + "}\n  \\item Goal: \\texttt{"@, g, "\\item Metric: \\texttt{"@ + m + "}\n"@);
    lemma_shows_front("\\section{Method \\& Setup}\n\n\\subsection*{Source}\n\\begin{itemize}\n  \\item URL: \\texttt{"@ + u + "}\n  \\item Ref: \\texttt{"@ + r + "}\n"@ + c + "\\end{itemize}\n\n\\subsection*{Objective}\n\\begin{itemize}\n  \\item Metric: \\texttt{"@ + m + "}\n  \\item Goal: \\texttt{"@ + g, "}\n\\end{itemize}\n\n\\subsection*{Strategy \\& Budget}\n\\begin{itemize}\n  \\item Strategy: \\texttt{"@, "\\item Metric: \\texttt{"@ + m + "}\n"@);
    lemma_shows_front("\\section{Method \\& Setup}\n\n\\subsection*{Source}\n\\begin{itemize}\n  \\item URL: \\texttt{"@ + u + "}\n  \\item Ref: \\texttt{"@ + r + "}\n"@ + c + "\\end{itemize}\n\n\\subsection*{Objective}\n\\begin{itemize}\n  \\item Metric: \\texttt{"@ + m + "}\n  \\item Goal: \\texttt{"@ + g + "}\n\\end{itemize}\n\n\\subsection*{Strategy \\& Budget}\n\\begin{itemize}\n  \\item Strategy: \\texttt{"@, s, "\\item Metric: \\texttt{"@ + m + "}\n"@);
    lemma_shows_front("\\section{Method \\& Setup}\n\n\\subsection*{Source}\n\\begin{itemize}\n  \\item URL: \\texttt{"@ + u + "}\n  \\item Ref: \\texttt{"@ + r + "}\n"@ + c + "\\end{itemize}\n\n\\subsection*{Objective}\n\\begin{itemize}\n  \\item Metric: \\texttt{"@ + m + "}\n  \\item Goal: \\texttt{"@ + g + "}\n\\end{itemize}\n\n\\subsection*{Strategy \\& Budget}\n\\begin{itemize}\n  \\item Strategy: \\texttt{"@ + s, "}\n  \\item Max experiments: "@, "\\item Metric: \\texttt{"@ + m + "}\n"@);
    lemma_shows_front("\\section{Method \\& Setup}\n\n\\subsection*{Source}\n\\begin{itemize}\n  \\item URL: \\texttt{"@ + u + "}\n  \\item Ref: \\texttt{"@ + r + "}\n"@ + c + "\\end{itemize}\n\n\\subsection*{Objective}\n\\begin{itemize}\n  \\item Metric: \\texttt{"@ + m + "}\n  \\item Goal: \\texttt{"@ + g + "}\n\\end{itemize}\n\n\\subsection*{Strategy \\& Budget}\n\\begin{itemize}\n  \\item Strategy: \\texttt{"@ + s + "}\n  \\item Max experiments: "@, x, "\\item Metric: \\texttt{"@ + m + "}\n"@);
    lemma_shows_front("\\section{Method \\& Setup}\n\n\\subsection*{Source}\n\\begin{itemize}\n  \\item URL: \\texttt{"@ + u + "}\n  \\item Ref: \\texttt{"@ + r + "}\n"@ + c + "\\end{itemize}\n\n\\subsection*{Objective}\n\\begin{itemize}\n  \\item Metric: \\texttt{"@ + m + "}\n  \\item Goal: \\texttt{"@ + g + "}\n\\end{itemize}\n\n\\subsection*{Strategy \\& Budget}\n\\begin{itemize}\n  \\item Strategy: \\texttt{"@ + s + "}\n  \\item Max experiments: "@ + x, "\n  \\item Max duration: \\texttt{"@, "\\item Metric: \\texttt{"@ + m + "}\n"@);
    lemma_shows_front("\\section{Method \\& Setup}\n\n\\subsection*{Source}\n\\begin{itemize}\n  \\item URL: \\texttt{"@ + u + "}\n  \\item Ref: \\texttt{"@ + r + "}\n"@ + c + "\\end{itemize}\n\n\\subsection*{Objective}\n\\begin{itemize}\n  \\item Metric: \\texttt{"@ + m + "}\n  \\item Goal: \\texttt{"@ + g + "}\n\\end{itemize}\n\n\\subsection*{Strategy \\& Budget}\n\\begin{itemize}\n  \\item Strategy: \\texttt{"@ + s + "}\n  \\item Max experiments: "@ + x + "\n  \\item Max duration: \\texttt{"@, d, "\\item Metric: \\texttt{"@ + m + "}\n"@);
    lemma_shows_front("\\section{Method \\& Setup}\n\n\\subsection*{Source}\n\\begin{itemize}\n  \\item URL: \\texttt{"@ + u + "}\n  \\item Ref: \\texttt{"@ + r + "}\n"@ + c + "\\end{itemize}\n\n\\subsection*{Objective}\n\\begin{itemize}\n  \\item Metric: \\texttt{"@ + m + "}\n  \\item Goal: \\texttt{"@ + g + "}\n\\end{itemize}\n\n\\subsection*{Strategy \\& Budget}\n\\begin{itemize}\n  \\item Strategy: \\texttt{"@ + s + "}\n  \\item Max experiments: "@ + x + "\n  \\item Max duration: \\texttt{"@ + d, "}\n\\end{itemize}\n\n"@, "\\item Metric: \\texttt{"@ + m + "}\n"@);
    assert("}\n  \\item Goal: \\texttt{"@ =~= "}\n  "@ + "\\item Goal: \\texttt{"@) by {
        reveal_strlit("}\n  \\item Goal: \\texttt{");
        reveal_strlit("}\n  ");
        reveal_strlit("\\item Goal: \\texttt{");
    }
    assert("}\n\\end{itemize}\n\n\\subsection*{Strategy \\& Budget}\n\\begin{itemize}\n  \\item Strategy: \\texttt{"@ =~= "}\n"@ + "\\end{itemize}\n\n\\subsection*{Strategy \\& Budget}\n\\begin{itemize}\n  \\item Strategy: \\texttt{"@) by {
        reveal_strlit("}\n\\end{itemize}\n\n\\subsection*{Strategy \\& Budget}\n\\begin{itemize}\n  \\item Strategy: \\texttt{");
        reveal_strlit("}\n");
        reveal_strlit("\\end{itemize}\n\n\\subsection*{Strategy \\& Budget}\n\\begin{itemize}\n  \\item Strategy: \\texttt{");
    }
    lemma_shows_enclosed("\\section{Method \\& Setup}\n\n\\subsection*{Source}\n\\begin{itemize}\n  \\item URL: \\texttt{"@ + u + "}\n  \\item Ref: \\texttt{"@ + r + "}\n"@ + c + "\\end{itemize}\n\n\\subsection*{Objective}\n\\begin{itemize}\n  \\item Metric: \\texttt{"@ + m, "}\n  "@, "\\item Goal: \\texttt{"@, g, "}\n"@, "\\end{itemize}\n\n\\subsection*{Strategy \\& Budget}\n\\begin{itemize}\n  \\item Strategy: \\texttt{"@);
    lemma_shows_front("\\section{Method \\& Setup}\n\n\\subsection*{Source}\n\\begin{itemize}\n  \\item URL: \\texttt{"@ + u + "}\n  \\item Ref: \\texttt{"@ + r + "}\n"@ + c + "\\end{itemize}\n\n\\subsection*{Objective}\n\\begin{itemize}\n  \\item Metric: \\texttt{"@ + m + "}\n  \\item Goal: \\texttt{"@ + g + "}\n\\end{itemize}\n\n\\subsection*{Strategy \\& Budget}\n\\begin{itemize}\n  \\item Strategy: \\texttt{"@, s, "\\item Goal: \\texttt{"@ + g + "}\n"@);
    lemma_shows_front("\\section{Method \\& Setup}\n\n\\subsection*{Source}\n\\begin{itemize}\n  \\item URL: \\texttt{"@ + u + "}\n  \\item Ref: \\texttt{"@ + r + "}\n"@ + c + "\\end{itemize}\n\n\\subsection*{Objective}\n\\begin{itemize}\n  \\item Metric: \\texttt{"@ + m + "}\n  \\item Goal: \\texttt{"@ + g + "}\n\\end{itemize}\n\n\\subsection*{Strategy \\& Budget}\n\\begin{itemize}\n  \\item Strategy: \\texttt{"@ + s, "}\n  \\item Max experiments: "@, "\\item Goal: \\texttt{"@ + g + "}\n"@);
    lemma_shows_front("\\section{Method \\& Setup}\n\n\\subsection*{Source}\n\\begin{itemize}\n  \\item URL: \\texttt{"@ + u + "}\n  \\item Ref: \\texttt{"@ + r + "}\n"@ + c + "\\end{itemize}\n\n\\subsection*{Objective}\n\\begin{itemize}\n  \\item Metric: \\texttt{"@ + m + "}\n  \\item Goal: \\texttt{"@ + g + "}\n\\end{itemize}\n\n\\subsection*{Strategy \\& Budget}\n\\begin{itemize}\n  \\item Strategy: \\texttt{"@ + s + "}\n  \\item Max experiments: "@, x, "\\item Goal: \\texttt{"@ + g + "}\n"@);
    lemma_shows_front("\\section{Method \\& Setup}\n\n\\subsection*{Source}\n\\begin{itemize}\n  \\item URL: \\texttt{"@ + u + "}\n  \\item Ref: \\texttt{"@ + r + "}\n"@ + c + "\\end{itemize}\n\n\\subsection*{Objective}\n\\begin{itemize}\n  \\item Metric: \\texttt{"@ + m + "}\n  \\item Goal: \\texttt{"@ + g + "}\n\\end{itemize}\n\n\\subsection*{Strategy \\& Budget}\n\\begin{itemize}\n  \\item Strategy: \\texttt{"@ + s + "}\n  \\item Max experiments: "@ + x, "\n  \\item Max duration: \\texttt{"@, "\\item Goal: \\texttt{"@ + g + "}\n"@);
    lemma_shows_front("\\section{Method \\& Setup}\n\n\\subsection*{Source}\n\\begin{itemize}\n  \\item URL: \\texttt{"@ + u + "}\n  \\item Ref: \\texttt{"@ + r + "}\n"@ + c + "\\end{itemize}\n\n\\subsection*{Objective}\n\\begin{itemize}\n  \\item Metric: \\texttt{"@ + m + "}\n  \\item Goal: \\texttt{"@ + g + "}\n\\end{itemize}\n\n\\subsection*{Strategy \\& Budget}\n\\begin{itemize}\n  \\item Strategy: \\texttt{"@ + s + "}\n  \\item Max experiments: "@ + x + "\n  \\item Max duration: \\texttt{"@, d, "\\item Goal: \\texttt{"@ + g + "}\n"@);
    lemma_shows_front("\\section{Method \\& Setup}\n\n\\subsection*{Source}\n\\begin{itemize}\n  \\item URL: \\texttt{"@ + u + "}\n  \\item Ref: \\texttt{"@ + r + "}\n"@ + c + "\\end{itemize}\n\n\\subsection*{Objective}\n\\begin{itemize}\n  \\item Metric: \\texttt{"@ + m + "}\n  \\item Goal: \\texttt{"@ + g + "}\n\\end{itemize}\n\n\\subsection*{Strategy \\& Budget}\n\\begin{itemize}\n  \\item Strategy: \\texttt{"@ + s + "}\n  \\item Max experiments: "@ + x + "\n  \\item Max duration: \\texttt{"@ + d, "}\n\\end{itemize}\n\n"@, "\\item Goal: \\texttt{"@ + g + "}\n"@);
    assert("}\n\\end{itemize}\n\n\\subsection*{Strategy \\& Budget}\n\\begin{itemize}\n  \\item Strategy: \\texttt{"@ =~= "}\n\\end{itemize}\n\n\\subsection*{Strategy \\& Budget}\n\\begin{itemize}\n  "@ + "\\item Strategy: \\texttt{"@) by {
        reveal_strlit("}\n\\end{itemize}\n\n\\subsection*{Strategy \\& Budget}\n\\begin{itemize}\n  \\item Strategy: \\texttt{");
        reveal_strlit("}\n\\end{itemize}\n\n\\subsection*{Strategy \\& Budget}\n\\begin{itemize}\n  ");
        reveal_strlit("\\item Strategy: \\texttt{");
    }
    assert("}\n  \\item Max experiments: "@ =~= "}\n"@ + "  \\item Max experiments: "@) by {
        reveal_strlit("}\n  \\item Max experiments: ");
        reveal_strlit("}\n");
        reveal_strlit("  \\item Max experiments: ");
    }
    lemma_shows_enclosed("\\section{Method \\& Setup}\n\n\\subsection*{Source}\n\\begin{itemize}\n  \\item URL: \\texttt{"@ + u + "}\n  \\item Ref: \\texttt{"@ + r + "}\n"@ + c + "\\end{itemize}\n\n\\subsection*{Objective}\n\\begin{itemize}\n  \\item Metric: \\texttt{"@ + m + "}\n  \\item Goal: \\texttt{"@ + g, "}\n\\end{itemize}\n\n\\subsection*{Strategy \\& Budget}\n\\begin{itemize}\n  "@, "\\item Strategy: \\texttt{"@, s, "}\n"@, "  \\item Max experiments: "@);
    lemma_shows_front("\\section{Method \\& Setup}\n\n\\subsection*{Source}\n\\begin{itemize}\n  \\item URL: \\texttt{"@ + u + "}\n  \\item Ref: \\texttt{"@ + r + "}\n"@ + c + "\\end{itemize}\n\n\\subsection*{Objective}\n\\begin{itemize}\n  \\item Metric: \\texttt{"@ + m + "}\n  \\item Goal: \\texttt{"@ + g + "}\n\\end{itemize}\n\n\\subsection*{Strategy \\& Budget}\n\\begin{itemize}\n  \\item Strategy: \\texttt{"@ + s + "}\n  \\item Max experiments: "@, x, "\\item Strategy: \\texttt{"@ + s + "}\n"@);
    lemma_shows_front("\\section{Method \\& Setup}\n\n\\subsection*{Source}\n\\begin{itemize}\n  \\item URL: \\texttt{"@ + u + "}\n  \\item Ref: \\texttt{"@ + r + "}\n"@ + c + "\\end{itemize}\n\n\\subsection*{Objective}\n\\begin{itemize}\n  \\item Metric: \\texttt{"@ + m + "}\n  \\item Goal: \\texttt{"@ + g + "}\n\\end{itemize}\n\n\\subsection*{Strategy \\& Budget}\n\\begin{itemize}\n  \\item Strategy: \\texttt{"@ + s + "}\n  \\item Max experiments: "@ + x, "\n  \\item Max duration: \\texttt{"@, "\\item Strategy: \\texttt{"@ + s + "}\n"@);
    lemma_shows_front("\\section{Method \\& Setup}\n\n\\subsection*{Source}\n\\begin{itemize}\n  \\item URL: \\texttt{"@ + u + "}\n  \\item Ref: \\texttt{"@ + r + "}\n"@ + c + "\\end{itemize}\n\n\\subsection*{Objective}\n\\begin{itemize}\n  \\item Metric: \\texttt{"@ + m + "}\n  \\item Goal: \\texttt{"@ + g + "}\n\\end{itemize}\n\n\\subsection*{Strategy \\& Budget}\n\\begin{itemize}\n  \\item Strategy: \\texttt{"@ + s + "}\n  \\item Max experiments: "@ + x + "\n  \\item Max duration: \\texttt{"@, d, "\\item Strategy: \\texttt{"@ + s + "}\n"@);
    lemma_shows_front("\\section{Method \\& Setup}\n\n\\subsection*{Source}\n\\begin{itemize}\n  \\item URL: \\texttt{"@ + u + "}\n  \\item Ref: \\texttt{"@ + r + "}\n"@ + c + "\\end{itemize}\n\n\\subsection*{Objective}\n\\begin{itemize}\n  \\item Metric: \\texttt{"@ + m + "}\n  \\item Goal: \\texttt{"@ + g + "}\n\\end{itemize}\n\n\\subsection*{Strategy \\& Budget}\n\\begin{itemize}\n  \\item Strategy: \\texttt{"@ + s + "}\n  \\item Max experiments: "@ + x + "\n  \\item Max duration: \\texttt{"@ + d, "}\n\\end{itemize}\n\n"@, "\\item Strategy: \\texttt{"@ + s + "}\n"@);
    assert("}\n  \\item Max experiments: "@ =~= "}\n  "@ + "\\item Max experiments: "@) by {
        reveal_strlit("}\n  \\item Max experiments: ");
        reveal_strlit("}\n  ");
        reveal_strlit("\\item Max experiments: ");
    }
    assert("\n  \\item Max duration: \\texttt{"@ =~= "\n"@ + "  \\item Max duration: \\texttt{"@) by {
        reveal_strlit("\n  \\item Max duration: \\texttt{");
        reveal_strlit("\n");
        reveal_strlit("  \\item Max duration: \\texttt{");
    }
    lemma_shows_enclosed("\\section{Method \\& Setup}\n\n\\subsection*{Source}\n\\begin{itemize}\n  \\item URL: \\texttt{"@ + u + "}\n  \\item Ref: \\texttt{"@ + r + "}\n"@ + c + "\\end{itemize}\n\n\\subsection*{Objective}\n\\begin{itemize}\n  \\item Metric: \\texttt{"@ + m + "}\n  \\item Goal: \\texttt{"@ + g + "}\n\\end{itemize}\n\n\\subsection*{Strategy \\& Budget}\n\\begin{itemize}\n  \\item Strategy: \\texttt{"@ + s, "}\n  "@, "\\item Max experiments: "@, x, "\n"@, "  \\item Max duration: \\texttt{"@);
    lemma_shows_front("\\section{Method \\& Setup}\n\n\\subsection*{Source}\n\\begin{itemize}\n  \\item URL: \\texttt{"@ + u + "}\n  \\item Ref: \\texttt{"@ + r + "}\n"@ + c + "\\end{itemize}\n\n\\subsection*{Objective}\n\\begin{itemize}\n  \\item Metric: \\texttt{"@ + m + "}\n  \\item Goal: \\texttt{"@ + g + "}\n\\end{itemize}\n\n\\subsection*{Strategy \\& Budget}\n\\begin{itemize}\n  \\item Strategy: \\texttt{"@ + s + "}\n  \\item Max experiments: "@ + x + "\n  \\item Max duration: \\texttt{"@, d, "\\item Max experiments: "@ + x + "\n"@);
    lemma_shows_front("\\section{Method \\& Setup}\n\n\\subsection*{Source}\n\\begin{itemize}\n  \\item URL: \\texttt{"@ + u + "}\n  \\item Ref: \\texttt{"@ + r + "}\n"@ + c + "\\end{itemize}\n\n\\subsection*{Objective}\n\\begin{itemize}\n  \\item Metric: \\texttt{"@ + m + "}\n  \\item Goal: \\texttt{"@ + g + "}\n\\end{itemize}\n\n\\subsection*{Strategy \\& Budget}\n\\begin{itemize}\n  \\item Strategy: \\texttt{"@ + s + "}\n  \\item Max experiments: "@ + x + "\n  \\item Max duration: \\texttt{"@ + d, "}\n\\end{itemize}\n\n"@, "\\item Max experiments: "@ + x + "\n"@);
    assert("\n  \\item Max duration: \\texttt{"@ =~= "\n  "@ + "\\item Max duration: \\texttt{"@) by {
        reveal_strlit("\n  \\item Max duration: \\texttt{");
        reveal_strlit("\n  ");
        reveal_strlit("\\item Max duration: \\texttt{");
    }
    assert("}\n\\end{itemize}\n\n"@ =~= "}\n"@ + "\\end{itemize}\n\n"@) by {
        reveal_strlit("}\n\\end{itemize}\n\n");
        reveal_strlit("}\n");
        reveal_strlit("\\end{itemize}\n\n");
    }
    lemma_shows_enclosed("\\section{Method \\& Setup}\n\n\\subsection*{Source}\n\\begin{itemize}\n  \\item URL: \\texttt{"@ + u + "}\n  \\item Ref: \\texttt{"@ + r + "}\n"@ + c + "\\end{itemize}\n\n\\subsection*{Objective}\n\\begin{itemize}\n  \\item Metric: \\texttt{"@ + m + "}\n  \\item Goal: \\texttt{"@ + g + "}\n\\end{itemize}\n\n\\subsection*{Strategy \\& Budget}\n\\begin{itemize}\n  \\item Strategy: \\texttt{"@ + s + "}\n  \\item Max experiments: "@ + x, "\n  "@, "\\item Max duration: \\texttt{"@, d, "}\n"@, "\\end{itemize}\n\n"@);
}

proof fn lemma_setup_tex(u: Seq<char>, r: Seq<char>, c: Seq<char>, m: Seq<char>, g: Seq<char>, s: Seq<char>, x: Seq<char>, d: Seq<char>)
    ensures
        shows("\\section{Method \\& Setup}\n\n\\subsection*{Source}\n\\begin{itemize}\n  \\item URL: \\texttt{"@ + u + "}\n  \\item Ref: \\texttt{"@ + r + "}\n"@ + c + "\\end{itemize}\n\n\\subsection*{Objective}\n\\begin{itemize}\n  \\item Metric: \\texttt{"@ + m + "}\n  \\item Goal: \\texttt{"@ + g + "}\n\\end{itemize}\n\n\\subsection*{Strategy \\& Budget}\n\\begin{itemize}\n  \\item Strategy: \\texttt{"@ + s + "}\n  \\item Max experiments: "@ + x + "\n  \\item Max duration: \\texttt{"@ + d + "}\n\\end{itemize}\n\n"@, "\\item URL: \\texttt{"@ + u + "}\n"@),
        shows("\\section{Method \\& Setup}\n\n\\subsection*{Source}\n\\begin{itemize}\n  \\item URL: \\texttt{"@ + u + "}\n  \\item Ref: \\texttt{"@ + r + "}\n"@ + c + "\\end{itemize}\n\n\\subsection*{Objective}\n\\begin{itemize}\n  \\item Metric: \\texttt{"@ + m + "}\n  \\item Goal: \\texttt{"@ + g + "}\n\\end{itemize}\n\n\\subsection*{Strategy \\& Budget}\n\\begin{itemize}\n  \\item Strategy: \\texttt{"@ + s + "}\n  \\item Max experiments: "@ + x + "\n  \\item Max duration: \\texttt{"@ + d + "}\n\\end{itemize}\n\n"@, "\\item Ref: \\texttt{"@ + r + "}\n"@),
        shows("\\section{Method \\& Setup}\n\n\\subsection*{Source}\n\\begin{itemize}\n  \\item URL: \\texttt{"@ + u + "}\n  \\item Ref: \\texttt{"@ + r + "}\n"@ + c + "\\end{itemize}\n\n\\subsection*{Objective}\n\\begin{itemize}\n  \\item Metric: \\texttt{"@ + m + "}\n  \\item Goal: \\texttt{"@ + g + "}\n\\end{itemize}\n\n\\subsection*{Strategy \\& Budget}\n\\begin{itemize}\n  \\item Strategy: \\texttt{"@ + s + "}\n  \\item Max experiments: "@ + x + "\n  \\item Max duration: \\texttt{"@ + d + "}\n\\end{itemize}\n\n"@, "\\item Metric: \\texttt{"@ + m + "}\n"@),
        shows("\\section{Method \\& Setup}\n\n\\subsection*{Source}\n\\begin{itemize}\n  \\item URL: \\texttt{"@ + u + "}\n  \\item Ref: \\texttt{"@ + r + "}\n"@ + c + "\\end{itemize}\n\n\\subsection*{Objective}\n\\begin{itemize}\n  \\item Metric: \\texttt{"@ + m + "}\n  \\item Goal: \\texttt{"@ + g + "}\n\\end{itemize}\n\n\\subsection*{Strategy \\& Budget}\n\\begin{itemize}\n  \\item Strategy: \\texttt{"@ + s + "}\n  \\item Max experiments: "@ + x + "\n  \\item Max duration: \\texttt{"@ + d + "}\n\\end{itemize}\n\n"@, "\\item Goal: \\texttt{"@ + g + "}\n"@),
        shows("\\section{Method \\& Setup}\n\n\\subsection*{Source}\n\\begin{itemize}\n  \\item URL: \\texttt{"@ + u + "}\n  \\item Ref: \\texttt{"@ + r + "}\n"@ + c + "\\end{itemize}\n\n\\subsection*{Objective}\n\\begin{itemize}\n  \\item Metric: \\texttt{"@ + m + "}\n  \\item Goal: \\texttt{"@ + g + "}\n\\end{itemize}\n\n\\subsection*{Strategy \\& Budget}\n\\begin{itemize}\n  \\item Strategy: \\texttt{"@ + s + "}\n  \\item Max experiments: "@ + x + "\n  \\item Max duration: \\texttt{"@ + d + "}\n\\end{itemize}\n\n"@, "\\item Strategy: \\texttt{"@ + s + "}\n"@),
        shows("\\section{Method \\& Setup}\n\n\\subsection*{Source}\n\\begin{itemize}\n  \\item URL: \\texttt{"@ + u + "}\n  \\item Ref: \\texttt{"@ + r + "}\n"@ + c + "\\end{itemize}\n\n\\subsection*{Objective}\n\\begin{itemize}\n  \\item Metric: \\texttt{"@ + m + "}\n  \\item Goal: \\texttt{"@ + g + "}\n\\end{itemize}\n\n\\subsection*{Strategy \\& Budget}\n\\begin{itemize}\n  \\item Strategy: \\texttt{"@ + s + "}\n  \\item Max experiments: "@ + x + "\n  \\item Max duration: \\texttt{"@ + d + "}\n\\end{itemize}\n\n"@, "\\item Max experiments: "@ + x + "\n"@),
        shows("\\section{Method \\& Setup}\n\n\\subsection*{Source}\n\\begin{itemize}\n  \\item URL: \\texttt{"@ + u + "}\n  \\item Ref: \\texttt{"@ + r + "}\n"@ + c + "\\end{itemize}\n\n\\subsection*{Objective}\n\\begin{itemize}\n  \\item Metric: \\texttt{"@ + m + "}\n  \\item Goal: \\texttt{"@ + g + "}\n\\end{itemize}\n\n\\subsection*{Strategy \\& Budget}\n\\begin{itemize}\n  \\item Strategy: \\texttt{"@ + s + "}\n  \\item Max experiments: "@ + x + "\n  \\item Max duration: \\texttt{"@ + d + "}\n\\end{itemize}\n\n"@, "\\item Max duration: \\texttt{"@ + d + "}\n"@),
        shows("\\section{Method \\& Setup}\n\n\\subsection*{Source}\n\\begin{itemize}\n  \\item URL: \\texttt{"@ + u + "}\n  \\item Ref: \\texttt{"@ + r + "}\n"@ + c + "\\end{itemize}\n\n\\subsection*{Objective}\n\\begin{itemize}\n  \\item Metric: \\texttt{"@ + m + "}\n  \\item Goal: \\texttt{"@ + g + "}\n\\end{itemize}\n\n\\subsection*{Strategy \\& Budget}\n\\begin{itemize}\n  \\item Strategy: \\texttt{"@ + s + "}\n  \\item Max experiments: "@ + x + "\n  \\item Max duration: \\texttt{"@ + d + "}\n\\end{itemize}\n\n"@, c),
{
    lemma_setup_tex_labels(u, r, c, m, g, s, x, d);
    lemma_shows_itself(c);
    lemma_shows_back("\\section{Method \\& Setup}\n\n\\subsection*{Source}\n\\begin{itemize}\n  \\item URL: \\texttt{"@ + u + "}\n  \\item Ref: \\texttt{"@ + r + "}\n"@, c, c);
    lemma_shows_front("\\section{Method \\& Setup}\n\n\\subsection*{Source}\n\\begin{itemize}\n  \\item URL: \\texttt{"@ + u + "}\n  \\item Ref: \\texttt{"@ + r + "}\n"@ + c, "\\end{itemize}\n\n\\subsection*{Objective}\n\\begin{itemize}\n  \\item Metric: \\texttt{"@, c);
    lemma_shows_front("\\section{Method \\& Setup}\n\n\\subsection*{Source}\n\\begin{itemize}\n  \\item URL: \\texttt{"@ + u + "}\n  \\item Ref: \\texttt{"@ + r + "}\n"@ + c + "\\end{itemize}\n\n\\subsection*{Objective}\n\\begin{itemize}\n  \\item Metric: \\texttt{"@, m, c);
    lemma_shows_front("\\section{Method \\& Setup}\n\n\\subsection*{Source}\n\\begin{itemize}\n  \\item URL: \\texttt{"@ + u + "}\n  \\item Ref: \\texttt{"@ + r + "}\n"@ + c + "\\end{itemize}\n\n\\subsection*{Objective}\n\\begin{itemize}\n  \\item Metric: \\texttt{"@ + m, "}\n  \\item Goal: \\texttt{"@, c);
    lemma_shows_front("\\section{Method \\& Setup}\n\n\\subsection*{Source}\n\\begin{itemize}\n  \\item URL: \\texttt{"@ + u + "}\n  \\item Ref: \\texttt{"@ + r + "}\n"@ + c + "\\end{itemize}\n\n\\subsection*{Objective}\n\\begin{itemize}\n  \\item Metric: \\texttt{"@ + m + "}\n  \\item Goal: \\texttt{"@, g, c);
    lemma_shows_front("\\section{Method \\& Setup}\n\n\\subsection*{Source}\n\\begin{itemize}\n  \\item URL: \\texttt{"@ + u + "}\n  \\item Ref: \\texttt{"@ + r + "}\n"@ + c + "\\end{itemize}\n\n\\subsection*{Objective}\n\\begin{itemize}\n  \\item Metric: \\texttt{"@ + m + "}\n  \\item Goal: \\texttt{"@ + g, "}\n\\end{itemize}\n\n\\subsection*{Strategy \\& Budget}\n\\begin{itemize}\n  \\item Strategy: \\texttt{"@, c);
    lemma_shows_front("\\section{Method \\& Setup}\n\n\\subsection*{Source}\n\\begin{itemize}\n  \\item URL: \\texttt{"@ + u + "}\n  \\item Ref: \\texttt{"@ + r + "}\n"@ + c + "\\end{itemize}\n\n\\subsection*{Objective}\n\\begin{itemize}\n  \\item Metric: \\texttt{"@ + m + "}\n  \\item Goal: \\texttt{"@ + g + "}\n\\end{itemize}\n\n\\subsection*{Strategy \\& Budget}\n\\begin{itemize}\n  \\item Strategy: \\texttt{"@, s, c);
    lemma_shows_front("\\section{Method \\& Setup}\n\n\\subsection*{Source}\n\\begin{itemize}\n  \\item URL: \\texttt{"@ + u + "}\n  \\item Ref: \\texttt{"@ + r + "}\n"@ + c + "\\end{itemize}\n\n\\subsection*{Objective}\n\\begin{itemize}\n  \\item Metric: \\texttt{"@ + m + "}\n  \\item Goal: \\texttt{"@ + g + "}\n\\end{itemize}\n\n\\subsection*{Strategy \\& Budget}\n\\begin{itemize}\n  \\item Strategy: \\texttt{"@ + s, "}\n  \\item Max experiments: "@, c);
    lemma_shows_front("\\section{Method \\& Setup}\n\n\\subsection*{Source}\n\\begin{itemize}\n  \\item URL: \\texttt{"@ + u + "}\n  \\item Ref: \\texttt{"@ + r + "}\n"@ + c + "\\end{itemize}\n\n\\subsection*{Objective}\n\\begin{itemize}\n  \\item Metric: \\texttt{"@ + m + "}\n  \\item Goal: \\texttt{"@ + g + "}\n\\end{itemize}\n\n\\subsection*{Strategy \\& Budget}\n\\begin{itemize}\n  \\item Strategy: \\texttt{"@ + s + "}\n  \\item Max experiments: "@, x, c);
    lemma_shows_front("\\section{Method \\& Setup}\n\n\\subsection*{Source}\n\\begin{itemize}\n  \\item URL: \\texttt{"@ + u + "}\n  \\item Ref: \\texttt{"@ + r + "}\n"@ + c + "\\end{itemize}\n\n\\subsection*{Objective}\n\\begin{itemize}\n  \\item Metric: \\texttt{"@ + m + "}\n  \\item Goal: \\texttt{"@ + g + "}\n\\end{itemize}\n\n\\subsection*{Strategy \\& Budget}\n\\begin{itemize}\n  \\item Strategy: \\texttt{"@ + s + "}\n  \\item Max experiments: "@ + x, "\n  \\item Max duration: \\texttt{"@, c);
    lemma_shows_front("\\section{Method \\& Setup}\n\n\\subsection*{Source}\n\\begin{itemize}\n  \\item URL: \\texttt{"@ + u + "}\n  \\item Ref: \\texttt{"@ + r + "}\n"@ + c + "\\end{itemize}\n\n\\subsection*{Objective}\n\\begin{itemize}\n  \\item Metric: \\texttt{"@ + m + "}\n  \\item Goal: \\texttt{"@ + g + "}\n\\end{itemize}\n\n\\subsection*{Strategy \\& Budget}\n\\begin{itemize}\n  \\item Strategy: \\texttt{"@ + s + "}\n  \\item Max experiments: "@ + x + "\n  \\item Max duration: \\texttt{"@, d, c);
    lemma_shows_front("\\section{Method \\& Setup}\n\n\\subsection*{Source}\n\\begin{itemize}\n  \\item URL: \\texttt{"@ + u + "}\n  \\item Ref: \\texttt{"@ + r + "}\n"@ + c + "\\end{itemize}\n\n\\subsection*{Objective}\n\\begin{itemize}\n  \\item Metric: \\texttt{"@ + m + "}\n  \\item Goal: \\texttt{"@ + g + "}\n\\end{itemize}\n\n\\subsection*{Strategy \\& Budget}\n\\begin{itemize}\n  \\item Strategy: \\texttt{"@ + s + "}\n  \\item Max experiments: "@ + x + "\n  \\item Max duration: \\texttt{"@ + d, "}\n\\end{itemize}\n\n"@, c);
}

/// Every hypothesis that a report seeds is listed, and a report that seeds none has no such list.
pub proof fn every_seed_is_listed(c: &Curation, k: int)
    ensures
        0 <= k < c.seeded_hypotheses@.len() ==> shows(
            seeds_section(Some(c)),
            "- "@ + c.seeded_hypotheses@[k]@ + "\n"@,
        ) && shows(
            seeds_tex(Some(c)),
            "  \\item "@ + tex_escaped(c.seeded_hypotheses@[k]@) + "\n"@,
        ),
        c.seeded_hypotheses@.len() == 0 ==> seeds_section(Some(c)).len() == 0 && seeds_tex(
            Some(c),
        ).len() == 0,
        seeds_section(None).len() == 0,
        seeds_tex(None).len() == 0,
{
    let all = c.seeded_hypotheses@;
    if 0 <= k < all.len() {
        let f = |h: String| "- "@ + h@ + "\n"@;
        let g = |h: String| "  \\item "@ + tex_escaped(h@) + "\n"@;
        lemma_rows_split(all, f, k);
        lemma_rows_split(all, g, k);
        lemma_shows_between(rows(all.take(k), f), f(all[k]), rows_from(all, f, k + 1));
        lemma_shows_between(rows(all.take(k), g), g(all[k]), rows_from(all, g, k + 1));
        lemma_shows_part("## Seeded Hypotheses / Future Work\n\n"@, rows(all, f), "\n"@, f(all[k]));
        lemma_shows_part(
            "\\section{Seeded Hypotheses / Future Work}\n\n\\begin{itemize}\n"@,
            rows(all, g),
            "\\end{itemize}\n\n"@,
            g(all[k]),
        );
    }
}

/// Every reference is listed under its key with its title, its address, its DOI and what it
/// supports, as far as it has them.
pub proof fn every_reference_is_listed(c: &Curation, k: int)
    requires
        0 <= k < c.references@.len(),
    ensures
        ({
            let r = c.references@[k];
            let s = references_section(Some(c));
            &&& shows(s, "[^"@ + r.key@ + "]: "@ + r.title@)
            &&& r.url matches Some(u) ==> shows(s, " — <"@ + u@ + ">"@)
            &&& r.doi matches Some(d) ==> shows(s, " (doi:"@ + d@ + ")"@)
            &&& r.supports matches Some(t) ==> shows(s, " — supports: \""@ + t@ + "\""@)
        }),
        ({
            let r = c.references@[k];
            let s = bibliography_tex(Some(c));
            &&& shows(s, "\\bibitem{"@ + bib_key(r.key@) + "} "@ + tex_escaped(r.title@))
            &&& r.url matches Some(u) ==> shows(s, ". \\url{"@ + tex_escaped(u@) + "}"@)
            &&& r.doi matches Some(d) ==> shows(s, " doi:"@ + tex_escaped(d@))
            &&& r.supports matches Some(t) ==> shows(s, " Supports: "@ + tex_escaped(t@))
        }),
{
    let all = c.references@;
    let r = all[k];
    let f = |r: Reference| reference_line(r);
    let g = |r: Reference| bib_item(r);
    lemma_rows_split(all, f, k);
    lemma_rows_split(all, g, k);
    lemma_shows_between(rows(all.take(k), f), f(r), rows_from(all, f, k + 1));
    lemma_shows_between(rows(all.take(k), g), g(r), rows_from(all, g, k + 1));
    let undefined = crate::dossier::markdown::undefined_keys(c.sections.entries(), all);
    let unused = uncited(c.sections.entries(), all);
    let rest = reconciliation_text(undefined, unused);
    lemma_shows_part("## References\n\n"@, rows(all, f), "\n"@, f(r));
    lemma_shows_front("## References\n\n"@ + rows(all, f) + "\n"@, rest, f(r));
    let before = reconciliation_tex(undefined, unused);
    lemma_shows_part(
        before + "\\begin{thebibliography}{99}\n"@,
        rows(all, g),
        "\\end{thebibliography}\n\n"@,
        g(r),
    );
    let url = crate::dossier::markdown::wrapped(r.url, " — <"@, ">"@);
    let doi = crate::dossier::markdown::wrapped(r.doi, " (doi:"@, ")"@);
    let sup = crate::dossier::markdown::wrapped(r.supports, " — supports: \""@, "\""@);
    lemma_five("[^"@ + r.key@ + "]: "@ + r.title@, url, doi, sup, "\n"@);
    let u = match r.url {
        Some(u) => ". \\url{"@ + tex_escaped(u@) + "}"@,
        None => Seq::empty(),
    };
    let d = crate::dossier::latex::labelled_tex(r.doi, " doi:"@);
    let s = crate::dossier::latex::labelled_tex(r.supports, " Supports: "@);
    lemma_five("\\bibitem{"@ + bib_key(r.key@) + "} "@ + tex_escaped(r.title@), u, d, s, ".\n"@);
    let md = references_section(Some(c));
    let tex = bibliography_tex(Some(c));
    lemma_shows_through(md, f(r), "[^"@ + r.key@ + "]: "@ + r.title@);
    lemma_shows_through(md, f(r), url);
    lemma_shows_through(md, f(r), doi);
    lemma_shows_through(md, f(r), sup);
    lemma_shows_through(
        tex,
        g(r),
        "\\bibitem{"@ + bib_key(r.key@) + "} "@ + tex_escaped(r.title@),
    );
    lemma_shows_through(tex, g(r), u);
    lemma_shows_through(tex, g(r), d);
    lemma_shows_through(tex, g(r), s);
}

proof fn lemma_five(a: Seq<char>, b: Seq<char>, c: Seq<char>, d: Seq<char>, e: Seq<char>)
    ensures
        shows(a + b + c + d + e, a),
        shows(a + b + c + d + e, b),
        shows(a + b + c + d + e, c),
        shows(a + b + c + d + e, d),
{
    lemma_shows_itself(a);
    lemma_shows_itself(b);
    lemma_shows_itself(c);
    lemma_shows_itself(d);
    lemma_shows_front(a, b, a);
    lemma_shows_front(a + b, c, a);
    lemma_shows_front(a + b + c, d, a);
    lemma_shows_front(a + b + c + d, e, a);
    lemma_shows_back(a, b, b);
    lemma_shows_front(a + b, c, b);
    lemma_shows_front(a + b + c, d, b);
    lemma_shows_front(a + b + c + d, e, b);
    lemma_shows_back(a + b, c, c);
    lemma_shows_front(a + b + c, d, c);
    lemma_shows_front(a + b + c + d, e, c);
    lemma_shows_back(a + b + c, d, d);
    lemma_shows_front(a + b + c + d, e, d);
}

/// What is cited but not defined and what is defined but not cited stand apart, each behind its own
/// label, and where both are empty nothing is said.
pub proof fn citations_are_reconciled(undefined: Seq<Seq<char>>, unused: Seq<Seq<char>>)
    ensures
        ({
            let s = reconciliation_text(undefined, unused);
            let t = reconciliation_tex(undefined, unused);
            &&& undefined.len() > 0 ==> shows(
                s,
                "cited but undefined: "@ + joined(undefined, ", "@) + "\n"@,
            ) && shows(
                t,
                "Cited but undefined: "@ + joined(
                    undefined.map_values(|k: Seq<char>| tex_escaped(k)),
                    ", "@,
                ) + ".\n"@,
            )
            &&& unused.len() > 0 ==> shows(
                s,
                "defined but never cited: "@ + joined(unused, ", "@) + "\n"@,
            ) && shows(
                t,
                "Defined but never cited: "@ + joined(
                    unused.map_values(|k: Seq<char>| tex_escaped(k)),
                    ", "@,
                ) + ".\n"@,
            )
            &&& undefined.len() == 0 && unused.len() == 0 ==> s.len() == 0 && t.len() == 0
        }),
{
    let a = keys_line("cited but undefined: "@, undefined, "\n"@);
    let b = keys_line("defined but never cited: "@, unused, "\n"@);
    lemma_five("## Citation Reconciliation\n\n"@, a, b, "\n"@, Seq::empty());
    let s = "## Citation Reconciliation\n\n"@ + a + b + "\n"@;
    assert(s + Seq::<char>::empty() =~= s);
    let c = keys_line("Cited but undefined: "@, all_escaped(undefined), ".\n"@);
    let d = keys_line("Defined but never cited: "@, all_escaped(unused), ".\n"@);
    lemma_five("\\section{Citation Reconciliation}\n\n"@, c, d, "\n"@, Seq::empty());
    let t = "\\section{Citation Reconciliation}\n\n"@ + c + d + "\n"@;
    assert(t + Seq::<char>::empty() =~= t);
    assert(all_escaped(undefined) =~= undefined.map_values(|k: Seq<char>| tex_escaped(k)));
    assert(all_escaped(unused) =~= unused.map_values(|k: Seq<char>| tex_escaped(k)));
}

// ---------------------------------------------------------------------------
// The search tree
// ---------------------------------------------------------------------------

/// A role is counted once for every experiment whose lineage has it, and for no other one.
pub proof fn roles_are_counted(exps: Seq<Experiment>, e: Experiment, role: DerivationRelation)
    ensures
        role_count(exps.push(e), role) == role_count(exps, role) + (if e.spec.lineage is Some
            && e.spec.lineage->0.relation == role {
            1nat
        } else {
            0nat
        }),
        role_count(Seq::empty(), role) == 0,
{
    assert(exps.push(e).drop_last() =~= exps);
}

/// Every role that occurs is shown with its name and how often it occurs.
pub proof fn every_role_is_shown(exps: Seq<Experiment>, role: DerivationRelation)
    requires
        role_count(exps, role) > 0,
        forest(exps).len() > 0,
    ensures
        shows(tree_section(exps), role.named() + ": "@ + decimal(role_count(exps, role))),
        shows(tree_section(exps), "```\n"@ + drawn_all(forest(exps), Seq::empty()) + "```"@),
{
    let parts = role_parts(exps);
    let piece = role.named() + ": "@ + decimal(role_count(exps, role));
    let one = role_part(exps, role);
    assert(one.len() == 1 && one[0] == piece);
    lemma_role_part(exps, role);
    let k = choose|k: int| 0 <= k < parts.len() && parts[k] == piece;
    lemma_shows_itself(piece);
    lemma_shows_joined(parts, " · "@, k, piece);
    let drawn = drawn_all(forest(exps), Seq::empty());
    let roles = "**Node roles:** "@ + joined(parts, " · "@) + "\n\n"@;
    lemma_shows_part("**Node roles:** "@, joined(parts, " · "@), "\n\n"@, piece);
    lemma_tree("## Search Tree\n\n"@, drawn, roles, piece);
}

proof fn lemma_role_part(exps: Seq<Experiment>, role: DerivationRelation)
    requires
        role_part(exps, role).len() == 1,
    ensures
        exists|k: int|
            0 <= k < role_parts(exps).len() && #[trigger] role_parts(exps)[k] == role_part(
                exps,
                role,
            )[0],
{
    let a = role_part(exps, DerivationRelation::Baseline);
    let b = role_part(exps, DerivationRelation::Canary);
    let c = role_part(exps, DerivationRelation::Perturb);
    let d = role_part(exps, DerivationRelation::Remeasure);
    let e = role_part(exps, DerivationRelation::Replicate);
    let f = role_part(exps, DerivationRelation::Seed);
    let all = a + b + c + d + e + f;
    assert(role_parts(exps) == all);
    let n: int = match role {
        DerivationRelation::Baseline => 0,
        DerivationRelation::Canary => a.len() as int,
        DerivationRelation::Perturb => (a.len() + b.len()) as int,
        DerivationRelation::Remeasure => (a.len() + b.len() + c.len()) as int,
        DerivationRelation::Replicate => (a.len() + b.len() + c.len() + d.len()) as int,
        DerivationRelation::Seed => (a.len() + b.len() + c.len() + d.len() + e.len()) as int,
    };
    assert(all[n] == role_part(exps, role)[0]);
    assert(role_parts(exps)[n] == role_part(exps, role)[0]);
}

proof fn lemma_tree(title: Seq<char>, drawn: Seq<char>, roles: Seq<char>, piece: Seq<char>)
    requires
        shows(roles, piece),
    ensures
        shows(title + ("```\n"@ + drawn + "```\n\n"@ + roles), piece),
        shows(title + ("```\n"@ + drawn + "```\n\n"@ + roles), "```\n"@ + drawn + "```"@),
{
    let inner = "```\n"@ + drawn + "```\n\n"@ + roles;
    lemma_shows_back("```\n"@ + drawn + "```\n\n"@, roles, piece);
    lemma_shows_back(title, inner, piece);
    lemma_fenced(drawn, roles);
    lemma_shows_back(title, inner, "```\n"@ + drawn + "```"@);
}

/// Without a lineage the tree says so.
pub proof fn without_lineage_no_tree(exps: Seq<Experiment>)
    requires
        forest(exps).len() == 0,
    ensures
        shows(
            tree_section(exps),
            "_No lineage recorded — these experiments predate `spec.lineage`._"@,
        ),
{
    let s = "_No lineage recorded — these experiments predate `spec.lineage`._"@;
    let t = "_No lineage recorded — these experiments predate `spec.lineage`._\n\n"@;
    assert(t =~= s + "\n\n"@) by {
        reveal_strlit("_No lineage recorded — these experiments predate `spec.lineage`._\n\n");
        reveal_strlit("_No lineage recorded — these experiments predate `spec.lineage`._");
        reveal_strlit("\n\n");
    }
    lemma_shows_itself(s);
    lemma_shows_front(s, "\n\n"@, s);
    lemma_shows_back("## Search Tree\n\n"@, t, s);
}

/// The LaTeX drawing has a line for every experiment of a tree, the root first and every child with
/// what derives from it one step further in.
pub proof fn latex_children_are_drawn_one_step_in(t: Tree, pad: Seq<char>, i: int)
    ensures
        (pad + "\\texttt{"@ + tex_escaped(crate::dossier::forest::node_text(t.exp))
            + "} \\\\\n"@).is_prefix_of(drawn_tex(t, pad)),
        0 <= i < t.children.len() ==> shows(
            drawn_tex(t, pad),
            drawn_tex(t.children[i], pad + "\\hspace*{1em}"@),
        ),
{
    let line = node_tex(t.exp, pad);
    let below = all_drawn_tex(t.children, pad + "\\hspace*{1em}"@);
    assert((line + below).subrange(0, line.len() as int) =~= line);
    if 0 <= i < t.children.len() {
        lemma_drawn_tex_shows(t.children, pad + "\\hspace*{1em}"@, i);
        lemma_shows_back(line, below, drawn_tex(t.children[i], pad + "\\hspace*{1em}"@));
    }
}

proof fn lemma_drawn_tex_shows(ts: Seq<Tree>, pad: Seq<char>, i: int)
    requires
        0 <= i < ts.len(),
    ensures
        shows(all_drawn_tex(ts, pad), drawn_tex(ts[i], pad)),
    decreases ts.len(),
{
    let t = ts.drop_last();
    if i < t.len() {
        lemma_drawn_tex_shows(t, pad, i);
        lemma_shows_front(
            all_drawn_tex(t, pad),
            drawn_tex(ts[ts.len() - 1], pad),
            drawn_tex(ts[i], pad),
        );
    } else {
        lemma_shows_itself(drawn_tex(ts[i], pad));
        lemma_shows_back(all_drawn_tex(t, pad), drawn_tex(ts[i], pad), drawn_tex(ts[i], pad));
    }
}

proof fn lemma_fenced(d: Seq<char>, r: Seq<char>)
    ensures
        shows("```\n"@ + d + "```\n\n"@ + r, "```\n"@ + d + "```"@),
{
    assert("```\n"@ =~= Seq::<char>::empty() + "```\n"@);
    assert("```\n\n"@ =~= "```"@ + "\n\n"@) by {
        reveal_strlit("```\n\n");
        reveal_strlit("```");
        reveal_strlit("\n\n");
    }
    lemma_shows_enclosed(Seq::<char>::empty(), Seq::<char>::empty(), "```\n"@, d, "```"@, "\n\n"@);
    assert(Seq::<char>::empty() + "```\n"@ =~= "```\n"@);
    lemma_shows_front("```\n"@ + d + "```\n\n"@, r, "```\n"@ + d + "```"@);
}

// ---------------------------------------------------------------------------
// Whole documents
// ---------------------------------------------------------------------------

/// The Markdown dossier leaves nothing out: it begins with the metadata between two fences, and has
/// every section, over the experiments that the curation keeps.
pub proof fn the_markdown_dossier_is_whole(
    name: Seq<char>,
    namespace: Seq<char>,
    campaign: ResearchCampaign,
    template: ExperimentTemplate,
    all: Seq<Experiment>,
    runs: Map<Seq<char>, Seq<BenchmarkRun>>,
    curation: Option<&Curation>,
)
    ensures
        ({
            let exps = kept(all, curation);
            let metric = template.spec.objective.metric@;
            let doc = markdown(name, namespace, campaign, template, all, runs, curation);
            &&& ("---\n"@ + frontmatter_body(
                title_of(curation, name),
                status_text(campaign),
                crate::dossier::parts::cutoff_of(exps),
                name,
                namespace,
                crate::dossier::markdown::subject_of(curation),
                crate::dossier::markdown::references_of(curation),
            ) + "---\n\n"@).is_prefix_of(doc)
            &&& shows(doc, heading_text(name, namespace, exps.len(), all.len(), curation))
            &&& shows(doc, objective_section(template))
            &&& shows(doc, authored_sections(curation))
            &&& shows(doc, setup_text(campaign, template))
            &&& shows(doc, parameter_glossary(template))
            &&& shows(doc, metric_glossary(template))
            &&& shows(doc, experiments_section(exps, metric))
            &&& shows(doc, tree_section(exps))
            &&& shows(doc, campaign_results(campaign))
            &&& shows(doc, benchmarks_text(exps, runs))
            &&& shows(doc, repro_section(template, exps))
            &&& shows(doc, journal_section(exps, metric))
            &&& shows(doc, seeds_section(curation))
            &&& shows(doc, references_section(curation))
            &&& shows(doc, artifact_section(exps, runs))
        }),
{
    let exps = kept(all, curation);
    let metric = template.spec.objective.metric@;
    let front = frontmatter_text(name, namespace, campaign, exps, curation);
    let body = markdown_body(name, namespace, campaign, template, all, runs, curation);
    assert((front + body).subrange(0, front.len() as int) =~= front);
    lemma_whole_markdown(
        heading_text(name, namespace, exps.len(), all.len(), curation),
        objective_section(template),
        authored_sections(curation),
        setup_text(campaign, template),
        parameter_glossary(template),
        metric_glossary(template),
        experiments_section(exps, metric),
        tree_section(exps),
        campaign_results(campaign),
        benchmarks_text(exps, runs),
        repro_section(template, exps),
        journal_section(exps, metric),
        seeds_section(curation),
        references_section(curation),
        artifact_section(exps, runs),
    );
    lemma_shows_back(front, body, heading_text(name, namespace, exps.len(), all.len(), curation));
    lemma_shows_back(front, body, objective_section(template));
    lemma_shows_back(front, body, authored_sections(curation));
    lemma_shows_back(front, body, setup_text(campaign, template));
    lemma_shows_back(front, body, parameter_glossary(template));
    lemma_shows_back(front, body, metric_glossary(template));
    lemma_shows_back(front, body, experiments_section(exps, metric));
    lemma_shows_back(front, body, tree_section(exps));
    lemma_shows_back(front, body, campaign_results(campaign));
    lemma_shows_back(front, body, benchmarks_text(exps, runs));
    lemma_shows_back(front, body, repro_section(template, exps));
    lemma_shows_back(front, body, journal_section(exps, metric));
    lemma_shows_back(front, body, seeds_section(curation));
    lemma_shows_back(front, body, references_section(curation));
    lemma_shows_back(front, body, artifact_section(exps, runs));
}

/// The LaTeX dossier leaves nothing out either.
pub proof fn the_latex_dossier_is_whole(
    name: Seq<char>,
    namespace: Seq<char>,
    campaign: ResearchCampaign,
    template: ExperimentTemplate,
    all: Seq<Experiment>,
    runs: Map<Seq<char>, Seq<BenchmarkRun>>,
    curation: Option<&Curation>,
)
    ensures
        ({
            let exps = kept(all, curation);
            let metric = template.spec.objective.metric@;
            let doc = latex(name, namespace, campaign, template, all, runs, curation);
            &&& "\\end{document}\n"@.is_suffix_of(doc)
            &&& shows(doc, preamble_text(name, namespace, exps.len(), all.len(), curation))
            &&& shows(doc, objective_tex(template))
            &&& shows(doc, authored_sections_tex(curation))
            &&& shows(doc, setup_tex(campaign, template))
            &&& shows(doc, parameter_glossary_tex(template))
            &&& shows(doc, metric_glossary_tex(template))
            &&& shows(doc, experiment_table_tex(exps, metric))
            &&& shows(doc, tree_tex(exps))
            &&& shows(doc, campaign_results_tex(campaign))
            &&& shows(doc, benchmarks_tex(exps, runs))
            &&& shows(doc, figure_text(exps, metric))
            &&& shows(doc, repro_tex(template, exps))
            &&& shows(doc, journal_tex(exps, metric))
            &&& shows(doc, seeds_tex(curation))
            &&& shows(doc, artifact_index_tex(exps, runs))
            &&& shows(doc, bibliography_tex(curation))
        }),
{
    let exps = kept(all, curation);
    let metric = template.spec.objective.metric@;
    lemma_whole_latex(
        preamble_text(name, namespace, exps.len(), all.len(), curation),
        objective_tex(template),
        authored_sections_tex(curation),
        setup_tex(campaign, template),
        parameter_glossary_tex(template),
        metric_glossary_tex(template),
        experiment_table_tex(exps, metric),
        tree_tex(exps),
        campaign_results_tex(campaign),
        benchmarks_tex(exps, runs),
        figure_text(exps, metric),
        repro_tex(template, exps),
        journal_tex(exps, metric),
        seeds_tex(curation),
        artifact_index_tex(exps, runs),
        bibliography_tex(curation),
        "\\end{document}\n"@,
    );
}

proof fn lemma_whole_markdown(
    p0: Seq<char>,
    p1: Seq<char>,
    p2: Seq<char>,
    p3: Seq<char>,
    p4: Seq<char>,
    p5: Seq<char>,
    p6: Seq<char>,
    p7: Seq<char>,
    p8: Seq<char>,
    p9: Seq<char>,
    p10: Seq<char>,
    p11: Seq<char>,
    p12: Seq<char>,
    p13: Seq<char>,
    p14: Seq<char>,
)
    ensures
        shows(p0 + p1 + p2 + p3 + p4 + p5 + p6 + p7 + p8 + p9 + p10 + p11 + p12 + p13 + p14, p0),
        shows(p0 + p1 + p2 + p3 + p4 + p5 + p6 + p7 + p8 + p9 + p10 + p11 + p12 + p13 + p14, p1),
        shows(p0 + p1 + p2 + p3 + p4 + p5 + p6 + p7 + p8 + p9 + p10 + p11 + p12 + p13 + p14, p2),
        shows(p0 + p1 + p2 + p3 + p4 + p5 + p6 + p7 + p8 + p9 + p10 + p11 + p12 + p13 + p14, p3),
        shows(p0 + p1 + p2 + p3 + p4 + p5 + p6 + p7 + p8 + p9 + p10 + p11 + p12 + p13 + p14, p4),
        shows(p0 + p1 + p2 + p3 + p4 + p5 + p6 + p7 + p8 + p9 + p10 + p11 + p12 + p13 + p14, p5),
        shows(p0 + p1 + p2 + p3 + p4 + p5 + p6 + p7 + p8 + p9 + p10 + p11 + p12 + p13 + p14, p6),
        shows(p0 + p1 + p2 + p3 + p4 + p5 + p6 + p7 + p8 + p9 + p10 + p11 + p12 + p13 + p14, p7),
        shows(p0 + p1 + p2 + p3 + p4 + p5 + p6 + p7 + p8 + p9 + p10 + p11 + p12 + p13 + p14, p8),
        shows(p0 + p1 + p2 + p3 + p4 + p5 + p6 + p7 + p8 + p9 + p10 + p11 + p12 + p13 + p14, p9),
        shows(p0 + p1 + p2 + p3 + p4 + p5 + p6 + p7 + p8 + p9 + p10 + p11 + p12 + p13 + p14, p10),
        shows(p0 + p1 + p2 + p3 + p4 + p5 + p6 + p7 + p8 + p9 + p10 + p11 + p12 + p13 + p14, p11),
        shows(p0 + p1 + p2 + p3 + p4 + p5 + p6 + p7 + p8 + p9 + p10 + p11 + p12 + p13 + p14, p12),
        shows(p0 + p1 + p2 + p3 + p4 + p5 + p6 + p7 + p8 + p9 + p10 + p11 + p12 + p13 + p14, p13),
        shows(p0 + p1 + p2 + p3 + p4 + p5 + p6 + p7 + p8 + p9 + p10 + p11 + p12 + p13 + p14, p14),
{
    lemma_shows_itself(p0);
    lemma_shows_front(p0, p1, p0);
    lemma_shows_front(p0 + p1, p2, p0);
    lemma_shows_front(p0 + p1 + p2, p3, p0);
    lemma_shows_front(p0 + p1 + p2 + p3, p4, p0);
    lemma_shows_front(p0 + p1 + p2 + p3 + p4, p5, p0);
    lemma_shows_front(p0 + p1 + p2 + p3 + p4 + p5, p6, p0);
    lemma_shows_front(p0 + p1 + p2 + p3 + p4 + p5 + p6, p7, p0);
    lemma_shows_front(p0 + p1 + p2 + p3 + p4 + p5 + p6 + p7, p8, p0);
    lemma_shows_front(p0 + p1 + p2 + p3 + p4 + p5 + p6 + p7 + p8, p9, p0);
    lemma_shows_front(p0 + p1 + p2 + p3 + p4 + p5 + p6 + p7 + p8 + p9, p10, p0);
    lemma_shows_front(p0 + p1 + p2 + p3 + p4 + p5 + p6 + p7 + p8 + p9 + p10, p11, p0);
    lemma_shows_front(p0 + p1 + p2 + p3 + p4 + p5 + p6 + p7 + p8 + p9 + p10 + p11, p12, p0);
    lemma_shows_front(p0 + p1 + p2 + p3 + p4 + p5 + p6 + p7 + p8 + p9 + p10 + p11 + p12, p13, p0);
    lemma_shows_front(p0 + p1 + p2 + p3 + p4 + p5 + p6 + p7 + p8 + p9 + p10 + p11 + p12 + p13, p14, p0);
    lemma_shows_itself(p1);
    lemma_shows_back(p0, p1, p1);
    lemma_shows_front(p0 + p1, p2, p1);
    lemma_shows_front(p0 + p1 + p2, p3, p1);
    lemma_shows_front(p0 + p1 + p2 + p3, p4, p1);
    lemma_shows_front(p0 + p1 + p2 + p3 + p4, p5, p1);
    lemma_shows_front(p0 + p1 + p2 + p3 + p4 + p5, p6, p1);
    lemma_shows_front(p0 + p1 + p2 + p3 + p4 + p5 + p6, p7, p1);
    lemma_shows_front(p0 + p1 + p2 + p3 + p4 + p5 + p6 + p7, p8, p1);
    lemma_shows_front(p0 + p1 + p2 + p3 + p4 + p5 + p6 + p7 + p8, p9, p1);
    lemma_shows_front(p0 + p1 + p2 + p3 + p4 + p5 + p6 + p7 + p8 + p9, p10, p1);
    lemma_shows_front(p0 + p1 + p2 + p3 + p4 + p5 + p6 + p7 + p8 + p9 + p10, p11, p1);
    lemma_shows_front(p0 + p1 + p2 + p3 + p4 + p5 + p6 + p7 + p8 + p9 + p10 + p11, p12, p1);
    lemma_shows_front(p0 + p1 + p2 + p3 + p4 + p5 + p6 + p7 + p8 + p9 + p10 + p11 + p12, p13, p1);
    lemma_shows_front(p0 + p1 + p2 + p3 + p4 + p5 + p6 + p7 + p8 + p9 + p10 + p11 + p12 + p13, p14, p1);
    lemma_shows_itself(p2);
    lemma_shows_back(p0 + p1, p2, p2);
    lemma_shows_front(p0 + p1 + p2, p3, p2);
    lemma_shows_front(p0 + p1 + p2 + p3, p4, p2);
    lemma_shows_front(p0 + p1 + p2 + p3 + p4, p5, p2);
    lemma_shows_front(p0 + p1 + p2 + p3 + p4 + p5, p6, p2);
    lemma_shows_front(p0 + p1 + p2 + p3 + p4 + p5 + p6, p7, p2);
    lemma_shows_front(p0 + p1 + p2 + p3 + p4 + p5 + p6 + p7, p8, p2);
    lemma_shows_front(p0 + p1 + p2 + p3 + p4 + p5 + p6 + p7 + p8, p9, p2);
    lemma_shows_front(p0 + p1 + p2 + p3 + p4 + p5 + p6 + p7 + p8 + p9, p10, p2);
    lemma_shows_front(p0 + p1 + p2 + p3 + p4 + p5 + p6 + p7 + p8 + p9 + p10, p11, p2);
    lemma_shows_front(p0 + p1 + p2 + p3 + p4 + p5 + p6 + p7 + p8 + p9 + p10 + p11, p12, p2);
    lemma_shows_front(p0 + p1 + p2 + p3 + p4 + p5 + p6 + p7 + p8 + p9 + p10 + p11 + p12, p13, p2);
    lemma_shows_front(p0 + p1 + p2 + p3 + p4 + p5 + p6 + p7 + p8 + p9 + p10 + p11 + p12 + p13, p14, p2);
    lemma_shows_itself(p3);
    lemma_shows_back(p0 + p1 + p2, p3, p3);
    lemma_shows_front(p0 + p1 + p2 + p3, p4, p3);
    lemma_shows_front(p0 + p1 + p2 + p3 + p4, p5, p3);
    lemma_shows_front(p0 + p1 + p2 + p3 + p4 + p5, p6, p3);
    lemma_shows_front(p0 + p1 + p2 + p3 + p4 + p5 + p6, p7, p3);
    lemma_shows_front(p0 + p1 + p2 + p3 + p4 + p5 + p6 + p7, p8, p3);
    lemma_shows_front(p0 + p1 + p2 + p3 + p4 + p5 + p6 + p7 + p8, p9, p3);
    lemma_shows_front(p0 + p1 + p2 + p3 + p4 + p5 + p6 + p7 + p8 + p9, p10, p3);
    lemma_shows_front(p0 + p1 + p2 + p3 + p4 + p5 + p6 + p7 + p8 + p9 + p10, p11, p3);
    lemma_shows_front(p0 + p1 + p2 + p3 + p4 + p5 + p6 + p7 + p8 + p9 + p10 + p11, p12, p3);
    lemma_shows_front(p0 + p1 + p2 + p3 + p4 + p5 + p6 + p7 + p8 + p9 + p10 + p11 + p12, p13, p3);
    lemma_shows_front(p0 + p1 + p2 + p3 + p4 + p5 + p6 + p7 + p8 + p9 + p10 + p11 + p12 + p13, p14, p3);
    lemma_shows_itself(p4);
    lemma_shows_back(p0 + p1 + p2 + p3, p4, p4);
    lemma_shows_front(p0 + p1 + p2 + p3 + p4, p5, p4);
    lemma_shows_front(p0 + p1 + p2 + p3 + p4 + p5, p6, p4);
    lemma_shows_front(p0 + p1 + p2 + p3 + p4 + p5 + p6, p7, p4);
    lemma_shows_front(p0 + p1 + p2 + p3 + p4 + p5 + p6 + p7, p8, p4);
    lemma_shows_front(p0 + p1 + p2 + p3 + p4 + p5 + p6 + p7 + p8, p9, p4);
    lemma_shows_front(p0 + p1 + p2 + p3 + p4 + p5 + p6 + p7 + p8 + p9, p10, p4);
    lemma_shows_front(p0 + p1 + p2 + p3 + p4 + p5 + p6 + p7 + p8 + p9 + p10, p11, p4);
    lemma_shows_front(p0 + p1 + p2 + p3 + p4 + p5 + p6 + p7 + p8 + p9 + p10 + p11, p12, p4);
    lemma_shows_front(p0 + p1 + p2 + p3 + p4 + p5 + p6 + p7 + p8 + p9 + p10 + p11 + p12, p13, p4);
    lemma_shows_front(p0 + p1 + p2 + p3 + p4 + p5 + p6 + p7 + p8 + p9 + p10 + p11 + p12 + p13, p14, p4);
    lemma_shows_itself(p5);
    lemma_shows_back(p0 + p1 + p2 + p3 + p4, p5, p5);
    lemma_shows_front(p0 + p1 + p2 + p3 + p4 + p5, p6, p5);
    lemma_shows_front(p0 + p1 + p2 + p3 + p4 + p5 + p6, p7, p5);
    lemma_shows_front(p0 + p1 + p2 + p3 + p4 + p5 + p6 + p7, p8, p5);
    lemma_shows_front(p0 + p1 + p2 + p3 + p4 + p5 + p6 + p7 + p8, p9, p5);
    lemma_shows_front(p0 + p1 + p2 + p3 + p4 + p5 + p6 + p7 + p8 + p9, p10, p5);
    lemma_shows_front(p0 + p1 + p2 + p3 + p4 + p5 + p6 + p7 + p8 + p9 + p10, p11, p5);
    lemma_shows_front(p0 + p1 + p2 + p3 + p4 + p5 + p6 + p7 + p8 + p9 + p10 + p11, p12, p5);
    lemma_shows_front(p0 + p1 + p2 + p3 + p4 + p5 + p6 + p7 + p8 + p9 + p10 + p11 + p12, p13, p5);
    lemma_shows_front(p0 + p1 + p2 + p3 + p4 + p5 + p6 + p7 + p8 + p9 + p10 + p11 + p12 + p13, p14, p5);
    lemma_shows_itself(p6);
    lemma_shows_back(p0 + p1 + p2 + p3 + p4 + p5, p6, p6);
    lemma_shows_front(p0 + p1 + p2 + p3 + p4 + p5 + p6, p7, p6);
    lemma_shows_front(p0 + p1 + p2 + p3 + p4 + p5 + p6 + p7, p8, p6);
    lemma_shows_front(p0 + p1 + p2 + p3 + p4 + p5 + p6 + p7 + p8, p9, p6);
    lemma_shows_front(p0 + p1 + p2 + p3 + p4 + p5 + p6 + p7 + p8 + p9, p10, p6);
    lemma_shows_front(p0 + p1 + p2 + p3 + p4 + p5 + p6 + p7 + p8 + p9 + p10, p11, p6);
    lemma_shows_front(p0 + p1 + p2 + p3 + p4 + p5 + p6 + p7 + p8 + p9 + p10 + p11, p12, p6);
    lemma_shows_front(p0 + p1 + p2 + p3 + p4 + p5 + p6 + p7 + p8 + p9 + p10 + p11 + p12, p13, p6);
    lemma_shows_front(p0 + p1 + p2 + p3 + p4 + p5 + p6 + p7 + p8 + p9 + p10 + p11 + p12 + p13, p14, p6);
    lemma_shows_itself(p7);
    lemma_shows_back(p0 + p1 + p2 + p3 + p4 + p5 + p6, p7, p7);
    lemma_shows_front(p0 + p1 + p2 + p3 + p4 + p5 + p6 + p7, p8, p7);
    lemma_shows_front(p0 + p1 + p2 + p3 + p4 + p5 + p6 + p7 + p8, p9, p7);
    lemma_shows_front(p0 + p1 + p2 + p3 + p4 + p5 + p6 + p7 + p8 + p9, p10, p7);
    lemma_shows_front(p0 + p1 + p2 + p3 + p4 + p5 + p6 + p7 + p8 + p9 + p10, p11, p7);
    lemma_shows_front(p0 + p1 + p2 + p3 + p4 + p5 + p6 + p7 + p8 + p9 + p10 + p11, p12, p7);
    lemma_shows_front(p0 + p1 + p2 + p3 + p4 + p5 + p6 + p7 + p8 + p9 + p10 + p11 + p12, p13, p7);
    lemma_shows_front(p0 + p1 + p2 + p3 + p4 + p5 + p6 + p7 + p8 + p9 + p10 + p11 + p12 + p13, p14, p7);
    lemma_shows_itself(p8);
    lemma_shows_back(p0 + p1 + p2 + p3 + p4 + p5 + p6 + p7, p8, p8);
    lemma_shows_front(p0 + p1 + p2 + p3 + p4 + p5 + p6 + p7 + p8, p9, p8);
    lemma_shows_front(p0 + p1 + p2 + p3 + p4 + p5 + p6 + p7 + p8 + p9, p10, p8);
    lemma_shows_front(p0 + p1 + p2 + p3 + p4 + p5 + p6 + p7 + p8 + p9 + p10, p11, p8);
    lemma_shows_front(p0 + p1 + p2 + p3 + p4 + p5 + p6 + p7 + p8 + p9 + p10 + p11, p12, p8);
    lemma_shows_front(p0 + p1 + p2 + p3 + p4 + p5 + p6 + p7 + p8 + p9 + p10 + p11 + p12, p13, p8);
    lemma_shows_front(p0 + p1 + p2 + p3 + p4 + p5 + p6 + p7 + p8 + p9 + p10 + p11 + p12 + p13, p14, p8);
    lemma_shows_itself(p9);
    lemma_shows_back(p0 + p1 + p2 + p3 + p4 + p5 + p6 + p7 + p8, p9, p9);
    lemma_shows_front(p0 + p1 + p2 + p3 + p4 + p5 + p6 + p7 + p8 + p9, p10, p9);
    lemma_shows_front(p0 + p1 + p2 + p3 + p4 + p5 + p6 + p7 + p8 + p9 + p10, p11, p9);
    lemma_shows_front(p0 + p1 + p2 + p3 + p4 + p5 + p6 + p7 + p8 + p9 + p10 + p11, p12, p9);
    lemma_shows_front(p0 + p1 + p2 + p3 + p4 + p5 + p6 + p7 + p8 + p9 + p10 + p11 + p12, p13, p9);
    lemma_shows_front(p0 + p1 + p2 + p3 + p4 + p5 + p6 + p7 + p8 + p9 + p10 + p11 + p12 + p13, p14, p9);
    lemma_shows_itself(p10);
    lemma_shows_back(p0 + p1 + p2 + p3 + p4 + p5 + p6 + p7 + p8 + p9, p10, p10);
    lemma_shows_front(p0 + p1 + p2 + p3 + p4 + p5 + p6 + p7 + p8 + p9 + p10, p11, p10);
    lemma_shows_front(p0 + p1 + p2 + p3 + p4 + p5 + p6 + p7 + p8 + p9 + p10 + p11, p12, p10);
    lemma_shows_front(p0 + p1 + p2 + p3 + p4 + p5 + p6 + p7 + p8 + p9 + p10 + p11 + p12, p13, p10);
    lemma_shows_front(p0 + p1 + p2 + p3 + p4 + p5 + p6 + p7 + p8 + p9 + p10 + p11 + p12 + p13, p14, p10);
    lemma_shows_itself(p11);
    lemma_shows_back(p0 + p1 + p2 + p3 + p4 + p5 + p6 + p7 + p8 + p9 + p10, p11, p11);
    lemma_shows_front(p0 + p1 + p2 + p3 + p4 + p5 + p6 + p7 + p8 + p9 + p10 + p11, p12, p11);
    lemma_shows_front(p0 + p1 + p2 + p3 + p4 + p5 + p6 + p7 + p8 + p9 + p10 + p11 + p12, p13, p11);
    lemma_shows_front(p0 + p1 + p2 + p3 + p4 + p5 + p6 + p7 + p8 + p9 + p10 + p11 + p12 + p13, p14, p11);
    lemma_shows_itself(p12);
    lemma_shows_back(p0 + p1 + p2 + p3 + p4 + p5 + p6 + p7 + p8 + p9 + p10 + p11, p12, p12);
    lemma_shows_front(p0 + p1 + p2 + p3 + p4 + p5 + p6 + p7 + p8 + p9 + p10 + p11 + p12, p13, p12);
    lemma_shows_front(p0 + p1 + p2 + p3 + p4 + p5 + p6 + p7 + p8 + p9 + p10 + p11 + p12 + p13, p14, p12);
    lemma_shows_itself(p13);
    lemma_shows_back(p0 + p1 + p2 + p3 + p4 + p5 + p6 + p7 + p8 + p9 + p10 + p11 + p12, p13, p13);
    lemma_shows_front(p0 + p1 + p2 + p3 + p4 + p5 + p6 + p7 + p8 + p9 + p10 + p11 + p12 + p13, p14, p13);
    lemma_shows_itself(p14);
    lemma_shows_back(p0 + p1 + p2 + p3 + p4 + p5 + p6 + p7 + p8 + p9 + p10 + p11 + p12 + p13, p14, p14);
}

proof fn lemma_whole_latex(
    p0: Seq<char>,
    p1: Seq<char>,
    p2: Seq<char>,
    p3: Seq<char>,
    p4: Seq<char>,
    p5: Seq<char>,
    p6: Seq<char>,
    p7: Seq<char>,
    p8: Seq<char>,
    p9: Seq<char>,
    p10: Seq<char>,
    p11: Seq<char>,
    p12: Seq<char>,
    p13: Seq<char>,
    p14: Seq<char>,
    p15: Seq<char>,
    p16: Seq<char>,
)
    ensures
        shows(p0 + p1 + p2 + p3 + p4 + p5 + p6 + p7 + p8 + p9 + p10 + p11 + p12 + p13 + p14 + p15 + p16, p0),
        shows(p0 + p1 + p2 + p3 + p4 + p5 + p6 + p7 + p8 + p9 + p10 + p11 + p12 + p13 + p14 + p15 + p16, p1),
        shows(p0 + p1 + p2 + p3 + p4 + p5 + p6 + p7 + p8 + p9 + p10 + p11 + p12 + p13 + p14 + p15 + p16, p2),
        shows(p0 + p1 + p2 + p3 + p4 + p5 + p6 + p7 + p8 + p9 + p10 + p11 + p12 + p13 + p14 + p15 + p16, p3),
        shows(p0 + p1 + p2 + p3 + p4 + p5 + p6 + p7 + p8 + p9 + p10 + p11 + p12 + p13 + p14 + p15 + p16, p4),
        shows(p0 + p1 + p2 + p3 + p4 + p5 + p6 + p7 + p8 + p9 + p10 + p11 + p12 + p13 + p14 + p15 + p16, p5),
        shows(p0 + p1 + p2 + p3 + p4 + p5 + p6 + p7 + p8 + p9 + p10 + p11 + p12 + p13 + p14 + p15 + p16, p6),
        shows(p0 + p1 + p2 + p3 + p4 + p5 + p6 + p7 + p8 + p9 + p10 + p11 + p12 + p13 + p14 + p15 + p16, p7),
        shows(p0 + p1 + p2 + p3 + p4 + p5 + p6 + p7 + p8 + p9 + p10 + p11 + p12 + p13 + p14 + p15 + p16, p8),
        shows(p0 + p1 + p2 + p3 + p4 + p5 + p6 + p7 + p8 + p9 + p10 + p11 + p12 + p13 + p14 + p15 + p16, p9),
        shows(p0 + p1 + p2 + p3 + p4 + p5 + p6 + p7 + p8 + p9 + p10 + p11 + p12 + p13 + p14 + p15 + p16, p10),
        shows(p0 + p1 + p2 + p3 + p4 + p5 + p6 + p7 + p8 + p9 + p10 + p11 + p12 + p13 + p14 + p15 + p16, p11),
        shows(p0 + p1 + p2 + p3 + p4 + p5 + p6 + p7 + p8 + p9 + p10 + p11 + p12 + p13 + p14 + p15 + p16, p12),
        shows(p0 + p1 + p2 + p3 + p4 + p5 + p6 + p7 + p8 + p9 + p10 + p11 + p12 + p13 + p14 + p15 + p16, p13),
        shows(p0 + p1 + p2 + p3 + p4 + p5 + p6 + p7 + p8 + p9 + p10 + p11 + p12 + p13 + p14 + p15 + p16, p14),
        shows(p0 + p1 + p2 + p3 + p4 + p5 + p6 + p7 + p8 + p9 + p10 + p11 + p12 + p13 + p14 + p15 + p16, p15),
        shows(p0 + p1 + p2 + p3 + p4 + p5 + p6 + p7 + p8 + p9 + p10 + p11 + p12 + p13 + p14 + p15 + p16, p16),
        p16.is_suffix_of(p0 + p1 + p2 + p3 + p4 + p5 + p6 + p7 + p8 + p9 + p10 + p11 + p12 + p13 + p14 + p15 + p16),
{
    let head = p0 + p1 + p2 + p3 + p4 + p5 + p6 + p7 + p8 + p9 + p10 + p11 + p12 + p13 + p14 + p15;
    let doc = head + p16;
    assert(doc.subrange(head.len() as int, doc.len() as int) =~= p16);
    lemma_shows_itself(p0);
    lemma_shows_front(p0, p1, p0);
    lemma_shows_front(p0 + p1, p2, p0);
    lemma_shows_front(p0 + p1 + p2, p3, p0);
    lemma_shows_front(p0 + p1 + p2 + p3, p4, p0);
    lemma_shows_front(p0 + p1 + p2 + p3 + p4, p5, p0);
    lemma_shows_front(p0 + p1 + p2 + p3 + p4 + p5, p6, p0);
    lemma_shows_front(p0 + p1 + p2 + p3 + p4 + p5 + p6, p7, p0);
    lemma_shows_front(p0 + p1 + p2 + p3 + p4 + p5 + p6 + p7, p8, p0);
    lemma_shows_front(p0 + p1 + p2 + p3 + p4 + p5 + p6 + p7 + p8, p9, p0);
    lemma_shows_front(p0 + p1 + p2 + p3 + p4 + p5 + p6 + p7 + p8 + p9, p10, p0);
    lemma_shows_front(p0 + p1 + p2 + p3 + p4 + p5 + p6 + p7 + p8 + p9 + p10, p11, p0);
    lemma_shows_front(p0 + p1 + p2 + p3 + p4 + p5 + p6 + p7 + p8 + p9 + p10 + p11, p12, p0);
    lemma_shows_front(p0 + p1 + p2 + p3 + p4 + p5 + p6 + p7 + p8 + p9 + p10 + p11 + p12, p13, p0);
    lemma_shows_front(p0 + p1 + p2 + p3 + p4 + p5 + p6 + p7 + p8 + p9 + p10 + p11 + p12 + p13, p14, p0);
    lemma_shows_front(p0 + p1 + p2 + p3 + p4 + p5 + p6 + p7 + p8 + p9 + p10 + p11 + p12 + p13 + p14, p15, p0);
    lemma_shows_front(p0 + p1 + p2 + p3 + p4 + p5 + p6 + p7 + p8 + p9 + p10 + p11 + p12 + p13 + p14 + p15, p16, p0);
    lemma_shows_itself(p1);
    lemma_shows_back(p0, p1, p1);
    lemma_shows_front(p0 + p1, p2, p1);
    lemma_shows_front(p0 + p1 + p2, p3, p1);
    lemma_shows_front(p0 + p1 + p2 + p3, p4, p1);
    lemma_shows_front(p0 + p1 + p2 + p3 + p4, p5, p1);
    lemma_shows_front(p0 + p1 + p2 + p3 + p4 + p5, p6, p1);
    lemma_shows_front(p0 + p1 + p2 + p3 + p4 + p5 + p6, p7, p1);
    lemma_shows_front(p0 + p1 + p2 + p3 + p4 + p5 + p6 + p7, p8, p1);
    lemma_shows_front(p0 + p1 + p2 + p3 + p4 + p5 + p6 + p7 + p8, p9, p1);
    lemma_shows_front(p0 + p1 + p2 + p3 + p4 + p5 + p6 + p7 + p8 + p9, p10, p1);
    lemma_shows_front(p0 + p1 + p2 + p3 + p4 + p5 + p6 + p7 + p8 + p9 + p10, p11, p1);
    lemma_shows_front(p0 + p1 + p2 + p3 + p4 + p5 + p6 + p7 + p8 + p9 + p10 + p11, p12, p1);
    lemma_shows_front(p0 + p1 + p2 + p3 + p4 + p5 + p6 + p7 + p8 + p9 + p10 + p11 + p12, p13, p1);
    lemma_shows_front(p0 + p1 + p2 + p3 + p4 + p5 + p6 + p7 + p8 + p9 + p10 + p11 + p12 + p13, p14, p1);
    lemma_shows_front(p0 + p1 + p2 + p3 + p4 + p5 + p6 + p7 + p8 + p9 + p10 + p11 + p12 + p13 + p14, p15, p1);
    lemma_shows_front(p0 + p1 + p2 + p3 + p4 + p5 + p6 + p7 + p8 + p9 + p10 + p11 + p12 + p13 + p14 + p15, p16, p1);
    lemma_shows_itself(p2);
    lemma_shows_back(p0 + p1, p2, p2);
    lemma_shows_front(p0 + p1 + p2, p3, p2);
    lemma_shows_front(p0 + p1 + p2 + p3, p4, p2);
    lemma_shows_front(p0 + p1 + p2 + p3 + p4, p5, p2);
    lemma_shows_front(p0 + p1 + p2 + p3 + p4 + p5, p6, p2);
    lemma_shows_front(p0 + p1 + p2 + p3 + p4 + p5 + p6, p7, p2);
    lemma_shows_front(p0 + p1 + p2 + p3 + p4 + p5 + p6 + p7, p8, p2);
    lemma_shows_front(p0 + p1 + p2 + p3 + p4 + p5 + p6 + p7 + p8, p9, p2);
    lemma_shows_front(p0 + p1 + p2 + p3 + p4 + p5 + p6 + p7 + p8 + p9, p10, p2);
    lemma_shows_front(p0 + p1 + p2 + p3 + p4 + p5 + p6 + p7 + p8 + p9 + p10, p11, p2);
    lemma_shows_front(p0 + p1 + p2 + p3 + p4 + p5 + p6 + p7 + p8 + p9 + p10 + p11, p12, p2);
    lemma_shows_front(p0 + p1 + p2 + p3 + p4 + p5 + p6 + p7 + p8 + p9 + p10 + p11 + p12, p13, p2);
    lemma_shows_front(p0 + p1 + p2 + p3 + p4 + p5 + p6 + p7 + p8 + p9 + p10 + p11 + p12 + p13, p14, p2);
    lemma_shows_front(p0 + p1 + p2 + p3 + p4 + p5 + p6 + p7 + p8 + p9 + p10 + p11 + p12 + p13 + p14, p15, p2);
    lemma_shows_front(p0 + p1 + p2 + p3 + p4 + p5 + p6 + p7 + p8 + p9 + p10 + p11 + p12 + p13 + p14 + p15, p16, p2);
    lemma_shows_itself(p3);
    lemma_shows_back(p0 + p1 + p2, p3, p3);
    lemma_shows_front(p0 + p1 + p2 + p3, p4, p3);
    lemma_shows_front(p0 + p1 + p2 + p3 + p4, p5, p3);
    lemma_shows_front(p0 + p1 + p2 + p3 + p4 + p5, p6, p3);
    lemma_shows_front(p0 + p1 + p2 + p3 + p4 + p5 + p6, p7, p3);
    lemma_shows_front(p0 + p1 + p2 + p3 + p4 + p5 + p6 + p7, p8, p3);
    lemma_shows_front(p0 + p1 + p2 + p3 + p4 + p5 + p6 + p7 + p8, p9, p3);
    lemma_shows_front(p0 + p1 + p2 + p3 + p4 + p5 + p6 + p7 + p8 + p9, p10, p3);
    lemma_shows_front(p0 + p1 + p2 + p3 + p4 + p5 + p6 + p7 + p8 + p9 + p10, p11, p3);
    lemma_shows_front(p0 + p1 + p2 + p3 + p4 + p5 + p6 + p7 + p8 + p9 + p10 + p11, p12, p3);
    lemma_shows_front(p0 + p1 + p2 + p3 + p4 + p5 + p6 + p7 + p8 + p9 + p10 + p11 + p12, p13, p3);
    lemma_shows_front(p0 + p1 + p2 + p3 + p4 + p5 + p6 + p7 + p8 + p9 + p10 + p11 + p12 + p13, p14, p3);
    lemma_shows_front(p0 + p1 + p2 + p3 + p4 + p5 + p6 + p7 + p8 + p9 + p10 + p11 + p12 + p13 + p14, p15, p3);
    lemma_shows_front(p0 + p1 + p2 + p3 + p4 + p5 + p6 + p7 + p8 + p9 + p10 + p11 + p12 + p13 + p14 + p15, p16, p3);
    lemma_shows_itself(p4);
    lemma_shows_back(p0 + p1 + p2 + p3, p4, p4);
    lemma_shows_front(p0 + p1 + p2 + p3 + p4, p5, p4);
    lemma_shows_front(p0 + p1 + p2 + p3 + p4 + p5, p6, p4);
    lemma_shows_front(p0 + p1 + p2 + p3 + p4 + p5 + p6, p7, p4);
    lemma_shows_front(p0 + p1 + p2 + p3 + p4 + p5 + p6 + p7, p8, p4);
    lemma_shows_front(p0 + p1 + p2 + p3 + p4 + p5 + p6 + p7 + p8, p9, p4);
    lemma_shows_front(p0 + p1 + p2 + p3 + p4 + p5 + p6 + p7 + p8 + p9, p10, p4);
    lemma_shows_front(p0 + p1 + p2 + p3 + p4 + p5 + p6 + p7 + p8 + p9 + p10, p11, p4);
    lemma_shows_front(p0 + p1 + p2 + p3 + p4 + p5 + p6 + p7 + p8 + p9 + p10 + p11, p12, p4);
    lemma_shows_front(p0 + p1 + p2 + p3 + p4 + p5 + p6 + p7 + p8 + p9 + p10 + p11 + p12, p13, p4);
    lemma_shows_front(p0 + p1 + p2 + p3 + p4 + p5 + p6 + p7 + p8 + p9 + p10 + p11 + p12 + p13, p14, p4);
    lemma_shows_front(p0 + p1 + p2 + p3 + p4 + p5 + p6 + p7 + p8 + p9 + p10 + p11 + p12 + p13 + p14, p15, p4);
    lemma_shows_front(p0 + p1 + p2 + p3 + p4 + p5 + p6 + p7 + p8 + p9 + p10 + p11 + p12 + p13 + p14 + p15, p16, p4);
    lemma_shows_itself(p5);
    lemma_shows_back(p0 + p1 + p2 + p3 + p4, p5, p5);
    lemma_shows_front(p0 + p1 + p2 + p3 + p4 + p5, p6, p5);
    lemma_shows_front(p0 + p1 + p2 + p3 + p4 + p5 + p6, p7, p5);
    lemma_shows_front(p0 + p1 + p2 + p3 + p4 + p5 + p6 + p7, p8, p5);
    lemma_shows_front(p0 + p1 + p2 + p3 + p4 + p5 + p6 + p7 + p8, p9, p5);
    lemma_shows_front(p0 + p1 + p2 + p3 + p4 + p5 + p6 + p7 + p8 + p9, p10, p5);
    lemma_shows_front(p0 + p1 + p2 + p3 + p4 + p5 + p6 + p7 + p8 + p9 + p10, p11, p5);
    lemma_shows_front(p0 + p1 + p2 + p3 + p4 + p5 + p6 + p7 + p8 + p9 + p10 + p11, p12, p5);
    lemma_shows_front(p0 + p1 + p2 + p3 + p4 + p5 + p6 + p7 + p8 + p9 + p10 + p11 + p12, p13, p5);
    lemma_shows_front(p0 + p1 + p2 + p3 + p4 + p5 + p6 + p7 + p8 + p9 + p10 + p11 + p12 + p13, p14, p5);
    lemma_shows_front(p0 + p1 + p2 + p3 + p4 + p5 + p6 + p7 + p8 + p9 + p10 + p11 + p12 + p13 + p14, p15, p5);
    lemma_shows_front(p0 + p1 + p2 + p3 + p4 + p5 + p6 + p7 + p8 + p9 + p10 + p11 + p12 + p13 + p14 + p15, p16, p5);
    lemma_shows_itself(p6);
    lemma_shows_back(p0 + p1 + p2 + p3 + p4 + p5, p6, p6);
    lemma_shows_front(p0 + p1 + p2 + p3 + p4 + p5 + p6, p7, p6);
    lemma_shows_front(p0 + p1 + p2 + p3 + p4 + p5 + p6 + p7, p8, p6);
    lemma_shows_front(p0 + p1 + p2 + p3 + p4 + p5 + p6 + p7 + p8, p9, p6);
    lemma_shows_front(p0 + p1 + p2 + p3 + p4 + p5 + p6 + p7 + p8 + p9, p10, p6);
    lemma_shows_front(p0 + p1 + p2 + p3 + p4 + p5 + p6 + p7 + p8 + p9 + p10, p11, p6);
    lemma_shows_front(p0 + p1 + p2 + p3 + p4 + p5 + p6 + p7 + p8 + p9 + p10 + p11, p12, p6);
    lemma_shows_front(p0 + p1 + p2 + p3 + p4 + p5 + p6 + p7 + p8 + p9 + p10 + p11 + p12, p13, p6);
    lemma_shows_front(p0 + p1 + p2 + p3 + p4 + p5 + p6 + p7 + p8 + p9 + p10 + p11 + p12 + p13, p14, p6);
    lemma_shows_front(p0 + p1 + p2 + p3 + p4 + p5 + p6 + p7 + p8 + p9 + p10 + p11 + p12 + p13 + p14, p15, p6);
    lemma_shows_front(p0 + p1 + p2 + p3 + p4 + p5 + p6 + p7 + p8 + p9 + p10 + p11 + p12 + p13 + p14 + p15, p16, p6);
    lemma_shows_itself(p7);
    lemma_shows_back(p0 + p1 + p2 + p3 + p4 + p5 + p6, p7, p7);
    lemma_shows_front(p0 + p1 + p2 + p3 + p4 + p5 + p6 + p7, p8, p7);
    lemma_shows_front(p0 + p1 + p2 + p3 + p4 + p5 + p6 + p7 + p8, p9, p7);
    lemma_shows_front(p0 + p1 + p2 + p3 + p4 + p5 + p6 + p7 + p8 + p9, p10, p7);
    lemma_shows_front(p0 + p1 + p2 + p3 + p4 + p5 + p6 + p7 + p8 + p9 + p10, p11, p7);
    lemma_shows_front(p0 + p1 + p2 + p3 + p4 + p5 + p6 + p7 + p8 + p9 + p10 + p11, p12, p7);
    lemma_shows_front(p0 + p1 + p2 + p3 + p4 + p5 + p6 + p7 + p8 + p9 + p10 + p11 + p12, p13, p7);
    lemma_shows_front(p0 + p1 + p2 + p3 + p4 + p5 + p6 + p7 + p8 + p9 + p10 + p11 + p12 + p13, p14, p7);
    lemma_shows_front(p0 + p1 + p2 + p3 + p4 + p5 + p6 + p7 + p8 + p9 + p10 + p11 + p12 + p13 + p14, p15, p7);
    lemma_shows_front(p0 + p1 + p2 + p3 + p4 + p5 + p6 + p7 + p8 + p9 + p10 + p11 + p12 + p13 + p14 + p15, p16, p7);
    lemma_shows_itself(p8);
    lemma_shows_back(p0 + p1 + p2 + p3 + p4 + p5 + p6 + p7, p8, p8);
    lemma_shows_front(p0 + p1 + p2 + p3 + p4 + p5 + p6 + p7 + p8, p9, p8);
    lemma_shows_front(p0 + p1 + p2 + p3 + p4 + p5 + p6 + p7 + p8 + p9, p10, p8);
    lemma_shows_front(p0 + p1 + p2 + p3 + p4 + p5 + p6 + p7 + p8 + p9 + p10, p11, p8);
    lemma_shows_front(p0 + p1 + p2 + p3 + p4 + p5 + p6 + p7 + p8 + p9 + p10 + p11, p12, p8);
    lemma_shows_front(p0 + p1 + p2 + p3 + p4 + p5 + p6 + p7 + p8 + p9 + p10 + p11 + p12, p13, p8);
    lemma_shows_front(p0 + p1 + p2 + p3 + p4 + p5 + p6 + p7 + p8 + p9 + p10 + p11 + p12 + p13, p14, p8);
    lemma_shows_front(p0 + p1 + p2 + p3 + p4 + p5 + p6 + p7 + p8 + p9 + p10 + p11 + p12 + p13 + p14, p15, p8);
    lemma_shows_front(p0 + p1 + p2 + p3 + p4 + p5 + p6 + p7 + p8 + p9 + p10 + p11 + p12 + p13 + p14 + p15, p16, p8);
    lemma_shows_itself(p9);
    lemma_shows_back(p0 + p1 + p2 + p3 + p4 + p5 + p6 + p7 + p8, p9, p9);
    lemma_shows_front(p0 + p1 + p2 + p3 + p4 + p5 + p6 + p7 + p8 + p9, p10, p9);
    lemma_shows_front(p0 + p1 + p2 + p3 + p4 + p5 + p6 + p7 + p8 + p9 + p10, p11, p9);
    lemma_shows_front(p0 + p1 + p2 + p3 + p4 + p5 + p6 + p7 + p8 + p9 + p10 + p11, p12, p9);
    lemma_shows_front(p0 + p1 + p2 + p3 + p4 + p5 + p6 + p7 + p8 + p9 + p10 + p11 + p12, p13, p9);
    lemma_shows_front(p0 + p1 + p2 + p3 + p4 + p5 + p6 + p7 + p8 + p9 + p10 + p11 + p12 + p13, p14, p9);
    lemma_shows_front(p0 + p1 + p2 + p3 + p4 + p5 + p6 + p7 + p8 + p9 + p10 + p11 + p12 + p13 + p14, p15, p9);
    lemma_shows_front(p0 + p1 + p2 + p3 + p4 + p5 + p6 + p7 + p8 + p9 + p10 + p11 + p12 + p13 + p14 + p15, p16, p9);
    lemma_shows_itself(p10);
    lemma_shows_back(p0 + p1 + p2 + p3 + p4 + p5 + p6 + p7 + p8 + p9, p10, p10);
    lemma_shows_front(p0 + p1 + p2 + p3 + p4 + p5 + p6 + p7 + p8 + p9 + p10, p11, p10);
    lemma_shows_front(p0 + p1 + p2 + p3 + p4 + p5 + p6 + p7 + p8 + p9 + p10 + p11, p12, p10);
    lemma_shows_front(p0 + p1 + p2 + p3 + p4 + p5 + p6 + p7 + p8 + p9 + p10 + p11 + p12, p13, p10);
    lemma_shows_front(p0 + p1 + p2 + p3 + p4 + p5 + p6 + p7 + p8 + p9 + p10 + p11 + p12 + p13, p14, p10);
    lemma_shows_front(p0 + p1 + p2 + p3 + p4 + p5 + p6 + p7 + p8 + p9 + p10 + p11 + p12 + p13 + p14, p15, p10);
    lemma_shows_front(p0 + p1 + p2 + p3 + p4 + p5 + p6 + p7 + p8 + p9 + p10 + p11 + p12 + p13 + p14 + p15, p16, p10);
    lemma_shows_itself(p11);
    lemma_shows_back(p0 + p1 + p2 + p3 + p4 + p5 + p6 + p7 + p8 + p9 + p10, p11, p11);
    lemma_shows_front(p0 + p1 + p2 + p3 + p4 + p5 + p6 + p7 + p8 + p9 + p10 + p11, p12, p11);
    lemma_shows_front(p0 + p1 + p2 + p3 + p4 + p5 + p6 + p7 + p8 + p9 + p10 + p11 + p12, p13, p11);
    lemma_shows_front(p0 + p1 + p2 + p3 + p4 + p5 + p6 + p7 + p8 + p9 + p10 + p11 + p12 + p13, p14, p11);
    lemma_shows_front(p0 + p1 + p2 + p3 + p4 + p5 + p6 + p7 + p8 + p9 + p10 + p11 + p12 + p13 + p14, p15, p11);
    lemma_shows_front(p0 + p1 + p2 + p3 + p4 + p5 + p6 + p7 + p8 + p9 + p10 + p11 + p12 + p13 + p14 + p15, p16, p11);
    lemma_shows_itself(p12);
    lemma_shows_back(p0 + p1 + p2 + p3 + p4 + p5 + p6 + p7 + p8 + p9 + p10 + p11, p12, p12);
    lemma_shows_front(p0 + p1 + p2 + p3 + p4 + p5 + p6 + p7 + p8 + p9 + p10 + p11 + p12, p13, p12);
    lemma_shows_front(p0 + p1 + p2 + p3 + p4 + p5 + p6 + p7 + p8 + p9 + p10 + p11 + p12 + p13, p14, p12);
    lemma_shows_front(p0 + p1 + p2 + p3 + p4 + p5 + p6 + p7 + p8 + p9 + p10 + p11 + p12 + p13 + p14, p15, p12);
    lemma_shows_front(p0 + p1 + p2 + p3 + p4 + p5 + p6 + p7 + p8 + p9 + p10 + p11 + p12 + p13 + p14 + p15, p16, p12);
    lemma_shows_itself(p13);
    lemma_shows_back(p0 + p1 + p2 + p3 + p4 + p5 + p6 + p7 + p8 + p9 + p10 + p11 + p12, p13, p13);
    lemma_shows_front(p0 + p1 + p2 + p3 + p4 + p5 + p6 + p7 + p8 + p9 + p10 + p11 + p12 + p13, p14, p13);
    lemma_shows_front(p0 + p1 + p2 + p3 + p4 + p5 + p6 + p7 + p8 + p9 + p10 + p11 + p12 + p13 + p14, p15, p13);
    lemma_shows_front(p0 + p1 + p2 + p3 + p4 + p5 + p6 + p7 + p8 + p9 + p10 + p11 + p12 + p13 + p14 + p15, p16, p13);
    lemma_shows_itself(p14);
    lemma_shows_back(p0 + p1 + p2 + p3 + p4 + p5 + p6 + p7 + p8 + p9 + p10 + p11 + p12 + p13, p14, p14);
    lemma_shows_front(p0 + p1 + p2 + p3 + p4 + p5 + p6 + p7 + p8 + p9 + p10 + p11 + p12 + p13 + p14, p15, p14);
    lemma_shows_front(p0 + p1 + p2 + p3 + p4 + p5 + p6 + p7 + p8 + p9 + p10 + p11 + p12 + p13 + p14 + p15, p16, p14);
    lemma_shows_itself(p15);
    lemma_shows_back(p0 + p1 + p2 + p3 + p4 + p5 + p6 + p7 + p8 + p9 + p10 + p11 + p12 + p13 + p14, p15, p15);
    lemma_shows_front(p0 + p1 + p2 + p3 + p4 + p5 + p6 + p7 + p8 + p9 + p10 + p11 + p12 + p13 + p14 + p15, p16, p15);
    lemma_shows_itself(p16);
    lemma_shows_back(p0 + p1 + p2 + p3 + p4 + p5 + p6 + p7 + p8 + p9 + p10 + p11 + p12 + p13 + p14 + p15, p16, p16);
}

// ---------------------------------------------------------------------------
// Rows in their tables
// ---------------------------------------------------------------------------

/// Rows stand one below the other, in the order of what they are of.
pub proof fn rows_stand_in_order<T>(s: Seq<T>, x: T, f: spec_fn(T) -> Seq<char>)
    ensures
        rows(s.push(x), f) == rows(s, f) + f(x),
        rows(Seq::empty(), f).len() == 0,
{
    assert(s.push(x).drop_last() =~= s);
}

/// Every gate has its row in the table, and without gates there is no table.
pub proof fn every_gate_has_its_row(gates: Seq<GateResult>, k: int)
    ensures
        0 <= k < gates.len() ==> shows(gate_table(gates), gate_row(gates[k])) && shows(gate_table_tex(gates), gate_tex(gates[k])),
        gates.len() == 0 ==> gate_table(gates).len() == 0 && gate_table_tex(gates).len() == 0,
{
    let s = gates;
    let f = |g: GateResult| gate_row(g);
    let g = |g: GateResult| gate_tex(g);
    if 0 <= k < s.len() {
        lemma_rows_split(s, f, k);
        lemma_rows_split(s, g, k);
        lemma_shows_between(rows(s.take(k), f), f(s[k]), rows_from(s, f, k + 1));
        lemma_shows_between(rows(s.take(k), g), g(s[k]), rows_from(s, g, k + 1));
        lemma_shows_part("| Gate Metric | Threshold | Actual | Passed |\n|-------------|-----------|--------|--------|\n"@, rows(s, f), "\n"@, f(s[k]));
        lemma_shows_part("\\begin{tabular}{l r r l}\n  \\toprule\n  Gate Metric & Threshold & Actual & Passed \\\\\n  \\midrule\n"@, rows(s, g), "  \\bottomrule\n\\end{tabular}\n\n"@, g(s[k]));
    }
}

/// Every aggregate has its row in the table, and without aggregates there is no table.
pub proof fn every_aggregate_has_its_row(all: Seq<(Seq<char>, MetricAggregate)>, k: int)
    ensures
        0 <= k < all.len() ==> shows(aggregate_table(all), aggregate_row(all[k])) && shows(aggregate_table_tex(all), aggregate_tex(all[k])),
        all.len() == 0 ==> aggregate_table(all).len() == 0 && aggregate_table_tex(all).len() == 0,
{
    let s = all;
    let f = |entry: (Seq<char>, MetricAggregate)| aggregate_row(entry);
    let g = |entry: (Seq<char>, MetricAggregate)| aggregate_tex(entry);
    if 0 <= k < s.len() {
        lemma_rows_split(s, f, k);
        lemma_rows_split(s, g, k);
        lemma_shows_between(rows(s.take(k), f), f(s[k]), rows_from(s, f, k + 1));
        lemma_shows_between(rows(s.take(k), g), g(s[k]), rows_from(s, g, k + 1));
        lemma_shows_part("| Metric | Mean | Std | Min | Max | Count | CI Low | CI High |\n|--------|------|-----|-----|-----|-------|--------|---------|\n"@, rows(s, f), "\n"@, f(s[k]));
        lemma_shows_part("\\begin{tabular}{l r r r r r r r}\n  \\toprule\n  Metric & Mean & Std & Min & Max & Count & CI Low & CI High \\\\\n  \\midrule\n"@, rows(s, g), "  \\bottomrule\n\\end{tabular}\n\n"@, g(s[k]));
    }
}

/// Every parameter has its row in the glossary, and without parameters there is no glossary.
pub proof fn every_parameter_has_its_row(template: ExperimentTemplate, k: int)
    ensures
        0 <= k < template.spec.parameter_schema.entries().len() ==> shows(parameter_glossary(template), parameter_row(template.spec.parameter_schema.entries()[k])) && shows(parameter_glossary_tex(template), parameter_tex(template.spec.parameter_schema.entries()[k])),
        template.spec.parameter_schema.entries().len() == 0 ==> parameter_glossary(template).len() == 0 && parameter_glossary_tex(template).len() == 0,
{
    let s = template.spec.parameter_schema.entries();
    let f = |entry: (Seq<char>, ParameterSpec)| parameter_row(entry);
    let g = |entry: (Seq<char>, ParameterSpec)| parameter_tex(entry);
    if 0 <= k < s.len() {
        lemma_rows_split(s, f, k);
        lemma_rows_split(s, g, k);
        lemma_shows_between(rows(s.take(k), f), f(s[k]), rows_from(s, f, k + 1));
        lemma_shows_between(rows(s.take(k), g), g(s[k]), rows_from(s, g, k + 1));
        lemma_shows_part("**Parameter Glossary**\n\n| Name | Type | Description |\n|------|------|-------------|\n"@, rows(s, f), "\n"@, f(s[k]));
        lemma_shows_part("\\subsection*{Parameter Glossary}\n\\begin{tabular}{l l p{7cm}}\n  \\toprule\n  Name & Type & Description \\\\\n  \\midrule\n"@, rows(s, g), "  \\bottomrule\n\\end{tabular}\n\n"@, g(s[k]));
    }
}

/// Every metric has its row in the glossary, and without metrics there is no glossary.
pub proof fn every_metric_has_its_row(template: ExperimentTemplate, k: int)
    ensures
        0 <= k < dashboard_metrics(template).len() ==> shows(metric_glossary(template), metric_row(dashboard_metrics(template)[k])) && shows(metric_glossary_tex(template), metric_tex(dashboard_metrics(template)[k])),
        dashboard_metrics(template).len() == 0 ==> metric_glossary(template).len() == 0 && metric_glossary_tex(template).len() == 0,
{
    let s = dashboard_metrics(template);
    let f = |entry: (Seq<char>, DashboardMetric)| metric_row(entry);
    let g = |entry: (Seq<char>, DashboardMetric)| metric_tex(entry);
    if 0 <= k < s.len() {
        lemma_rows_split(s, f, k);
        lemma_rows_split(s, g, k);
        lemma_shows_between(rows(s.take(k), f), f(s[k]), rows_from(s, f, k + 1));
        lemma_shows_between(rows(s.take(k), g), g(s[k]), rows_from(s, g, k + 1));
        lemma_shows_part("**Metric Glossary**\n\n| Name | Label | Unit | Description | Baseline |\n|------|-------|------|-------------|----------|\n"@, rows(s, f), "\n"@, f(s[k]));
        lemma_shows_part("\\subsection*{Metric Glossary}\n\\begin{tabular}{l l l p{4cm} r}\n  \\toprule\n  Name & Label & Unit & Description & Baseline \\\\\n  \\midrule\n"@, rows(s, g), "  \\bottomrule\n\\end{tabular}\n\n"@, g(s[k]));
    }
}

/// Every experiment has its row in the index of artifacts.
pub proof fn every_artifact_has_its_row(exps: Seq<Experiment>, runs: Map<Seq<char>, Seq<BenchmarkRun>>, k: int)
    ensures
        0 <= k < exps.len() ==> shows(artifact_section(exps, runs), artifact_row(exps[k], runs)) && shows(artifact_index_tex(exps, runs), artifact_tex(exps[k], runs)),
{
    let s = exps;
    let f = |e: Experiment| artifact_row(e, runs);
    let g = |e: Experiment| artifact_tex(e, runs);
    if 0 <= k < s.len() {
        lemma_rows_split(s, f, k);
        lemma_rows_split(s, g, k);
        lemma_shows_between(rows(s.take(k), f), f(s[k]), rows_from(s, f, k + 1));
        lemma_shows_between(rows(s.take(k), g), g(s[k]), rows_from(s, g, k + 1));
        lemma_shows_part("## Artifact Index\n\n| Experiment | Workspace | Journal | Provenance | Checkpoints | Benchmark Report |\n|------------|-----------|---------|------------|-------------|------------------|\n"@, rows(s, f), "\n"@, f(s[k]));
        lemma_shows_part("\\section{Artifact Index}\n\n\\begin{tabular}{l l l l l l}\n  \\toprule\n  Experiment & Workspace & Journal & Provenance & Checkpoints & Benchmark Report \\\\\n  \\midrule\n"@, rows(s, g), "  \\bottomrule\n\\end{tabular}\n\n"@, g(s[k]));
    }
}

/// Every experiment has its line in the journal.
pub proof fn every_journal_has_its_row(exps: Seq<Experiment>, metric: Seq<char>, k: int)
    ensures
        0 <= k < exps.len() ==> shows(journal_section(exps, metric), journal_line(exps[k], metric)) && shows(journal_tex(exps, metric), journal_item(exps[k], metric)),
{
    let s = exps;
    let f = |e: Experiment| journal_line(e, metric);
    let g = |e: Experiment| journal_item(e, metric);
    if 0 <= k < s.len() {
        lemma_rows_split(s, f, k);
        lemma_rows_split(s, g, k);
        lemma_shows_between(rows(s.take(k), f), f(s[k]), rows_from(s, f, k + 1));
        lemma_shows_between(rows(s.take(k), g), g(s[k]), rows_from(s, g, k + 1));
        lemma_shows_part("## Campaign Journal\n\n"@, rows(s, f), "\n"@, f(s[k]));
        lemma_shows_part("\\section{Campaign Journal}\n\n\\begin{itemize}\n"@, rows(s, g), "\\end{itemize}\n\n"@, g(s[k]));
    }
}

/// Every experiment has its record, and the commit that all of them ran on is given, or said not to
/// be recorded.
pub proof fn every_experiment_has_its_record(
    template: ExperimentTemplate,
    exps: Seq<Experiment>,
    k: int,
)
    ensures
        0 <= k < exps.len() ==> shows(repro_section(template, exps), repro_line(exps[k])) && shows(
            repro_tex(template, exps),
            repro_item(exps[k]),
        ),
        template.spec.source.git.commit matches Some(c) ==> shows(
            repro_section(template, exps),
            "_Git commit: `"@ + c@ + "`_\n"@,
        ) && shows(
            repro_tex(template, exps),
            "Git commit: \\texttt{"@ + tex_escaped(c@) + "}\n"@,
        ),
        template.spec.source.git.commit is None ==> shows(
            repro_section(template, exps),
            "_Git commit: `"@ + "_not recorded_"@ + "`_\n"@,
        ),
{
    let f = |e: Experiment| repro_line(e);
    let g = |e: Experiment| repro_item(e);
    let c = text_or(template.spec.source.git.commit, "_not recorded_"@);
    let d = tex_escaped(text_or(template.spec.source.git.commit, "not recorded"@));
    lemma_commit(c, rows(exps, f), "\n"@);
    lemma_commit_tex(d, rows(exps, g), "\\end{itemize}\n\n"@);
    if 0 <= k < exps.len() {
        lemma_rows_split(exps, f, k);
        lemma_rows_split(exps, g, k);
        lemma_shows_between(rows(exps.take(k), f), f(exps[k]), rows_from(exps, f, k + 1));
        lemma_shows_between(rows(exps.take(k), g), g(exps[k]), rows_from(exps, g, k + 1));
        lemma_shows_part(
            "## Reproducibility\n\n_Git commit: `"@ + c + "`_\n\n"@,
            rows(exps, f),
            "\n"@,
            f(exps[k]),
        );
        lemma_shows_part(
            "\\section{Reproducibility}\n\nGit commit: \\texttt{"@ + d
                + "}\n\n\\begin{itemize}\n"@,
            rows(exps, g),
            "\\end{itemize}\n\n"@,
            g(exps[k]),
        );
    }
}

/// Every experiment has its numbered row in the table of experiments.
pub proof fn every_experiment_has_its_row(exps: Seq<Experiment>, metric: Seq<char>, k: int)
    requires
        0 <= k < exps.len(),
    ensures
        shows(
            experiments_section(exps, metric),
            experiment_row_text((k + 1) as nat, exps[k], metric),
        ),
        shows(experiment_table_tex(exps, metric), experiment_tex((k + 1) as nat, exps[k], metric)),
{
    lemma_experiment_rows(exps, metric, k);
    lemma_shows_part(
        "## Experiments\n\n| # | Name | Hypothesis | Parameters | Objective Value | Phase | Decision |\n|---|------|------------|------------|-----------------|-------|----------|\n"@,
        experiment_rows(exps, metric),
        "\n"@,
        experiment_row_text((k + 1) as nat, exps[k], metric),
    );
    lemma_shows_part(
        "\\section{Experiments}\n\n\\begin{tabular}{r l p{4cm} p{3.5cm} r l l}\n  \\toprule\n  \\# & Name & Hypothesis & Parameters & Objective Value & Phase & Decision \\\\\n  \\midrule\n"@,
        experiments_tex(exps, metric),
        "  \\bottomrule\n\\end{tabular}\n\n"@,
        experiment_tex((k + 1) as nat, exps[k], metric),
    );
}

proof fn lemma_experiment_rows(exps: Seq<Experiment>, metric: Seq<char>, k: int)
    requires
        0 <= k < exps.len(),
    ensures
        shows(
            experiment_rows(exps, metric),
            experiment_row_text((k + 1) as nat, exps[k], metric),
        ),
        shows(experiments_tex(exps, metric), experiment_tex((k + 1) as nat, exps[k], metric)),
    decreases exps.len(),
{
    let t = exps.drop_last();
    let a = experiment_row_text((k + 1) as nat, exps[k], metric);
    let b = experiment_tex((k + 1) as nat, exps[k], metric);
    if k < t.len() {
        lemma_experiment_rows(t, metric, k);
        lemma_shows_front(
            experiment_rows(t, metric),
            experiment_row_text(exps.len(), exps.last(), metric),
            a,
        );
        lemma_shows_front(
            experiments_tex(t, metric),
            experiment_tex(exps.len(), exps.last(), metric),
            b,
        );
    } else {
        lemma_shows_itself(a);
        lemma_shows_itself(b);
        lemma_shows_back(experiment_rows(t, metric), a, a);
        lemma_shows_back(experiments_tex(t, metric), b, b);
    }
}

/// Every reference is among the sources of the metadata, which are those of the curation, as the
/// subject is.
pub proof fn every_source_is_listed(c: &Curation, k: int)
    ensures
        crate::dossier::markdown::references_of(Some(c)) == c.references@,
        crate::dossier::markdown::references_of(None).len() == 0,
        crate::dossier::markdown::subject_of(Some(c)) == c.about,
        crate::dossier::markdown::subject_of(None) is None,
        0 <= k < c.references@.len() ==> shows(
            sources_text(c.references@),
            source_text(c.references@[k]),
        ),
        c.references@.len() == 0 ==> sources_text(c.references@).len() == 0,
{
    let s = c.references@;
    if 0 <= k < s.len() {
        let f = |r: Reference| source_text(r);
        lemma_rows_split(s, f, k);
        lemma_shows_between(rows(s.take(k), f), f(s[k]), rows_from(s, f, k + 1));
        lemma_shows_back("sources:\n"@, rows(s, f), f(s[k]));
    }
}

/// A key that can be cited is defined by itself, so that the citation finds it.
pub proof fn a_citable_key_defines_itself(key: Seq<char>)
    ensures
        (forall|i: int|
            0 <= i < key.len() ==> {
                let c = #[trigger] key[i];
                'A' <= c <= 'Z' || 'a' <= c <= 'z' || '0' <= c <= '9' || c == '_' || c == ':' || c
                    == '.' || c == '-'
            }) ==> bib_key(key) == key,
{
}

/// The LaTeX document shows every role that occurs too, and the drawing between its brackets.
pub proof fn every_role_is_shown_in_latex(exps: Seq<Experiment>, role: DerivationRelation)
    requires
        role_count(exps, role) > 0,
        forest(exps).len() > 0,
        grounded(exps),
    ensures
        shows(
            tree_tex(exps),
            tex_escaped(role.named() + ": "@ + decimal(role_count(exps, role))),
        ),
        shows(tree_tex(exps), all_drawn_tex(forest(exps), Seq::empty())),
{
    let parts = role_parts(exps);
    let piece = role.named() + ": "@ + decimal(role_count(exps, role));
    let one = role_part(exps, role);
    assert(one.len() == 1 && one[0] == piece);
    lemma_role_part(exps, role);
    let k = choose|k: int| 0 <= k < parts.len() && parts[k] == piece;
    let escaped = all_escaped(parts);
    assert(escaped[k] == tex_escaped(piece));
    lemma_shows_itself(tex_escaped(piece));
    lemma_shows_joined(escaped, " \\textperiodcentered{} "@, k, tex_escaped(piece));
    let drawn = all_drawn_tex(forest(exps), Seq::empty());
    let list = joined(escaped, " \\textperiodcentered{} "@);
    lemma_shows_part("\\textbf{Node roles:} "@, list, "\n\n"@, tex_escaped(piece));
    lemma_tree_tex(
        "\\section{Search Tree}\n\n"@,
        "\\begin{flushleft}\n"@,
        drawn,
        "\\end{flushleft}\n\n"@,
        roles_tex(exps),
        tex_escaped(piece),
    );
}

proof fn lemma_tree_tex(
    title: Seq<char>,
    open: Seq<char>,
    drawn: Seq<char>,
    close: Seq<char>,
    roles: Seq<char>,
    piece: Seq<char>,
)
    requires
        shows(roles, piece),
    ensures
        shows(title + (open + drawn + close + roles), piece),
        shows(title + (open + drawn + close + roles), drawn),
{
    lemma_shows_back(open + drawn + close, roles, piece);
    lemma_shows_back(title, open + drawn + close + roles, piece);
    lemma_shows_between(open, drawn, close);
    lemma_shows_front(open + drawn + close, roles, drawn);
    lemma_shows_back(title, open + drawn + close + roles, drawn);
}

proof fn lemma_commit(c: Seq<char>, r: Seq<char>, e: Seq<char>)
    ensures
        shows("## Reproducibility\n\n_Git commit: `"@ + c + "`_\n\n"@ + r + e, "_Git commit: `"@ + c + "`_\n"@),
{
    assert("## Reproducibility\n\n_Git commit: `"@ =~= "## Reproducibility\n\n"@ + "_Git commit: `"@) by {
        reveal_strlit("## Reproducibility\n\n_Git commit: `");
        reveal_strlit("## Reproducibility\n\n");
        reveal_strlit("_Git commit: `");
    }
    assert("`_\n\n"@ =~= "`_\n"@ + "\n"@) by {
        reveal_strlit("`_\n\n");
        reveal_strlit("`_\n");
        reveal_strlit("\n");
    }
    lemma_shows_enclosed(Seq::<char>::empty(), "## Reproducibility\n\n"@, "_Git commit: `"@, c, "`_\n"@, "\n"@);
    assert(Seq::<char>::empty() + "## Reproducibility\n\n_Git commit: `"@ =~= "## Reproducibility\n\n_Git commit: `"@);
    lemma_shows_front("## Reproducibility\n\n_Git commit: `"@ + c + "`_\n\n"@, r, "_Git commit: `"@ + c + "`_\n"@);
    lemma_shows_front("## Reproducibility\n\n_Git commit: `"@ + c + "`_\n\n"@ + r, e, "_Git commit: `"@ + c + "`_\n"@);
}

proof fn lemma_commit_tex(c: Seq<char>, r: Seq<char>, e: Seq<char>)
    ensures
        shows("\\section{Reproducibility}\n\nGit commit: \\texttt{"@ + c + "}\n\n\\begin{itemize}\n"@ + r + e, "Git commit: \\texttt{"@ + c + "}\n"@),
{
    assert("\\section{Reproducibility}\n\nGit commit: \\texttt{"@ =~= "\\section{Reproducibility}\n\n"@ + "Git commit: \\texttt{"@) by {
        reveal_strlit("\\section{Reproducibility}\n\nGit commit: \\texttt{");
        reveal_strlit("\\section{Reproducibility}\n\n");
        reveal_strlit("Git commit: \\texttt{");
    }
    assert("}\n\n\\begin{itemize}\n"@ =~= "}\n"@ + "\n\\begin{itemize}\n"@) by {
        reveal_strlit("}\n\n\\begin{itemize}\n");
        reveal_strlit("}\n");
        reveal_strlit("\n\\begin{itemize}\n");
    }
    lemma_shows_enclosed(Seq::<char>::empty(), "\\section{Reproducibility}\n\n"@, "Git commit: \\texttt{"@, c, "}\n"@, "\n\\begin{itemize}\n"@);
    assert(Seq::<char>::empty() + "\\section{Reproducibility}\n\nGit commit: \\texttt{"@ =~= "\\section{Reproducibility}\n\nGit commit: \\texttt{"@);
    lemma_shows_front("\\section{Reproducibility}\n\nGit commit: \\texttt{"@ + c + "}\n\n\\begin{itemize}\n"@, r, "Git commit: \\texttt{"@ + c + "}\n"@);
    lemma_shows_front("\\section{Reproducibility}\n\nGit commit: \\texttt{"@ + c + "}\n\n\\begin{itemize}\n"@ + r, e, "Git commit: \\texttt{"@ + c + "}\n"@);
}

} // verus!

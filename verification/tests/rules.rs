use athena::calendar::{civil_from_days, floor_div, floor_mod, fmt_ms};
use athena::dossier::citations::{extract_citation_keys, is_key_char, tex_body_with_cites};
use athena::dossier::compose::{group_runs, in_creation_order};
use athena::dossier::escape::{md_cell, tex_escape};
use athena::dossier::forest::lineage_is_grounded;
use athena::dossier::sensitivity::{figure, most_varied};
use athena::dossier::{
    build_forest, campaign_selector, cites_to_footnotes, compose, curate, data_cutoff, link_warnings,
    okf_check, render_latex, yaml_scalar, Curation,
};
use athena::experiment::{
    DerivationRelation, Experiment, ExperimentCondition, ExperimentLineage, ExperimentPhase,
    ExperimentSpec, ExperimentStatus, ParameterDelta,
};
use athena::experiment_template::{
    ExperimentTemplate, ExperimentTemplateSpec, GitSource, MetricsSpec, ObjectiveGoal,
    ObjectiveSpec, SourceSpec,
};
use athena::json::{Json, Number};
use athena::meta::{ObjectMeta, Time};
use athena::number::{fmt_f64_opt, Real};
use athena::numeral::{decimal_of, padded_of, parse_i64, signed_of, wide_decimal_of};
use athena::research_campaign::{
    CampaignBudget, ResearchCampaign, ResearchCampaignSpec, StrategySpec,
};
use athena::research_report::{Reference, ReportSubject, ResearchReportSpec};
use athena::text::{
    contains, find, is_whitespace, join, less, lines, strip_prefix, trim, words,
};
use athena::textmap::TextMap;
use athena::textset::TextSet;

fn float(v: f64) -> Real {
    let bits = v.abs().to_bits() as i64;
    Real {
        rank: if v.is_sign_negative() { -bits - 1 } else { bits },
        text: format!("{v}"),
        fixed1: format!("{v:.1}"),
        fixed2: format!("{v:.2}"),
        fixed3: format!("{v:.3}"),
        fixed4: format!("{v:.4}"),
    }
}

fn num(v: f64) -> Json {
    Json::Number(Number { text: format!("{v:?}"), float: float(v), integer: None })
}

fn child(name: &str, parent: Option<&str>) -> Experiment {
    Experiment {
        metadata: ObjectMeta { name: Some(name.to_string()), ..Default::default() },
        spec: ExperimentSpec {
            campaign_ref: "camp".into(),
            hypothesis: "h".into(),
            parameters: TextMap::new(),
            patch: None,
            checkpoint_policy: None,
            lineage: parent.map(|p| ExperimentLineage {
                relation: DerivationRelation::Perturb,
                parent: Some(p.to_string()),
                parent_uid: None,
                generation: Some(1),
                strategy: None,
                perturbations: vec![ParameterDelta {
                    param: "lr".into(),
                    from: Some(float(1.0)),
                    to: float(2.0),
                    factor: None,
                }],
                salt: None,
            }),
            env: vec![],
        },
        status: None,
    }
}

fn measured(name: &str, lr: f64, bpb: f64) -> Experiment {
    let mut e = child(name, None);
    e.spec.parameters = TextMap::of(vec![("lr".to_string(), num(lr))]);
    e.status = Some(ExperimentStatus {
        phase: ExperimentPhase::Succeeded,
        metrics: TextMap::of(vec![("bpb".to_string(), num(bpb))]),
        ..Default::default()
    });
    e
}

fn campaign() -> ResearchCampaign {
    ResearchCampaign {
        metadata: ObjectMeta { name: Some("camp".into()), ..Default::default() },
        spec: ResearchCampaignSpec {
            template_ref: "tmpl".into(),
            concurrency: 1,
            budget: CampaignBudget { max_experiments: 10, max_duration: "1h".into() },
            strategy: StrategySpec { strategy_type: "heuristic".into() },
            benchmark_suite_ref: None,
            benchmark_runtime_profile_ref: None,
            population_size: None,
            perturb_factor: None,
            inference_mesh: None,
            inference_cluster: None,
            canary: None,
        },
        status: None,
    }
}

fn template() -> ExperimentTemplate {
    ExperimentTemplate {
        metadata: ObjectMeta::default(),
        spec: ExperimentTemplateSpec {
            runtime_profile_ref: "rp".into(),
            source: SourceSpec {
                git: GitSource { url: "u".into(), git_ref: "main".into(), commit: None },
            },
            objective: ObjectiveSpec { metric: "bpb".into(), goal: ObjectiveGoal::Minimize },
            metrics: MetricsSpec::default(),
            parameter_schema: TextMap::new(),
            defaults: TextMap::new(),
            dashboard: None,
            research_objective: None,
        },
        status: None,
    }
}

fn spec(included: Vec<&str>, excluded: Vec<&str>, about: Option<(&str, &str)>) -> ResearchReportSpec {
    ResearchReportSpec {
        campaign_ref: "camp".into(),
        title: None,
        included_experiments: included.into_iter().map(String::from).collect(),
        excluded_experiments: excluded.into_iter().map(String::from).collect(),
        sections: TextMap::new(),
        seeded_hypotheses: vec![],
        references: vec![],
        about: about.map(|(kind, name)| ReportSubject {
            kind: kind.into(),
            name: name.into(),
            motivation: None,
        }),
    }
}

#[test]
fn footnotes_leave_no_citation_behind() {
    let text = "a [@x] b [@y-z] c [@] d [@open";
    assert_eq!(extract_citation_keys(text), vec!["x".to_string(), "y-z".to_string()]);
    let out = cites_to_footnotes(text);
    assert_eq!(out, "a [^x] b [^y-z] c [@] d [@open");
    assert!(extract_citation_keys(&out).is_empty());
    assert_eq!(cites_to_footnotes(&out), out);
    assert!(is_key_char('_') && !is_key_char(']') && !is_key_char(' '));
}

#[test]
fn latex_text_is_escaped_around_its_citations() {
    assert_eq!(tex_body_with_cites("50% [@x] #1"), "50\\% \\cite{x} \\#1");
    assert_eq!(tex_body_with_cites("none"), "none");
    let (a, b) = ("50% [@x]", "_ and [@y_z]");
    assert_eq!(
        tex_body_with_cites(&format!("{a}{b}")),
        tex_body_with_cites(a) + &tex_body_with_cites(b)
    );
}

#[test]
fn cells_scalars_and_latex_are_escaped() {
    assert_eq!(md_cell("a|b\nc\r"), "a\\|b c ");
    assert!(!md_cell("x\ny|z").contains('\n'));
    assert_eq!(yaml_scalar("a \"b\" \\ c: #d"), "\"a \\\"b\\\" \\\\ c: #d\"");
    assert_eq!(
        tex_escape("&%$#_{}~^\\"),
        "\\&\\%\\$\\#\\_\\{\\}\\~{}\\^{}\\textbackslash{}"
    );
}

#[test]
fn links_are_warned_about_and_never_refused() {
    let doc = "---\ntype: X\n---\nsee [^a] and https:// and gs://b/c\n\n[^b]: t\n";
    assert!(okf_check(doc).ok());
    let w = link_warnings(doc);
    assert_eq!(w.len(), 2);
    assert!(w.iter().any(|x| x.contains("[^a]")));
    assert!(w.iter().any(|x| x.contains("malformed URI")));
    assert_eq!(
        link_warnings("[^a] see [b]: x"),
        vec!["link-target: citation [^a] has no matching source definition".to_string()]
    );
    assert!(link_warnings("  [^a]: x\nsee [^a]").is_empty());
    // A mark with a colon behind it cites nothing.
    assert!(link_warnings("> [^a]: x").is_empty());
    assert_eq!(link_warnings("> [^a]: x [^b] y").len(), 1);
}

#[test]
fn a_quoted_empty_type_is_empty() {
    for value in ["''", "\"\"", ""] {
        let doc = format!("---\ntype: {value}\n---\nbody");
        assert!(okf_check(&doc).violations.iter().any(|v| v.ends_with("(empty)")), "{value}");
    }
    for value in ["'X'", "\"X\"", "\"'\"", "'\"'", "'", "''''"] {
        assert!(okf_check(&format!("---\ntype: {value}\n---\nbody")).ok(), "{value}");
    }
}

#[test]
fn the_forest_holds_every_experiment_once() {
    let exps = vec![
        child("root", Some("before")),
        child("a", Some("root")),
        child("b", Some("root")),
        child("a1", Some("a")),
        child("lost", Some("gone")),
        child("unrelated", None),
    ];
    let refs: Vec<&Experiment> = exps.iter().collect();
    assert!(lineage_is_grounded(&refs));
    let forest = build_forest(&refs);
    assert_eq!(forest.len(), 2);
    assert_eq!(forest[0].exp.metadata.name_any(), "root");
    assert_eq!(forest[0].children.len(), 2);
    assert_eq!(forest[0].children[0].children.len(), 1);
    assert_eq!(forest[1].exp.metadata.name_any(), "lost");
}

#[test]
fn cycles_have_no_root_and_duplicates_on_one_are_not_grounded() {
    let cycle = vec![child("a", Some("b")), child("b", Some("a"))];
    let refs: Vec<&Experiment> = cycle.iter().collect();
    assert!(lineage_is_grounded(&refs));
    assert!(build_forest(&refs).is_empty());
    let twice = vec![child("a", Some("gone")), child("a", Some("a"))];
    let refs: Vec<&Experiment> = twice.iter().collect();
    assert!(!lineage_is_grounded(&refs));
}

#[test]
fn curation_includes_excludes_and_narrows() {
    let exps = vec![child("a", None), child("b", Some("a")), child("c", None)];
    let names = |s: &ResearchReportSpec| -> Vec<String> {
        curate(&exps, Some(&Curation::from_spec(s))).iter().map(|e| e.metadata.name_any()).collect()
    };
    assert_eq!(curate(&exps, None).len(), 3);
    assert_eq!(names(&spec(vec![], vec![], None)), vec!["a", "b", "c"]);
    assert_eq!(names(&spec(vec!["c", "a"], vec![], None)), vec!["a", "c"]);
    assert_eq!(names(&spec(vec!["c", "a"], vec!["a"], None)), vec!["c"]);
    assert_eq!(names(&spec(vec![], vec![], Some(("Experiment", "a")))), vec!["a", "b"]);
    assert_eq!(names(&spec(vec![], vec![], Some(("Campaign", "a")))).len(), 3);
}

#[test]
fn experiments_are_composed_oldest_first() {
    let at = |name: &str, t: Option<i64>| {
        let mut e = child(name, None);
        e.metadata.creation_timestamp = t.map(|millis| Time { millis, nanos: 0 });
        e
    };
    let exps = vec![at("new", Some(9)), at("b", None), at("old", Some(1)), at("a", None)];
    let sorted = in_creation_order(exps);
    let names: Vec<String> = sorted.iter().map(|e| e.metadata.name_any()).collect();
    assert_eq!(names.len(), 4);
    let new = names.iter().position(|n| n == "new").unwrap();
    let old = names.iter().position(|n| n == "old").unwrap();
    assert!(old < new);
    assert_eq!(names, vec!["a", "b", "old", "new"]);
}

#[test]
fn a_composed_dossier_counts_what_it_keeps() {
    let s = spec(vec![], vec!["c"], None);
    let exps = || vec![measured("a", 0.1, 2.0), measured("b", 0.2, 1.0), child("c", None)];
    assert_eq!(campaign_selector("camp"), "athena.nixlab.io/campaign=camp");
    let d = compose(
        "camp",
        "ns",
        &campaign(),
        &template(),
        exps(),
        &[],
        Some(&Curation::from_spec(&s)),
    );
    assert_eq!(d.included, 2);
    assert!(okf_check(&d.markdown).ok());
    assert!(d.markdown.contains("_Curated: 2 of 3 experiments_"));
    assert!(d.latex.ends_with("\\end{document}\n"));
    assert_eq!(compose("camp", "ns", &campaign(), &template(), exps(), &[], None).included, 3);
    assert!(group_runs(&exps(), &[]).is_empty());
}

fn latex_of(exps: &[Experiment], sections: Vec<(&str, &str)>, references: Vec<Reference>) -> String {
    let mut s = spec(vec![], vec![], None);
    s.sections =
        TextMap::of(sections.into_iter().map(|(h, t)| (h.to_string(), t.to_string())).collect());
    s.references = references;
    let mut out = String::new();
    render_latex(
        &mut out,
        "camp",
        "ns",
        &campaign(),
        &template(),
        exps,
        &TextMap::new(),
        Some(&Curation::from_spec(&s)),
    )
    .unwrap();
    out
}

fn reference(key: &str, url: Option<&str>) -> Reference {
    Reference {
        key: key.into(),
        title: "\\begin{t}".into(),
        url: url.map(String::from),
        doi: None,
        supports: None,
    }
}

#[test]
fn latex_environments_balance_whatever_is_written() {
    let exps = vec![measured("a_1", 0.1, 2.0), measured("b{", 0.2, 1.0), child("c\\end{x", Some("a_1"))];
    let count = |s: &str, w: &str| s.matches(w).count();
    for key in ["k", "\\begin{x", "\\end{x"] {
        let tex = latex_of(
            &exps,
            vec![("Limits {", "\\begin{evil [@k]")],
            vec![reference(key, Some("\\begin{u"))],
        );
        assert_eq!(count(&tex, "\\begin{"), count(&tex, "\\end{"));
    }
}

#[test]
fn keys_and_urls_are_escaped_in_latex() {
    let refs = vec![reference("a_b", Some("https://x.y/a_b?c=1&d")), reference("50%", None)];
    let tex = latex_of(&[], vec![], refs.clone());
    assert!(tex.contains("Defined but never cited: a\\_b, 50\\%."), "{tex}");
    assert!(tex.contains("\\url{https://x.y/a\\_b?c=1\\&d}"), "{tex}");
    assert!(tex.contains("\\bibitem{50\\%}"), "{tex}");
    // The label of an entry is what a citation writes.
    let cited = latex_of(&[], vec![("S", "see [@a_b] and [@c_d]")], refs);
    assert!(cited.contains("\\cite{a_b}") && cited.contains("\\bibitem{a_b}"), "{cited}");
    assert!(cited.contains("Cited but undefined: c\\_d."), "{cited}");
}

#[test]
fn the_search_tree_is_drawn_in_latex_too() {
    let exps = vec![child("r_0", Some("gone")), child("a", Some("r_0")), child("a1", Some("a"))];
    let tex = latex_of(&exps, vec![], vec![]);
    assert!(
        tex.contains(
            "\\section{Search Tree}\n\n\\begin{flushleft}\n\
             \\texttt{r\\_0 [Perturb g1] obj=-  (lr=2.0000)} \\\\\n\
             \\hspace*{1em}\\texttt{a [Perturb g1] obj=-  (lr=2.0000)} \\\\\n\
             \\hspace*{1em}\\hspace*{1em}\\texttt{a1 [Perturb g1] obj=-  (lr=2.0000)} \\\\\n\
             \\end{flushleft}\n\n\\textbf{Node roles:} Perturb: 3\n\n\\section{Results}"
        ),
        "{tex}"
    );
    let none = latex_of(&[child("x", None)], vec![], vec![]);
    assert!(none.contains("\\textit{No lineage recorded"), "{none}");
    let twice = vec![child("a", Some("gone")), child("a", Some("a"))];
    assert!(!latex_of(&twice, vec![], vec![]).contains("Search Tree"));
}

#[test]
fn the_most_varied_parameter_is_plotted_by_its_values() {
    let exps = vec![measured("a", 0.2, 1.5), measured("b", 0.1, 2.5), measured("c", 0.2, 3.5)];
    let refs: Vec<&Experiment> = exps.iter().collect();
    assert_eq!(most_varied(&refs).as_deref(), Some("lr"));
    let f = figure(&refs, "bpb");
    let first = f.find("(0.1,").unwrap();
    let second = f.find("(0.2,").unwrap();
    assert!(first < second);
    let none: Vec<&Experiment> = vec![];
    assert_eq!(most_varied(&none), None);
    assert_eq!(figure(&none, "bpb"), "");
}

#[test]
fn the_cutoff_is_the_latest_completion() {
    assert_eq!(data_cutoff(&[]), None);
    let at = |t: &str, phase: ExperimentPhase| {
        let mut e = child("e", None);
        e.status = Some(ExperimentStatus {
            phase,
            conditions: Some(vec![ExperimentCondition {
                condition_type: None,
                status: None,
                reason: None,
                message: None,
                last_transition_time: Some(t.to_string()),
            }]),
            ..Default::default()
        });
        e
    };
    let exps = vec![
        at("2026-01-02", ExperimentPhase::Succeeded),
        at("2026-03-01", ExperimentPhase::Failed),
        at("2026-02-01", ExperimentPhase::Error),
        at("2026-04-01", ExperimentPhase::Running),
        child("x", None),
    ];
    let refs: Vec<&Experiment> = exps.iter().collect();
    assert_eq!(data_cutoff(&refs).as_deref(), Some("2026-03-01"));
    for phase in [ExperimentPhase::Pending, ExperimentPhase::Preparing, ExperimentPhase::Running] {
        assert_eq!(data_cutoff(&[&at("2026-01-01T00:00:00Z", phase)]), None);
    }
}

#[test]
fn every_day_has_its_date() {
    assert_eq!(civil_from_days(0), (1970, 1, 1));
    assert_eq!(civil_from_days(-1), (1969, 12, 31));
    assert_eq!(civil_from_days(11_016), (2000, 2, 29));
    assert_eq!(civil_from_days(11_017), (2000, 3, 1));
    assert_eq!(civil_from_days(-719_468), (0, 3, 1));
    assert_eq!((floor_div(-1, 60), floor_mod(-1, 60)), (-1, 59));
    assert_eq!((floor_div(120, 60), floor_mod(120, 60)), (2, 0));
    assert_eq!(fmt_ms(&Some("-60000".into())), "1969-12-31 23:59");
    assert_eq!(fmt_ms(&Some("soon".into())), "\u{2014}");
}

#[test]
fn numbers_are_written_in_decimal() {
    assert_eq!(decimal_of(0), "0");
    assert_eq!(decimal_of(u64::MAX), "18446744073709551615");
    assert_eq!(wide_decimal_of(u128::MAX), u128::MAX.to_string());
    assert_eq!(signed_of(i64::MIN), "-9223372036854775808");
    assert_eq!(padded_of(7, 2), "07");
    assert_eq!(padded_of(1234, 2), "1234");
    assert_eq!(parse_i64("-9223372036854775808"), Some(i64::MIN));
    assert_eq!(parse_i64("9223372036854775808"), None);
    assert_eq!(parse_i64("+5"), Some(5));
    assert_eq!(parse_i64("-"), None);
    assert_eq!(parse_i64(""), None);
    assert_eq!(parse_i64("1x"), None);
    assert_eq!(fmt_f64_opt(&Some(float(1.25))), "1.2500");
}

#[test]
fn texts_are_cut_and_joined() {
    assert_eq!(trim(" \u{2003}a b\n"), "a b");
    assert_eq!(lines("a\r\nb\n\nc"), vec!["a", "b", "", "c"]);
    assert_eq!(lines(""), Vec::<String>::new());
    assert_eq!(words("  a \t b "), vec!["a", "b"]);
    assert_eq!(join(&vec!["a".to_string(), "b".to_string()], ", "), "a, b");
    assert_eq!(strip_prefix("vllm-x", "vllm-").as_deref(), Some("x"));
    assert_eq!(strip_prefix("x", "vllm-"), None);
    assert!(contains("abc", "bc") && contains("", "") && !contains("abc", "cb"));
    assert_eq!(find(&vec!['a', 'b', 'a'], &vec!['a'], 1), Some(2));
    assert!(less("a", "ab") && less("ab", "b") && !less("a", "a"));
    assert!(is_whitespace('\u{85}') && !is_whitespace('\u{200b}'));
}

#[test]
fn maps_and_sets_keep_their_keys_in_order() {
    let mut m = TextMap::of(vec![("b".to_string(), 1), ("a".to_string(), 2), ("b".to_string(), 3)]);
    assert_eq!(m.len(), 2);
    assert_eq!(m.key_at(0), "a");
    assert_eq!(m.get("b"), Some(&3));
    assert_eq!(m.remove("a"), Some(2));
    assert_eq!(m.remove("a"), None);
    m.insert("a".to_string(), 9);
    assert_eq!((m.key_at(0).as_str(), *m.value_at(0)), ("a", 9));
    let mut s = TextSet::of(&vec!["b".to_string(), "a".to_string(), "b".to_string()]);
    assert_eq!(s.to_vec(), vec!["a".to_string(), "b".to_string()]);
    assert!(!s.insert("a".to_string()) && s.insert("c".to_string()));
    assert!(s.remove("a") && !s.remove("a"));
    assert_eq!(s.at(1), "c");
}

#[test]
fn values_are_written_as_compact_json() {
    let v = Json::Object(TextMap::of(vec![
        ("b".to_string(), Json::Array(vec![Json::Null, Json::Bool(true), num(1.5)])),
        ("a\n".to_string(), Json::Text("é\u{1}\"".into())),
    ]));
    assert_eq!(v.to_text(), "{\"a\\n\":\"é\\u0001\\\"\",\"b\":[null,true,1.5]}");
    assert!(v.is_equal(&v.clone()));
    assert!(!v.is_equal(&Json::Null));
    assert!(num(0.0).is_equal(&num(-0.0)));
    assert!(!num(0.0).is_equal(&num(0.5)));
    assert!(v.walk(&vec!["b", "2"]).is_some());
    assert!(v.walk(&vec!["b", "3"]).is_none());
    assert!(v.walk(&vec!["b", "02"]).is_none());
}

#[test]
fn the_listing_order_is_forgotten() {
    let at = |name: &str, lr: f64, t: i64| {
        let mut e = measured(name, lr, 2.0);
        e.metadata.creation_timestamp = Some(Time { millis: t, nanos: 0 });
        e
    };
    let a = || at("a", 0.1, 5);
    let b = || at("b", 0.2, 5);
    let c = || at("c", 0.3, 1);
    let of = |exps: Vec<Experiment>| compose("camp", "ns", &campaign(), &template(), exps, &[], None);
    let one = of(vec![a(), b(), c()]);
    let other = of(vec![c(), b(), a()]);
    assert_eq!(one.markdown, other.markdown);
    assert_eq!(one.latex, other.latex);
    assert_eq!(one.included, other.included);
}

#[test]
fn written_numbers_read_back() {
    for n in [0, 7, -7, 1_790_262_480_000, i64::MAX, i64::MIN] {
        assert_eq!(parse_i64(&signed_of(n)), Some(n));
    }
}

use athena::benchmark_run::BenchmarkRun;
use athena::dossier::{
    build_forest, citation_check, curate, descendants_of, okf_check, render, render_latex, Curation,
};
use athena::experiment::{
    DerivationRelation, Experiment, ExperimentDecision, ExperimentLineage, ExperimentPhase,
    ExperimentSpec, ExperimentStatus,
};
use athena::experiment_template::{
    ExperimentTemplate, ExperimentTemplateSpec, GitSource, MetricsSpec, ObjectiveGoal,
    ObjectiveSpec, SourceSpec,
};
use athena::json::{Json, Number};
use athena::meta::ObjectMeta;
use athena::number::Real;
use athena::research_campaign::{
    CampaignBudget, ResearchCampaign, ResearchCampaignSpec, ResearchCampaignStatus, StrategySpec,
};
use athena::research_report::{Reference, ReportMotivation, ReportSubject};
use athena::textmap::TextMap;

fn float(v: f64) -> Real {
    let bits = v.abs().to_bits() as i64;
    Real {
        rank: if v.is_sign_negative() { -bits - 1 } else { bits },
        text: format!("{v}"),
        fixed1: format!("{v:.1}"),
        fixed2: format!("{v:.2}"),
        fixed3: format!("{v:.3}"),
        fixed4: format!("{v:.4}"),
    }
}

fn num(v: f64) -> Json {
    Json::Number(Number {
        text: format!("{v:?}"),
        float: float(v),
        integer: None,
    })
}

fn experiment(
    name: &str,
    hypothesis: &str,
    val_bpb: f64,
    decision: ExperimentDecision,
) -> Experiment {
    Experiment {
        metadata: ObjectMeta {
            name: Some(name.to_string()),
            ..Default::default()
        },
        spec: ExperimentSpec {
            campaign_ref: "camp".into(),
            hypothesis: hypothesis.into(),
            parameters: TextMap::of(vec![("lr".to_string(), num(0.001))]),
            patch: None,
            checkpoint_policy: None,
            lineage: None,
            env: vec![],
        },
        status: Some(ExperimentStatus {
            phase: ExperimentPhase::Succeeded,
            metrics: TextMap::of(vec![("val_bpb".to_string(), num(val_bpb))]),
            decision: Some(decision),
            ..Default::default()
        }),
    }
}

fn campaign() -> ResearchCampaign {
    ResearchCampaign {
        metadata: ObjectMeta {
            name: Some("camp".into()),
            ..Default::default()
        },
        spec: ResearchCampaignSpec {
            template_ref: "tmpl".into(),
            concurrency: 1,
            budget: CampaignBudget {
                max_experiments: 10,
                max_duration: "1h".into(),
            },
            strategy: StrategySpec {
                strategy_type: "heuristic".into(),
            },
            benchmark_suite_ref: None,
            benchmark_runtime_profile_ref: None,
            population_size: None,
            perturb_factor: None,
            inference_mesh: None,
            inference_cluster: None,
            canary: None,
        },
        status: Some(ResearchCampaignStatus {
            best_experiment: Some("exp-b".into()),
            best_objective: Some(float(2.10)),
            ..Default::default()
        }),
    }
}

fn template() -> ExperimentTemplate {
    ExperimentTemplate {
        metadata: ObjectMeta {
            name: Some("tmpl".into()),
            ..Default::default()
        },
        spec: ExperimentTemplateSpec {
            runtime_profile_ref: "rp".into(),
            source: SourceSpec {
                git: GitSource {
                    url: "u".into(),
                    git_ref: "main".into(),
                    commit: Some("abc123".into()),
                },
            },
            objective: ObjectiveSpec {
                metric: "val_bpb".into(),
                goal: ObjectiveGoal::Minimize,
            },
            metrics: MetricsSpec::default(),
            parameter_schema: TextMap::new(),
            defaults: TextMap::new(),
            dashboard: None,
            research_objective: Some("Can Muon beat AdamW at this scale?".into()),
        },
        status: None,
    }
}

// Uncurated render exercises every section over None-heavy status, and the
// md_cell pipe-escape must fire on a hypothesis containing '|'.
#[test]
fn render_uncurated_produces_sections_and_escapes_pipes() {
    let exps = vec![
        experiment(
            "exp-a",
            "baseline from defaults",
            2.34,
            ExperimentDecision::Discard,
        ),
        experiment(
            "exp-b",
            "perturb lr | higher is worse",
            2.10,
            ExperimentDecision::Keep,
        ),
    ];
    let runs: TextMap<Vec<&BenchmarkRun>> = TextMap::new();
    let mut doc = String::new();
    render(
        &mut doc,
        "camp",
        "research",
        &campaign(),
        &template(),
        &exps,
        &runs,
        None,
    )
    .expect("infallible");

    assert!(doc.contains("# Research Dossier: camp"), "{doc}");
    assert!(doc.contains("## Campaign Journal") && doc.contains("## Artifact Index"));
    assert!(doc.contains("exp-a") && doc.contains("exp-b"));
    assert!(doc.contains("**Best Experiment:** exp-b"));
    assert!(doc.contains("2.3400") && doc.contains("2.1000"));
    assert!(
        doc.contains("perturb lr \\| higher is worse"),
        "pipe not escaped: {doc}"
    );
}

fn with_lineage(
    mut e: Experiment,
    relation: DerivationRelation,
    parent: Option<&str>,
    generation: u32,
) -> Experiment {
    e.spec.lineage = Some(ExperimentLineage {
        relation,
        parent: parent.map(|p| p.to_string()),
        parent_uid: None,
        generation: Some(generation),
        strategy: Some("pbt".into()),
        perturbations: Vec::new(),
        salt: None,
    });
    e
}

#[test]
fn rendered_dossier_is_valid_okf() {
    let exps = vec![experiment("e", "h", 2.0, ExperimentDecision::Keep)];
    let runs: TextMap<Vec<&BenchmarkRun>> = TextMap::new();
    let mut doc = String::new();
    render(
        &mut doc,
        "camp",
        "ns",
        &campaign(),
        &template(),
        &exps,
        &runs,
        None,
    )
    .unwrap();
    let c = okf_check(&doc);
    assert!(
        c.ok(),
        "dossier must satisfy OKF hard rules: {:?}",
        c.violations
    );
    assert!(
        doc.starts_with("---\n"),
        "frontmatter must be the first line"
    );
    assert!(
        doc.contains("\ntype: Research Report\n"),
        "TYPE_REQ field missing"
    );
}

#[test]
fn frontmatter_survives_a_title_containing_yaml_metacharacters() {
    // An unquoted colon would terminate the scalar and break FM_REQ, taking
    // the whole document out of conformance because of a report title.
    let mut c = campaign();
    c.status.as_mut().unwrap().phase = Some("Completed".into());
    let exps: Vec<Experiment> = vec![];
    let runs: TextMap<Vec<&BenchmarkRun>> = TextMap::new();
    let empty: Vec<String> = vec![];
    let sections = TextMap::new();
    let refs: Vec<Reference> = vec![];
    let cur = Curation {
        title: Some("Spot: a study of #gait, \"quoted\""),
        included: &empty,
        excluded: &empty,
        sections: &sections,
        seeded_hypotheses: &empty,
        references: &refs,
        about: None,
    };
    let mut doc = String::new();
    render(
        &mut doc,
        "camp",
        "ns",
        &c,
        &template(),
        &exps,
        &runs,
        Some(&cur),
    )
    .unwrap();
    let chk = okf_check(&doc);
    assert!(chk.ok(), "{:?}\n{doc}", chk.violations);
    assert!(
        doc.contains("status: stable"),
        "completed campaign -> stable"
    );
}

#[test]
fn about_scopes_the_document_to_a_subtree() {
    // c-000 -> c-001 -> c-003 ; c-002 is a separate branch off the root.
    let exps = vec![
        with_lineage(
            experiment("c-000", "root", 1.0, ExperimentDecision::Keep),
            DerivationRelation::Baseline,
            None,
            0,
        ),
        with_lineage(
            experiment("c-001", "a", 2.0, ExperimentDecision::Keep),
            DerivationRelation::Perturb,
            Some("c-000"),
            1,
        ),
        with_lineage(
            experiment("c-002", "b", 3.0, ExperimentDecision::Keep),
            DerivationRelation::Perturb,
            Some("c-000"),
            1,
        ),
        with_lineage(
            experiment("c-003", "a2", 4.0, ExperimentDecision::Keep),
            DerivationRelation::Perturb,
            Some("c-001"),
            2,
        ),
    ];
    let sub = descendants_of(&exps, "c-001");
    assert!(sub.contains("c-001") && sub.contains("c-003"), "{sub:?}");
    assert!(
        !sub.contains("c-002"),
        "sibling branch must be excluded: {sub:?}"
    );
    assert!(!sub.contains("c-000"), "ancestor must be excluded: {sub:?}");

    let empty: Vec<String> = vec![];
    let sections = TextMap::new();
    let refs: Vec<Reference> = vec![];
    let subject = ReportSubject {
        kind: "Experiment".into(),
        name: "c-001".into(),
        motivation: Some(ReportMotivation::Assessing),
    };
    let cur = Curation {
        title: None,
        included: &empty,
        excluded: &empty,
        sections: &sections,
        seeded_hypotheses: &empty,
        references: &refs,
        about: Some(&subject),
    };
    let kept: Vec<String> = curate(&exps, Some(&cur))
        .iter()
        .map(|e| e.metadata.name_any())
        .collect();
    assert_eq!(
        kept,
        vec!["c-001".to_string(), "c-003".to_string()],
        "{kept:?}"
    );
}

#[test]
fn descendants_terminates_on_a_malformed_cycle() {
    // A cycle cannot be produced by the generator (parents are always
    // already-complete experiments), but a hand-edited object could create
    // one, and the controller must not hang on it.
    let exps = vec![
        with_lineage(
            experiment("x", "", 1.0, ExperimentDecision::Keep),
            DerivationRelation::Perturb,
            Some("y"),
            1,
        ),
        with_lineage(
            experiment("y", "", 1.0, ExperimentDecision::Keep),
            DerivationRelation::Perturb,
            Some("x"),
            1,
        ),
    ];
    let sub = descendants_of(&exps, "x");
    assert_eq!(sub.len(), 2, "must terminate and cover both: {sub:?}");
}

#[test]
fn search_tree_nests_by_lineage_and_surfaces_role_counts() {
    let exps = vec![
        with_lineage(
            experiment("c-000", "baseline", 1.0, ExperimentDecision::Keep),
            DerivationRelation::Baseline,
            None,
            0,
        ),
        with_lineage(
            experiment("c-001", "child", 2.0, ExperimentDecision::Discard),
            DerivationRelation::Perturb,
            Some("c-000"),
            1,
        ),
        with_lineage(
            experiment("c-002", "control", 3.0, ExperimentDecision::Discard),
            DerivationRelation::Remeasure,
            Some("c-000"),
            1,
        ),
    ];
    let refs: Vec<&Experiment> = exps.iter().collect();
    let forest = build_forest(&refs);
    assert_eq!(forest.len(), 1, "one root");
    assert_eq!(forest[0].children.len(), 2, "two children of the baseline");

    let runs: TextMap<Vec<&BenchmarkRun>> = TextMap::new();
    let mut doc = String::new();
    render(
        &mut doc,
        "camp",
        "ns",
        &campaign(),
        &template(),
        &exps,
        &runs,
        None,
    )
    .unwrap();
    assert!(doc.contains("## Search Tree"), "tree section missing");
    assert!(doc.contains("c-000 [Baseline"), "{doc}");
    assert!(
        doc.contains("  c-001 [Perturb"),
        "child must be indented: {doc}"
    );
    // The role census is what makes a degenerate campaign visible: v72 spent
    // 9 of 12 slots on controls and searched nothing, which a flat list hid.
    assert!(
        doc.contains("Remeasure: 1") && doc.contains("Perturb: 1"),
        "{doc}"
    );
}

#[test]
fn a_dangling_parent_becomes_a_root_rather_than_vanishing() {
    // Parent not present in the campaign (deleted, or a stale name reused).
    // The node must still appear — silently pruning a subtree would hide
    // real work from the report.
    let exps = vec![with_lineage(
        experiment("c-005", "orphan", 1.0, ExperimentDecision::Keep),
        DerivationRelation::Perturb,
        Some("c-999-missing"),
        2,
    )];
    let refs: Vec<&Experiment> = exps.iter().collect();
    let forest = build_forest(&refs);
    assert_eq!(forest.len(), 1, "orphan must surface as a root");
    assert_eq!(forest[0].exp.metadata.name_any(), "c-005");
}

#[test]
fn results_report_the_unbiased_metric_not_only_the_biased_one() {
    let exps: Vec<Experiment> = Vec::new();
    let runs: TextMap<Vec<&BenchmarkRun>> = TextMap::new();
    let mut c = campaign();
    let st = c.status.as_mut().unwrap();
    st.best_objective = Some(float(6352.0));
    st.incumbent_remeasured = Some(float(4522.0));
    st.maximization_bias = Some(float(6352.0 - 4522.0));
    st.seed_noise_sigma = Some(float(1447.0));
    st.control_runs = 9;
    let mut doc = String::new();
    render(&mut doc, "camp", "ns", &c, &template(), &exps, &runs, None).unwrap();
    assert!(doc.contains("Incumbent Re-measured"), "{doc}");
    assert!(doc.contains("Seed noise (sigma)"), "{doc}");
    // The bias must be stated, not left for the reader to compute.
    assert!(
        doc.contains("1830.0000"),
        "divergence must be rendered: {doc}"
    );
    assert!(doc.contains("NOT evidence of progress"), "{doc}");
}

#[test]
fn render_is_deterministic() {
    let exps = vec![experiment("e", "h", 2.0, ExperimentDecision::Keep)];
    let runs: TextMap<Vec<&BenchmarkRun>> = TextMap::new();
    let mut a = String::new();
    render(
        &mut a,
        "camp",
        "ns",
        &campaign(),
        &template(),
        &exps,
        &runs,
        None,
    )
    .unwrap();
    let mut b = String::new();
    render(
        &mut b,
        "camp",
        "ns",
        &campaign(),
        &template(),
        &exps,
        &runs,
        None,
    )
    .unwrap();
    assert_eq!(
        a, b,
        "render must be a pure function of inputs (no wall clock)"
    );
}

// Curation: exclude prunes an experiment, title overrides, sections + seeds
// render, and the count line reflects the filtered set.
#[test]
fn render_curated_prunes_and_splices() {
    let exps = vec![
        experiment("exp-a", "baseline", 2.34, ExperimentDecision::Discard),
        experiment("exp-b", "winner", 2.10, ExperimentDecision::Keep),
    ];
    let runs: TextMap<Vec<&BenchmarkRun>> = TextMap::new();
    let sections =
        TextMap::of(vec![("Related Work".to_string(), "Prior art on Muon.".to_string())]);
    let seeds = vec!["wider models close the gap".to_string()];
    let cur = Curation {
        title: Some("Muon vs AdamW"),
        included: &[],
        excluded: &["exp-a".to_string()],
        sections: &sections,
        seeded_hypotheses: &seeds,
        references: &[],
        about: None,
    };
    let mut doc = String::new();
    render(
        &mut doc,
        "camp",
        "research",
        &campaign(),
        &template(),
        &exps,
        &runs,
        Some(&cur),
    )
    .expect("infallible");

    assert!(doc.contains("# Muon vs AdamW"), "{doc}");
    assert!(doc.contains("_Curated: 1 of 2 experiments_"));
    assert!(
        !doc.contains("exp-a"),
        "pruned experiment must not appear: {doc}"
    );
    assert!(doc.contains("exp-b"));
    assert!(doc.contains("## Related Work") && doc.contains("Prior art on Muon."));
    assert!(doc.contains("## Seeded Hypotheses / Future Work"));
    assert!(doc.contains("wider models close the gap"));
}

// Helper: build an experiment with a specified lr value instead of the
// fixed 0.001 that `experiment()` uses.
fn experiment_lr(name: &str, hypothesis: &str, val_bpb: f64, lr: f64) -> Experiment {
    Experiment {
        metadata: ObjectMeta {
            name: Some(name.to_string()),
            ..Default::default()
        },
        spec: ExperimentSpec {
            campaign_ref: "camp".into(),
            hypothesis: hypothesis.into(),
            parameters: TextMap::of(vec![("lr".to_string(), num(lr))]),
            patch: None,
            checkpoint_policy: None,
            lineage: None,
            env: vec![],
        },
        status: Some(ExperimentStatus {
            phase: ExperimentPhase::Succeeded,
            metrics: TextMap::of(vec![("val_bpb".to_string(), num(val_bpb))]),
            decision: Some(ExperimentDecision::Keep),
            ..Default::default()
        }),
    }
}

// render_latex must produce a document with balanced \begin{}/\end{} pairs,
// the correct title, narrative sections, seeded hypotheses, and must omit
// any excluded experiment.
#[test]
fn render_latex_compiles_shape() {
    let exps = vec![
        experiment("exp-a", "baseline", 2.34, ExperimentDecision::Discard),
        experiment("exp-b", "winner", 2.10, ExperimentDecision::Keep),
    ];
    let runs: TextMap<Vec<&BenchmarkRun>> = TextMap::new();
    let sections =
        TextMap::of(vec![("Related Work".to_string(), "Prior art on Muon.".to_string())]);
    let seeds = vec!["wider models close the gap".to_string()];
    let cur = Curation {
        title: Some("Muon vs AdamW"),
        included: &[],
        excluded: &["exp-a".to_string()],
        sections: &sections,
        seeded_hypotheses: &seeds,
        references: &[],
        about: None,
    };
    let mut doc = String::new();
    render_latex(
        &mut doc,
        "camp",
        "research",
        &campaign(),
        &template(),
        &exps,
        &runs,
        Some(&cur),
    )
    .expect("infallible");

    assert!(doc.contains(r"\documentclass"), "missing preamble: {doc}");
    assert!(doc.contains(r"\end{document}"), "missing end: {doc}");
    assert!(doc.contains("Muon vs AdamW"), "title missing: {doc}");
    assert!(
        doc.contains(r"\section{Related Work}"),
        "narrative section missing: {doc}"
    );
    assert!(
        doc.contains("wider models close the gap"),
        "seeded hypothesis missing: {doc}"
    );
    assert!(
        !doc.contains("exp-a"),
        "pruned experiment must not appear: {doc}"
    );
    assert!(doc.contains("exp-b"), "included experiment missing: {doc}");

    // Every \begin{ must have a matching \end{.
    let begins = doc.matches(r"\begin{").count();
    let ends = doc.matches(r"\end{").count();
    assert_eq!(
        begins, ends,
        "unbalanced \\begin{{}} / \\end{{}} (begins={begins}, ends={ends}):\n{doc}"
    );
}

// Hypotheses with special LaTeX characters must appear only in escaped form;
// three experiments with distinct lr values must produce a pgfplots figure.
#[test]
fn render_latex_escapes_and_plots() {
    let raw_hypothesis = "test 50% & $5 #1_lr";
    let exps = vec![
        experiment_lr("exp-x", raw_hypothesis, 2.3, 0.01),
        experiment_lr("exp-y", raw_hypothesis, 2.2, 0.02),
        experiment_lr("exp-z", raw_hypothesis, 2.1, 0.04),
    ];
    let runs: TextMap<Vec<&BenchmarkRun>> = TextMap::new();
    let mut doc = String::new();
    render_latex(
        &mut doc,
        "camp",
        "research",
        &campaign(),
        &template(),
        &exps,
        &runs,
        None,
    )
    .expect("infallible");

    // Raw special-char substring must not survive into the output.
    assert!(
        !doc.contains("50% & $5"),
        "raw special chars must not appear unescaped: {doc}"
    );
    // Their escaped equivalents must be present.
    assert!(
        doc.contains(r"50\% \& \$5"),
        "escaped form must be present: {doc}"
    );

    // Sensitivity figure: lr has 3 distinct values so a plot is expected.
    assert!(
        doc.contains(r"\addplot coordinates"),
        "sensitivity figure must be emitted: {doc}"
    );
    assert!(
        doc.contains("(0.02,"),
        "lr=0.02 coordinate must appear in plot: {doc}"
    );
}

// render_latex must be a pure function of its inputs (no wall-clock).
#[test]
fn render_latex_is_deterministic() {
    let exps = vec![experiment("e", "h", 2.0, ExperimentDecision::Keep)];
    let runs: TextMap<Vec<&BenchmarkRun>> = TextMap::new();
    let mut a = String::new();
    render_latex(
        &mut a,
        "camp",
        "ns",
        &campaign(),
        &template(),
        &exps,
        &runs,
        None,
    )
    .unwrap();
    let mut b = String::new();
    render_latex(
        &mut b,
        "camp",
        "ns",
        &campaign(),
        &template(),
        &exps,
        &runs,
        None,
    )
    .unwrap();
    assert_eq!(
        a, b,
        "render_latex must be a pure function of inputs (no wall clock)"
    );
}

// citation_check must identify cited-but-undefined and defined-but-uncited keys.
#[test]
fn citation_check_finds_mismatches() {
    let sections = TextMap::of(vec![(
        "Analysis".to_string(),
        "See [@good] and also [@ghost].".to_string(),
    )]);
    let refs = vec![
        Reference {
            key: "good".into(),
            title: "Good Paper".into(),
            url: None,
            doi: None,
            supports: None,
        },
        Reference {
            key: "orphan".into(),
            title: "Orphan Paper".into(),
            url: None,
            doi: None,
            supports: None,
        },
    ];
    let check = citation_check(&sections, &refs);
    assert_eq!(check.cited_undefined, vec!["ghost".to_string()]);
    assert_eq!(check.defined_uncited, vec!["orphan".to_string()]);
}

// render() and render_latex() must handle references: markdown lists them
// and surfaces reconciliation warnings; LaTeX replaces [@key] with \cite{key}
// and emits a bibliography.
#[test]
fn render_includes_references_and_cites() {
    let exps = vec![experiment(
        "exp-a",
        "baseline",
        2.34,
        ExperimentDecision::Keep,
    )];
    let runs: TextMap<Vec<&BenchmarkRun>> = TextMap::new();
    // Sections cite [@good] (defined) and [@ghost] (undefined).
    let sections = TextMap::of(vec![(
        "Analysis".to_string(),
        "See [@good] and also [@ghost].".to_string(),
    )]);
    // References define "good" (cited) and "orphan" (never cited).
    let refs = vec![
        Reference {
            key: "good".into(),
            title: "Good Paper".into(),
            url: Some("https://example.com/good".into()),
            doi: None,
            supports: None,
        },
        Reference {
            key: "orphan".into(),
            title: "Orphan Paper".into(),
            url: None,
            doi: None,
            supports: None,
        },
    ];
    let seeds: Vec<String> = vec![];
    let cur = Curation {
        title: Some("Citation Test"),
        included: &[],
        excluded: &[],
        sections: &sections,
        seeded_hypotheses: &seeds,
        references: &refs,
        about: None,
    };

    // ── Markdown checks ───────────────────────────────────────────────────
    let mut md = String::new();
    render(
        &mut md,
        "camp",
        "research",
        &campaign(),
        &template(),
        &exps,
        &runs,
        Some(&cur),
    )
    .expect("infallible");

    assert!(md.contains("## References"), "missing ## References: {md}");
    assert!(md.contains("Good Paper"), "missing reference title: {md}");
    assert!(
        md.contains("## Citation Reconciliation"),
        "missing ## Citation Reconciliation: {md}"
    );
    assert!(
        md.contains("ghost"),
        "ghost (cited but undefined) not in reconciliation: {md}"
    );
    assert!(
        md.contains("orphan"),
        "orphan (defined but uncited) not in reconciliation: {md}"
    );

    // ── LaTeX checks ──────────────────────────────────────────────────────
    let mut tex = String::new();
    render_latex(
        &mut tex,
        "camp",
        "research",
        &campaign(),
        &template(),
        &exps,
        &runs,
        Some(&cur),
    )
    .expect("infallible");

    assert!(
        tex.contains(r"\cite{good}"),
        r"missing \cite{{good}}: {tex}"
    );
    assert!(
        tex.contains(r"\bibitem{good}"),
        r"missing \bibitem{{good}}: {tex}"
    );
    assert!(
        tex.contains("thebibliography"),
        "missing thebibliography env: {tex}"
    );
    assert!(
        !tex.contains("[@good]"),
        "literal [@good] must be replaced by \\cite in latex: {tex}"
    );
}

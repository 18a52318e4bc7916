use athena::benchmark_run::{
    BenchmarkRun, BenchmarkRunMode, BenchmarkRunOutput, BenchmarkRunPhase, BenchmarkRunSpec,
    BenchmarkRunStatus, CleanupPolicy, PromotionPolicy,
};
use athena::benchmark_suite::{
    BenchmarkIntegrityPolicy, BenchmarkReporting, BenchmarkSuite, BenchmarkSuiteSpec,
    BenchmarkSuiteStatus, BenchmarkTaxonomy, TargetRefPolicy,
};
use athena::common::{
    Budget, Condition, ConditionStatus, LocalObjectReference, MetricAggregate,
    TypedObjectReference,
};
use athena::console::records::{
    benchmark_metric_panels, experiment_metric_panels, experiment_record, format_optional,
    load_cluster_snapshot,
};
use athena::experiment::{
    Experiment, ExperimentCondition, ExperimentCost, ExperimentDecision, ExperimentLineage,
    DerivationRelation, ExperimentMetricPoint, ExperimentMetricSeries, ExperimentMetrics,
    ExperimentPhase, ExperimentSpec, ExperimentStatus,
};
use athena::experiment_template::{
    ExperimentTemplate, ExperimentTemplateSpec, GitSource, MetricsSpec, ObjectiveGoal,
    ObjectiveSpec, SourceSpec,
};
use athena::json::{Json, Number};
use athena::meta::{ObjectMeta, OwnerReference, Time};
use athena::number::Real;
use athena::research_campaign::{
    CampaignBudget, ResearchCampaign, ResearchCampaignSpec, ResearchCampaignStatus, StrategySpec,
};
use athena::research_drive::{
    CurriculumStatus, DriveLimits, DrivePhase, ProposerSpec, ResearchDrive, ResearchDriveSpec,
    ResearchDriveStatus, StageRecord, StagnationSpec, StructuralChangePolicy, TemplateProgress,
};
use athena::snapshot::{
    campaign_summary, cluster_snapshot, drive_summary, experiment_summary, run_summary, suite_summary,
    template_summary, to_ms, truncate, Job, JobStatus, Listing,
};
use athena::textmap::TextMap;

fn float(v: f64) -> Real {
    let bits = v.abs().to_bits() as i64;
    Real {
        rank: if v.is_sign_negative() { -bits - 1 } else { bits },
        text: format!("{v}"),
        fixed1: format!("{v:.1}"),
        fixed2: format!("{v:.2}"),
        fixed3: format!("{v:.3}"),
        fixed4: format!("{v:.4}"),
    }
}

fn num(v: f64) -> Json {
    Json::Number(Number { text: format!("{v:?}"), float: float(v), integer: None })
}

fn meta(name: &str) -> ObjectMeta {
    ObjectMeta {
        name: Some(name.to_string()),
        creation_timestamp: Some(Time { millis: 60_000, nanos: 0 }),
        ..Default::default()
    }
}

fn experiment(name: &str) -> Experiment {
    Experiment {
        metadata: meta(name),
        spec: ExperimentSpec {
            campaign_ref: "camp".into(),
            hypothesis: "h".into(),
            parameters: TextMap::of(vec![("mode".to_string(), Json::Text("fast".into()))]),
            patch: None,
            checkpoint_policy: None,
            lineage: None,
            env: vec![],
        },
        status: None,
    }
}

fn job(name: &str, start: i64, end: Option<i64>) -> Job {
    Job {
        metadata: meta(name),
        status: Some(JobStatus {
            start_time: Some(Time { millis: start, nanos: 0 }),
            completion_time: end.map(|millis| Time { millis, nanos: 0 }),
        }),
    }
}

fn campaign(name: &str, template: &str) -> ResearchCampaign {
    ResearchCampaign {
        metadata: meta(name),
        spec: ResearchCampaignSpec {
            template_ref: template.into(),
            concurrency: 1,
            budget: CampaignBudget { max_experiments: 10, max_duration: "1h".into() },
            strategy: StrategySpec { strategy_type: "heuristic".into() },
            benchmark_suite_ref: None,
            benchmark_runtime_profile_ref: None,
            population_size: None,
            perturb_factor: None,
            inference_mesh: None,
            inference_cluster: None,
            canary: None,
        },
        status: None,
    }
}

fn template(name: &str) -> ExperimentTemplate {
    ExperimentTemplate {
        metadata: meta(name),
        spec: ExperimentTemplateSpec {
            runtime_profile_ref: "rp".into(),
            source: SourceSpec {
                git: GitSource { url: "u".into(), git_ref: "main".into(), commit: None },
            },
            objective: ObjectiveSpec { metric: "bpb".into(), goal: ObjectiveGoal::Minimize },
            metrics: MetricsSpec::default(),
            parameter_schema: TextMap::new(),
            defaults: TextMap::new(),
            dashboard: None,
            research_objective: None,
        },
        status: None,
    }
}

fn run(name: &str, path: Option<&str>) -> BenchmarkRun {
    BenchmarkRun {
        metadata: meta(name),
        spec: BenchmarkRunSpec {
            suite_ref: LocalObjectReference { name: "suite".into(), namespace: None },
            target_ref: TypedObjectReference {
                api_version: "v1".into(),
                kind: "Experiment".into(),
                name: "e".into(),
                namespace: None,
            },
            mode: BenchmarkRunMode::Full,
            suspend: false,
            task_selector: None,
            runtime_profile_ref: None,
            budget: Budget::default(),
            seed_matrix: None,
            output: path.map(|p| BenchmarkRunOutput { workspace_path: Some(p.into()) }),
            promotion_policy: PromotionPolicy::default(),
            cleanup_policy: CleanupPolicy::default(),
            max_parallel_tasks: None,
        },
        status: None,
    }
}

fn series(points: usize) -> ExperimentMetricSeries {
    ExperimentMetricSeries {
        tag: "t".into(),
        iteration: 0,
        objective: "o".into(),
        goal: "g".into(),
        points: (0..points)
            .map(|_| ExperimentMetricPoint { name: "p".into(), value: float(1.0), step: None })
            .collect(),
    }
}

#[test]
fn times_are_written_as_epoch_millis() {
    assert_eq!(to_ms(&None), None);
    assert_eq!(to_ms(&Some(Time { millis: -5, nanos: 3 })).as_deref(), Some("-5"));
}

#[test]
fn texts_are_truncated_by_characters() {
    assert_eq!(truncate("éab", 2), "éa");
    assert_eq!(truncate("ab", 2), "ab");
    assert_eq!(truncate("", 2), "");
    let mut e = experiment("e");
    e.spec.hypothesis = "σ".repeat(300);
    let row = experiment_summary(&e, &vec![], &vec![]);
    assert_eq!(row.hypothesis.unwrap().chars().count(), 240);
    assert_eq!(row.detail.chars().count(), 300);
}

#[test]
fn an_experiment_without_status_is_pending() {
    let row = experiment_summary(&experiment("e"), &vec![], &vec![campaign("camp", "tmpl")]);
    assert_eq!((row.namespace.as_str(), row.kind.as_str()), ("default", "experiment"));
    assert_eq!(row.phase, "Pending");
    assert_eq!(row.detail, "h");
    assert_eq!(row.template.as_deref(), Some("tmpl"));
    assert_eq!(row.mode.as_deref(), Some("fast"));
    assert_eq!(row.campaign.as_deref(), Some("camp"));
    assert_eq!(row.created_at.as_deref(), Some("60000"));
    assert_eq!(row.runtime_seconds, None);
    assert_eq!(row.started_at, None);
}

#[test]
fn the_run_window_comes_from_the_last_job_of_that_name() {
    let jobs = vec![
        job("exp-e", 1000, Some(2000)),
        job("exp-e", 5000, Some(12_999)),
        job("exp-other", 1, None),
    ];
    let row = experiment_summary(&experiment("e"), &jobs, &vec![]);
    assert_eq!(row.started_at.as_deref(), Some("5000"));
    assert_eq!(row.ended_at.as_deref(), Some("12999"));
    assert_eq!(row.runtime_seconds, Some(7));
    assert_eq!(row.template, None);
    let row = experiment_summary(&experiment("other"), &jobs, &vec![]);
    assert_eq!(row.runtime_seconds, None);
    assert_eq!(row.started_at.as_deref(), Some("1"));
}

#[test]
fn a_reported_runtime_wins_over_the_window() {
    let mut e = experiment("e");
    e.spec.lineage = Some(ExperimentLineage {
        relation: DerivationRelation::Perturb,
        parent: Some("p".into()),
        parent_uid: None,
        generation: Some(2),
        strategy: None,
        perturbations: vec![],
        salt: None,
    });
    e.status = Some(ExperimentStatus {
        phase: ExperimentPhase::Succeeded,
        decision: Some(ExperimentDecision::NeedsReview),
        message: Some("done".into()),
        cost: Some(ExperimentCost {
            estimated_usd: None,
            gpu_hours: Some(float(1.5)),
            runtime_seconds: Some(42),
        }),
        metrics_detail: Some(ExperimentMetrics {
            objective_name: Some("bpb".into()),
            objective_goal: Some("minimize".into()),
            best: Some(Json::Object(TextMap::of(vec![("bpb".to_string(), num(2.5))]))),
            ..Default::default()
        }),
        ..Default::default()
    });
    let row = experiment_summary(&e, &vec![job("exp-e", 0, Some(9000))], &vec![]);
    assert_eq!(row.runtime_seconds, Some(42));
    assert_eq!(row.phase, "Succeeded");
    assert_eq!(row.detail, "done");
    assert_eq!(row.decision.as_deref(), Some("NeedsReview"));
    assert_eq!(row.parent.as_deref(), Some("p"));
    assert_eq!(row.generation, Some(2));
    assert_eq!(row.objective.as_deref(), Some("bpb"));
    assert_eq!(row.objective_value.unwrap().text, "2.5");
    assert_eq!(row.gpu_hours.unwrap().text, "1.5");
}

#[test]
fn a_campaign_takes_its_objective_from_its_template() {
    let mut c = campaign("camp", "tmpl");
    let bare = campaign_summary(&c, &vec![]);
    assert_eq!(bare.detail, "template=tmpl");
    assert_eq!((bare.phase.as_str(), bare.objective), ("Pending", None));
    c.metadata.owner_references = Some(vec![
        OwnerReference { kind: "Other".into(), name: "x".into() },
        OwnerReference { kind: "ResearchDrive".into(), name: "gait".into() },
    ]);
    c.status = Some(ResearchCampaignStatus {
        phase: Some("Running".into()),
        running_experiments: 1,
        succeeded_experiments: 2,
        failed_experiments: 3,
        conditions: Some(vec![ExperimentCondition {
            condition_type: Some("Ready".into()),
            status: None,
            reason: None,
            message: None,
            last_transition_time: None,
        }]),
        ..Default::default()
    });
    let row = campaign_summary(&c, &vec![template("other"), template("tmpl")]);
    assert_eq!(row.detail, "running=1 succeeded=2 failed=3 best=-");
    assert_eq!(row.drive.as_deref(), Some("gait"));
    assert_eq!(row.objective.as_deref(), Some("bpb"));
    assert_eq!(row.objective_goal.as_deref(), Some("minimize"));
    assert_eq!((row.succeeded, row.failed, row.running), (Some(2), Some(3), Some(1)));
    assert_eq!(row.started_at.as_deref(), Some("60000"));
    assert_eq!(row.conditions[0].ctype, "Ready");
    assert_eq!(row.conditions[0].status, "");
}

#[test]
fn templates_suites_and_runs_have_their_rows() {
    let t = template_summary(&template("t"));
    assert_eq!(t.objective, "bpb / Minimize");
    assert_eq!(t.detail, "runtime=rp source=u");
    let suite = BenchmarkSuite {
        metadata: meta("s"),
        spec: BenchmarkSuiteSpec {
            taxonomy: BenchmarkTaxonomy::RlTraining,
            suite_version: "1".into(),
            description: None,
            suite_hash: None,
            target_ref_policy: TargetRefPolicy { allowed_kinds: vec![] },
            tasks: vec![],
            metric_sources: vec![],
            integrity: BenchmarkIntegrityPolicy::default(),
            reporting: BenchmarkReporting::default(),
        },
        status: Some(BenchmarkSuiteStatus { ready: false, ..Default::default() }),
    };
    let s = suite_summary(&suite);
    assert_eq!((s.phase.as_str(), s.detail.as_str()), ("NotReady", "RlTraining tasks=0"));
    let r = run_summary(&run("r", None));
    assert_eq!((r.phase.as_str(), r.detail.as_str()), ("Pending", "suite=suite"));
    let r = run_summary(&run("r", Some("/w")));
    assert_eq!(r.detail, "/w");
    assert_eq!(r.workspace_path.as_deref(), Some("/w"));
}

#[test]
fn a_snapshot_keeps_every_resource_in_order() {
    let snap = cluster_snapshot(&Listing {
        experiments: vec![experiment("b"), experiment("a")],
        campaigns: vec![campaign("camp", "tmpl")],
        templates: vec![template("tmpl")],
        suites: vec![],
        runs: vec![run("r", None)],
        profiles: vec![],
        jobs: vec![],
        reports: vec![],
        drives: vec![],
    });
    let names: Vec<&str> = snap.experiments.iter().map(|e| e.name.as_str()).collect();
    assert_eq!(names, vec!["b", "a"]);
    assert_eq!(snap.experiments[0].template.as_deref(), Some("tmpl"));
    assert_eq!(snap.campaigns.len(), 1);
    assert_eq!(snap.templates.len(), 1);
    assert_eq!(snap.benchmark_runs.len(), 1);
    assert!(snap.drives.is_empty());
}

#[test]
fn a_drive_shows_its_stage_and_history() {
    let mut drive = ResearchDrive {
        metadata: meta("gait"),
        spec: ResearchDriveSpec {
            domain: "d".into(),
            template_refs: vec![],
            proposer: ProposerSpec {
                endpoint: "http://p".into(),
                model: "m".into(),
                api_key_secret_ref: None,
                max_tokens: None,
                temperature: None,
                timeout_seconds: None,
            },
            limits: DriveLimits::default(),
            stagnation: StagnationSpec::default(),
            structural_change_policy: StructuralChangePolicy::default(),
            paused: false,
            curriculum: None,
        },
        status: None,
    };
    let bare = drive_summary(&drive);
    assert_eq!((bare.phase.as_str(), bare.stagnation), ("Pending", 0));
    assert!(bare.stage.is_none() && bare.stages.is_empty());
    drive.status = Some(ResearchDriveStatus {
        phase: Some(DrivePhase::NeedsHuman),
        stagnation_counter: 3,
        curriculum: Some(CurriculumStatus {
            current_stage: Some("walk".into()),
            stage_history: vec![StageRecord {
                name: "stand".into(),
                promoted_at: Some("then".into()),
                template_progress: vec![TemplateProgress {
                    template_ref: "t".into(),
                    succeeded_experiments: 2,
                    passed: true,
                    ..Default::default()
                }],
                ..Default::default()
            }],
        }),
        conditions: vec![Condition {
            condition_type: "Ready".into(),
            status: ConditionStatus::False,
            reason: None,
            message: None,
            last_transition_time: None,
        }],
        ..Default::default()
    });
    let row = drive_summary(&drive);
    assert_eq!((row.name.as_str(), row.phase.as_str(), row.stagnation), ("gait", "NeedsHuman", 3));
    assert_eq!(row.stage.as_deref(), Some("walk"));
    assert_eq!(row.stages[0].name, "stand");
    assert_eq!(row.stages[0].promoted_at.as_deref(), Some("then"));
    assert_eq!(row.stages[0].templates[0].succeeded, 2);
    assert!(row.stages[0].templates[0].passed);
    assert_eq!(row.conditions[0].status, "False");
    assert_eq!(row.conditions[0].reason, "");
}

#[test]
fn metric_panels_prefer_the_detailed_metrics() {
    let mut status = ExperimentStatus::default();
    assert!(experiment_metric_panels("ns", "e", &status).is_empty());
    status.metrics = TextMap::of(vec![
        ("d".to_string(), num(4.0)),
        ("a".to_string(), Json::Text("x \"y\"".into())),
        ("c".to_string(), Json::Bool(true)),
        ("b".to_string(), Json::Null),
    ]);
    let p = experiment_metric_panels("ns", "e", &status);
    assert_eq!(p.len(), 1);
    assert_eq!(p[0].title, "Reported metrics");
    assert_eq!(p[0].source, "ns/experiment/e");
    assert_eq!(p[0].latest, "a=\"x \\\"y\\\"\", b=null, c=true");
    assert_eq!((p[0].best.as_str(), p[0].series.as_str()), ("Not reported", "summary only"));
    status.metrics_detail = Some(ExperimentMetrics {
        latest: Some(Json::Array(vec![num(1.5), Json::Null])),
        series: vec![series(2), series(3)],
        ..Default::default()
    });
    let p = experiment_metric_panels("ns", "e", &status);
    assert_eq!(p[0].title, "Objective metrics");
    assert_eq!(p[0].objective, "objective track");
    assert_eq!(p[0].latest, "[1.5,null]");
    assert_eq!(p[0].best, "Not reported");
    assert_eq!(p[0].series, "2 series / 5 points");
    assert_eq!(p[0].status, "Pending");
}

#[test]
fn benchmark_panels_show_three_aggregates_and_the_first_best() {
    let mut status = BenchmarkRunStatus { phase: BenchmarkRunPhase::Running, ..Default::default() };
    assert!(benchmark_metric_panels("ns", "r", &status).is_empty());
    status.metric_series = vec![series(1)];
    let p = benchmark_metric_panels("ns", "r", &status);
    assert_eq!(p[0].latest, "Not reported");
    assert_eq!(p[0].best, "Not reported");
    let of = |mean: f64, count: Option<u32>| MetricAggregate {
        mean: Some(float(mean)),
        count,
        ..Default::default()
    };
    status.aggregate_metrics = TextMap::of(vec![
        ("b".to_string(), of(2.0, None)),
        ("a".to_string(), MetricAggregate { min: Some(float(0.25)), ..of(1.0, Some(4)) }),
        ("c".to_string(), MetricAggregate::default()),
        ("d".to_string(), of(9.0, None)),
    ]);
    let p = benchmark_metric_panels("ns", "r", &status);
    assert_eq!(
        p[0].latest,
        "a=mean:1.0000 count:4, b=mean:2.0000 count:n/a, c=mean:n/a count:n/a"
    );
    assert_eq!(p[0].best, "0.2500");
    assert_eq!(p[0].series, "1 series / 1 points");
    assert_eq!(p[0].status, "Running");
    assert_eq!(format_optional(&None), "n/a");
}

#[test]
fn the_console_reads_the_same_resources() {
    let e = experiment_record(&experiment("e"));
    assert_eq!((e.phase.as_str(), e.detail.as_str(), e.kind.as_str()), ("Pending", "h", "experiment"));
    let snap = load_cluster_snapshot(
        &vec![experiment("e")],
        &vec![template("t")],
        &vec![],
        &vec![run("r", Some("/w"))],
        &vec![],
    );
    assert_eq!(snap.experiments.len(), 1);
    assert_eq!(snap.templates[0].objective, "bpb / Minimize");
    assert_eq!(snap.benchmark_runs[0].workspace_path.as_deref(), Some("/w"));
}

//! What the native console knows of the cluster's resources.

use vstd::prelude::*;
use crate::benchmark_run::{BenchmarkRun, BenchmarkRunStatus};
use crate::benchmark_suite::BenchmarkSuite;
use crate::common::MetricAggregate;
use crate::dossier::parts::{or_text, text_or};
use crate::experiment::{Experiment, ExperimentMetricSeries, ExperimentMetrics, ExperimentStatus};
use crate::experiment_template::ExperimentTemplate;
use crate::json::{written, Json};
use crate::models::{manifest_name, name_manifest};
use crate::number::Real;
use crate::numeral::{decimal, decimal_of, wide_decimal_of};
use crate::runtime_profile::RuntimeProfile;
use crate::snapshot::{
    copy_text, profile_detail, profile_ready, profile_texts, readiness, run_workspace,
    suite_detail, suite_ready, suite_texts, template_summary, text_or_owned,
};
use crate::text::{join, joined};
use crate::textmap::TextMap;

verus! {

broadcast use vstd::seq_lib::group_seq_properties;

/// One snapshot of the resources that the console lists.
#[derive(Debug, Clone, Default)]
pub struct ClusterSnapshot {
    pub experiments: Vec<ResourceSummary>,
    pub templates: Vec<TemplateSummary>,
    pub benchmark_suites: Vec<ResourceSummary>,
    pub benchmark_runs: Vec<ResourceSummary>,
    pub runtime_profiles: Vec<ResourceSummary>,
}

/// One resource.
#[derive(Debug, Clone)]
pub struct ResourceSummary {
    pub namespace: String,
    pub name: String,
    pub kind: String,
    pub phase: String,
    pub detail: String,
    pub workspace_path: Option<String>,
    pub logs_link: Option<String>,
    pub metrics_link: Option<String>,
    pub metric_panels: Vec<MetricPanelSummary>,
}

/// What a resource reports of its metrics.
#[derive(Debug, Clone)]
pub struct MetricPanelSummary {
    pub title: String,
    pub source: String,
    pub objective: String,
    pub latest: String,
    pub best: String,
    pub series: String,
    pub status: String,
    pub metrics_link: Option<String>,
}

/// Which manifest a resource has.
#[derive(Debug, Clone, PartialEq, Eq)]
pub struct ResourceManifestRef {
    pub namespace: String,
    pub name: String,
    pub kind: String,
}

/// One template.
#[derive(Debug, Clone)]
pub struct TemplateSummary {
    pub namespace: String,
    pub name: String,
    pub objective: String,
    pub detail: String,
}

/// The reference is to the resource.
pub open spec fn refers_to(m: ResourceManifestRef, r: ResourceSummary) -> bool {
    &&& m.namespace@ == r.namespace@
    &&& m.name@ == r.name@
    &&& m.kind@ == r.kind@
}

impl ResourceSummary {
    /// Which manifest the resource has.
    pub fn manifest_ref(&self) -> (r: ResourceManifestRef)
        ensures
            r == (ResourceManifestRef {
                namespace: self.namespace,
                name: self.name,
                kind: self.kind,
            }),
            refers_to(r, *self),
    {
        ResourceManifestRef {
            namespace: self.namespace.clone(),
            name: self.name.clone(),
            kind: self.kind.clone(),
        }
    }
}

impl ResourceManifestRef {
    /// `k8s://<ns>/<kind>/<name>.yaml`.
    pub fn manifest_path(&self) -> (r: String)
        ensures
            r@ == manifest_name(self.namespace@, self.kind@, self.name@),
    {
        name_manifest(self.namespace.as_str(), self.kind.as_str(), self.name.as_str())
    }
}

// ---------------------------------------------------------------------------
// Metric panels
// ---------------------------------------------------------------------------

/// How many points the series have together.
pub open spec fn points_in(series: Seq<ExperimentMetricSeries>) -> nat
    decreases series.len(),
{
    if series.len() == 0 {
        0
    } else {
        points_in(series.drop_last()) + series.last().points@.len()
    }
}

/// How many series there are, and how many points.
pub open spec fn series_text(series: Seq<ExperimentMetricSeries>) -> Seq<char> {
    decimal(series.len()) + " series / "@ + decimal(points_in(series)) + " points"@
}

fn count_points(series: &Vec<ExperimentMetricSeries>) -> (r: u128)
    ensures
        r == points_in(series@),
{
    let mut n: u128 = 0;
    let mut i: usize = 0;
    while i < series.len()
        invariant
            i <= series.len(),
            n == points_in(series@.take(i as int)),
            n <= i * usize::MAX,
        decreases series.len() - i,
    {
        assert(series@.take(i + 1).drop_last() =~= series@.take(i as int));
        proof {
            assert((i + 1) * usize::MAX == i * usize::MAX + usize::MAX) by (nonlinear_arith);
            assert((i + 1) * usize::MAX <= usize::MAX * usize::MAX) by (nonlinear_arith)
                requires
                    i + 1 <= usize::MAX,
            ;
            assert(usize::MAX * usize::MAX <= u128::MAX) by (nonlinear_arith)
                requires
                    usize::MAX <= 0xffff_ffff_ffff_ffff,
            ;
        }
        n = n + series[i].points.len() as u128;
        i = i + 1;
    }
    assert(series@.take(i as int) =~= series@);
    n
}

fn series_str(series: &Vec<ExperimentMetricSeries>) -> (r: String)
    ensures
        r@ == series_text(series@),
{
    let mut s = decimal_of(series.len() as u64);
    s.append(" series / ");
    s.append(wide_decimal_of(count_points(series)).as_str());
    s.append(" points");
    s
}

/// A value as text, where there is one.
pub open spec fn value_or_missing(v: Option<Json>) -> Seq<char> {
    match v {
        Some(j) => written(j),
        None => "Not reported"@,
    }
}

/// A value as text, where there is one.
pub fn value_text(v: &Option<Json>) -> (r: String)
    ensures
        r@ == value_or_missing(*v),
{
    match v {
        Some(j) => j.to_text(),
        None => "Not reported".to_owned(),
    }
}

/// The panel that shows the metrics of an experiment in detail.
pub open spec fn is_detail_panel(
    namespace: Seq<char>,
    name: Seq<char>,
    status: ExperimentStatus,
    m: ExperimentMetrics,
    p: MetricPanelSummary,
) -> bool {
    &&& p.title@ == text_or(m.objective_name, "Objective metrics"@)
    &&& p.source@ == namespace + "/experiment/"@ + name
    &&& p.objective@ == text_or(m.objective_name, "objective"@) + " "@ + text_or(
        m.objective_goal,
        "track"@,
    )
    &&& p.latest@ == value_or_missing(m.latest)
    &&& p.best@ == value_or_missing(m.best)
    &&& p.series@ == series_text(m.series@)
    &&& p.status@ == status.phase.named()
    &&& p.metrics_link == status.metrics_link
}

/// The first metrics of a status, at most three.
pub open spec fn first_metrics(entries: Seq<(Seq<char>, Json)>) -> Seq<Seq<char>> {
    entries.take(if entries.len() < 3 {
        entries.len() as int
    } else {
        3
    }).map_values(|e: (Seq<char>, Json)| e.0 + "="@ + written(e.1))
}

/// The panel that shows the metrics of an experiment as its status lists them.
pub open spec fn is_summary_panel(
    namespace: Seq<char>,
    name: Seq<char>,
    status: ExperimentStatus,
    p: MetricPanelSummary,
) -> bool {
    &&& p.title@ == "Reported metrics"@
    &&& p.source@ == namespace + "/experiment/"@ + name
    &&& p.objective@ == "status.metrics"@
    &&& p.latest@ == joined(first_metrics(status.metrics.entries()), ", "@)
    &&& p.best@ == "Not reported"@
    &&& p.series@ == "summary only"@
    &&& p.status@ == status.phase.named()
    &&& p.metrics_link == status.metrics_link
}

/// The panels of an experiment: its metrics in detail, else as its status lists them, else
/// none.
pub open spec fn are_experiment_panels(
    namespace: Seq<char>,
    name: Seq<char>,
    status: ExperimentStatus,
    panels: Seq<MetricPanelSummary>,
) -> bool {
    match status.metrics_detail {
        Some(m) => panels.len() == 1 && is_detail_panel(namespace, name, status, m, panels[0]),
        None => if status.metrics.entries().len() == 0 {
            panels.len() == 0
        } else {
            panels.len() == 1 && is_summary_panel(namespace, name, status, panels[0])
        },
    }
}

fn source_text(namespace: &str, kind: &str, name: &str) -> (r: String)
    ensures
        r@ == namespace@ + kind@ + name@,
{
    let mut s = namespace.to_owned();
    s.append(kind);
    s.append(name);
    s
}

fn first_metric_texts(metrics: &TextMap<Json>) -> (r: Vec<String>)
    ensures
        r.deep_view() == first_metrics(metrics.entries()),
{
    let ghost all = first_metrics(metrics.entries());
    let n: usize = if metrics.len() < 3 {
        metrics.len()
    } else {
        3
    };
    let mut out: Vec<String> = Vec::new();
    let mut i: usize = 0;
    while i < n
        invariant
            i <= n,
            n <= metrics.entries().len(),
            n == all.len(),
            all == first_metrics(metrics.entries()),
            out.deep_view() == all.take(i as int),
        decreases n - i,
    {
        let ghost before = out.deep_view();
        let mut s = metrics.key_at(i).clone();
        s.append("=");
        s.append(metrics.value_at(i).to_text().as_str());
        out.push(s);
        assert(out.deep_view() =~= before.push(s@));
        assert(all[i as int] == s@);
        assert(before.push(s@) =~= all.take(i + 1));
        i = i + 1;
    }
    assert(all.take(i as int) =~= all);
    out
}

/// The metric panels of an experiment.
pub fn experiment_metric_panels(namespace: &str, name: &str, status: &ExperimentStatus) -> (r: Vec<
    MetricPanelSummary,
>)
    ensures
        are_experiment_panels(namespace@, name@, *status, r@),
{
    let mut panels: Vec<MetricPanelSummary> = Vec::new();
    if let Some(m) = &status.metrics_detail {
        let mut objective = text_or_owned(&m.objective_name, "objective");
        objective.append(" ");
        objective.append(or_text(&m.objective_goal, "track"));
        panels.push(
            MetricPanelSummary {
                title: text_or_owned(&m.objective_name, "Objective metrics"),
                source: source_text(namespace, "/experiment/", name),
                objective,
                latest: value_text(&m.latest),
                best: value_text(&m.best),
                series: series_str(&m.series),
                status: status.phase.label().to_owned(),
                metrics_link: copy_text(&status.metrics_link),
            },
        );
        return panels;
    }
    if !status.metrics.is_empty() {
        panels.push(
            MetricPanelSummary {
                title: "Reported metrics".to_owned(),
                source: source_text(namespace, "/experiment/", name),
                objective: "status.metrics".to_owned(),
                latest: join(&first_metric_texts(&status.metrics), ", "),
                best: "Not reported".to_owned(),
                series: "summary only".to_owned(),
                status: status.phase.label().to_owned(),
                metrics_link: copy_text(&status.metrics_link),
            },
        );
    }
    panels
}

/// A number with four digits after the point, where there is one.
pub open spec fn fixed4_or_na(v: Option<Real>) -> Seq<char> {
    match v {
        Some(x) => x.fixed4@,
        None => "n/a"@,
    }
}

/// A number with four digits after the point, where there is one.
pub fn format_optional(value: &Option<Real>) -> (r: String)
    ensures
        r@ == fixed4_or_na(*value),
{
    match value {
        Some(x) => x.fixed4.clone(),
        None => "n/a".to_owned(),
    }
}

/// An aggregate as the panel lists it.
pub open spec fn aggregate_text(e: (Seq<char>, MetricAggregate)) -> Seq<char> {
    e.0 + "=mean:"@ + fixed4_or_na(e.1.mean) + " count:"@ + (match e.1.count {
        Some(c) => decimal(c as nat),
        None => "n/a"@,
    })
}

/// The first aggregates of a status, at most three.
pub open spec fn first_aggregates(entries: Seq<(Seq<char>, MetricAggregate)>) -> Seq<Seq<char>> {
    entries.take(if entries.len() < 3 {
        entries.len() as int
    } else {
        3
    }).map_values(|e: (Seq<char>, MetricAggregate)| aggregate_text(e))
}

/// The number that an aggregate is best shown by: its maximum, its minimum, or its mean.
pub open spec fn best_number(a: MetricAggregate) -> Option<Real> {
    match a.max {
        Some(x) => Some(x),
        None => match a.min {
            Some(x) => Some(x),
            None => a.mean,
        },
    }
}

/// The best number of the first aggregate.
pub open spec fn best_text(entries: Seq<(Seq<char>, MetricAggregate)>) -> Seq<char> {
    if entries.len() == 0 {
        "Not reported"@
    } else {
        match best_number(entries[0].1) {
            Some(x) => x.fixed4@,
            None => "Not reported"@,
        }
    }
}

/// The panel that shows the aggregates of a run.
pub open spec fn is_aggregate_panel(
    namespace: Seq<char>,
    name: Seq<char>,
    status: BenchmarkRunStatus,
    p: MetricPanelSummary,
) -> bool {
    let entries = status.aggregate_metrics.entries();
    &&& p.title@ == "Benchmark aggregates"@
    &&& p.source@ == namespace + "/benchmarkrun/"@ + name
    &&& p.objective@ == "aggregateMetrics"@
    &&& p.latest@ == (if entries.len() == 0 {
        "Not reported"@
    } else {
        joined(first_aggregates(entries), ", "@)
    })
    &&& p.best@ == best_text(entries)
    &&& p.series@ == series_text(status.metric_series@)
    &&& p.status@ == status.phase.named()
    &&& p.metrics_link == status.metrics_link
}

/// The panels of a run: one where it has aggregates or series.
pub open spec fn are_benchmark_panels(
    namespace: Seq<char>,
    name: Seq<char>,
    status: BenchmarkRunStatus,
    panels: Seq<MetricPanelSummary>,
) -> bool {
    if status.aggregate_metrics.entries().len() == 0 && status.metric_series@.len() == 0 {
        panels.len() == 0
    } else {
        panels.len() == 1 && is_aggregate_panel(namespace, name, status, panels[0])
    }
}

fn first_aggregate_texts(metrics: &TextMap<MetricAggregate>) -> (r: Vec<String>)
    ensures
        r.deep_view() == first_aggregates(metrics.entries()),
{
    let ghost all = first_aggregates(metrics.entries());
    let n: usize = if metrics.len() < 3 {
        metrics.len()
    } else {
        3
    };
    let mut out: Vec<String> = Vec::new();
    let mut i: usize = 0;
    while i < n
        invariant
            i <= n,
            n <= metrics.entries().len(),
            n == all.len(),
            all == first_aggregates(metrics.entries()),
            out.deep_view() == all.take(i as int),
        decreases n - i,
    {
        let ghost before = out.deep_view();
        let a = metrics.value_at(i);
        let mut s = metrics.key_at(i).clone();
        s.append("=mean:");
        s.append(format_optional(&a.mean).as_str());
        s.append(" count:");
        match a.count {
            Some(c) => {
                s.append(decimal_of(c as u64).as_str());
            },
            None => {
                s.append("n/a");
            },
        }
        out.push(s);
        assert(out.deep_view() =~= before.push(s@));
        assert(all[i as int] == s@);
        assert(before.push(s@) =~= all.take(i + 1));
        i = i + 1;
    }
    assert(all.take(i as int) =~= all);
    out
}

fn best_str(metrics: &TextMap<MetricAggregate>) -> (r: String)
    ensures
        r@ == best_text(metrics.entries()),
{
    if metrics.is_empty() {
        return "Not reported".to_owned();
    }
    let a = metrics.value_at(0);
    match (&a.max, &a.min, &a.mean) {
        (Some(x), _, _) => x.fixed4.clone(),
        (None, Some(x), _) => x.fixed4.clone(),
        (None, None, Some(x)) => x.fixed4.clone(),
        (None, None, None) => "Not reported".to_owned(),
    }
}

/// The metric panels of a benchmark run.
pub fn benchmark_metric_panels(namespace: &str, name: &str, status: &BenchmarkRunStatus) -> (r: Vec<
    MetricPanelSummary,
>)
    ensures
        are_benchmark_panels(namespace@, name@, *status, r@),
{
    let mut panels: Vec<MetricPanelSummary> = Vec::new();
    if status.aggregate_metrics.is_empty() && status.metric_series.len() == 0 {
        return panels;
    }
    let latest = if status.aggregate_metrics.is_empty() {
        "Not reported".to_owned()
    } else {
        join(&first_aggregate_texts(&status.aggregate_metrics), ", ")
    };
    panels.push(
        MetricPanelSummary {
            title: "Benchmark aggregates".to_owned(),
            source: source_text(namespace, "/benchmarkrun/", name),
            objective: "aggregateMetrics".to_owned(),
            latest,
            best: best_str(&status.aggregate_metrics),
            series: series_str(&status.metric_series),
            status: status.phase.label().to_owned(),
            metrics_link: copy_text(&status.metrics_link),
        },
    );
    panels
}

// ---------------------------------------------------------------------------
// The snapshot
// ---------------------------------------------------------------------------

/// What the console says of the experiment.
pub open spec fn is_experiment_record(e: Experiment, r: ResourceSummary) -> bool {
    &&& r.namespace@ == e.metadata.in_namespace()
    &&& r.name@ == e.metadata.named()
    &&& r.kind@ == "experiment"@
    &&& match e.status {
        Some(s) => {
            &&& r.phase@ == s.phase.named()
            &&& r.detail@ == text_or(s.message, e.spec.hypothesis@)
            &&& r.workspace_path == s.workspace_path
            &&& r.logs_link == s.logs_link
            &&& r.metrics_link == s.metrics_link
            &&& are_experiment_panels(
                e.metadata.in_namespace(),
                e.metadata.named(),
                s,
                r.metric_panels@,
            )
        },
        None => {
            &&& r.phase@ == "Pending"@
            &&& r.detail@ == e.spec.hypothesis@
            &&& r.workspace_path is None
            &&& r.logs_link is None
            &&& r.metrics_link is None
            &&& r.metric_panels@.len() == 0
        },
    }
}

/// The record of an experiment.
pub fn experiment_record(e: &Experiment) -> (r: ResourceSummary)
    ensures
        is_experiment_record(*e, r),
{
    let namespace = e.metadata.namespace_or_default();
    let name = e.metadata.name_any();
    let kind = "experiment".to_owned();
    match &e.status {
        Some(s) => {
            let metric_panels = experiment_metric_panels(namespace.as_str(), name.as_str(), s);
            ResourceSummary {
                namespace,
                name,
                kind,
                phase: s.phase.label().to_owned(),
                detail: text_or_owned(&s.message, e.spec.hypothesis.as_str()),
                workspace_path: copy_text(&s.workspace_path),
                logs_link: copy_text(&s.logs_link),
                metrics_link: copy_text(&s.metrics_link),
                metric_panels,
            }
        },
        None => ResourceSummary {
            namespace,
            name,
            kind,
            phase: "Pending".to_owned(),
            detail: e.spec.hypothesis.clone(),
            workspace_path: None,
            logs_link: None,
            metrics_link: None,
            metric_panels: Vec::new(),
        },
    }
}

/// What the console says of the template.
pub open spec fn is_template_record(t: ExperimentTemplate, r: TemplateSummary) -> bool {
    &&& r.namespace@ == t.metadata.in_namespace()
    &&& r.name@ == t.metadata.named()
    &&& r.objective@ == t.spec.objective.metric@ + " / "@ + t.spec.objective.goal.named()
    &&& r.detail@ == "runtime="@ + t.spec.runtime_profile_ref@ + " source="@
        + t.spec.source.git.url@
}

/// The record of a template.
pub fn template_record(t: &ExperimentTemplate) -> (r: TemplateSummary)
    ensures
        is_template_record(*t, r),
{
    let s = template_summary(t);
    TemplateSummary {
        namespace: s.namespace,
        name: s.name,
        objective: s.objective,
        detail: s.detail,
    }
}

/// A record of a resource that reports no links and no metrics.
pub open spec fn is_bare_record(
    namespace: Seq<char>,
    name: Seq<char>,
    kind: Seq<char>,
    phase: Seq<char>,
    detail: Seq<char>,
    r: ResourceSummary,
) -> bool {
    &&& r.namespace@ == namespace
    &&& r.name@ == name
    &&& r.kind@ == kind
    &&& r.phase@ == phase
    &&& r.detail@ == detail
    &&& r.workspace_path is None
    &&& r.logs_link is None
    &&& r.metrics_link is None
    &&& r.metric_panels@.len() == 0
}

/// What the console says of the suite.
pub open spec fn is_suite_record(s: BenchmarkSuite, r: ResourceSummary) -> bool {
    is_bare_record(
        s.metadata.in_namespace(),
        s.metadata.named(),
        "benchmarksuite"@,
        readiness(suite_ready(s)),
        suite_detail(s),
        r,
    )
}

/// What the console says of the profile.
pub open spec fn is_profile_record(p: RuntimeProfile, r: ResourceSummary) -> bool {
    is_bare_record(
        p.metadata.in_namespace(),
        p.metadata.named(),
        "runtimeprofile"@,
        readiness(profile_ready(p)),
        profile_detail(p),
        r,
    )
}

fn bare_record(
    namespace: String,
    name: String,
    kind: &str,
    phase: &str,
    detail: String,
) -> (r: ResourceSummary)
    ensures
        is_bare_record(namespace@, name@, kind@, phase@, detail@, r),
{
    ResourceSummary {
        namespace,
        name,
        kind: kind.to_owned(),
        phase: phase.to_owned(),
        detail,
        workspace_path: None,
        logs_link: None,
        metrics_link: None,
        metric_panels: Vec::new(),
    }
}

/// The record of a benchmark suite.
pub fn suite_record(s: &BenchmarkSuite) -> (r: ResourceSummary)
    ensures
        is_suite_record(*s, r),
{
    let (phase, detail) = suite_texts(s);
    bare_record(
        s.metadata.namespace_or_default(),
        s.metadata.name_any(),
        "benchmarksuite",
        phase,
        detail,
    )
}

/// The record of a runtime profile.
pub fn profile_record(p: &RuntimeProfile) -> (r: ResourceSummary)
    ensures
        is_profile_record(*p, r),
{
    let (phase, detail) = profile_texts(p);
    bare_record(
        p.metadata.namespace_or_default(),
        p.metadata.name_any(),
        "runtimeprofile",
        phase,
        detail,
    )
}

/// What the console says of the run.
pub open spec fn is_run_record(b: BenchmarkRun, r: ResourceSummary) -> bool {
    &&& r.namespace@ == b.metadata.in_namespace()
    &&& r.name@ == b.metadata.named()
    &&& r.kind@ == "benchmarkrun"@
    &&& r.detail@ == text_or(run_workspace(b), "suite="@ + b.spec.suite_ref.name@)
    &&& r.workspace_path == run_workspace(b)
    &&& match b.status {
        Some(s) => {
            &&& r.phase@ == s.phase.named()
            &&& r.logs_link == s.logs_link
            &&& r.metrics_link == s.metrics_link
            &&& are_benchmark_panels(
                b.metadata.in_namespace(),
                b.metadata.named(),
                s,
                r.metric_panels@,
            )
        },
        None => {
            &&& r.phase@ == "Pending"@
            &&& r.logs_link is None
            &&& r.metrics_link is None
            &&& r.metric_panels@.len() == 0
        },
    }
}

/// The record of a benchmark run.
pub fn run_record(b: &BenchmarkRun) -> (r: ResourceSummary)
    ensures
        is_run_record(*b, r),
{
    let namespace = b.metadata.namespace_or_default();
    let name = b.metadata.name_any();
    let workspace = match &b.spec.output {
        Some(o) => copy_text(&o.workspace_path),
        None => None,
    };
    let mut suite = "suite=".to_owned();
    suite.append(b.spec.suite_ref.name.as_str());
    let detail = text_or_owned(&workspace, suite.as_str());
    let mut r = bare_record(namespace, name, "benchmarkrun", "Pending", detail);
    r.workspace_path = workspace;
    if let Some(s) = &b.status {
        r.phase = s.phase.label().to_owned();
        r.logs_link = copy_text(&s.logs_link);
        r.metrics_link = copy_text(&s.metrics_link);
        r.metric_panels = benchmark_metric_panels(r.namespace.as_str(), r.name.as_str(), s);
    }
    r
}

/// The snapshot holds one record for each resource that was listed, in order.
pub open spec fn is_console_snapshot(
    experiments: Seq<Experiment>,
    templates: Seq<ExperimentTemplate>,
    suites: Seq<BenchmarkSuite>,
    runs: Seq<BenchmarkRun>,
    profiles: Seq<RuntimeProfile>,
    s: ClusterSnapshot,
) -> bool {
    &&& s.experiments@.len() == experiments.len()
    &&& forall|i: int|
        0 <= i < experiments.len() ==> is_experiment_record(
            experiments[i],
            #[trigger] s.experiments@[i],
        )
    &&& s.templates@.len() == templates.len()
    &&& forall|i: int|
        0 <= i < templates.len() ==> is_template_record(templates[i], #[trigger] s.templates@[i])
    &&& s.benchmark_suites@.len() == suites.len()
    &&& forall|i: int|
        0 <= i < suites.len() ==> is_suite_record(suites[i], #[trigger] s.benchmark_suites@[i])
    &&& s.benchmark_runs@.len() == runs.len()
    &&& forall|i: int|
        0 <= i < runs.len() ==> is_run_record(runs[i], #[trigger] s.benchmark_runs@[i])
    &&& s.runtime_profiles@.len() == profiles.len()
    &&& forall|i: int|
        0 <= i < profiles.len() ==> is_profile_record(
            profiles[i],
            #[trigger] s.runtime_profiles@[i],
        )
}

/// The snapshot of what was listed.
pub fn load_cluster_snapshot(
    experiments: &Vec<Experiment>,
    templates: &Vec<ExperimentTemplate>,
    suites: &Vec<BenchmarkSuite>,
    runs: &Vec<BenchmarkRun>,
    profiles: &Vec<RuntimeProfile>,
) -> (r: ClusterSnapshot)
    ensures
        is_console_snapshot(experiments@, templates@, suites@, runs@, profiles@, r),
{
    let mut es: Vec<ResourceSummary> = Vec::new();
    let mut i: usize = 0;
    while i < experiments.len()
        invariant
            i <= experiments.len(),
            es@.len() == i,
            forall|k: int| 0 <= k < i ==> is_experiment_record(experiments@[k], #[trigger] es@[k]),
        decreases experiments.len() - i,
    {
        es.push(experiment_record(&experiments[i]));
        i = i + 1;
    }
    let mut ts: Vec<TemplateSummary> = Vec::new();
    i = 0;
    while i < templates.len()
        invariant
            i <= templates.len(),
            ts@.len() == i,
            forall|k: int| 0 <= k < i ==> is_template_record(templates@[k], #[trigger] ts@[k]),
        decreases templates.len() - i,
    {
        ts.push(template_record(&templates[i]));
        i = i + 1;
    }
    let mut ss: Vec<ResourceSummary> = Vec::new();
    i = 0;
    while i < suites.len()
        invariant
            i <= suites.len(),
            ss@.len() == i,
            forall|k: int| 0 <= k < i ==> is_suite_record(suites@[k], #[trigger] ss@[k]),
        decreases suites.len() - i,
    {
        ss.push(suite_record(&suites[i]));
        i = i + 1;
    }
    let mut rs: Vec<ResourceSummary> = Vec::new();
    i = 0;
    while i < runs.len()
        invariant
            i <= runs.len(),
            rs@.len() == i,
            forall|k: int| 0 <= k < i ==> is_run_record(runs@[k], #[trigger] rs@[k]),
        decreases runs.len() - i,
    {
        rs.push(run_record(&runs[i]));
        i = i + 1;
    }
    let mut ps: Vec<ResourceSummary> = Vec::new();
    i = 0;
    while i < profiles.len()
        invariant
            i <= profiles.len(),
            ps@.len() == i,
            forall|k: int| 0 <= k < i ==> is_profile_record(profiles@[k], #[trigger] ps@[k]),
        decreases profiles.len() - i,
    {
        ps.push(profile_record(&profiles[i]));
        i = i + 1;
    }
    ClusterSnapshot {
        experiments: es,
        templates: ts,
        benchmark_suites: ss,
        benchmark_runs: rs,
        runtime_profiles: ps,
    }
}

// ---------------------------------------------------------------------------
// What a snapshot says
// ---------------------------------------------------------------------------

/// An experiment is recorded as it stands: pending until something was reported, then in the
/// reported phase, with its message or its hypothesis, and with its own links.
pub proof fn an_experiment_is_recorded_as_it_stands(
    experiments: Seq<Experiment>,
    templates: Seq<ExperimentTemplate>,
    suites: Seq<BenchmarkSuite>,
    runs: Seq<BenchmarkRun>,
    profiles: Seq<RuntimeProfile>,
    s: ClusterSnapshot,
    i: int,
)
    requires
        is_console_snapshot(experiments, templates, suites, runs, profiles, s),
        0 <= i < experiments.len(),
    ensures
        ({
            let e = experiments[i];
            let r = s.experiments@[i];
            &&& r.name@ == e.metadata.named() && r.namespace@ == e.metadata.in_namespace()
            &&& r.kind@ == "experiment"@
            &&& e.status is None ==> r.phase@ == "Pending"@ && r.detail@ == e.spec.hypothesis@
                && r.workspace_path is None && r.logs_link is None && r.metrics_link is None
                && r.metric_panels@.len() == 0
            &&& e.status matches Some(t) ==> {
                &&& r.phase@ == t.phase.named()
                &&& t.message matches Some(m) ==> r.detail@ == m@
                &&& t.message is None ==> r.detail@ == e.spec.hypothesis@
                &&& r.workspace_path == t.workspace_path
                &&& r.logs_link == t.logs_link
                &&& r.metrics_link == t.metrics_link
                &&& r.metric_panels@.len() == (if t.metrics_detail is Some
                    || t.metrics.entries().len() > 0 {
                    1nat
                } else {
                    0nat
                })
            }
        }),
{
    assert(is_experiment_record(experiments[i], s.experiments@[i]));
}

/// Of detailed metrics the panel shows the latest beside the best, the objective with its goal, and
/// how many series and points there are.
pub proof fn a_panel_sets_latest_beside_best(
    namespace: Seq<char>,
    name: Seq<char>,
    status: ExperimentStatus,
    m: ExperimentMetrics,
    p: MetricPanelSummary,
)
    requires
        is_detail_panel(namespace, name, status, m, p),
    ensures
        m.latest matches Some(j) ==> p.latest@ == written(j),
        m.latest is None ==> p.latest@ == "Not reported"@,
        m.best matches Some(j) ==> p.best@ == written(j),
        m.best is None ==> p.best@ == "Not reported"@,
        m.objective_name matches Some(n) ==> p.title@ == n@,
        m.objective_name is None ==> p.title@ == "Objective metrics"@,
        m.objective_name is Some && m.objective_goal is Some ==> p.objective@
            == m.objective_name->0@ + " "@ + m.objective_goal->0@,
        m.objective_name is None && m.objective_goal is None ==> p.objective@ == "objective track"@,
        p.source@ == namespace + "/experiment/"@ + name,
        p.status@ == status.phase.named(),
        p.metrics_link == status.metrics_link,
        p.series@ == decimal(m.series@.len()) + " series / "@ + decimal(points_in(m.series@))
            + " points"@,
{
    assert("objective track"@ =~= "objective"@ + " "@ + "track"@) by {
        reveal_strlit("objective track");
        reveal_strlit("objective");
        reveal_strlit(" ");
        reveal_strlit("track");
    }
}

/// Every point of every series is counted.
pub proof fn every_point_is_counted(
    series: Seq<ExperimentMetricSeries>,
    more: ExperimentMetricSeries,
)
    ensures
        points_in(series.push(more)) == points_in(series) + more.points@.len(),
        points_in(Seq::empty()) == 0,
{
    assert(series.push(more).drop_last() =~= series);
}

/// Of plain metrics and of aggregates the first three are shown, in their order, each with its name
/// and its value.
pub proof fn the_first_three_are_shown(
    entries: Seq<(Seq<char>, Json)>,
    aggregates: Seq<(Seq<char>, MetricAggregate)>,
    i: int,
)
    ensures
        first_metrics(entries).len() == (if entries.len() < 3 {
            entries.len()
        } else {
            3
        }),
        first_aggregates(aggregates).len() == (if aggregates.len() < 3 {
            aggregates.len()
        } else {
            3
        }),
        0 <= i < entries.len() && i < 3 ==> first_metrics(entries)[i] == entries[i].0 + seq!['=']
            + written(entries[i].1),
        0 <= i < aggregates.len() && i < 3 ==> first_aggregates(aggregates)[i] == aggregates[i].0
            + "=mean:"@ + fixed4_or_na(aggregates[i].1.mean) + " count:"@ + (
        match aggregates[i].1.count {
            Some(c) => decimal(c as nat),
            None => "n/a"@,
        }),
{
    reveal_strlit("=");
    assert("="@ =~= seq!['=']);
}

/// The best of an aggregate is its largest value; where that is not known its smallest, and where
/// neither is its mean.
pub proof fn the_best_is_the_largest_known(a: MetricAggregate)
    ensures
        a.max is Some ==> best_number(a) == a.max,
        a.max is None && a.min is Some ==> best_number(a) == a.min,
        a.max is None && a.min is None ==> best_number(a) == a.mean,
{
}

/// The panel of a run shows the best of its first metric, and a run without metrics has no panel.
pub proof fn a_run_panel_shows_its_first_metric(
    namespace: Seq<char>,
    name: Seq<char>,
    status: BenchmarkRunStatus,
    panels: Seq<MetricPanelSummary>,
)
    requires
        are_benchmark_panels(namespace, name, status, panels),
    ensures
        panels.len() == 0 <==> status.aggregate_metrics.entries().len() == 0
            && status.metric_series@.len() == 0,
        panels.len() <= 1,
        panels.len() == 1 && status.aggregate_metrics.entries().len() > 0 ==> {
            let best = best_number(status.aggregate_metrics.entries()[0].1);
            &&& best matches Some(x) ==> panels[0].best@ == x.fixed4@
            &&& best is None ==> panels[0].best@ == "Not reported"@
        },
        panels.len() == 1 ==> panels[0].source@ == namespace + "/benchmarkrun/"@ + name
            && panels[0].status@ == status.phase.named() && panels[0].metrics_link
            == status.metrics_link && panels[0].series@ == decimal(status.metric_series@.len())
            + " series / "@ + decimal(points_in(status.metric_series@)) + " points"@,
{
}

/// Templates, suites, runs and profiles are recorded under their own names and kinds.
pub proof fn the_other_records_say_what_they_are(
    experiments: Seq<Experiment>,
    templates: Seq<ExperimentTemplate>,
    suites: Seq<BenchmarkSuite>,
    runs: Seq<BenchmarkRun>,
    profiles: Seq<RuntimeProfile>,
    s: ClusterSnapshot,
    i: int,
)
    requires
        is_console_snapshot(experiments, templates, suites, runs, profiles, s),
    ensures
        0 <= i < templates.len() ==> {
            let t = templates[i];
            let r = s.templates@[i];
            &&& r.name@ == t.metadata.named() && r.namespace@ == t.metadata.in_namespace()
            &&& r.objective@ == t.spec.objective.metric@ + " / "@ + t.spec.objective.goal.named()
            &&& r.detail@ == "runtime="@ + t.spec.runtime_profile_ref@ + " source="@
                + t.spec.source.git.url@
        },
        0 <= i < suites.len() ==> {
            let r = s.benchmark_suites@[i];
            &&& r.name@ == suites[i].metadata.named()
            &&& r.namespace@ == suites[i].metadata.in_namespace()
            &&& r.kind@ == "benchmarksuite"@
            &&& suites[i].status is Some && suites[i].status->0.ready ==> r.phase@ == "Ready"@
            &&& suites[i].status is Some && !suites[i].status->0.ready ==> r.phase@ == "NotReady"@
            &&& suites[i].status is None ==> r.phase@ == "No status"@
        },
        0 <= i < runs.len() ==> {
            let b = runs[i];
            let r = s.benchmark_runs@[i];
            &&& r.name@ == b.metadata.named() && r.namespace@ == b.metadata.in_namespace()
            &&& r.kind@ == "benchmarkrun"@
            &&& b.status is None ==> r.phase@ == "Pending"@
            &&& b.status matches Some(t) ==> r.phase@ == t.phase.named() && r.logs_link
                == t.logs_link && r.metrics_link == t.metrics_link
            &&& b.spec.output matches Some(o) ==> r.workspace_path == o.workspace_path
            &&& b.spec.output is None ==> r.workspace_path is None
            &&& r.workspace_path is None ==> r.detail@ == "suite="@ + b.spec.suite_ref.name@
        },
        0 <= i < profiles.len() ==> {
            let r = s.runtime_profiles@[i];
            &&& r.name@ == profiles[i].metadata.named()
            &&& r.namespace@ == profiles[i].metadata.in_namespace()
            &&& r.kind@ == "runtimeprofile"@
            &&& profiles[i].status is Some && profiles[i].status->0.ready ==> r.phase@ == "Ready"@
            &&& profiles[i].status is Some && !profiles[i].status->0.ready ==> r.phase@
                == "NotReady"@
            &&& profiles[i].status is None ==> r.phase@ == "No status"@
        },
{
    if 0 <= i < templates.len() {
        assert(is_template_record(templates[i], s.templates@[i]));
    }
    if 0 <= i < suites.len() {
        assert(is_suite_record(suites[i], s.benchmark_suites@[i]));
    }
    if 0 <= i < runs.len() {
        assert(is_run_record(runs[i], s.benchmark_runs@[i]));
    }
    if 0 <= i < profiles.len() {
        assert(is_profile_record(profiles[i], s.runtime_profiles@[i]));
    }
}

} // verus!

//! BenchmarkRun: one evaluation of a target against a benchmark suite.

use vstd::prelude::*;
use crate::common::{
    ArtifactUris, Budget, Condition, LocalObjectReference, MetricAggregate, TypedObjectReference,
};
use crate::experiment::ExperimentMetricSeries;
use crate::meta::ObjectMeta;
use crate::number::Real;
use crate::textmap::TextMap;

verus! {

#[derive(Debug, Clone)]
pub struct BenchmarkRunSpec {
    pub suite_ref: LocalObjectReference,
    pub target_ref: TypedObjectReference,
    pub mode: BenchmarkRunMode,
    pub suspend: bool,
    pub task_selector: Option<TaskSelector>,
    pub runtime_profile_ref: Option<LocalObjectReference>,
    pub budget: Budget,
    pub seed_matrix: Option<SeedMatrix>,
    pub output: Option<BenchmarkRunOutput>,
    pub promotion_policy: PromotionPolicy,
    pub cleanup_policy: CleanupPolicy,
    pub max_parallel_tasks: Option<u32>,
}

#[derive(Debug, Clone, Default, PartialEq, Eq)]
pub enum BenchmarkRunMode {
    #[default]
    Full,
    Subset,
    Smoke,
    HoldoutOnly,
    Replay,
}

#[derive(Debug, Clone, Default)]
pub struct TaskSelector {
    pub names: Vec<String>,
    pub labels: TextMap<String>,
}

#[derive(Debug, Clone, Default)]
pub struct SeedMatrix {
    pub seeds: Vec<i64>,
    pub deterministic: bool,
}

#[derive(Debug, Clone, Default)]
pub struct BenchmarkRunOutput {
    pub workspace_path: Option<String>,
}

#[derive(Debug, Clone, Default)]
pub struct PromotionPolicy {
    pub update_experiment_status: bool,
    pub block_on_holdout_failure: bool,
}

#[derive(Debug, Clone, Default)]
pub struct CleanupPolicy {
    pub ttl_seconds_after_finished: Option<i32>,
    pub retain_failed_jobs: bool,
}

#[derive(Debug, Clone, Default)]
pub struct BenchmarkRunStatus {
    pub phase: BenchmarkRunPhase,
    pub observed_generation: Option<i64>,
    pub start_time: Option<String>,
    pub completion_time: Option<String>,
    pub observed_suite_hash: Option<String>,
    pub reproducibility_hash: Option<String>,
    pub job_names: Vec<String>,
    pub task_results: Vec<TaskResultSummary>,
    pub aggregate_metrics: TextMap<MetricAggregate>,
    pub metric_series: Vec<ExperimentMetricSeries>,
    pub cost: BenchmarkRunCost,
    pub gates: Vec<GateResult>,
    pub logs_link: Option<String>,
    pub metrics_link: Option<String>,
    pub report_uri: Option<String>,
    pub conditions: Vec<Condition>,
    pub controller_version: Option<String>,
}

#[derive(Debug, Clone, Default, PartialEq, Eq)]
pub enum BenchmarkRunPhase {
    #[default]
    Pending,
    Preparing,
    Running,
    Succeeded,
    Failed,
    Error,
    Cancelled,
    Skipped,
}

impl BenchmarkRunPhase {
    /// The name of the phase.
    pub open spec fn named(&self) -> Seq<char> {
        match self {
            BenchmarkRunPhase::Pending => "Pending"@,
            BenchmarkRunPhase::Preparing => "Preparing"@,
            BenchmarkRunPhase::Running => "Running"@,
            BenchmarkRunPhase::Succeeded => "Succeeded"@,
            BenchmarkRunPhase::Failed => "Failed"@,
            BenchmarkRunPhase::Error => "Error"@,
            BenchmarkRunPhase::Cancelled => "Cancelled"@,
            BenchmarkRunPhase::Skipped => "Skipped"@,
        }
    }

    /// The name of the phase.
    pub fn label(&self) -> (r: &'static str)
        ensures
            r@ == self.named(),
    {
        match self {
            BenchmarkRunPhase::Pending => "Pending",
            BenchmarkRunPhase::Preparing => "Preparing",
            BenchmarkRunPhase::Running => "Running",
            BenchmarkRunPhase::Succeeded => "Succeeded",
            BenchmarkRunPhase::Failed => "Failed",
            BenchmarkRunPhase::Error => "Error",
            BenchmarkRunPhase::Cancelled => "Cancelled",
            BenchmarkRunPhase::Skipped => "Skipped",
        }
    }
}

#[derive(Debug, Clone, Default)]
pub struct TaskResultSummary {
    pub name: String,
    pub seed: Option<i64>,
    pub phase: BenchmarkRunPhase,
    pub metrics: TextMap<Real>,
    pub metric_series: Vec<ExperimentMetricSeries>,
    pub artifacts: ArtifactUris,
    pub node_name: Option<String>,
    pub gpu_type: Option<String>,
    pub attempt: Option<u32>,
}

#[derive(Debug, Clone, Default)]
pub struct BenchmarkRunCost {
    pub gpu_hours: Option<Real>,
    pub wall_clock_seconds: Option<i64>,
    pub total_tokens: Option<i64>,
}

#[derive(Debug, Clone)]
pub struct GateResult {
    pub metric: String,
    pub passed: bool,
    pub threshold: Real,
    pub actual: Option<Real>,
}

/// A BenchmarkRun of the cluster.
#[derive(Debug, Clone)]
pub struct BenchmarkRun {
    pub metadata: ObjectMeta,
    pub spec: BenchmarkRunSpec,
    pub status: Option<BenchmarkRunStatus>,
}

/// A phase of a run reads as its own name, and no two read alike.
pub proof fn a_run_phase_goes_by_its_name(x: BenchmarkRunPhase)
    ensures
        x.named() == seq!['P', 'e', 'n', 'd', 'i', 'n', 'g'] <==> x is Pending,
        x.named() == seq!['P', 'r', 'e', 'p', 'a', 'r', 'i', 'n', 'g'] <==> x is Preparing,
        x.named() == seq!['R', 'u', 'n', 'n', 'i', 'n', 'g'] <==> x is Running,
        x.named() == seq!['S', 'u', 'c', 'c', 'e', 'e', 'd', 'e', 'd'] <==> x is Succeeded,
        x.named() == seq!['F', 'a', 'i', 'l', 'e', 'd'] <==> x is Failed,
        x.named() == seq!['E', 'r', 'r', 'o', 'r'] <==> x is Error,
        x.named() == seq!['C', 'a', 'n', 'c', 'e', 'l', 'l', 'e', 'd'] <==> x is Cancelled,
        x.named() == seq!['S', 'k', 'i', 'p', 'p', 'e', 'd'] <==> x is Skipped,
{
    reveal_strlit("Pending");
    reveal_strlit("Preparing");
    reveal_strlit("Running");
    reveal_strlit("Succeeded");
    reveal_strlit("Failed");
    reveal_strlit("Error");
    reveal_strlit("Cancelled");
    reveal_strlit("Skipped");
    assert("Pending"@.len() != "Preparing"@.len());
    assert("Pending"@[0] != "Running"@[0]);
    assert("Pending"@.len() != "Succeeded"@.len());
    assert("Pending"@.len() != "Failed"@.len());
    assert("Pending"@.len() != "Error"@.len());
    assert("Pending"@.len() != "Cancelled"@.len());
    assert("Pending"@[0] != "Skipped"@[0]);
    assert("Preparing"@.len() != "Running"@.len());
    assert("Preparing"@[0] != "Succeeded"@[0]);
    assert("Preparing"@.len() != "Failed"@.len());
    assert("Preparing"@.len() != "Error"@.len());
    assert("Preparing"@[0] != "Cancelled"@[0]);
    assert("Preparing"@.len() != "Skipped"@.len());
    assert("Running"@.len() != "Succeeded"@.len());
    assert("Running"@.len() != "Failed"@.len());
    assert("Running"@.len() != "Error"@.len());
    assert("Running"@.len() != "Cancelled"@.len());
    assert("Running"@[0] != "Skipped"@[0]);
    assert("Succeeded"@.len() != "Failed"@.len());
    assert("Succeeded"@.len() != "Error"@.len());
    assert("Succeeded"@[0] != "Cancelled"@[0]);
    assert("Succeeded"@.len() != "Skipped"@.len());
    assert("Failed"@.len() != "Error"@.len());
    assert("Failed"@.len() != "Cancelled"@.len());
    assert("Failed"@.len() != "Skipped"@.len());
    assert("Error"@.len() != "Cancelled"@.len());
    assert("Error"@.len() != "Skipped"@.len());
    assert("Cancelled"@.len() != "Skipped"@.len());
    assert("Pending"@ =~= seq!['P', 'e', 'n', 'd', 'i', 'n', 'g']);
    assert("Preparing"@ =~= seq!['P', 'r', 'e', 'p', 'a', 'r', 'i', 'n', 'g']);
    assert("Running"@ =~= seq!['R', 'u', 'n', 'n', 'i', 'n', 'g']);
    assert("Succeeded"@ =~= seq!['S', 'u', 'c', 'c', 'e', 'e', 'd', 'e', 'd']);
    assert("Failed"@ =~= seq!['F', 'a', 'i', 'l', 'e', 'd']);
    assert("Error"@ =~= seq!['E', 'r', 'r', 'o', 'r']);
    assert("Cancelled"@ =~= seq!['C', 'a', 'n', 'c', 'e', 'l', 'l', 'e', 'd']);
    assert("Skipped"@ =~= seq!['S', 'k', 'i', 'p', 'p', 'e', 'd']);
}

} // verus!

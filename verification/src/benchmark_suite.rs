//! BenchmarkSuite: the tasks, integrity rules and gates of a benchmark.

use vstd::prelude::*;
use crate::common::{Budget, Condition, LocalObjectReference, MetricGoal};
use crate::meta::ObjectMeta;
use crate::number::Real;
use crate::textmap::TextMap;

verus! {

#[derive(Debug, Clone)]
pub struct BenchmarkSuiteSpec {
    pub taxonomy: BenchmarkTaxonomy,
    pub suite_version: String,
    pub description: Option<String>,
    pub suite_hash: Option<String>,
    pub target_ref_policy: TargetRefPolicy,
    pub tasks: Vec<BenchmarkTask>,
    pub metric_sources: Vec<NamedMetricSourceRef>,
    pub integrity: BenchmarkIntegrityPolicy,
    pub reporting: BenchmarkReporting,
}

#[derive(Debug, Clone, PartialEq, Eq)]
pub enum BenchmarkTaxonomy {
    RlTraining,
    LlmCapability,
    ResearchLoop,
    RuntimeHealth,
}

impl BenchmarkTaxonomy {
    /// The name of the taxonomy.
    pub open spec fn named(&self) -> Seq<char> {
        match self {
            BenchmarkTaxonomy::RlTraining => "RlTraining"@,
            BenchmarkTaxonomy::LlmCapability => "LlmCapability"@,
            BenchmarkTaxonomy::ResearchLoop => "ResearchLoop"@,
            BenchmarkTaxonomy::RuntimeHealth => "RuntimeHealth"@,
        }
    }

    /// The name of the taxonomy.
    pub fn label(&self) -> (r: &'static str)
        ensures
            r@ == self.named(),
    {
        match self {
            BenchmarkTaxonomy::RlTraining => "RlTraining",
            BenchmarkTaxonomy::LlmCapability => "LlmCapability",
            BenchmarkTaxonomy::ResearchLoop => "ResearchLoop",
            BenchmarkTaxonomy::RuntimeHealth => "RuntimeHealth",
        }
    }
}

#[derive(Debug, Clone, Default)]
pub struct TargetRefPolicy {
    pub allowed_kinds: Vec<String>,
}

#[derive(Debug, Clone)]
pub struct BenchmarkTask {
    pub name: String,
    pub integration: BenchmarkIntegration,
    pub labels: TextMap<String>,
    pub dataset_ref: Option<DatasetRef>,
    pub evaluator: Option<EvaluatorSpec>,
    pub metrics: TaskMetricsSpec,
    pub budget: Budget,
    pub seeds: Option<SeedSpec>,
    pub execution: TaskExecutionSpec,
}

#[derive(Debug, Clone, PartialEq, Eq)]
pub enum BenchmarkIntegration {
    ToyRl,
    CustomCommand,
    LmEvaluationHarness,
    LiveCodeBench,
    SweBenchHook,
}

#[derive(Debug, Clone)]
pub struct DatasetRef {
    pub name: String,
    pub source_type: Option<DatasetSourceType>,
    pub split: Option<String>,
    pub revision: Option<String>,
}

#[derive(Debug, Clone, PartialEq, Eq)]
pub enum DatasetSourceType {
    HfDataset,
    Seaweedfs,
    S3,
    Pvc,
    SecretHoldout,
}

#[derive(Debug, Clone, Default)]
pub struct EvaluatorSpec {
    pub image: Option<String>,
    pub command: Vec<String>,
    pub args_template: Vec<String>,
}

#[derive(Debug, Clone)]
pub struct TaskMetricsSpec {
    pub primary: String,
    pub goal: MetricGoal,
    pub required: Vec<String>,
    pub optional: Vec<String>,
}

#[derive(Debug, Clone, Default)]
pub struct SeedSpec {
    pub values: Vec<i64>,
    pub aggregation: Option<SeedAggregation>,
}

#[derive(Debug, Clone, PartialEq, Eq)]
pub enum SeedAggregation {
    MeanStd,
    MedianIqr,
}

#[derive(Debug, Clone, Default)]
pub struct TaskExecutionSpec {
    pub grouped: bool,
}

#[derive(Debug, Clone)]
pub struct NamedMetricSourceRef {
    pub name: String,
    pub metric_source_ref: LocalObjectReference,
}

#[derive(Debug, Clone, Default)]
pub struct BenchmarkIntegrityPolicy {
    pub holdout_policy: Option<HoldoutPolicy>,
    pub leakage_policy: Option<LeakagePolicy>,
    pub immutable_inputs_required: bool,
    pub require_image_digest: bool,
    pub require_git_commit: bool,
    pub require_dataset_hash: bool,
}

#[derive(Debug, Clone, PartialEq, Eq)]
pub enum HoldoutPolicy {
    PublicOnly,
    PrivateHoldout,
    Mixed,
}

#[derive(Debug, Clone, PartialEq, Eq)]
pub enum LeakagePolicy {
    Warn,
    BlockOnMatch,
}

#[derive(Debug, Clone, Default)]
pub struct BenchmarkReporting {
    pub compare_against: Vec<LocalObjectReference>,
    pub gates: Vec<BenchmarkGate>,
}

#[derive(Debug, Clone)]
pub struct BenchmarkGate {
    pub metric: String,
    pub operator: GateOperator,
    pub value: Real,
}

#[derive(Debug, Clone, PartialEq, Eq)]
pub enum GateOperator {
    GreaterThanOrEqual,
    GreaterThan,
    LessThanOrEqual,
    LessThan,
}

#[derive(Debug, Clone, Default)]
pub struct BenchmarkSuiteStatus {
    pub ready: bool,
    pub observed_generation: Option<i64>,
    pub resolved_suite_hash: Option<String>,
    pub task_count: Option<u32>,
    pub public_task_count: Option<u32>,
    pub holdout_task_count: Option<u32>,
    pub conditions: Vec<Condition>,
    pub last_validation_time: Option<String>,
    pub controller_version: Option<String>,
}

/// A BenchmarkSuite of the cluster.
#[derive(Debug, Clone)]
pub struct BenchmarkSuite {
    pub metadata: ObjectMeta,
    pub spec: BenchmarkSuiteSpec,
    pub status: Option<BenchmarkSuiteStatus>,
}

/// A taxonomy reads as its own name, and no two read alike.
pub proof fn a_taxonomy_goes_by_its_name(x: BenchmarkTaxonomy)
    ensures
        x.named() == seq!['R', 'l', 'T', 'r', 'a', 'i', 'n', 'i', 'n', 'g'] <==> x is RlTraining,
        x.named() == seq!['L', 'l', 'm', 'C', 'a', 'p', 'a', 'b', 'i', 'l', 'i', 't', 'y'] <==> x is LlmCapability,
        x.named() == seq!['R', 'e', 's', 'e', 'a', 'r', 'c', 'h', 'L', 'o', 'o', 'p'] <==> x is ResearchLoop,
        x.named() == seq!['R', 'u', 'n', 't', 'i', 'm', 'e', 'H', 'e', 'a', 'l', 't', 'h'] <==> x is RuntimeHealth,
{
    reveal_strlit("RlTraining");
    reveal_strlit("LlmCapability");
    reveal_strlit("ResearchLoop");
    reveal_strlit("RuntimeHealth");
    assert("RlTraining"@.len() != "LlmCapability"@.len());
    assert("RlTraining"@.len() != "ResearchLoop"@.len());
    assert("RlTraining"@.len() != "RuntimeHealth"@.len());
    assert("LlmCapability"@.len() != "ResearchLoop"@.len());
    assert("LlmCapability"@[0] != "RuntimeHealth"@[0]);
    assert("ResearchLoop"@.len() != "RuntimeHealth"@.len());
    assert("RlTraining"@ =~= seq!['R', 'l', 'T', 'r', 'a', 'i', 'n', 'i', 'n', 'g']);
    assert("LlmCapability"@ =~= seq!['L', 'l', 'm', 'C', 'a', 'p', 'a', 'b', 'i', 'l', 'i', 't', 'y']);
    assert("ResearchLoop"@ =~= seq!['R', 'e', 's', 'e', 'a', 'r', 'c', 'h', 'L', 'o', 'o', 'p']);
    assert("RuntimeHealth"@ =~= seq!['R', 'u', 'n', 't', 'i', 'm', 'e', 'H', 'e', 'a', 'l', 't', 'h']);
}

} // verus!

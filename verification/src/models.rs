//! What the web console's backend serves and its frontend shows.
//!
//! The backend collapses the `spec` and `status` of each resource into these lean
//! rows; the frontend knows nothing else of the cluster.

use vstd::prelude::*;
use crate::json::Json;
use crate::number::Real;
use crate::textmap::TextMap;

pub use crate::scheduling::{GpuPool, InferenceBackend, NodePower, SchedulingSnapshot, WorkloadRow};

verus! {

/// One snapshot of all Athena resources in the cluster — the payload of
/// `GET /api/snapshot`.
#[derive(Debug, Clone, Default, PartialEq)]
pub struct ClusterSnapshot {
    pub experiments: Vec<ResourceSummary>,
    pub campaigns: Vec<ResourceSummary>,
    pub templates: Vec<TemplateSummary>,
    pub benchmark_suites: Vec<ResourceSummary>,
    pub benchmark_runs: Vec<ResourceSummary>,
    pub runtime_profiles: Vec<ResourceSummary>,
    /// Scientist-authored paper-dataset curations (ResearchReport).
    pub reports: Vec<ReportSummary>,
    /// The autonomous loops themselves — phase, curriculum stage, health
    /// conditions, per-template gate evidence. The drill-down's global level
    /// leads with these because the drive is the root of the ownership chain
    /// the navigation mirrors (drive > campaign > experiment/report).
    pub drives: Vec<DriveSummary>,
}

/// One status condition, flattened.
#[derive(Debug, Clone, Default, PartialEq)]
pub struct ConditionDto {
    pub ctype: String,
    pub status: String,
    pub reason: String,
}

/// One status condition with its message.
#[derive(Debug, Clone, Default, PartialEq)]
pub struct ConditionMessageDto {
    pub ctype: String,
    pub status: String,
    pub reason: String,
    pub message: String,
}

/// A ResearchDrive, collapsed for the console's global view.
#[derive(Debug, Clone, Default, PartialEq)]
pub struct DriveSummary {
    pub namespace: String,
    pub name: String,
    /// Creation time as epoch-millis string.
    pub created_at: Option<String>,
    pub phase: String,
    pub stage: Option<String>,
    pub stagnation: u32,
    pub conditions: Vec<ConditionDto>,
    pub stages: Vec<StageProgressDto>,
}

/// One curriculum stage's record, with the per-template gate evidence that
/// answers "which line is holding promotion back".
#[derive(Debug, Clone, Default, PartialEq)]
pub struct StageProgressDto {
    pub name: String,
    pub promoted_at: Option<String>,
    pub templates: Vec<TemplateProgressDto>,
}

/// How far one template came in a curriculum stage.
#[derive(Debug, Clone, Default, PartialEq)]
pub struct TemplateProgressDto {
    pub template_ref: String,
    pub best_objective: Option<Real>,
    pub succeeded: u32,
    pub passed: bool,
}

/// A generic Kubernetes resource row (experiment, campaign, suite, run,
/// profile).
#[derive(Debug, Clone, Default, PartialEq)]
pub struct ResourceSummary {
    pub namespace: String,
    pub name: String,
    /// Lowercase singular CRD kind, e.g. `"experiment"`, `"benchmarkrun"`.
    pub kind: String,
    pub phase: String,
    pub detail: String,
    pub workspace_path: Option<String>,
    pub logs_link: Option<String>,
    pub metrics_link: Option<String>,
    /// Run-window start as epoch-millis string (for scoping the Grafana embed).
    pub started_at: Option<String>,
    /// Run-window end as epoch-millis string; None = still running (use "now").
    pub ended_at: Option<String>,
    /// Creation time as epoch-millis string.
    pub created_at: Option<String>,
    /// For campaigns: the drive that owns them.
    pub drive: Option<String>,
    /// The template of a campaign, or of an experiment's campaign.
    pub template: Option<String>,
    /// For campaigns: the search strategy.
    pub strategy: Option<String>,
    /// The name of the objective metric.
    pub objective: Option<String>,
    /// `"maximize"` or `"minimize"`.
    pub objective_goal: Option<String>,
    /// The best value of the objective.
    pub objective_value: Option<Real>,
    /// For campaigns: the best experiment.
    pub best_experiment: Option<String>,
    /// For experiments: the decision on them.
    pub decision: Option<String>,
    /// For experiments: the experiment that they derive from.
    pub parent: Option<String>,
    /// For experiments: how many derivations lie behind them.
    pub generation: Option<u32>,
    /// For experiments: how long they ran.
    pub runtime_seconds: Option<i64>,
    /// For experiments: what they cost.
    pub gpu_hours: Option<Real>,
    /// For campaigns: how many experiments succeeded.
    pub succeeded: Option<u32>,
    /// For campaigns: how many experiments failed.
    pub failed: Option<u32>,
    /// For campaigns: how many experiments run.
    pub running: Option<u32>,
    /// For experiments: the parent campaign (`spec.campaignRef`), so the report
    /// curator can filter experiments by campaign. None for other kinds.
    pub campaign: Option<String>,
    /// Trained behavior (stance/locomotion/forage/arena) — experiments declare
    /// it in parameters; campaigns get stage context from the drive instead.
    pub mode: Option<String>,
    /// Experiment hypothesis (truncated server-side); the drill-down's
    /// experiment view shows it, because a run without its question is noise.
    pub hypothesis: Option<String>,
    /// Status conditions (campaigns: ExperimentsHealthy et al).
    pub conditions: Vec<ConditionDto>,
}

/// How the manifest of a resource is named.
pub open spec fn manifest_name(namespace: Seq<char>, kind: Seq<char>, name: Seq<char>) -> Seq<
    char,
> {
    "k8s://"@ + namespace + "/"@ + kind + "/"@ + name + ".yaml"@
}

/// How the manifest of a resource is named.
pub fn name_manifest(namespace: &str, kind: &str, name: &str) -> (r: String)
    ensures
        r@ == manifest_name(namespace@, kind@, name@),
{
    let mut s = "k8s://".to_owned();
    s.append(namespace);
    s.append("/");
    s.append(kind);
    s.append("/");
    s.append(name);
    s.append(".yaml");
    s
}

impl ResourceSummary {
    /// `k8s://<ns>/<kind>/<name>.yaml` — the manifest identifier shown in the
    /// IDE panel header.
    pub fn manifest_path(&self) -> (r: String)
        ensures
            r@ == manifest_name(self.namespace@, self.kind@, self.name@),
    {
        name_manifest(self.namespace.as_str(), self.kind.as_str(), self.name.as_str())
    }
}

/// An ExperimentTemplate row.
#[derive(Debug, Clone, Default, PartialEq)]
pub struct TemplateSummary {
    pub namespace: String,
    pub name: String,
    /// Creation time as epoch-millis string.
    pub created_at: Option<String>,
    pub objective: String,
    pub detail: String,
}

/// A ResearchReport row for the reports list.
#[derive(Debug, Clone, Default, PartialEq)]
pub struct ReportSummary {
    pub namespace: String,
    pub name: String,
    pub campaign_ref: String,
    pub title: String,
    pub phase: String,
    pub excluded_count: usize,
    /// Full narrative sections — the report IS the research record, so the
    /// console renders it whole rather than linking away from it.
    pub sections: TextMap<String>,
    pub seeded_hypotheses: Vec<String>,
    /// Creation time as epoch-millis string.
    pub created_at: Option<String>,
}

/// Payload for creating/updating a ResearchReport and for previewing its dossier.
/// A ResearchReport spec plus the object's namespace/name so a single struct drives
/// both save and preview.
#[derive(Debug, Clone, Default, PartialEq)]
pub struct ReportSpecDto {
    pub namespace: String,
    pub name: String,
    pub campaign_ref: String,
    pub title: Option<String>,
    pub included_experiments: Vec<String>,
    pub excluded_experiments: Vec<String>,
    pub sections: TextMap<String>,
    pub seeded_hypotheses: Vec<String>,
    /// The reference list as the resource holds it; the curator passes it through.
    pub references: Json,
    /// The subject as the resource holds it; the curator passes it through.
    pub about: Json,
    /// The version that the spec was loaded at.
    pub resource_version: Option<String>,
}

/// A report as the curator loads it: the editable spec, and the status that the
/// controller observed.
#[derive(Debug, Clone, Default, PartialEq)]
pub struct ReportDetailDto {
    pub spec: ReportSpecDto,
    pub phase: Option<String>,
    pub included_count: Option<u32>,
    pub dataset_uri: Option<String>,
    pub last_assembled_time: Option<String>,
    pub conditions: Vec<ConditionMessageDto>,
    /// Creation time as epoch-millis string.
    pub created_at: Option<String>,
}

/// A manifest goes by its namespace, its kind and its name, in this order.
pub proof fn a_manifest_goes_by_its_resource(
    namespace: Seq<char>,
    kind: Seq<char>,
    name: Seq<char>,
)
    ensures
        manifest_name(namespace, kind, name) == "k8s://"@ + namespace + seq!['/'] + kind + seq!['/']
            + name + seq!['.', 'y', 'a', 'm', 'l'],
{
    reveal_strlit("/");
    reveal_strlit(".yaml");
    assert("/"@ =~= seq!['/']);
    assert(".yaml"@ =~= seq!['.', 'y', 'a', 'm', 'l']);
}

} // verus!

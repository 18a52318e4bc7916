//! Experiment: one run of a campaign, what it came from and what it measured.

use vstd::prelude::*;
use crate::json::Json;
use crate::meta::ObjectMeta;
use crate::number::Real;
use crate::text::{
    join, joined, lemma_shows_back, lemma_shows_enclosed, lemma_shows_front, lemma_shows_itself,
    lemma_shows_joined, lemma_shows_three, occurs_at, shows,
};
use crate::textmap::TextMap;

verus! {

#[derive(Debug, Clone)]
pub struct ExperimentSpec {
    pub campaign_ref: String,
    pub hypothesis: String,
    pub parameters: TextMap<Json>,
    pub patch: Option<PatchSpec>,
    pub checkpoint_policy: Option<CheckpointPolicy>,
    /// Structured record of WHY this experiment exists: which node it came
    /// from, by what operation, and what changed.
    ///
    /// Deliberately NOT an ownerReference: an ownerRef to the parent would
    /// cascade-delete an entire subtree when one node is removed. Lifecycle
    /// ownership belongs to the campaign; derivation is a plain reference.
    pub lineage: Option<ExperimentLineage>,
    /// Extra env vars merged into the job container AFTER the RuntimeProfile env,
    /// overriding same-named profile vars. The campaign controller uses this to
    /// inject `LLM_BASE_URL` for an ephemeral inference mesh.
    pub env: Vec<crate::runtime_profile::EnvVar>,
}

/// How an experiment relates to the node it derived from.
///
/// A closed enum, not prose: enums aggregate and can be selected on, prose
/// cannot. This is what the selection gate keys off to find control runs, and
/// what a provenance export maps to a predicate.
#[derive(Debug, Clone, Copy, PartialEq, Eq, Structural)]
pub enum DerivationRelation {
    /// Campaign's first point — template defaults, no parent.
    Baseline,
    /// Cold-start population spread: perturbed from defaults, no parent yet.
    Seed,
    /// Parameters perturbed away from the parent (the ordinary search step).
    Perturb,
    /// Parent's parameters re-run UNCHANGED on a fresh seed, to measure noise
    /// rather than to search. This is the control slot.
    Remeasure,
    /// Same science point re-run because the local search space was exhausted.
    Replicate,
    /// Cheap gate probe of the recipe before the campaign spends budget.
    Canary,
}

impl DerivationRelation {
    /// The name of the relation.
    pub open spec fn named(&self) -> Seq<char> {
        match self {
            DerivationRelation::Baseline => "Baseline"@,
            DerivationRelation::Seed => "Seed"@,
            DerivationRelation::Perturb => "Perturb"@,
            DerivationRelation::Remeasure => "Remeasure"@,
            DerivationRelation::Replicate => "Replicate"@,
            DerivationRelation::Canary => "Canary"@,
        }
    }

    /// The name of the relation.
    pub fn label(&self) -> (r: &'static str)
        ensures
            r@ == self.named(),
    {
        match self {
            DerivationRelation::Baseline => "Baseline",
            DerivationRelation::Seed => "Seed",
            DerivationRelation::Perturb => "Perturb",
            DerivationRelation::Remeasure => "Remeasure",
            DerivationRelation::Replicate => "Replicate",
            DerivationRelation::Canary => "Canary",
        }
    }
}

/// One parameter's movement between parent and child.
#[derive(Debug, Clone, PartialEq)]
pub struct ParameterDelta {
    pub param: String,
    /// Value on the parent (absent for a cold start with no parent).
    pub from: Option<Real>,
    pub to: Real,
    /// Multiplicative factor applied, when the operation was multiplicative.
    pub factor: Option<Real>,
}

/// Structured provenance for one experiment.
///
/// PROV-O export note: an Experiment is a RUN, i.e. a `prov:Activity`, so the
/// correct predicate for this edge is `prov:wasInformedBy` (Activity ->
/// Activity). `prov:wasDerivedFrom` would be wrong — its domain and range are
/// both `prov:Entity`. PROV-O has no native slot for "by perturbing X", which
/// is what `perturbations` carries.
#[derive(Debug, Clone, PartialEq)]
pub struct ExperimentLineage {
    pub relation: DerivationRelation,
    /// Parent experiment name. None for a baseline/seed/canary with no parent.
    pub parent: Option<String>,
    /// Parent UID. Names are reused when a campaign is recreated; the UID makes
    /// a stale edge detectable rather than silently wrong.
    pub parent_uid: Option<String>,
    /// Generation index (idx / populationSize). The depth
    /// coordinate of the tree.
    pub generation: Option<u32>,
    /// Strategy that produced this child ("pbt", "heuristic", ...).
    pub strategy: Option<String>,
    /// Exactly what moved. Empty for a Remeasure/Replicate by definition.
    pub perturbations: Vec<ParameterDelta>,
    /// Dedup re-roll counter that produced this point, for reproducibility.
    pub salt: Option<u32>,
}

/// The movement of one parameter, in words.
pub open spec fn delta_text(d: ParameterDelta) -> Seq<char> {
    match (d.from, d.factor) {
        (Some(f), Some(x)) => d.param@ + " "@ + f.fixed4@ + "->"@ + d.to.fixed4@ + " (x"@
            + x.fixed4@ + ")"@,
        (Some(f), None) => d.param@ + " "@ + f.fixed4@ + "->"@ + d.to.fixed4@,
        (None, Some(x)) => d.param@ + " x"@ + x.fixed4@,
        (None, None) => d.param@ + "="@ + d.to.fixed4@,
    }
}

/// The movements of the parameters, in words.
pub open spec fn deltas_text(ds: Seq<ParameterDelta>) -> Seq<char> {
    joined(ds.map_values(|d: ParameterDelta| delta_text(d)), ", "@)
}

fn describe_delta(d: &ParameterDelta) -> (r: String)
    ensures
        r@ == delta_text(*d),
{
    let mut s = d.param.clone();
    match (&d.from, &d.factor) {
        (Some(f), Some(x)) => {
            s.append(" ");
            s.append(f.fixed4.as_str());
            s.append("->");
            s.append(d.to.fixed4.as_str());
            s.append(" (x");
            s.append(x.fixed4.as_str());
            s.append(")");
        },
        (Some(f), None) => {
            s.append(" ");
            s.append(f.fixed4.as_str());
            s.append("->");
            s.append(d.to.fixed4.as_str());
        },
        (None, Some(x)) => {
            s.append(" x");
            s.append(x.fixed4.as_str());
        },
        (None, None) => {
            s.append("=");
            s.append(d.to.fixed4.as_str());
        },
    }
    s
}

fn describe_deltas(ds: &Vec<ParameterDelta>) -> (r: String)
    ensures
        r@ == deltas_text(ds@),
{
    let mut parts: Vec<String> = Vec::new();
    let ghost all = ds@.map_values(|d: ParameterDelta| delta_text(d));
    let mut i: usize = 0;
    while i < ds.len()
        invariant
            i <= ds.len(),
            all == ds@.map_values(|d: ParameterDelta| delta_text(d)),
            parts.deep_view() == all.take(i as int),
        decreases ds.len() - i,
    {
        let ghost before = parts.deep_view();
        let text = describe_delta(&ds[i]);
        parts.push(text);
        assert(parts.deep_view() =~= before.push(text@));
        assert(before.push(text@) =~= all.take(i + 1));
        i = i + 1;
    }
    assert(all.take(i as int) =~= all);
    join(&parts, ", ")
}

impl ExperimentLineage {
    /// The strategy that produced the experiment, or `search`.
    pub open spec fn strategy_name(&self) -> Seq<char> {
        match self.strategy {
            Some(s) => s@,
            None => "search"@,
        }
    }

    /// The record in words.
    pub open spec fn described(&self) -> Seq<char> {
        let strategy = self.strategy_name();
        let deltas = deltas_text(self.perturbations@);
        match (self.relation, self.parent) {
            (DerivationRelation::Baseline, _) => "baseline: template defaults"@,
            (DerivationRelation::Canary, _) => {
                "canary gate: cheap probe of the recipe before spending budget"@
            },
            (DerivationRelation::Seed, _) => if deltas.len() == 0 {
                strategy + " cold start: no numeric params to spread"@
            } else {
                strategy + " cold start: seed spread from defaults: "@ + deltas
            },
            (DerivationRelation::Remeasure, Some(p)) => "control: re-measure incumbent "@ + p@
                + " on a fresh seed (calibrates sigma; not a search point)"@,
            (DerivationRelation::Replicate, Some(p)) => "replicate of "@ + p@
                + ": local search space exhausted"@,
            (DerivationRelation::Perturb, Some(p)) => if deltas.len() == 0 {
                strategy + " exploit from "@ + p@ + " (no numeric params to perturb)"@
            } else {
                strategy + " exploit+explore from "@ + p@ + ": "@ + deltas
            },
            (_, None) => strategy + ": no successful parent yet"@,
        }
    }

    /// Human-readable rendering, so `hypothesis` stays a DERIVED view of the
    /// structured record rather than the record itself.
    pub fn describe(&self) -> (r: String)
        ensures
            r@ == self.described(),
    {
        let deltas = describe_deltas(&self.perturbations);
        let mut s = match &self.strategy {
            Some(s) => s.clone(),
            None => "search".to_owned(),
        };
        match (&self.relation, &self.parent) {
            (DerivationRelation::Baseline, _) => "baseline: template defaults".to_owned(),
            (DerivationRelation::Canary, _) => {
                "canary gate: cheap probe of the recipe before spending budget".to_owned()
            },
            (DerivationRelation::Seed, _) => {
                if deltas.as_str().is_empty() {
                    s.append(" cold start: no numeric params to spread");
                } else {
                    s.append(" cold start: seed spread from defaults: ");
                    s.append(deltas.as_str());
                }
                s
            },
            (DerivationRelation::Remeasure, Some(p)) => {
                let mut t = "control: re-measure incumbent ".to_owned();
                t.append(p.as_str());
                t.append(" on a fresh seed (calibrates sigma; not a search point)");
                t
            },
            (DerivationRelation::Replicate, Some(p)) => {
                let mut t = "replicate of ".to_owned();
                t.append(p.as_str());
                t.append(": local search space exhausted");
                t
            },
            (DerivationRelation::Perturb, Some(p)) => {
                if deltas.as_str().is_empty() {
                    s.append(" exploit from ");
                    s.append(p.as_str());
                    s.append(" (no numeric params to perturb)");
                } else {
                    s.append(" exploit+explore from ");
                    s.append(p.as_str());
                    s.append(": ");
                    s.append(deltas.as_str());
                }
                s
            },
            (_, None) => {
                s.append(": no successful parent yet");
                s
            },
        }
    }
}

#[derive(Debug, Clone, Default, PartialEq)]
pub struct CheckpointPolicy {
    pub interval_seconds: Option<u64>,
    pub retain: Option<u32>,
    pub resume_from: Option<String>,
}

#[derive(Debug, Clone, Default, PartialEq)]
pub struct CheckpointRef {
    pub uri: String,
    pub step: Option<u64>,
    pub timestamp: Option<String>,
    pub objective_value: Option<Real>,
}

#[derive(Debug, Clone)]
pub struct PatchSpec {
    pub patch_type: PatchType,
    pub value: String,
}

#[derive(Debug, Clone, PartialEq)]
pub enum PatchType {
    GitPatch,
    /// No patch: the template runs as it is.
    NoPatch,
}

#[derive(Debug, Clone, Default)]
pub struct ExperimentStatus {
    pub phase: ExperimentPhase,
    pub job_name: Option<String>,
    pub workspace_path: Option<String>,
    pub logs_link: Option<String>,
    pub metrics_link: Option<String>,
    pub metrics: TextMap<Json>,
    pub decision: Option<ExperimentDecision>,
    pub message: Option<String>,
    pub environment: Option<ExperimentEnvironment>,
    pub resources: Option<ExperimentResources>,
    pub metrics_detail: Option<ExperimentMetrics>,
    pub artifacts: Option<ExperimentArtifacts>,
    pub cost: Option<ExperimentCost>,
    pub conditions: Option<Vec<ExperimentCondition>>,
    pub dashboard: Option<crate::experiment_template::DashboardSpec>,
    pub latest_checkpoint: Option<CheckpointRef>,
    pub checkpoints: Vec<CheckpointRef>,
}

// --- Denormalized status sub-types ---

#[derive(Debug, Clone, Default)]
pub struct ExperimentEnvironment {
    pub id: Option<String>,
    pub provider: Option<String>,
    pub skypilot_cluster: Option<String>,
    pub skypilot_job_id: Option<String>,
    pub namespace: Option<String>,
    pub job_name: Option<String>,
    pub pod_names: Option<Vec<String>>,
    pub node_names: Option<Vec<String>>,

    /// Container image the run actually executed, as rendered from the
    /// RuntimeProfile at Job creation.
    ///
    /// Provenance, not decoration: warm-starting a child from a parent trained
    /// under a DIFFERENT image can be silent corruption rather than transfer.
    pub image: Option<String>,
}

#[derive(Debug, Clone, Default)]
pub struct ExperimentResources {
    pub gpu_requested: Option<i64>,
    pub gpu_allocated: Option<i64>,
    pub gpu_type: Option<String>,
    pub cpu_requested: Option<String>,
    pub memory_requested: Option<String>,
}

#[derive(Debug, Clone, Default)]
pub struct ExperimentMetrics {
    pub objective_name: Option<String>,
    pub objective_goal: Option<String>,
    pub latest: Option<Json>,
    pub best: Option<Json>,
    pub metrics_path: Option<String>,
    pub series: Vec<ExperimentMetricSeries>,
    pub last_updated: Option<String>,
}

#[derive(Debug, Clone, Default)]
pub struct ExperimentMetricSeries {
    pub tag: String,
    pub iteration: i64,
    pub objective: String,
    pub goal: String,
    pub points: Vec<ExperimentMetricPoint>,
}

#[derive(Debug, Clone, Default)]
pub struct ExperimentMetricPoint {
    pub name: String,
    pub value: Real,
    pub step: Option<i64>,
}

#[derive(Debug, Clone, Default)]
pub struct ExperimentArtifacts {
    pub workspace_uri: Option<String>,
    pub metrics_uri: Option<String>,
    pub checkpoints_uri: Option<String>,
    pub reports_uri: Option<String>,
    pub output_commit: Option<String>,
    pub onnx_uri: Option<String>,
    pub best_checkpoint_uri: Option<String>,
    /// Append-only JSONL research journal the runner writes over the run
    /// (hypothesis, config, per-eval progress, dead ends, final result). Durable
    /// on the shared workspace PVC; the primary narrative source for paper writeups.
    pub journal_uri: Option<String>,
    /// Write-once provenance/reproducibility manifest (seed, resolved params, git
    /// commit, image, software/hardware environment) the runner emits at startup.
    pub provenance_uri: Option<String>,
    /// Directory of rendered scientific figures (loss curves etc.) plus the
    /// re-plottable per-step series the runner writes alongside them.
    pub figures_uri: Option<String>,
}

#[derive(Debug, Clone, Default)]
pub struct ExperimentCost {
    pub estimated_usd: Option<Real>,
    pub gpu_hours: Option<Real>,
    pub runtime_seconds: Option<i64>,
}

#[derive(Debug, Clone, Default)]
pub struct ExperimentCondition {
    pub condition_type: Option<String>,
    pub status: Option<String>,
    pub reason: Option<String>,
    pub message: Option<String>,
    pub last_transition_time: Option<String>,
}

#[derive(Debug, Clone, Default, PartialEq)]
pub enum ExperimentPhase {
    #[default]
    Pending,
    Preparing,
    Running,
    Succeeded,
    Failed,
    Error,
}

impl ExperimentPhase {
    /// No phase follows.
    pub open spec fn is_final(&self) -> bool {
        self is Succeeded || self is Failed || self is Error
    }

    /// Whether no phase follows.
    pub fn ended(&self) -> (r: bool)
        ensures
            r == self.is_final(),
    {
        match self {
            ExperimentPhase::Succeeded | ExperimentPhase::Failed | ExperimentPhase::Error => true,
            ExperimentPhase::Pending | ExperimentPhase::Preparing | ExperimentPhase::Running => false,
        }
    }

    /// The name of the phase.
    pub open spec fn named(&self) -> Seq<char> {
        match self {
            ExperimentPhase::Pending => "Pending"@,
            ExperimentPhase::Preparing => "Preparing"@,
            ExperimentPhase::Running => "Running"@,
            ExperimentPhase::Succeeded => "Succeeded"@,
            ExperimentPhase::Failed => "Failed"@,
            ExperimentPhase::Error => "Error"@,
        }
    }

    /// The name of the phase.
    pub fn label(&self) -> (r: &'static str)
        ensures
            r@ == self.named(),
    {
        match self {
            ExperimentPhase::Pending => "Pending",
            ExperimentPhase::Preparing => "Preparing",
            ExperimentPhase::Running => "Running",
            ExperimentPhase::Succeeded => "Succeeded",
            ExperimentPhase::Failed => "Failed",
            ExperimentPhase::Error => "Error",
        }
    }
}

#[derive(Debug, Clone, PartialEq)]
pub enum ExperimentDecision {
    Keep,
    Discard,
    NeedsReview,
}

impl ExperimentDecision {
    /// The name of the decision.
    pub open spec fn named(&self) -> Seq<char> {
        match self {
            ExperimentDecision::Keep => "Keep"@,
            ExperimentDecision::Discard => "Discard"@,
            ExperimentDecision::NeedsReview => "NeedsReview"@,
        }
    }

    /// The name of the decision.
    pub fn label(&self) -> (r: &'static str)
        ensures
            r@ == self.named(),
    {
        match self {
            ExperimentDecision::Keep => "Keep",
            ExperimentDecision::Discard => "Discard",
            ExperimentDecision::NeedsReview => "NeedsReview",
        }
    }
}

/// An Experiment of the cluster.
#[derive(Debug, Clone)]
pub struct Experiment {
    pub metadata: ObjectMeta,
    pub spec: ExperimentSpec,
    pub status: Option<ExperimentStatus>,
}

/// A relation reads as its own name, and no two read alike.
pub proof fn a_relation_goes_by_its_name(x: DerivationRelation)
    ensures
        x.named() == seq!['B', 'a', 's', 'e', 'l', 'i', 'n', 'e'] <==> x is Baseline,
        x.named() == seq!['S', 'e', 'e', 'd'] <==> x is Seed,
        x.named() == seq!['P', 'e', 'r', 't', 'u', 'r', 'b'] <==> x is Perturb,
        x.named() == seq!['R', 'e', 'm', 'e', 'a', 's', 'u', 'r', 'e'] <==> x is Remeasure,
        x.named() == seq!['R', 'e', 'p', 'l', 'i', 'c', 'a', 't', 'e'] <==> x is Replicate,
        x.named() == seq!['C', 'a', 'n', 'a', 'r', 'y'] <==> x is Canary,
{
    reveal_strlit("Baseline");
    reveal_strlit("Seed");
    reveal_strlit("Perturb");
    reveal_strlit("Remeasure");
    reveal_strlit("Replicate");
    reveal_strlit("Canary");
    assert("Baseline"@.len() != "Seed"@.len());
    assert("Baseline"@.len() != "Perturb"@.len());
    assert("Baseline"@.len() != "Remeasure"@.len());
    assert("Baseline"@.len() != "Replicate"@.len());
    assert("Baseline"@.len() != "Canary"@.len());
    assert("Seed"@.len() != "Perturb"@.len());
    assert("Seed"@.len() != "Remeasure"@.len());
    assert("Seed"@.len() != "Replicate"@.len());
    assert("Seed"@.len() != "Canary"@.len());
    assert("Perturb"@.len() != "Remeasure"@.len());
    assert("Perturb"@.len() != "Replicate"@.len());
    assert("Perturb"@.len() != "Canary"@.len());
    assert("Remeasure"@[2] != "Replicate"@[2]);
    assert("Remeasure"@.len() != "Canary"@.len());
    assert("Replicate"@.len() != "Canary"@.len());
    assert("Baseline"@ =~= seq!['B', 'a', 's', 'e', 'l', 'i', 'n', 'e']);
    assert("Seed"@ =~= seq!['S', 'e', 'e', 'd']);
    assert("Perturb"@ =~= seq!['P', 'e', 'r', 't', 'u', 'r', 'b']);
    assert("Remeasure"@ =~= seq!['R', 'e', 'm', 'e', 'a', 's', 'u', 'r', 'e']);
    assert("Replicate"@ =~= seq!['R', 'e', 'p', 'l', 'i', 'c', 'a', 't', 'e']);
    assert("Canary"@ =~= seq!['C', 'a', 'n', 'a', 'r', 'y']);
}

/// A phase reads as its own name, and no two read alike.
pub proof fn a_phase_goes_by_its_name(x: ExperimentPhase)
    ensures
        x.named() == seq!['P', 'e', 'n', 'd', 'i', 'n', 'g'] <==> x is Pending,
        x.named() == seq!['P', 'r', 'e', 'p', 'a', 'r', 'i', 'n', 'g'] <==> x is Preparing,
        x.named() == seq!['R', 'u', 'n', 'n', 'i', 'n', 'g'] <==> x is Running,
        x.named() == seq!['S', 'u', 'c', 'c', 'e', 'e', 'd', 'e', 'd'] <==> x is Succeeded,
        x.named() == seq!['F', 'a', 'i', 'l', 'e', 'd'] <==> x is Failed,
        x.named() == seq!['E', 'r', 'r', 'o', 'r'] <==> x is Error,
{
    reveal_strlit("Pending");
    reveal_strlit("Preparing");
    reveal_strlit("Running");
    reveal_strlit("Succeeded");
    reveal_strlit("Failed");
    reveal_strlit("Error");
    assert("Pending"@.len() != "Preparing"@.len());
    assert("Pending"@[0] != "Running"@[0]);
    assert("Pending"@.len() != "Succeeded"@.len());
    assert("Pending"@.len() != "Failed"@.len());
    assert("Pending"@.len() != "Error"@.len());
    assert("Preparing"@.len() != "Running"@.len());
    assert("Preparing"@[0] != "Succeeded"@[0]);
    assert("Preparing"@.len() != "Failed"@.len());
    assert("Preparing"@.len() != "Error"@.len());
    assert("Running"@.len() != "Succeeded"@.len());
    assert("Running"@.len() != "Failed"@.len());
    assert("Running"@.len() != "Error"@.len());
    assert("Succeeded"@.len() != "Failed"@.len());
    assert("Succeeded"@.len() != "Error"@.len());
    assert("Failed"@.len() != "Error"@.len());
    assert("Pending"@ =~= seq!['P', 'e', 'n', 'd', 'i', 'n', 'g']);
    assert("Preparing"@ =~= seq!['P', 'r', 'e', 'p', 'a', 'r', 'i', 'n', 'g']);
    assert("Running"@ =~= seq!['R', 'u', 'n', 'n', 'i', 'n', 'g']);
    assert("Succeeded"@ =~= seq!['S', 'u', 'c', 'c', 'e', 'e', 'd', 'e', 'd']);
    assert("Failed"@ =~= seq!['F', 'a', 'i', 'l', 'e', 'd']);
    assert("Error"@ =~= seq!['E', 'r', 'r', 'o', 'r']);
}

/// A decision reads as its own name, and no two read alike.
pub proof fn a_decision_goes_by_its_name(x: ExperimentDecision)
    ensures
        x.named() == seq!['K', 'e', 'e', 'p'] <==> x is Keep,
        x.named() == seq!['D', 'i', 's', 'c', 'a', 'r', 'd'] <==> x is Discard,
        x.named() == seq!['N', 'e', 'e', 'd', 's', 'R', 'e', 'v', 'i', 'e', 'w'] <==> x is NeedsReview,
{
    reveal_strlit("Keep");
    reveal_strlit("Discard");
    reveal_strlit("NeedsReview");
    assert("Keep"@.len() != "Discard"@.len());
    assert("Keep"@.len() != "NeedsReview"@.len());
    assert("Discard"@.len() != "NeedsReview"@.len());
    assert("Keep"@ =~= seq!['K', 'e', 'e', 'p']);
    assert("Discard"@ =~= seq!['D', 'i', 's', 'c', 'a', 'r', 'd']);
    assert("NeedsReview"@ =~= seq!['N', 'e', 'e', 'd', 's', 'R', 'e', 'v', 'i', 'e', 'w']);
}

/// Only an experiment that succeeded, failed or broke is over.
pub proof fn only_three_phases_are_final(x: ExperimentPhase)
    ensures
        x.is_final() <==> !(x is Pending || x is Preparing || x is Running),
{
}

/// A change is told by where it came from and where it went, as far as that is known: both ends
/// with an arrow between them, the factor behind an x, and the value alone only where nothing else
/// is known.
pub proof fn a_change_is_told_by_its_ends(d: ParameterDelta)
    ensures
        d.from is Some ==> shows(delta_text(d), d.param@ + seq![' '] + d.from->0.fixed4@),
        d.from is Some ==> shows(delta_text(d), d.from->0.fixed4@ + seq!['-', '>'] + d.to.fixed4@),
        d.from is Some && d.factor is Some ==> shows(
            delta_text(d),
            seq![' ', '(', 'x'] + d.factor->0.fixed4@ + seq![')'],
        ),
        d.from is None && d.factor is Some ==> delta_text(d) == d.param@ + seq![' ', 'x']
            + d.factor->0.fixed4@,
        d.from is None && d.factor is None ==> delta_text(d) == d.param@ + seq!['=']
            + d.to.fixed4@,
{
    assert(" "@ =~= seq![' ']) by {
        reveal_strlit(" ");
    }
    assert("->"@ =~= seq!['-', '>']) by {
        reveal_strlit("->");
    }
    assert(" (x"@ =~= seq![' ', '(', 'x']) by {
        reveal_strlit(" (x");
    }
    assert(")"@ =~= seq![')']) by {
        reveal_strlit(")");
    }
    assert(" x"@ =~= seq![' ', 'x']) by {
        reveal_strlit(" x");
    }
    assert("="@ =~= seq!['=']) by {
        reveal_strlit("=");
    }
    if let Some(f) = d.from {
        lemma_change(d.param@, " "@, f.fixed4@, "->"@, d.to.fixed4@);
        if let Some(x) = d.factor {
            let s = d.param@ + " "@ + f.fixed4@ + "->"@ + d.to.fixed4@;
            lemma_factor(s, " (x"@, x.fixed4@, ")"@, d.param@ + " "@ + f.fixed4@);
            lemma_factor(s, " (x"@, x.fixed4@, ")"@, f.fixed4@ + "->"@ + d.to.fixed4@);
        }
    }
}

proof fn lemma_change(p: Seq<char>, gap: Seq<char>, f: Seq<char>, arrow: Seq<char>, t: Seq<char>)
    ensures
        shows(p + gap + f + arrow + t, p + gap + f),
        shows(p + gap + f + arrow + t, f + arrow + t),
{
    lemma_shows_itself(p + gap + f);
    lemma_shows_front(p + gap + f, arrow, p + gap + f);
    lemma_shows_front(p + gap + f + arrow, t, p + gap + f);
    lemma_shows_three(p + gap, f, arrow, t);
}

proof fn lemma_factor(s: Seq<char>, l: Seq<char>, x: Seq<char>, r: Seq<char>, piece: Seq<char>)
    requires
        shows(s, piece),
    ensures
        shows(s + l + x + r, piece),
        shows(s + l + x + r, l + x + r),
{
    lemma_shows_front(s, l, piece);
    lemma_shows_front(s + l, x, piece);
    lemma_shows_front(s + l + x, r, piece);
    lemma_shows_three(s, l, x, r);
}

proof fn lemma_delta_is_told(d: ParameterDelta)
    ensures
        delta_text(d).len() > 0,
{
    reveal_strlit(" ");
    reveal_strlit(" x");
    reveal_strlit("=");
}

/// The story of an experiment names the parent that it was derived from and every change that was
/// made to it, and a story without a parent names none.
pub proof fn a_story_names_its_parent_and_its_changes(l: ExperimentLineage, p: String, i: int)
    requires
        l.parent == Some(p),
    ensures
        l.relation is Perturb && l.perturbations@.len() == 0 ==> shows(
            l.described(),
            " exploit from "@ + p@ + " (no numeric params to perturb)"@,
        ),
        l.relation is Perturb && 0 <= i < l.perturbations@.len() ==> shows(l.described(), " exploit+explore from "@ + p@ + ": "@) && shows(
            l.described(),
            delta_text(l.perturbations@[i]),
        ),
        l.relation is Remeasure ==> shows(l.described(), "re-measure incumbent "@ + p@ + " "@),
        l.relation is Replicate ==> shows(l.described(), "replicate of "@ + p@ + ":"@),
        l.relation is Baseline ==> l.described() == "baseline: template defaults"@,
        l.relation is Canary ==> l.described()
            == "canary gate: cheap probe of the recipe before spending budget"@,
{
    let strategy = l.strategy_name();
    let parts = l.perturbations@.map_values(|d: ParameterDelta| delta_text(d));
    let deltas = deltas_text(l.perturbations@);
    if l.perturbations@.len() == 0 {
        assert(parts.len() == 0);
    }
    if l.relation is Perturb {
        if deltas.len() == 0 {
            lemma_shows_three(
                strategy,
                " exploit from "@,
                p@,
                " (no numeric params to perturb)"@,
            );
        } else {
            lemma_shows_three(strategy, " exploit+explore from "@, p@, ": "@);
            lemma_shows_front(
                strategy + " exploit+explore from "@ + p@ + ": "@,
                deltas,
                " exploit+explore from "@ + p@ + ": "@,
            );
        }
        if 0 <= i < l.perturbations@.len() {
            lemma_delta_is_told(l.perturbations@[i]);
            assert(parts[i] == delta_text(l.perturbations@[i]));
            lemma_shows_itself(parts[i]);
            lemma_shows_joined(parts, ", "@, i, parts[i]);
            let k = choose|k: int| #[trigger] occurs_at(deltas, parts[i], k);
            assert(deltas.len() > 0);
            lemma_shows_back(strategy + " exploit+explore from "@ + p@ + ": "@, deltas, parts[i]);
        }
    }
    if l.relation is Remeasure {
        assert("control: re-measure incumbent "@ =~= "control: "@ + "re-measure incumbent "@) by {
            reveal_strlit("control: re-measure incumbent ");
            reveal_strlit("control: ");
            reveal_strlit("re-measure incumbent ");
        }
        assert(" on a fresh seed (calibrates sigma; not a search point)"@ =~= " "@
            + "on a fresh seed (calibrates sigma; not a search point)"@) by {
            reveal_strlit(" on a fresh seed (calibrates sigma; not a search point)");
            reveal_strlit(" ");
            reveal_strlit("on a fresh seed (calibrates sigma; not a search point)");
        }
        lemma_shows_enclosed(
            Seq::empty(),
            "control: "@,
            "re-measure incumbent "@,
            p@,
            " "@,
            "on a fresh seed (calibrates sigma; not a search point)"@,
        );
        assert(Seq::<char>::empty() + "control: re-measure incumbent "@
            =~= "control: re-measure incumbent "@);
    }
    if l.relation is Replicate {
        assert(": local search space exhausted"@ =~= ":"@ + " local search space exhausted"@) by {
            reveal_strlit(": local search space exhausted");
            reveal_strlit(":");
            reveal_strlit(" local search space exhausted");
        }
        lemma_shows_enclosed(
            Seq::empty(),
            Seq::empty(),
            "replicate of "@,
            p@,
            ":"@,
            " local search space exhausted"@,
        );
        assert(Seq::<char>::empty() + (Seq::<char>::empty() + "replicate of "@)
            =~= "replicate of "@);
    }
}

/// An experiment that seeds the search says so, with what it moved from the defaults.
pub proof fn a_seed_tells_what_it_spread(l: ExperimentLineage, i: int)
    requires
        l.relation is Seed,
    ensures
        l.strategy matches Some(s) ==> s@.is_prefix_of(l.described()),
        0 <= i < l.perturbations@.len() ==> shows(
            l.described(),
            delta_text(l.perturbations@[i]),
        ),
        l.perturbations@.len() == 0 ==> l.described() == l.strategy_name()
            + " cold start: no numeric params to spread"@,
{
    let strategy = l.strategy_name();
    let parts = l.perturbations@.map_values(|d: ParameterDelta| delta_text(d));
    let deltas = deltas_text(l.perturbations@);
    assert(l.described().take(strategy.len() as int) =~= strategy);
    if l.perturbations@.len() == 0 {
        assert(parts.len() == 0);
    }
    if 0 <= i < l.perturbations@.len() {
        lemma_delta_is_told(l.perturbations@[i]);
        assert(parts[i] == delta_text(l.perturbations@[i]));
        lemma_shows_itself(parts[i]);
        lemma_shows_joined(parts, ", "@, i, parts[i]);
        let k = choose|k: int| #[trigger] occurs_at(deltas, parts[i], k);
        assert(deltas.len() > 0);
        lemma_shows_back(strategy + " cold start: seed spread from defaults: "@, deltas, parts[i]);
    }
}

} // verus!

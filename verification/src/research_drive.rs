//! ResearchDrive: the loop that keeps proposing campaigns.

use vstd::prelude::*;
use crate::common::Condition;
use crate::meta::ObjectMeta;
use crate::number::Real;

verus! {

#[derive(Debug, Clone)]
pub struct ResearchDriveSpec {
    /// Research domain label (e.g. "spot-locomotion"). Low-cardinality; used in
    /// metrics and proposer context.
    pub domain: String,

    /// ExperimentTemplates the drive's proposer may launch campaigns against.
    /// The controller REJECTS any proposed campaign whose templateRef is not in
    /// this list. Minimum one entry.
    pub template_refs: Vec<String>,

    /// LLM proposer configuration. The controller calls this OpenAI-compatible
    /// endpoint when a campaign the drive owns reaches a terminal phase, asking
    /// for the next campaign(s) — the perpetual loop's hypothesis generator.
    pub proposer: ProposerSpec,

    /// Hard bounds the controller enforces on the drive regardless of what the
    /// proposer asks for.
    pub limits: DriveLimits,

    /// Stagnation policy: when the last `window` completed campaigns produced no
    /// sigma-gated improvement over the drive's best, the drive parks in phase
    /// NeedsHuman instead of proposing further.
    pub stagnation: StagnationSpec,

    /// Gate for proposals that are NOT plain campaigns (harness, rigging, or
    /// sim-design changes). RequireApproval (default): the drive records the
    /// proposal in status.proposals and waits for the
    /// `research.nixlab.io/approve-proposal: "<id>"` annotation. Auto: structural
    /// proposals are still only RECORDED (the controller cannot apply code
    /// changes), but the drive keeps proposing/running campaigns without pausing.
    pub structural_change_policy: StructuralChangePolicy,

    /// Manual brake: while true the controller proposes and creates nothing.
    pub paused: bool,

    /// Ordered training curriculum. When set, the drive may only launch
    /// campaigns against the CURRENT stage's templates (intersected with
    /// `templateRefs`), and advances a stage only when that stage's promotion
    /// criteria are met from campaign status.
    ///
    /// Absent (the default): every template in `templateRefs` is proposable at
    /// any time.
    pub curriculum: Option<CurriculumSpec>,
}

/// Ordered stages a morphology must pass through, e.g.
/// stance -> locomotion -> forage -> arena.
#[derive(Debug, Clone, Default)]
pub struct CurriculumSpec {
    /// Stages in order. The first is entered on creation. Bounded by the CRD
    /// schema at 16 to keep status.stageHistory bounded too.
    pub stages: Vec<CurriculumStage>,
}

#[derive(Debug, Clone, Default)]
pub struct CurriculumStage {
    /// Stable low-cardinality stage name (used in metrics labels and status).
    pub name: String,

    /// Templates proposable while this stage is current. Intersected with the
    /// drive's `templateRefs`, so the allowlist remains the outer bound.
    pub template_refs: Vec<String>,

    /// Name of an EARLIER stage whose winning experiment seeds campaigns in
    /// this stage (sets `spec.seedExperimentRef`, which carries both parameters
    /// and the checkpoint the runner warm-starts from). This is what makes the
    /// ordering pay for itself instead of each stage cold-starting.
    pub seed_from: Option<String>,

    /// Criteria for leaving this stage. Absent means the stage never
    /// auto-promotes (a deliberate human gate).
    pub promotion: Option<PromotionSpec>,
}

/// When a stage is considered passed. Evaluated from campaign status only.
#[derive(Debug, Clone, Default)]
pub struct PromotionSpec {
    /// Metric to gate on. MUST be a held-out metric: gating on a metric the
    /// reward optimizes promotes reward hacking.
    pub metric: String,

    /// Objective value at or above which the stage counts as passed.
    pub threshold: Real,

    /// Minimum succeeded experiments before promotion may fire, so a single
    /// lucky run cannot advance the curriculum. Counted stage-wide under
    /// `Any`, PER TEMPLATE under `All` — a stage-wide count is meaningless
    /// under `All`, since 8 runs concentrated on one template would satisfy it
    /// while the other templates hold no evidence at all.
    pub min_experiments: u32,

    /// How many of the stage's templates must clear `threshold`.
    ///
    /// `Any` promotes on the single best result anywhere in the stage. That is
    /// correct when the templates are alternative routes to ONE goal (pick the
    /// winner and move on), and wrong when each template is its own research
    /// line.
    pub quantifier: PromotionQuantifier,
}

/// How many of a stage's templates must clear the promotion threshold.
#[derive(Debug, Clone, Copy, PartialEq, Eq, Default)]
pub enum PromotionQuantifier {
    /// The best result in the stage decides. Templates are alternative routes
    /// to one goal.
    #[default]
    Any,
    /// EVERY template in the stage must independently clear `threshold` with at
    /// least `minExperiments` succeeded runs. Templates are parallel research
    /// lines that must each pass on their own evidence.
    All,
}

/// What `min_experiments` is where it is not given.
pub fn default_min_experiments() -> (r: u32)
    ensures
        r == 3,
{
    3
}

/// Observed curriculum progress. Controller-owned.
#[derive(Debug, Clone, Default)]
pub struct CurriculumStatus {
    /// Name of the stage currently proposable. Empty until first reconcile.
    pub current_stage: Option<String>,

    /// One record per stage entered, oldest first. Bounded by spec.stages.
    pub stage_history: Vec<StageRecord>,
}

#[derive(Debug, Clone, Default)]
pub struct StageRecord {
    pub name: String,
    pub entered_at: Option<String>,
    /// Set when the stage's promotion criteria were met.
    pub promoted_at: Option<String>,
    /// Experiment that satisfied promotion; seeds the next stage.
    pub best_experiment: Option<String>,
    pub best_objective: Option<Real>,
    /// Succeeded experiments observed in this stage.
    pub succeeded_experiments: u32,
    /// Per-template evidence within this stage, one entry per
    /// `stage.templateRefs`, ordered as declared.
    ///
    /// Without this, a stage that fails to promote gives no answer to "which
    /// line is holding it back" — the stage-level `bestObjective` shows only
    /// the leader. Bounded by the stage's template count.
    pub template_progress: Vec<TemplateProgress>,
}

/// One template's evidence inside a curriculum stage. Controller-owned.
#[derive(Debug, Clone, Default)]
pub struct TemplateProgress {
    /// The `ExperimentTemplate` this row summarizes.
    pub template_ref: String,
    /// Best honest score for this template: the unbiased re-measure when the
    /// campaign has one, else its best objective. Same fold the drive-level
    /// best uses, so the two are comparable.
    pub best_objective: Option<Real>,
    /// Experiment holding `bestObjective`.
    pub best_experiment: Option<String>,
    /// Succeeded experiments observed for this template in this stage.
    pub succeeded_experiments: u32,
    /// Whether this template independently satisfies the stage's promotion
    /// criteria. Under `All`, promotion fires only when every row is true.
    pub passed: bool,
}

/// OpenAI-compatible LLM endpoint the controller consults for hypotheses.
#[derive(Debug, Clone)]
pub struct ProposerSpec {
    /// Base URL of an OpenAI-compatible API (e.g. an in-cluster mesh-llm/vLLM
    /// Service or an external provider). The controller POSTs to
    /// `{endpoint}/chat/completions`.
    pub endpoint: String,
    /// Model identifier passed in the request body.
    pub model: String,
    /// Optional Secret holding the API key. The key's value is sent as a Bearer
    /// token. Omit for unauthenticated in-cluster endpoints.
    pub api_key_secret_ref: Option<SecretKeyRef>,
    /// Max completion tokens per proposal call.
    pub max_tokens: Option<u32>,
    /// Sampling temperature.
    pub temperature: Option<Real>,
    /// HTTP timeout for one proposal call.
    pub timeout_seconds: Option<u32>,
}

/// Reference to one key inside a same-namespace Secret.
#[derive(Debug, Clone, Default)]
pub struct SecretKeyRef {
    pub name: String,
    pub key: String,
}

/// Hard bounds enforced by the controller, independent of proposer output.
#[derive(Debug, Clone)]
pub struct DriveLimits {
    /// Maximum simultaneously-running campaigns the drive may own. Proposals
    /// beyond this are queued by deferral: the controller proposes again when a
    /// slot frees.
    pub max_active_branches: u32,
    /// Lifetime campaign cap for the drive. Reaching it parks the drive in
    /// phase NeedsHuman (budget exhausted), not Failed.
    pub max_campaigns: u32,
    /// Per-campaign budget clamp: any proposed campaign's budget is reduced to
    /// at most these values before creation.
    pub campaign_budget: CampaignBudgetLimit,
}

impl Default for DriveLimits {
    fn default() -> (r: Self)
        ensures
            r.max_active_branches == 2,
            r.max_campaigns == 100,
            r.campaign_budget.max_experiments == 12,
            r.campaign_budget.max_duration@ == "48h"@,
    {
        Self {
            max_active_branches: default_max_active_branches(),
            max_campaigns: default_max_campaigns(),
            campaign_budget: CampaignBudgetLimit::default(),
        }
    }
}

/// What `max_active_branches` is where it is not given.
pub fn default_max_active_branches() -> (r: u32)
    ensures
        r == 2,
{
    2
}

/// What `max_campaigns` is where it is not given.
pub fn default_max_campaigns() -> (r: u32)
    ensures
        r == 100,
{
    100
}

/// Per-campaign budget ceiling applied to every proposed campaign.
#[derive(Debug, Clone)]
pub struct CampaignBudgetLimit {
    pub max_experiments: u32,
    pub max_duration: String,
}

impl Default for CampaignBudgetLimit {
    fn default() -> (r: Self)
        ensures
            r.max_experiments == 12,
            r.max_duration@ == "48h"@,
    {
        Self {
            max_experiments: 12,
            max_duration: "48h".to_owned(),
        }
    }
}

/// Stagnation policy for the perpetual loop.
#[derive(Debug, Clone)]
pub struct StagnationSpec {
    /// Number of consecutive completed campaigns without a sigma-gated
    /// improvement over the drive's bestObjective before the drive parks in
    /// NeedsHuman.
    pub window: u32,
}

impl Default for StagnationSpec {
    fn default() -> (r: Self)
        ensures
            r.window == 3,
    {
        Self {
            window: default_stagnation_window(),
        }
    }
}

/// What `stagnation_window` is where it is not given.
pub fn default_stagnation_window() -> (r: u32)
    ensures
        r == 3,
{
    3
}

/// Gate policy for structural (harness/rigging/sim) proposals.
#[derive(Debug, Clone, Default, PartialEq, Eq)]
pub enum StructuralChangePolicy {
    /// Structural proposals pause the drive in AwaitingApproval until a human
    /// sets the approval annotation.
    #[default]
    RequireApproval,
    /// Structural proposals are recorded but never pause the loop.
    Auto,
}

/// One campaign the drive currently owns (a live branch of the research DAG).
#[derive(Debug, Clone, Default)]
pub struct BranchRef {
    /// Branch label (proposer-chosen theory name, e.g. "gait-frequency").
    pub name: String,
    /// Name of the ResearchCampaign running this branch.
    pub campaign: String,
    /// ExperimentTemplate the campaign runs against.
    pub template_ref: String,
    /// Campaign this branch forked from (None for root branches).
    pub forked_from: Option<String>,
}

/// Lifecycle phase of the perpetual loop.
#[derive(Debug, Clone, Default, PartialEq, Eq)]
pub enum DrivePhase {
    /// No campaign running; waiting to propose (or just created).
    #[default]
    Idle,
    /// At least one owned campaign is active.
    CampaignRunning,
    /// A proposer call is in flight for the next campaign(s).
    Proposing,
    /// A structural proposal awaits the approval annotation.
    AwaitingApproval,
    /// Stagnation window or lifetime campaign cap reached; human input needed.
    NeedsHuman,
    /// spec.paused=true; controller proposes and creates nothing.
    Paused,
    /// Terminal controller error (e.g. proposer permanently unreachable).
    Failed,
}

impl DrivePhase {
    /// The name of the phase.
    pub open spec fn named(&self) -> Seq<char> {
        match self {
            DrivePhase::Idle => "Idle"@,
            DrivePhase::CampaignRunning => "CampaignRunning"@,
            DrivePhase::Proposing => "Proposing"@,
            DrivePhase::AwaitingApproval => "AwaitingApproval"@,
            DrivePhase::NeedsHuman => "NeedsHuman"@,
            DrivePhase::Paused => "Paused"@,
            DrivePhase::Failed => "Failed"@,
        }
    }

    /// The name of the phase.
    pub fn label(&self) -> (r: &'static str)
        ensures
            r@ == self.named(),
    {
        match self {
            DrivePhase::Idle => "Idle",
            DrivePhase::CampaignRunning => "CampaignRunning",
            DrivePhase::Proposing => "Proposing",
            DrivePhase::AwaitingApproval => "AwaitingApproval",
            DrivePhase::NeedsHuman => "NeedsHuman",
            DrivePhase::Paused => "Paused",
            DrivePhase::Failed => "Failed",
        }
    }
}

/// Decision state of one recorded proposal.
#[derive(Debug, Clone, Default, PartialEq, Eq)]
pub enum ProposalDecision {
    /// Campaign(s) created from this proposal.
    #[default]
    Accepted,
    /// Proposal failed validation (template not allowed, budget over clamp,
    /// unknown seed experiment) and was discarded.
    Rejected,
    /// Structural proposal waiting for the approval annotation.
    AwaitingApproval,
    /// Human approved a structural proposal via annotation.
    Approved,
    /// Human declined a structural proposal.
    Declined,
}

/// One proposer decision recorded in the drive's bounded history (cap 10;
/// the controller drops the oldest entry when full).
#[derive(Debug, Clone, Default)]
pub struct ProposalRecord {
    /// Stable id assigned by the controller (proposal-<n>). Humans approve
    /// structural proposals via annotation `research.nixlab.io/approve-proposal: "<id>"`.
    pub id: String,
    /// Proposer's one-paragraph hypothesis/rationale.
    pub summary: String,
    /// Decision state of this proposal.
    pub decision: ProposalDecision,
    /// Campaign names created from this proposal (empty for structural or
    /// rejected proposals).
    pub campaign_names: Vec<String>,
}

#[derive(Debug, Clone, Default)]
pub struct ResearchDriveStatus {
    /// Loop lifecycle phase.
    pub phase: Option<DrivePhase>,
    /// Campaigns the drive currently owns (live branches).
    pub current_campaigns: Vec<BranchRef>,
    /// Campaigns already folded into drive state, newest last (bounded ring).
    pub folded_campaigns: Vec<String>,
    /// Observed curriculum progress; present only when spec.curriculum is set.
    pub curriculum: Option<CurriculumStatus>,
    /// Lifetime campaigns completed under this drive.
    pub campaigns_completed: u32,
    /// Best sigma-gated objective observed across ALL campaigns of this drive.
    /// Unlike campaign-level bestObjective this only moves on re-measured
    /// (unbiased) improvements, so it is honest progress evidence.
    pub best_objective: Option<Real>,
    /// <experiment-name> holding the drive-level best objective.
    pub best_experiment_ref: Option<String>,
    /// Template that produced the current drive-level best. Sigma-gated
    /// comparison only happens WITHIN a template — objectives from different
    /// templates are not comparable, so a campaign fold against a different
    /// template is recorded but never displaces the incumbent (cross-template
    /// synthesis is the proposer's job, not a raw number comparison).
    pub best_template_ref: Option<String>,
    /// Consecutive completed campaigns without a sigma-gated improvement.
    /// Reset to 0 on any accepted improvement.
    pub stagnation_counter: u32,
    /// Bounded ring of proposer decisions (newest last, cap 10).
    pub proposals: Vec<ProposalRecord>,
    /// RFC 3339 timestamp of the last successful proposer call.
    pub last_proposal_at: Option<String>,
    pub observed_generation: Option<i64>,
    pub controller_version: Option<String>,
    pub conditions: Vec<Condition>,
}

/// A ResearchDrive of the cluster.
#[derive(Debug, Clone)]
pub struct ResearchDrive {
    pub metadata: ObjectMeta,
    pub spec: ResearchDriveSpec,
    pub status: Option<ResearchDriveStatus>,
}

/// A phase of a drive reads as its own name, and no two read alike.
pub proof fn a_drive_phase_goes_by_its_name(x: DrivePhase)
    ensures
        x.named() == seq!['I', 'd', 'l', 'e'] <==> x is Idle,
        x.named() == seq!['C', 'a', 'm', 'p', 'a', 'i', 'g', 'n', 'R', 'u', 'n', 'n', 'i', 'n', 'g'] <==> x is CampaignRunning,
        x.named() == seq!['P', 'r', 'o', 'p', 'o', 's', 'i', 'n', 'g'] <==> x is Proposing,
        x.named() == seq!['A', 'w', 'a', 'i', 't', 'i', 'n', 'g', 'A', 'p', 'p', 'r', 'o', 'v', 'a', 'l'] <==> x is AwaitingApproval,
        x.named() == seq!['N', 'e', 'e', 'd', 's', 'H', 'u', 'm', 'a', 'n'] <==> x is NeedsHuman,
        x.named() == seq!['P', 'a', 'u', 's', 'e', 'd'] <==> x is Paused,
        x.named() == seq!['F', 'a', 'i', 'l', 'e', 'd'] <==> x is Failed,
{
    reveal_strlit("Idle");
    reveal_strlit("CampaignRunning");
    reveal_strlit("Proposing");
    reveal_strlit("AwaitingApproval");
    reveal_strlit("NeedsHuman");
    reveal_strlit("Paused");
    reveal_strlit("Failed");
    assert("Idle"@.len() != "CampaignRunning"@.len());
    assert("Idle"@.len() != "Proposing"@.len());
    assert("Idle"@.len() != "AwaitingApproval"@.len());
    assert("Idle"@.len() != "NeedsHuman"@.len());
    assert("Idle"@.len() != "Paused"@.len());
    assert("Idle"@.len() != "Failed"@.len());
    assert("CampaignRunning"@.len() != "Proposing"@.len());
    assert("CampaignRunning"@.len() != "AwaitingApproval"@.len());
    assert("CampaignRunning"@.len() != "NeedsHuman"@.len());
    assert("CampaignRunning"@.len() != "Paused"@.len());
    assert("CampaignRunning"@.len() != "Failed"@.len());
    assert("Proposing"@.len() != "AwaitingApproval"@.len());
    assert("Proposing"@.len() != "NeedsHuman"@.len());
    assert("Proposing"@.len() != "Paused"@.len());
    assert("Proposing"@.len() != "Failed"@.len());
    assert("AwaitingApproval"@.len() != "NeedsHuman"@.len());
    assert("AwaitingApproval"@.len() != "Paused"@.len());
    assert("AwaitingApproval"@.len() != "Failed"@.len());
    assert("NeedsHuman"@.len() != "Paused"@.len());
    assert("NeedsHuman"@.len() != "Failed"@.len());
    assert("Paused"@[0] != "Failed"@[0]);
    assert("Idle"@ =~= seq!['I', 'd', 'l', 'e']);
    assert("CampaignRunning"@ =~= seq!['C', 'a', 'm', 'p', 'a', 'i', 'g', 'n', 'R', 'u', 'n', 'n', 'i', 'n', 'g']);
    assert("Proposing"@ =~= seq!['P', 'r', 'o', 'p', 'o', 's', 'i', 'n', 'g']);
    assert("AwaitingApproval"@ =~= seq!['A', 'w', 'a', 'i', 't', 'i', 'n', 'g', 'A', 'p', 'p', 'r', 'o', 'v', 'a', 'l']);
    assert("NeedsHuman"@ =~= seq!['N', 'e', 'e', 'd', 's', 'H', 'u', 'm', 'a', 'n']);
    assert("Paused"@ =~= seq!['P', 'a', 'u', 's', 'e', 'd']);
    assert("Failed"@ =~= seq!['F', 'a', 'i', 'l', 'e', 'd']);
}

} // verus!

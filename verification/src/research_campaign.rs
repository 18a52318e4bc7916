//! ResearchCampaign: a search over experiments of one template.

use vstd::prelude::*;
use crate::experiment::ExperimentCondition;
use crate::json::Json;
use crate::meta::ObjectMeta;
use crate::number::Real;
use crate::textmap::TextMap;

verus! {

#[derive(Debug, Clone)]
pub struct ResearchCampaignSpec {
    pub template_ref: String,
    pub concurrency: u32,
    pub budget: CampaignBudget,
    pub strategy: StrategySpec,

    /// Optional BenchmarkSuite to evaluate each succeeded experiment against.
    /// When set, the campaign creates a BenchmarkRun per succeeded experiment
    /// (targetRef = the Experiment) and DEFERS the Keep/Discard decision to the
    /// benchmark's gate results (via promotionPolicy.updateExperimentStatus)
    /// instead of stamping it from the raw training objective.
    pub benchmark_suite_ref: Option<String>,

    /// RuntimeProfile (BatchJob mode) the BenchmarkRun executes in. Required for
    /// benchmarking to actually run — an Experiment targetRef is not itself a
    /// RuntimeProfile, so the run can't fall back to it.
    pub benchmark_runtime_profile_ref: Option<String>,

    /// Population size for population-based training (PBT) strategies.
    pub population_size: Option<u32>,

    /// Perturbation factor applied to hyperparameters during PBT exploit/explore.
    pub perturb_factor: Option<Real>,

    /// Optional ephemeral inference mesh (mesh-llm) brought up for the campaign's
    /// active lifetime and torn down when the campaign reaches terminal phase.
    /// While set, every experiment the campaign creates gets `LLM_BASE_URL`
    /// injected to point at the mesh Service, and experiment generation is gated
    /// on the mesh becoming Ready.
    pub inference_mesh: Option<InferenceMeshSpec>,

    /// Optional ephemeral MULTI-NODE inference cluster (vLLM tensor/pipeline
    /// parallel over Ray) for models too big for one GPU. The operator creates a
    /// Kueue-admitted RayJob (mesh-high priority → reclaims GPUs from spot) plus a
    /// stable head Service; experiments get `LLM_BASE_URL` injected and generation
    /// is gated on it serving. Torn down at terminal phase. Mutually exclusive with
    /// inferenceMesh (single-node); if both set, inferenceCluster wins.
    pub inference_cluster: Option<VllmClusterSpec>,

    /// Optional canary stage: one cheap gate experiment generated before any
    /// budgeted experiments. Generation of further experiments is held until the
    /// canary succeeds AND (if a benchmark suite gates it) its gates pass.
    pub canary: Option<CanarySpec>,
}

/// One cheap gate experiment run before the campaign spends real budget.
///
/// Rationale: full-length training runs (e.g. 25M-step, ~280 GPU-h sweeps) have
/// repeatedly been burned on recipes a 2M-step canary + behavioral probes would
/// have vetoed in ~40 minutes. With a canary configured the campaign generates
/// exactly one experiment (`<campaign>-canary`) and holds everything else until
/// it Succeeds and its benchmark gates pass; a Failed canary (or a gate Discard)
/// parks the campaign in phase `CanaryFailed` without generating anything
/// further. Hard rule for cloud bursts: nothing reaches `sky launch` without a
/// green canary.
#[derive(Debug, Clone, Default)]
pub struct CanarySpec {
    /// Parameter overrides deep-merged over the template's default parameters
    /// (canary wins at any depth; arrays replace wholesale) for the canary
    /// experiment only. Typical use: {"total_timesteps": 2000000}.
    pub parameters: Json,

    /// Gate suite for the canary; falls back to the campaign's
    /// benchmarkSuiteRef. If neither is set, its condition is simply "the canary
    /// experiment Succeeded".
    pub benchmark_suite_ref: Option<String>,

    /// Optional wall-clock bound for the canary. Recorded for runners/humans
    /// but NOT enforced by the controller yet — budget.maxDuration isn't
    /// enforced either, and the canary mirrors that mechanism rather than
    /// inventing a new one.
    pub max_duration: Option<String>,
}

/// Ephemeral multi-node vLLM-on-Ray inference cluster. Serves one model split
/// across `pipelineParallelSize` GPUs (head = driver + rank 0, plus N-1 workers)
/// via a RayJob. Verified config: vLLM 0.6.6 / ray 2.40.0 on Quadro-RTX-4000
/// (Turing) needs fp16 + XFORMERS + enforce-eager; head MUST carry a GPU (driver
/// does CUDA device inference); max-model-len bounded by 8GB KV-cache headroom.
#[derive(Debug, Clone)]
pub struct VllmClusterSpec {
    /// vLLM OpenAI image (must bundle ray == rayVersion). e.g. vllm/vllm-openai:v0.6.6.post1
    pub image: String,
    /// HF model ref (safetensors), e.g. deepseek-ai/DeepSeek-Prover-V2-7B.
    pub model: String,
    /// Total GPUs to split the model across (= pipeline-parallel-size). 1 head + (n-1) workers.
    pub pipeline_parallel_size: u32,
    /// OpenAI API port vLLM serves on.
    pub port: u16,
    /// Ray version — MUST match the ray bundled in `image` or GCS registration fails.
    pub ray_version: String,
    /// Max sequence length; bounded by per-GPU KV-cache headroom after weights.
    pub max_model_len: u32,
    /// vLLM dtype. Turing has no efficient bf16 → float16.
    pub dtype: String,
    /// nodeSelector `nvidia.com/gpu.product` value (the GPU pool to land on).
    pub gpu_product: String,
    /// Kueue LocalQueue name (maps to the GPU ClusterQueue).
    pub queue_name: String,
    /// Kueue WorkloadPriorityClass — `mesh-high` preempts default-priority spot.
    pub priority_class: String,
    /// Pod tolerations (raw JSON). Defaults to the nvidia GPU taint if empty.
    pub tolerations: Vec<Json>,
    /// runtimeClassName (nvidia on k3s GPU nodes).
    pub runtime_class_name: String,
    /// Extra args appended to `vllm serve`.
    pub extra_args: Vec<String>,
}

/// What `vllm_port` is where it is not given.
pub fn default_vllm_port() -> (r: u16)
    ensures
        r == 8000,
{
    8000
}

/// What `ray_version` is where it is not given.
pub fn default_ray_version() -> (r: String)
    ensures
        r@ == "2.40.0"@,
{
    "2.40.0".to_owned()
}

/// What `max_model_len` is where it is not given.
pub fn default_max_model_len() -> (r: u32)
    ensures
        r == 4096,
{
    4096
}

/// What `dtype` is where it is not given.
pub fn default_dtype() -> (r: String)
    ensures
        r@ == "float16"@,
{
    "float16".to_owned()
}

/// What `gpu_product` is where it is not given.
pub fn default_gpu_product() -> (r: String)
    ensures
        r@ == "Quadro-RTX-4000"@,
{
    "Quadro-RTX-4000".to_owned()
}

/// What `cluster_queue_name` is where it is not given.
pub fn default_cluster_queue_name() -> (r: String)
    ensures
        r@ == "athena-gpu"@,
{
    "athena-gpu".to_owned()
}

/// What `priority_class` is where it is not given.
pub fn default_priority_class() -> (r: String)
    ensures
        r@ == "mesh-high"@,
{
    "mesh-high".to_owned()
}

/// What `nvidia_runtime_class` is where it is not given.
pub fn default_nvidia_runtime_class() -> (r: String)
    ensures
        r@ == "nvidia"@,
{
    "nvidia".to_owned()
}

/// Ephemeral OpenAI-compatible inference endpoint (mesh-llm) the operator brings
/// up for the duration of a campaign. Runs as a companion Deployment+Service the
/// campaign owns; keep it OUT of the Kueue-managed GPU pool (e.g. pin to traitor)
/// so it can't over-subscribe quota Kueue arbitrates for experiment Jobs.
#[derive(Debug, Clone)]
pub struct InferenceMeshSpec {
    /// Container image serving the mesh-llm OpenAI endpoint.
    pub image: String,
    /// Model to serve (mesh-llm catalog name, HF ref, or in-image path).
    pub model: String,
    /// API port. mesh-llm defaults to 9337.
    pub port: u16,
    /// nodeSelector for the mesh pod (e.g. pin to a specific host/pool).
    pub node_selector: TextMap<String>,
    /// Pod tolerations (raw JSON, mirrors SchedulingProfile.tolerations).
    pub tolerations: Vec<Json>,
    /// GPU resource requests/limits, e.g. {"amd.com/gpu": "1"} or
    /// {"nvidia.com/gpu": "2"}. Empty = CPU-only.
    pub gpu_resources: TextMap<String>,
    /// runtimeClassName (e.g. "nvidia"). Required for NVIDIA GPU pods on k3s.
    pub runtime_class_name: Option<String>,
    /// Extra args appended to `mesh-llm serve`.
    pub extra_args: Vec<String>,
}

/// What `mesh_port` is where it is not given.
pub fn default_mesh_port() -> (r: u16)
    ensures
        r == 9337,
{
    9337
}

#[derive(Debug, Clone)]
pub struct CampaignBudget {
    pub max_experiments: u32,
    pub max_duration: String,
}

impl Default for CampaignBudget {
    fn default() -> (r: Self)
        ensures
            r.max_experiments == 300,
            r.max_duration@ == "24h"@,
    {
        Self {
            max_experiments: 300,
            max_duration: "24h".to_owned(),
        }
    }
}

#[derive(Debug, Clone)]
pub struct StrategySpec {
    pub strategy_type: String,
}

impl Default for StrategySpec {
    fn default() -> (r: Self)
        ensures
            r.strategy_type@ == "heuristic"@,
    {
        Self {
            strategy_type: "heuristic".to_owned(),
        }
    }
}

#[derive(Debug, Clone, Default)]
pub struct ResearchCampaignStatus {
    pub running_experiments: u32,
    pub succeeded_experiments: u32,
    pub failed_experiments: u32,
    pub best_experiment: Option<String>,
    /// Total experiments the campaign has generated so far.
    pub total_experiments: u32,
    /// Best objective value observed across succeeded experiments (per the
    /// template objective goal). Lets you watch the loop improve over iterations.
    pub best_objective: Option<Real>,
    /// The incumbent measured again on fresh seeds: an unbiased estimate.
    pub incumbent_remeasured: Option<Real>,
    /// `best_objective` less `incumbent_remeasured`, where both are there.
    pub maximization_bias: Option<Real>,
    /// The spread of the control runs.
    pub seed_noise_sigma: Option<Real>,
    /// How many control runs the estimates rest on.
    pub control_runs: u32,
    /// Loop phase: Running while generating/evaluating, Completed at budget.
    pub phase: Option<String>,
    pub observed_generation: Option<i64>,
    pub controller_version: Option<String>,
    /// Name of the canary gate Experiment, once created (spec.canary only).
    pub canary_experiment: Option<String>,
    /// Canary gate state: "pending" | "running" | "passed" | "failed".
    pub canary_state: Option<String>,
    /// Bounded conditions, e.g. `ExperimentsHealthy`.
    pub conditions: Option<Vec<ExperimentCondition>>,
}

/// A ResearchCampaign of the cluster.
#[derive(Debug, Clone)]
pub struct ResearchCampaign {
    pub metadata: ObjectMeta,
    pub spec: ResearchCampaignSpec,
    pub status: Option<ResearchCampaignStatus>,
}

} // verus!

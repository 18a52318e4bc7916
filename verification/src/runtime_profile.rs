//! RuntimeProfile: how and where experiments run.

use vstd::prelude::*;
use crate::json::Json;
use crate::meta::ObjectMeta;
use crate::textmap::TextMap;

verus! {

#[derive(Debug, Clone)]
pub struct RuntimeProfileSpec {
    pub runtime: RuntimeSpec,
    pub image: String,
    pub pull_policy: Option<String>,
    pub command: Vec<String>,
    pub args: Vec<String>,
    pub resources: ResourceProfile,
    pub storage: StorageProfile,
    pub scheduling: SchedulingProfile,
    pub policy: RuntimePolicy,
    pub metrics_endpoint: MetricsEndpoint,
    /// Image pull secrets for private registries.
    pub image_pull_secrets: Vec<crate::common::LocalObjectReference>,
    /// Plain name/value environment variables injected into the job container.
    pub env: Vec<EnvVar>,
    /// Secrets mounted as files (e.g. a GCS service-account key).
    pub secret_mounts: Vec<SecretMount>,
    /// Optional SkyPilot cloud-burst layer. Absent = on-prem Kubernetes Job.
    /// Present + enabled = the operator builds a small
    /// launcher Job that renders a sky task from the experiment (same image /
    /// command / env the k8s path would use) and runs `sky launch` — the chain
    /// is sky -> kueue -> ray -> experiment: the LAUNCHER Job (not the cloud
    /// node) is what Kueue admits, so cloud bursts still flow through quota
    /// accounting. Quota then represents "concurrent experiments", not local
    /// GPUs — intended.
    pub sky: Option<SkySpec>,
}

/// SkyPilot cloud-burst settings for a RuntimeProfile.
///
/// TTLs are belt-and-braces: `idleMinutesToAutostop` handles idleness,
/// `ttlMinutes` is a HARD teardown enforced by the launcher (`timeout` around
/// `sky launch --down` followed by an unconditional `sky down`) — a burst
/// never leaves a zombie cloud node.
#[derive(Debug, Clone)]
pub struct SkySpec {
    /// Burst this profile's experiments to the cloud (default true when the
    /// block is present; the block being absent is the on-prem switch).
    pub enabled: bool,
    /// SkyPilot accelerator string, e.g. `A10:8`. Unset = CPU-only task.
    pub accelerators: Option<String>,
    /// Optional cloud pin (e.g. `gcp`). Unset = SkyPilot's ordered/cheapest.
    pub cloud: Option<String>,
    /// Use spot/preemptible instances.
    pub use_spot: bool,
    /// Hard autostop/teardown in minutes — the launcher tears the cluster down
    /// unconditionally once this elapses, even if the task hangs.
    pub ttl_minutes: Option<u32>,
    /// `sky launch --idle-minutes-to-autostop` window.
    pub idle_minutes_to_autostop: Option<u32>,
    /// Secret (in the Job's namespace) whose keys are injected as env vars into
    /// the launcher container for sky CLI cloud credentials.
    pub env_secret_ref: Option<String>,
}

impl Default for SkySpec {
    fn default() -> (r: Self)
        ensures
            r.enabled,
            r.use_spot,
            r.accelerators is None,
            r.cloud is None,
            r.ttl_minutes is None,
            r.idle_minutes_to_autostop is None,
            r.env_secret_ref is None,
    {
        Self {
            enabled: default_sky_enabled(),
            accelerators: None,
            cloud: None,
            use_spot: default_sky_use_spot(),
            ttl_minutes: None,
            idle_minutes_to_autostop: None,
            env_secret_ref: None,
        }
    }
}

/// What `sky_enabled` is where it is not given.
pub fn default_sky_enabled() -> (r: bool)
    ensures
        r == true,
{
    true
}

/// What `sky_use_spot` is where it is not given.
pub fn default_sky_use_spot() -> (r: bool)
    ensures
        r == true,
{
    true
}

#[derive(Debug, Clone, Default)]
pub struct EnvVar {
    pub name: String,
    pub value: Option<String>,
}

#[derive(Debug, Clone, Default)]
pub struct SecretMount {
    pub secret_name: String,
    pub mount_path: String,
    pub sub_path: Option<String>,
}

/// Live metrics integration for experiment Jobs.
///
/// The operator injects the scrape `port`/`path` and (optionally) a Prometheus
/// query URL into each experiment pod, so training code can transparently
/// *store* metrics (expose them for scrape) and *retrieve* them for live
/// display (query Prometheus) during a run. A chart-rendered `PodMonitor`
/// selects pods labelled `app.kubernetes.io/name=athena-experiment` and scrapes
/// `port`; the cluster Prometheus discovers it (empty podMonitorSelector).
///
/// `metrics.json` in the workspace remains the authoritative final summary;
/// Prometheus is additive live data, not a replacement. Retrieval that feeds a
/// control-flow decision must read authoritative CR status / artifacts instead.
#[derive(Debug, Clone)]
pub struct MetricsEndpoint {
    /// Expose live metrics for scraping (default true).
    pub enabled: bool,
    /// Port the experiment exposes Prometheus-text metrics on.
    pub port: i32,
    /// HTTP path the metrics are served at.
    pub path: String,
    /// Prometheus HTTP query base URL injected for in-job display retrieval
    /// (e.g. `http://prometheus-operated.monitoring.svc:9090`). When unset the
    /// retrieve-for-display path is disabled in the job.
    pub prometheus_query_url: Option<String>,
}

impl Default for MetricsEndpoint {
    fn default() -> (r: Self)
        ensures
            r.enabled,
            r.port == 9108,
            r.path@ == "/metrics"@,
            r.prometheus_query_url is None,
    {
        Self {
            enabled: default_metrics_enabled(),
            port: default_metrics_port(),
            path: default_metrics_path(),
            prometheus_query_url: None,
        }
    }
}

/// What `metrics_enabled` is where it is not given.
pub fn default_metrics_enabled() -> (r: bool)
    ensures
        r == true,
{
    true
}

/// What `metrics_port` is where it is not given.
pub fn default_metrics_port() -> (r: i32)
    ensures
        r == 9108,
{
    9108
}

/// What `metrics_path` is where it is not given.
pub fn default_metrics_path() -> (r: String)
    ensures
        r@ == "/metrics"@,
{
    "/metrics".to_owned()
}

#[derive(Debug, Clone, Default)]
pub struct RuntimeSpec {
    pub runtime_type: RuntimeType,
    pub mode: ExecutionMode,
    pub config: TextMap<Json>,
}

#[derive(Debug, Clone, Default, PartialEq)]
pub enum RuntimeType {
    #[default]
    Pytorch,
    Mlx,
    Ollama,
    Vllm,
    LlamaCpp,
    Skypilot,
    Modal,
    Custom,
}

impl RuntimeType {
    /// The name of the runtime.
    pub open spec fn named(&self) -> Seq<char> {
        match self {
            RuntimeType::Pytorch => "Pytorch"@,
            RuntimeType::Mlx => "Mlx"@,
            RuntimeType::Ollama => "Ollama"@,
            RuntimeType::Vllm => "Vllm"@,
            RuntimeType::LlamaCpp => "LlamaCpp"@,
            RuntimeType::Skypilot => "Skypilot"@,
            RuntimeType::Modal => "Modal"@,
            RuntimeType::Custom => "Custom"@,
        }
    }

    /// The name of the runtime.
    pub fn label(&self) -> (r: &'static str)
        ensures
            r@ == self.named(),
    {
        match self {
            RuntimeType::Pytorch => "Pytorch",
            RuntimeType::Mlx => "Mlx",
            RuntimeType::Ollama => "Ollama",
            RuntimeType::Vllm => "Vllm",
            RuntimeType::LlamaCpp => "LlamaCpp",
            RuntimeType::Skypilot => "Skypilot",
            RuntimeType::Modal => "Modal",
            RuntimeType::Custom => "Custom",
        }
    }
}

#[derive(Debug, Clone, Default, PartialEq)]
pub enum ExecutionMode {
    #[default]
    BatchJob,
    Service,
    ExternalJob,
}

impl ExecutionMode {
    /// The name of the mode.
    pub open spec fn named(&self) -> Seq<char> {
        match self {
            ExecutionMode::BatchJob => "BatchJob"@,
            ExecutionMode::Service => "Service"@,
            ExecutionMode::ExternalJob => "ExternalJob"@,
        }
    }

    /// The name of the mode.
    pub fn label(&self) -> (r: &'static str)
        ensures
            r@ == self.named(),
    {
        match self {
            ExecutionMode::BatchJob => "BatchJob",
            ExecutionMode::Service => "Service",
            ExecutionMode::ExternalJob => "ExternalJob",
        }
    }
}

#[derive(Debug, Clone, Default)]
pub struct ResourceProfile {
    pub requests: TextMap<String>,
    pub limits: TextMap<String>,
}

#[derive(Debug, Clone)]
pub struct StorageProfile {
    pub workspace_claim_name: String,
    pub workspace_mount_path: String,
    pub create_workspace_claim: bool,
    pub workspace_access_modes: Vec<String>,
    pub workspace_size: String,
    pub workspace_storage_class_name: Option<String>,
}

impl Default for StorageProfile {
    fn default() -> (r: Self)
        ensures
            r.workspace_claim_name@ == "athena-workspace"@,
            r.workspace_mount_path@ == "/workspace"@,
            r.create_workspace_claim,
            r.workspace_access_modes.deep_view() == seq!["ReadWriteOnce"@],
            r.workspace_size@ == "20Gi"@,
            r.workspace_storage_class_name is None,
    {
        Self {
            workspace_claim_name: "athena-workspace".to_owned(),
            workspace_mount_path: "/workspace".to_owned(),
            create_workspace_claim: true,
            workspace_access_modes: default_workspace_access_modes(),
            workspace_size: default_workspace_size(),
            workspace_storage_class_name: None,
        }
    }
}

/// What `create_workspace_claim` is where it is not given.
pub fn default_create_workspace_claim() -> (r: bool)
    ensures
        r == true,
{
    true
}

/// What `workspace_access_modes` is where it is not given.
pub fn default_workspace_access_modes() -> (r: Vec<String>)
    ensures
        r.deep_view() == seq!["ReadWriteOnce"@],
{
    let mut r: Vec<String> = Vec::new();
    r.push("ReadWriteOnce".to_owned());
    assert(r.deep_view() =~= seq!["ReadWriteOnce"@]);
    r
}

/// What `workspace_size` is where it is not given.
pub fn default_workspace_size() -> (r: String)
    ensures
        r@ == "20Gi"@,
{
    "20Gi".to_owned()
}

#[derive(Debug, Clone, Default)]
pub struct SchedulingProfile {
    pub node_selector: TextMap<String>,
    pub tolerations: Vec<Json>,
    pub priority_class_name: Option<String>,
    /// Container runtime class for the experiment pods (e.g. `nvidia` on k3s
    /// nodes where the NVIDIA runtime is not containerd's default — without it
    /// the pod gets the GPU resource but no driver).
    pub runtime_class_name: Option<String>,
    /// Kueue LocalQueue (in the Job's namespace) to submit this experiment's
    /// Job to. When set, the operator stamps the `kueue.x-k8s.io/queue-name`
    /// label and creates the Job suspended, so Kueue admits it against the
    /// queue's quota. Unset → Jobs schedule directly, no Kueue involvement.
    pub queue_name: Option<String>,
}

#[derive(Debug, Clone)]
pub struct RuntimePolicy {
    pub allow_image_override: bool,
    pub allow_command_override: bool,
    pub allow_secret_refs: bool,
}

impl Default for RuntimePolicy {
    fn default() -> (r: Self)
        ensures
            !r.allow_image_override,
            !r.allow_command_override,
            !r.allow_secret_refs,
    {
        Self {
            allow_image_override: false,
            allow_command_override: false,
            allow_secret_refs: false,
        }
    }
}

#[derive(Debug, Clone, Default)]
pub struct RuntimeProfileStatus {
    pub ready: bool,
    pub message: Option<String>,
}

/// A RuntimeProfile of the cluster.
#[derive(Debug, Clone)]
pub struct RuntimeProfile {
    pub metadata: ObjectMeta,
    pub spec: RuntimeProfileSpec,
    pub status: Option<RuntimeProfileStatus>,
}

/// A runtime reads as its own name, and no two read alike.
pub proof fn a_runtime_goes_by_its_name(x: RuntimeType)
    ensures
        x.named() == seq!['P', 'y', 't', 'o', 'r', 'c', 'h'] <==> x is Pytorch,
        x.named() == seq!['M', 'l', 'x'] <==> x is Mlx,
        x.named() == seq!['O', 'l', 'l', 'a', 'm', 'a'] <==> x is Ollama,
        x.named() == seq!['V', 'l', 'l', 'm'] <==> x is Vllm,
        x.named() == seq!['L', 'l', 'a', 'm', 'a', 'C', 'p', 'p'] <==> x is LlamaCpp,
        x.named() == seq!['S', 'k', 'y', 'p', 'i', 'l', 'o', 't'] <==> x is Skypilot,
        x.named() == seq!['M', 'o', 'd', 'a', 'l'] <==> x is Modal,
        x.named() == seq!['C', 'u', 's', 't', 'o', 'm'] <==> x is Custom,
{
    reveal_strlit("Pytorch");
    reveal_strlit("Mlx");
    reveal_strlit("Ollama");
    reveal_strlit("Vllm");
    reveal_strlit("LlamaCpp");
    reveal_strlit("Skypilot");
    reveal_strlit("Modal");
    reveal_strlit("Custom");
    assert("Pytorch"@.len() != "Mlx"@.len());
    assert("Pytorch"@.len() != "Ollama"@.len());
    assert("Pytorch"@.len() != "Vllm"@.len());
    assert("Pytorch"@.len() != "LlamaCpp"@.len());
    assert("Pytorch"@.len() != "Skypilot"@.len());
    assert("Pytorch"@.len() != "Modal"@.len());
    assert("Pytorch"@.len() != "Custom"@.len());
    assert("Mlx"@.len() != "Ollama"@.len());
    assert("Mlx"@.len() != "Vllm"@.len());
    assert("Mlx"@.len() != "LlamaCpp"@.len());
    assert("Mlx"@.len() != "Skypilot"@.len());
    assert("Mlx"@.len() != "Modal"@.len());
    assert("Mlx"@.len() != "Custom"@.len());
    assert("Ollama"@.len() != "Vllm"@.len());
    assert("Ollama"@.len() != "LlamaCpp"@.len());
    assert("Ollama"@.len() != "Skypilot"@.len());
    assert("Ollama"@.len() != "Modal"@.len());
    assert("Ollama"@[0] != "Custom"@[0]);
    assert("Vllm"@.len() != "LlamaCpp"@.len());
    assert("Vllm"@.len() != "Skypilot"@.len());
    assert("Vllm"@.len() != "Modal"@.len());
    assert("Vllm"@.len() != "Custom"@.len());
    assert("LlamaCpp"@[0] != "Skypilot"@[0]);
    assert("LlamaCpp"@.len() != "Modal"@.len());
    assert("LlamaCpp"@.len() != "Custom"@.len());
    assert("Skypilot"@.len() != "Modal"@.len());
    assert("Skypilot"@.len() != "Custom"@.len());
    assert("Modal"@.len() != "Custom"@.len());
    assert("Pytorch"@ =~= seq!['P', 'y', 't', 'o', 'r', 'c', 'h']);
    assert("Mlx"@ =~= seq!['M', 'l', 'x']);
    assert("Ollama"@ =~= seq!['O', 'l', 'l', 'a', 'm', 'a']);
    assert("Vllm"@ =~= seq!['V', 'l', 'l', 'm']);
    assert("LlamaCpp"@ =~= seq!['L', 'l', 'a', 'm', 'a', 'C', 'p', 'p']);
    assert("Skypilot"@ =~= seq!['S', 'k', 'y', 'p', 'i', 'l', 'o', 't']);
    assert("Modal"@ =~= seq!['M', 'o', 'd', 'a', 'l']);
    assert("Custom"@ =~= seq!['C', 'u', 's', 't', 'o', 'm']);
}

/// An execution mode reads as its own name, and no two read alike.
pub proof fn a_mode_goes_by_its_name(x: ExecutionMode)
    ensures
        x.named() == seq!['B', 'a', 't', 'c', 'h', 'J', 'o', 'b'] <==> x is BatchJob,
        x.named() == seq!['S', 'e', 'r', 'v', 'i', 'c', 'e'] <==> x is Service,
        x.named() == seq!['E', 'x', 't', 'e', 'r', 'n', 'a', 'l', 'J', 'o', 'b'] <==> x is ExternalJob,
{
    reveal_strlit("BatchJob");
    reveal_strlit("Service");
    reveal_strlit("ExternalJob");
    assert("BatchJob"@.len() != "Service"@.len());
    assert("BatchJob"@.len() != "ExternalJob"@.len());
    assert("Service"@.len() != "ExternalJob"@.len());
    assert("BatchJob"@ =~= seq!['B', 'a', 't', 'c', 'h', 'J', 'o', 'b']);
    assert("Service"@ =~= seq!['S', 'e', 'r', 'v', 'i', 'c', 'e']);
    assert("ExternalJob"@ =~= seq!['E', 'x', 't', 'e', 'r', 'n', 'a', 'l', 'J', 'o', 'b']);
}

} // verus!

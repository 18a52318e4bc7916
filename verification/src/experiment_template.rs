//! ExperimentTemplate: what the experiments of a campaign have in common.

use vstd::prelude::*;
use crate::json::Json;
use crate::meta::ObjectMeta;
use crate::number::Real;
use crate::textmap::TextMap;

verus! {

#[derive(Debug, Clone)]
pub struct ExperimentTemplateSpec {
    pub runtime_profile_ref: String,
    pub source: SourceSpec,
    pub objective: ObjectiveSpec,
    pub metrics: MetricsSpec,
    pub parameter_schema: TextMap<ParameterSpec>,
    pub defaults: TextMap<Json>,
    /// How the metrics of the template are shown and explained.
    pub dashboard: Option<DashboardSpec>,
    /// The question that the template's campaigns ask.
    pub research_objective: Option<String>,
}

/// The metrics that a dashboard shows.
#[derive(Debug, Clone, Default)]
pub struct DashboardSpec {
    pub metrics: TextMap<DashboardMetric>,
}

/// How one metric is shown and explained.
#[derive(Debug, Clone, Default)]
pub struct DashboardMetric {
    pub label: String,
    pub unit: Option<String>,
    pub description: Option<String>,
    pub baseline: Option<Real>,
}

#[derive(Debug, Clone)]
pub struct SourceSpec {
    pub git: GitSource,
}

#[derive(Debug, Clone)]
pub struct GitSource {
    pub url: String,
    pub git_ref: String,
    pub commit: Option<String>,
}

#[derive(Debug, Clone)]
pub struct ObjectiveSpec {
    pub metric: String,
    pub goal: ObjectiveGoal,
}

#[derive(Debug, Clone, PartialEq)]
pub enum ObjectiveGoal {
    Minimize,
    Maximize,
}

impl ObjectiveGoal {
    /// The name of the goal.
    pub open spec fn named(&self) -> Seq<char> {
        match self {
            ObjectiveGoal::Minimize => "Minimize"@,
            ObjectiveGoal::Maximize => "Maximize"@,
        }
    }

    /// The name of the goal.
    pub fn label(&self) -> (r: &'static str)
        ensures
            r@ == self.named(),
    {
        match self {
            ObjectiveGoal::Minimize => "Minimize",
            ObjectiveGoal::Maximize => "Maximize",
        }
    }
}

#[derive(Debug, Clone, Default)]
pub struct MetricsSpec {
    pub parser: MetricsParser,
}

#[derive(Debug, Clone)]
pub struct MetricsParser {
    pub parser_type: MetricsParserType,
    pub path: String,
    pub patterns: TextMap<String>,
}

impl Default for MetricsParser {
    fn default() -> (r: Self)
        ensures
            r.parser_type is File,
            r.path@ == "metrics.json"@,
            r.patterns.entries().len() == 0,
    {
        Self {
            parser_type: MetricsParserType::File,
            path: default_metrics_path(),
            patterns: TextMap::new(),
        }
    }
}

/// What `metrics_path` is where it is not given.
pub fn default_metrics_path() -> (r: String)
    ensures
        r@ == "metrics.json"@,
{
    "metrics.json".to_owned()
}

#[derive(Debug, Clone, Default, PartialEq)]
pub enum MetricsParserType {
    #[default]
    File,
    Regex,
}

#[derive(Debug, Clone)]
pub struct ParameterSpec {
    pub parameter_type: String,
    pub default: Option<Json>,
    pub description: Option<String>,
}

#[derive(Debug, Clone, Default)]
pub struct ExperimentTemplateStatus {
    pub ready: bool,
    pub message: Option<String>,
}

/// An ExperimentTemplate of the cluster.
#[derive(Debug, Clone)]
pub struct ExperimentTemplate {
    pub metadata: ObjectMeta,
    pub spec: ExperimentTemplateSpec,
    pub status: Option<ExperimentTemplateStatus>,
}

/// A goal reads as its own name, and the two never read alike.
pub proof fn a_goal_goes_by_its_name(x: ObjectiveGoal)
    ensures
        x.named() == seq!['M', 'i', 'n', 'i', 'm', 'i', 'z', 'e'] <==> x is Minimize,
        x.named() == seq!['M', 'a', 'x', 'i', 'm', 'i', 'z', 'e'] <==> x is Maximize,
{
    reveal_strlit("Minimize");
    reveal_strlit("Maximize");
    assert("Minimize"@[1] != "Maximize"@[1]);
    assert("Minimize"@ =~= seq!['M', 'i', 'n', 'i', 'm', 'i', 'z', 'e']);
    assert("Maximize"@ =~= seq!['M', 'a', 'x', 'i', 'm', 'i', 'z', 'e']);
}

} // verus!

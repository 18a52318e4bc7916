//! MetricSource: where measurements are read from and how.

use vstd::prelude::*;
use crate::common::Condition;
use crate::json::Json;
use crate::meta::ObjectMeta;
use crate::number::Real;

verus! {

#[derive(Debug, Clone)]
pub struct MetricSourceSpec {
    pub source_type: MetricSourceType,
    pub path: String,
    pub format: MetricFormat,
    pub metrics: Vec<MetricMapping>,
    pub timestamp_path: Option<String>,
    pub failure_rules: Vec<MetricFailureRule>,
}

#[derive(Debug, Clone, PartialEq, Eq)]
pub enum MetricSourceType {
    File,
    StdoutRegex,
    Prometheus,
    Loki,
    HttpJson,
    ArtifactManifest,
}

#[derive(Debug, Clone, PartialEq, Eq)]
pub enum MetricFormat {
    Json,
    Jsonl,
    PrometheusText,
    Regex,
    Junit,
    Custom,
}

#[derive(Debug, Clone)]
pub struct MetricMapping {
    pub name: String,
    pub path: String,
    pub metric_type: MetricValueType,
    pub required: bool,
    pub normalize: Option<MetricNormalize>,
}

#[derive(Debug, Clone, PartialEq, Eq)]
pub enum MetricValueType {
    Number,
    Integer,
    Text,
    Boolean,
}

#[derive(Debug, Clone, Default)]
pub struct MetricNormalize {
    pub multiply: Option<Real>,
    pub offset: Option<Real>,
}

#[derive(Debug, Clone)]
pub struct MetricFailureRule {
    pub path: String,
    pub equals: String,
    pub reason: String,
}

#[derive(Debug, Clone, Default)]
pub struct MetricSourceStatus {
    pub ready: bool,
    pub observed_generation: Option<i64>,
    pub last_validation_time: Option<String>,
    pub sample_validated: Option<bool>,
    pub message: Option<String>,
    pub conditions: Vec<Condition>,
    pub controller_version: Option<String>,
}

/// A MetricSource of the cluster.
#[derive(Debug, Clone)]
pub struct MetricSource {
    pub metadata: ObjectMeta,
    pub spec: MetricSourceSpec,
    pub status: Option<MetricSourceStatus>,
}

} // verus!

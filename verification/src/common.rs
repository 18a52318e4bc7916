//! Shapes that several kinds of resource share.

use vstd::prelude::*;
use crate::number::Real;

verus! {

#[derive(Debug, Clone, Default)]
pub struct LocalObjectReference {
    pub name: String,
    pub namespace: Option<String>,
}

#[derive(Debug, Clone)]
pub struct TypedObjectReference {
    pub api_version: String,
    pub kind: String,
    pub name: String,
    pub namespace: Option<String>,
}

#[derive(Debug, Clone, Default)]
pub struct Condition {
    pub condition_type: String,
    pub status: ConditionStatus,
    pub reason: Option<String>,
    pub message: Option<String>,
    pub last_transition_time: Option<String>,
}

#[derive(Debug, Clone, Default, PartialEq, Eq)]
pub enum ConditionStatus {
    #[default]
    Unknown,
    True,
    False,
}

impl ConditionStatus {
    /// The name of the status.
    pub open spec fn named(&self) -> Seq<char> {
        match self {
            ConditionStatus::Unknown => "Unknown"@,
            ConditionStatus::True => "True"@,
            ConditionStatus::False => "False"@,
        }
    }

    /// The name of the status.
    pub fn label(&self) -> (r: &'static str)
        ensures
            r@ == self.named(),
    {
        match self {
            ConditionStatus::Unknown => "Unknown",
            ConditionStatus::True => "True",
            ConditionStatus::False => "False",
        }
    }
}

#[derive(Debug, Clone, Default)]
pub struct Budget {
    pub max_wall_clock: Option<String>,
    pub max_gpu_hours: Option<Real>,
    pub max_tokens: Option<i64>,
    pub max_retries: Option<u32>,
    pub max_concurrency: Option<u32>,
}

#[derive(Debug, Clone, Default)]
pub struct ArtifactUris {
    pub metrics_uri: Option<String>,
    pub report_uri: Option<String>,
    pub manifest_uri: Option<String>,
}

#[derive(Debug, Clone, Default)]
pub struct MetricAggregate {
    pub mean: Option<Real>,
    pub std: Option<Real>,
    pub min: Option<Real>,
    pub max: Option<Real>,
    pub count: Option<u32>,
    pub ci_low: Option<Real>,
    pub ci_high: Option<Real>,
}

#[derive(Debug, Clone, PartialEq, Eq)]
pub enum MetricGoal {
    Maximize,
    Minimize,
}

#[derive(Debug, Clone, PartialEq, Eq)]
pub enum FailureClass {
    UserCode,
    Infrastructure,
    BudgetExceeded,
    IntegrityViolation,
    MetricParseError,
    Preempted,
    Unknown,
}

/// A condition reads as its own status, and no two read alike.
pub proof fn a_condition_status_goes_by_its_name(x: ConditionStatus)
    ensures
        x.named() == seq!['U', 'n', 'k', 'n', 'o', 'w', 'n'] <==> x is Unknown,
        x.named() == seq!['T', 'r', 'u', 'e'] <==> x is True,
        x.named() == seq!['F', 'a', 'l', 's', 'e'] <==> x is False,
{
    reveal_strlit("Unknown");
    reveal_strlit("True");
    reveal_strlit("False");
    assert("Unknown"@.len() != "True"@.len());
    assert("Unknown"@.len() != "False"@.len());
    assert("True"@.len() != "False"@.len());
    assert("Unknown"@ =~= seq!['U', 'n', 'k', 'n', 'o', 'w', 'n']);
    assert("True"@ =~= seq!['T', 'r', 'u', 'e']);
    assert("False"@ =~= seq!['F', 'a', 'l', 's', 'e']);
}

} // verus!

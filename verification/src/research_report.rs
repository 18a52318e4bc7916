//! ResearchReport: a curation of a campaign's results.

use vstd::prelude::*;
use crate::meta::ObjectMeta;
use crate::textmap::TextMap;

verus! {

/// A scientist's curation of a ResearchCampaign's results into a research-paper
/// dataset. The **spec** is human/console-authored desired state (which
/// experiments are included, narrative overrides, seeded hypotheses); the
/// **status** is controller-owned (assembled dataset location, completeness).
///
/// The composed dossier is regenerable from spec at any time via
/// `athena dossier --report <name>` or the console server: the durable product
/// state is the curation spec.
#[derive(Debug, Clone)]
pub struct ResearchReportSpec {
    /// The ResearchCampaign whose experiments this report composes.
    pub campaign_ref: String,
    /// Paper title. Falls back to a generated title when unset.
    pub title: Option<String>,
    /// Experiments to include by name. Empty = every experiment in the campaign
    /// (minus `excludedExperiments`); the curator UI lists them all and the
    /// scientist prunes failed/unwanted runs via `excludedExperiments`. No phase
    /// filter is applied — inclusion is an explicit curation decision.
    pub included_experiments: Vec<String>,
    /// Experiments to prune from the dataset by name (applied after inclusion).
    pub excluded_experiments: Vec<String>,
    /// Scientist-authored narrative, keyed by section name (e.g. `relatedWork`,
    /// `limitations`, `discussion`). Rendered as extra sections in the dossier.
    pub sections: TextMap<String>,
    /// Hypotheses the scientist wants recorded for follow-up — surfaced as a
    /// "Seeded Hypotheses / Future Work" section. (This does NOT launch
    /// experiments; it is report content.)
    pub seeded_hypotheses: Vec<String>,
    /// Structured external citations. Narrative sections reference them inline
    /// as `[@key]`; the dossier renders a References section in both formats,
    /// and the reconciler surfaces cited-but-undefined / defined-but-uncited
    /// keys as conditions. Verification of the claims themselves is a separate
    /// adversarial audit workload, never self-asserted here.
    pub references: Vec<Reference>,
    /// Narrows the report to one resource and what derives from it.
    pub about: Option<ReportSubject>,
}

/// What a report is about, and why it was written.
#[derive(Debug, Clone)]
pub struct ReportSubject {
    /// The kind of resource; `Experiment` scopes the report to a subtree.
    pub kind: String,
    pub name: String,
    pub motivation: Option<ReportMotivation>,
}

/// Why a report was written, in the motivation vocabulary of the W3C Web
/// Annotation model.
#[derive(Debug, Clone, Copy, PartialEq, Eq)]
pub enum ReportMotivation {
    Assessing,
    Bookmarking,
    Classifying,
    Commenting,
    Describing,
    Editing,
    Highlighting,
    Identifying,
    Linking,
    Moderating,
    Questioning,
    Replying,
    Tagging,
}

impl ReportMotivation {
    /// The name of the motivation.
    pub open spec fn named(&self) -> Seq<char> {
        match self {
            ReportMotivation::Assessing => "Assessing"@,
            ReportMotivation::Bookmarking => "Bookmarking"@,
            ReportMotivation::Classifying => "Classifying"@,
            ReportMotivation::Commenting => "Commenting"@,
            ReportMotivation::Describing => "Describing"@,
            ReportMotivation::Editing => "Editing"@,
            ReportMotivation::Highlighting => "Highlighting"@,
            ReportMotivation::Identifying => "Identifying"@,
            ReportMotivation::Linking => "Linking"@,
            ReportMotivation::Moderating => "Moderating"@,
            ReportMotivation::Questioning => "Questioning"@,
            ReportMotivation::Replying => "Replying"@,
            ReportMotivation::Tagging => "Tagging"@,
        }
    }

    /// The name of the motivation.
    pub fn label(&self) -> (r: &'static str)
        ensures
            r@ == self.named(),
    {
        match self {
            ReportMotivation::Assessing => "Assessing",
            ReportMotivation::Bookmarking => "Bookmarking",
            ReportMotivation::Classifying => "Classifying",
            ReportMotivation::Commenting => "Commenting",
            ReportMotivation::Describing => "Describing",
            ReportMotivation::Editing => "Editing",
            ReportMotivation::Highlighting => "Highlighting",
            ReportMotivation::Identifying => "Identifying",
            ReportMotivation::Linking => "Linking",
            ReportMotivation::Moderating => "Moderating",
            ReportMotivation::Questioning => "Questioning",
            ReportMotivation::Replying => "Replying",
            ReportMotivation::Tagging => "Tagging",
        }
    }
}

#[derive(Debug, Clone)]
pub struct Reference {
    /// Citation key used inline as `[@key]` in section text.
    pub key: String,
    pub title: String,
    pub url: Option<String>,
    pub doi: Option<String>,
    /// The specific claim in this report the source is cited to support —
    /// the unit the adversarial audit verifies.
    pub supports: Option<String>,
}

#[derive(Debug, Clone, Default)]
pub struct ResearchReportStatus {
    /// Lifecycle phase, e.g. `Draft` / `Assembled`. Controller-owned (phase 2).
    pub phase: Option<String>,
    /// Location of the assembled dataset bundle once a reconciler persists it.
    pub dataset_uri: Option<String>,
    /// Number of experiments in the composed dataset after curation.
    pub included_count: Option<u32>,
    pub last_assembled_time: Option<String>,
    pub observed_generation: Option<i64>,
    pub controller_version: Option<String>,
    /// Bounded conditions (reuses the shared condition shape), e.g.
    /// `MissingProvenance`, `CampaignResolved`.
    pub conditions: Option<Vec<crate::experiment::ExperimentCondition>>,
}

/// A ResearchReport of the cluster.
#[derive(Debug, Clone)]
pub struct ResearchReport {
    pub metadata: ObjectMeta,
    pub spec: ResearchReportSpec,
    pub status: Option<ResearchReportStatus>,
}

/// A motivation reads as its own name, and no two read alike.
pub proof fn a_motivation_goes_by_its_name(x: ReportMotivation)
    ensures
        x.named() == seq!['A', 's', 's', 'e', 's', 's', 'i', 'n', 'g'] <==> x is Assessing,
        x.named() == seq!['B', 'o', 'o', 'k', 'm', 'a', 'r', 'k', 'i', 'n', 'g'] <==> x is Bookmarking,
        x.named() == seq!['C', 'l', 'a', 's', 's', 'i', 'f', 'y', 'i', 'n', 'g'] <==> x is Classifying,
        x.named() == seq!['C', 'o', 'm', 'm', 'e', 'n', 't', 'i', 'n', 'g'] <==> x is Commenting,
        x.named() == seq!['D', 'e', 's', 'c', 'r', 'i', 'b', 'i', 'n', 'g'] <==> x is Describing,
        x.named() == seq!['E', 'd', 'i', 't', 'i', 'n', 'g'] <==> x is Editing,
        x.named() == seq!['H', 'i', 'g', 'h', 'l', 'i', 'g', 'h', 't', 'i', 'n', 'g'] <==> x is Highlighting,
        x.named() == seq!['I', 'd', 'e', 'n', 't', 'i', 'f', 'y', 'i', 'n', 'g'] <==> x is Identifying,
        x.named() == seq!['L', 'i', 'n', 'k', 'i', 'n', 'g'] <==> x is Linking,
        x.named() == seq!['M', 'o', 'd', 'e', 'r', 'a', 't', 'i', 'n', 'g'] <==> x is Moderating,
        x.named() == seq!['Q', 'u', 'e', 's', 't', 'i', 'o', 'n', 'i', 'n', 'g'] <==> x is Questioning,
        x.named() == seq!['R', 'e', 'p', 'l', 'y', 'i', 'n', 'g'] <==> x is Replying,
        x.named() == seq!['T', 'a', 'g', 'g', 'i', 'n', 'g'] <==> x is Tagging,
{
    reveal_strlit("Assessing");
    reveal_strlit("Bookmarking");
    reveal_strlit("Classifying");
    reveal_strlit("Commenting");
    reveal_strlit("Describing");
    reveal_strlit("Editing");
    reveal_strlit("Highlighting");
    reveal_strlit("Identifying");
    reveal_strlit("Linking");
    reveal_strlit("Moderating");
    reveal_strlit("Questioning");
    reveal_strlit("Replying");
    reveal_strlit("Tagging");
    assert("Assessing"@.len() != "Bookmarking"@.len());
    assert("Assessing"@.len() != "Classifying"@.len());
    assert("Assessing"@.len() != "Commenting"@.len());
    assert("Assessing"@.len() != "Describing"@.len());
    assert("Assessing"@.len() != "Editing"@.len());
    assert("Assessing"@.len() != "Highlighting"@.len());
    assert("Assessing"@.len() != "Identifying"@.len());
    assert("Assessing"@.len() != "Linking"@.len());
    assert("Assessing"@.len() != "Moderating"@.len());
    assert("Assessing"@.len() != "Questioning"@.len());
    assert("Assessing"@.len() != "Replying"@.len());
    assert("Assessing"@.len() != "Tagging"@.len());
    assert("Bookmarking"@[0] != "Classifying"@[0]);
    assert("Bookmarking"@.len() != "Commenting"@.len());
    assert("Bookmarking"@.len() != "Describing"@.len());
    assert("Bookmarking"@.len() != "Editing"@.len());
    assert("Bookmarking"@.len() != "Highlighting"@.len());
    assert("Bookmarking"@[0] != "Identifying"@[0]);
    assert("Bookmarking"@.len() != "Linking"@.len());
    assert("Bookmarking"@.len() != "Moderating"@.len());
    assert("Bookmarking"@[0] != "Questioning"@[0]);
    assert("Bookmarking"@.len() != "Replying"@.len());
    assert("Bookmarking"@.len() != "Tagging"@.len());
    assert("Classifying"@.len() != "Commenting"@.len());
    assert("Classifying"@.len() != "Describing"@.len());
    assert("Classifying"@.len() != "Editing"@.len());
    assert("Classifying"@.len() != "Highlighting"@.len());
    assert("Classifying"@[0] != "Identifying"@[0]);
    assert("Classifying"@.len() != "Linking"@.len());
    assert("Classifying"@.len() != "Moderating"@.len());
    assert("Classifying"@[0] != "Questioning"@[0]);
    assert("Classifying"@.len() != "Replying"@.len());
    assert("Classifying"@.len() != "Tagging"@.len());
    assert("Commenting"@[0] != "Describing"@[0]);
    assert("Commenting"@.len() != "Editing"@.len());
    assert("Commenting"@.len() != "Highlighting"@.len());
    assert("Commenting"@.len() != "Identifying"@.len());
    assert("Commenting"@.len() != "Linking"@.len());
    assert("Commenting"@[0] != "Moderating"@[0]);
    assert("Commenting"@.len() != "Questioning"@.len());
    assert("Commenting"@.len() != "Replying"@.len());
    assert("Commenting"@.len() != "Tagging"@.len());
    assert("Describing"@.len() != "Editing"@.len());
    assert("Describing"@.len() != "Highlighting"@.len());
    assert("Describing"@.len() != "Identifying"@.len());
    assert("Describing"@.len() != "Linking"@.len());
    assert("Describing"@[0] != "Moderating"@[0]);
    assert("Describing"@.len() != "Questioning"@.len());
    assert("Describing"@.len() != "Replying"@.len());
    assert("Describing"@.len() != "Tagging"@.len());
    assert("Editing"@.len() != "Highlighting"@.len());
    assert("Editing"@.len() != "Identifying"@.len());
    assert("Editing"@[0] != "Linking"@[0]);
    assert("Editing"@.len() != "Moderating"@.len());
    assert("Editing"@.len() != "Questioning"@.len());
    assert("Editing"@.len() != "Replying"@.len());
    assert("Editing"@[0] != "Tagging"@[0]);
    assert("Highlighting"@.len() != "Identifying"@.len());
    assert("Highlighting"@.len() != "Linking"@.len());
    assert("Highlighting"@.len() != "Moderating"@.len());
    assert("Highlighting"@.len() != "Questioning"@.len());
    assert("Highlighting"@.len() != "Replying"@.len());
    assert("Highlighting"@.len() != "Tagging"@.len());
    assert("Identifying"@.len() != "Linking"@.len());
    assert("Identifying"@.len() != "Moderating"@.len());
    assert("Identifying"@[0] != "Questioning"@[0]);
    assert("Identifying"@.len() != "Replying"@.len());
    assert("Identifying"@.len() != "Tagging"@.len());
    assert("Linking"@.len() != "Moderating"@.len());
    assert("Linking"@.len() != "Questioning"@.len());
    assert("Linking"@.len() != "Replying"@.len());
    assert("Linking"@[0] != "Tagging"@[0]);
    assert("Moderating"@.len() != "Questioning"@.len());
    assert("Moderating"@.len() != "Replying"@.len());
    assert("Moderating"@.len() != "Tagging"@.len());
    assert("Questioning"@.len() != "Replying"@.len());
    assert("Questioning"@.len() != "Tagging"@.len());
    assert("Replying"@.len() != "Tagging"@.len());
    assert("Assessing"@ =~= seq!['A', 's', 's', 'e', 's', 's', 'i', 'n', 'g']);
    assert("Bookmarking"@ =~= seq!['B', 'o', 'o', 'k', 'm', 'a', 'r', 'k', 'i', 'n', 'g']);
    assert("Classifying"@ =~= seq!['C', 'l', 'a', 's', 's', 'i', 'f', 'y', 'i', 'n', 'g']);
    assert("Commenting"@ =~= seq!['C', 'o', 'm', 'm', 'e', 'n', 't', 'i', 'n', 'g']);
    assert("Describing"@ =~= seq!['D', 'e', 's', 'c', 'r', 'i', 'b', 'i', 'n', 'g']);
    assert("Editing"@ =~= seq!['E', 'd', 'i', 't', 'i', 'n', 'g']);
    assert("Highlighting"@ =~= seq!['H', 'i', 'g', 'h', 'l', 'i', 'g', 'h', 't', 'i', 'n', 'g']);
    assert("Identifying"@ =~= seq!['I', 'd', 'e', 'n', 't', 'i', 'f', 'y', 'i', 'n', 'g']);
    assert("Linking"@ =~= seq!['L', 'i', 'n', 'k', 'i', 'n', 'g']);
    assert("Moderating"@ =~= seq!['M', 'o', 'd', 'e', 'r', 'a', 't', 'i', 'n', 'g']);
    assert("Questioning"@ =~= seq!['Q', 'u', 'e', 's', 't', 'i', 'o', 'n', 'i', 'n', 'g']);
    assert("Replying"@ =~= seq!['R', 'e', 'p', 'l', 'y', 'i', 'n', 'g']);
    assert("Tagging"@ =~= seq!['T', 'a', 'g', 'g', 'i', 'n', 'g']);
}

} // verus!

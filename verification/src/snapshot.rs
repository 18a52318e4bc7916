//! Collapsing the listed resources into the rows of the web console.

use vstd::prelude::*;
use crate::benchmark_run::BenchmarkRun;
use crate::benchmark_suite::BenchmarkSuite;
use crate::common::Condition;
use crate::dossier::parts::{or_empty, text_or};
use crate::experiment::{Experiment, ExperimentCondition, ExperimentMetrics};
use crate::experiment_template::{ExperimentTemplate, ObjectiveGoal};
use crate::json::{float_of, member_of, text_of};
use crate::meta::{ObjectMeta, OwnerReference, Time};
use crate::models::{
    ClusterSnapshot, ConditionDto, DriveSummary, ReportSummary, ResourceSummary, StageProgressDto,
    TemplateProgressDto, TemplateSummary,
};
use crate::number::Real;
use crate::numeral::{decimal, decimal_of, signed, signed_of};
use crate::research_campaign::{ResearchCampaign, ResearchCampaignStatus};
use crate::research_drive::{ResearchDrive, StageRecord, TemplateProgress};
use crate::research_report::ResearchReport;
use crate::runtime_profile::RuntimeProfile;
use crate::text::{
    chars_of, lemma_shows_front2, lemma_shows_itself, lemma_shows_labelled, same, shows, slice_text,
};
use crate::textmap::TextMap;

verus! {

broadcast use vstd::seq_lib::group_seq_properties;

// ---------------------------------------------------------------------------
// Copies
// ---------------------------------------------------------------------------

/// A copy of the text, where there is one.
pub fn copy_text(o: &Option<String>) -> (r: Option<String>)
    ensures
        r == *o,
{
    match o {
        Some(s) => Some(s.clone()),
        None => None,
    }
}

/// A copy of the number, where there is one.
pub fn copy_real(o: &Option<Real>) -> (r: Option<Real>)
    ensures
        r == *o,
{
    match o {
        Some(x) => Some(x.clone()),
        None => None,
    }
}

/// A copy of the texts.
pub fn copy_texts(v: &Vec<String>) -> (r: Vec<String>)
    ensures
        r@ == v@,
{
    let mut out: Vec<String> = Vec::new();
    let mut i: usize = 0;
    while i < v.len()
        invariant
            i <= v.len(),
            out@ == v@.take(i as int),
        decreases v.len() - i,
    {
        out.push(v[i].clone());
        assert(out@ =~= v@.take(i + 1));
        i = i + 1;
    }
    assert(v@.take(i as int) =~= v@);
    out
}

/// A copy of the map of texts.
pub fn copy_text_map(m: &TextMap<String>) -> (r: TextMap<String>)
    ensures
        r.entries() == m.entries(),
        r@ == m@,
{
    let r = m.clone();
    proof {
        assert forall|i: int| 0 <= i < r.entries().len() implies r.entries()[i] == m.entries()[i] by {
            let e = r.entries()[i];
            assert(cloned(m.entries()[i].1, e.1));
        }
        assert(r.entries() =~= m.entries());
    }
    r
}

/// The text, or `d` where there is none.
pub fn text_or_owned(o: &Option<String>, d: &str) -> (r: String)
    ensures
        r@ == text_or(*o, d@),
{
    match o {
        Some(s) => s.clone(),
        None => d.to_owned(),
    }
}

// ---------------------------------------------------------------------------
// Times
// ---------------------------------------------------------------------------

/// A point in time as an epoch-millis text.
pub open spec fn ms_of(t: Option<Time>) -> Option<Seq<char>> {
    match t {
        Some(x) => Some(signed(x.millis as int)),
        None => None,
    }
}

/// k8s `Time` → epoch-millis string (for scoping the Grafana embed).
pub fn to_ms(t: &Option<Time>) -> (r: Option<String>)
    ensures
        r.deep_view() == ms_of(*t),
{
    match t {
        Some(x) => Some(signed_of(x.millis)),
        None => None,
    }
}

/// A Job of the cluster, as far as run windows go.
#[derive(Debug, Clone)]
pub struct Job {
    pub metadata: ObjectMeta,
    pub status: Option<JobStatus>,
}

/// When a Job ran.
#[derive(Debug, Clone)]
pub struct JobStatus {
    pub start_time: Option<Time>,
    pub completion_time: Option<Time>,
}

/// The last job with the name.
pub open spec fn job_named(jobs: Seq<Job>, name: Seq<char>) -> Option<Job>
    decreases jobs.len(),
{
    if jobs.len() == 0 {
        None
    } else if jobs.last().metadata.name matches Some(n) && n@ == name {
        Some(jobs.last())
    } else {
        job_named(jobs.drop_last(), name)
    }
}

/// When the job of that name started and ended.
pub open spec fn window_of(jobs: Seq<Job>, name: Seq<char>) -> (Option<Time>, Option<Time>) {
    match job_named(jobs, name) {
        Some(j) => match j.status {
            Some(s) => (s.start_time, s.completion_time),
            None => (None, None),
        },
        None => (None, None),
    }
}

fn copy_time(t: &Option<Time>) -> (r: Option<Time>)
    ensures
        r == *t,
{
    match t {
        Some(x) => Some(Time { millis: x.millis, nanos: x.nanos }),
        None => None,
    }
}

fn find_window(jobs: &Vec<Job>, name: &str) -> (r: (Option<Time>, Option<Time>))
    ensures
        r == window_of(jobs@, name@),
{
    let mut i: usize = jobs.len();
    assert(jobs@.take(i as int) =~= jobs@);
    while i > 0
        invariant
            i <= jobs.len(),
            job_named(jobs@, name@) == job_named(jobs@.take(i as int), name@),
        decreases i,
    {
        let ghost upto = jobs@.take(i as int);
        assert(upto.last() == jobs@[i - 1]);
        assert(upto.drop_last() =~= jobs@.take(i - 1));
        i = i - 1;
        if let Some(n) = &jobs[i].metadata.name {
            if same(n.as_str(), name) {
                return match &jobs[i].status {
                    Some(s) => (copy_time(&s.start_time), copy_time(&s.completion_time)),
                    None => (None, None),
                };
            }
        }
    }
    (None, None)
}

/// The quotient rounded towards zero.
pub open spec fn quotient(n: int, d: int) -> int {
    if n >= 0 {
        n / d
    } else {
        -((-n) / d)
    }
}

/// The seconds between the start and the end of a window that has both.
pub open spec fn window_seconds(w: (Option<Time>, Option<Time>)) -> Option<int> {
    match w {
        (Some(s), Some(e)) => Some(quotient(e.millis - s.millis, 1000)),
        _ => None,
    }
}

fn seconds_between(w: &(Option<Time>, Option<Time>)) -> (r: Option<i64>)
    ensures
        r is Some <==> window_seconds(*w) is Some,
        r matches Some(n) ==> window_seconds(*w) == Some(n as int),
{
    match (&w.0, &w.1) {
        (Some(s), Some(e)) => {
            let diff: i128 = e.millis as i128 - s.millis as i128;
            if diff >= 0 {
                Some((diff / 1000) as i64)
            } else {
                let back: i128 = -diff;
                Some((-(back / 1000)) as i64)
            }
        },
        _ => None,
    }
}

// ---------------------------------------------------------------------------
// Experiments
// ---------------------------------------------------------------------------

/// The template of the last campaign with the name.
pub open spec fn template_of(campaigns: Seq<ResearchCampaign>, name: Seq<char>) -> Option<Seq<char>>
    decreases campaigns.len(),
{
    if campaigns.len() == 0 {
        None
    } else if campaigns.last().metadata.named() == name {
        Some(campaigns.last().spec.template_ref@)
    } else {
        template_of(campaigns.drop_last(), name)
    }
}

fn find_template(campaigns: &Vec<ResearchCampaign>, name: &str) -> (r: Option<String>)
    ensures
        r.deep_view() == template_of(campaigns@, name@),
{
    let mut i: usize = campaigns.len();
    assert(campaigns@.take(i as int) =~= campaigns@);
    while i > 0
        invariant
            i <= campaigns.len(),
            template_of(campaigns@, name@) == template_of(campaigns@.take(i as int), name@),
        decreases i,
    {
        let ghost upto = campaigns@.take(i as int);
        assert(upto.last() == campaigns@[i - 1]);
        assert(upto.drop_last() =~= campaigns@.take(i - 1));
        i = i - 1;
        if same(campaigns[i].metadata.name_any().as_str(), name) {
            return Some(campaigns[i].spec.template_ref.clone());
        }
    }
    None
}

/// The metrics of the experiment in detail.
pub open spec fn detail_metrics(e: Experiment) -> Option<ExperimentMetrics> {
    match e.status {
        Some(s) => s.metrics_detail,
        None => None,
    }
}

/// The best value of the objective that the metrics name.
pub open spec fn best_of(d: Option<ExperimentMetrics>) -> Option<Real> {
    match d {
        Some(m) => match (m.best, m.objective_name) {
            (Some(best), Some(name)) => match member_of(best, name@) {
                Some(v) => float_of(v),
                None => None,
            },
            _ => None,
        },
        None => None,
    }
}

fn find_best(d: &Option<ExperimentMetrics>) -> (r: Option<Real>)
    ensures
        r == best_of(*d),
{
    match d {
        Some(m) => match (&m.best, &m.objective_name) {
            (Some(best), Some(name)) => match best.get(name.as_str()) {
                Some(v) => match v.as_f64() {
                    Some(x) => Some(x.clone()),
                    None => None,
                },
                None => None,
            },
            _ => None,
        },
        None => None,
    }
}

/// How long the experiment ran: what its cost says, or the window of its job.
pub open spec fn runtime_of(e: Experiment, w: (Option<Time>, Option<Time>)) -> Option<int> {
    let costed: Option<i64> = match e.status {
        Some(s) => match s.cost {
            Some(c) => c.runtime_seconds,
            None => None,
        },
        None => None,
    };
    match costed {
        Some(n) => Some(n as int),
        None => window_seconds(w),
    }
}

/// The behavior that the experiment trains.
pub open spec fn mode_of(e: Experiment) -> Option<Seq<char>> {
    if e.spec.parameters@.contains_key("mode"@) {
        text_of(e.spec.parameters@["mode"@])
    } else {
        None
    }
}

/// The beginning of the text, up to `n` characters.
pub open spec fn cut(s: Seq<char>, n: int) -> Seq<char> {
    if s.len() <= n {
        s
    } else {
        s.take(n)
    }
}

/// The beginning of the text, up to `n` characters.
pub fn truncate(s: &str, n: usize) -> (r: String)
    ensures
        r@ == cut(s@, n as int),
{
    let v = chars_of(s);
    if v.len() <= n {
        s.to_owned()
    } else {
        let r = slice_text(&v, 0, n);
        assert(r@ =~= s@.take(n as int));
        r
    }
}

/// The job that runs the experiment.
pub open spec fn job_of(e: Experiment) -> Seq<char> {
    "exp-"@ + e.metadata.named()
}

/// What the console says of the experiment.
pub open spec fn is_experiment_row(
    e: Experiment,
    jobs: Seq<Job>,
    campaigns: Seq<ResearchCampaign>,
    r: ResourceSummary,
) -> bool {
    let w = window_of(jobs, job_of(e));
    let d = detail_metrics(e);
    &&& r.namespace@ == e.metadata.in_namespace()
    &&& r.name@ == e.metadata.named()
    &&& r.kind@ == "experiment"@
    &&& r.phase@ == (match e.status {
        Some(s) => s.phase.named(),
        None => "Pending"@,
    })
    &&& r.detail@ == (match e.status {
        Some(s) => text_or(s.message, e.spec.hypothesis@),
        None => e.spec.hypothesis@,
    })
    &&& r.workspace_path == (match e.status {
        Some(s) => s.workspace_path,
        None => None,
    })
    &&& r.logs_link == (match e.status {
        Some(s) => s.logs_link,
        None => None,
    })
    &&& r.metrics_link == (match e.status {
        Some(s) => s.metrics_link,
        None => None,
    })
    &&& r.started_at.deep_view() == ms_of(w.0)
    &&& r.ended_at.deep_view() == ms_of(w.1)
    &&& r.created_at.deep_view() == ms_of(e.metadata.creation_timestamp)
    &&& r.template.deep_view() == template_of(campaigns, e.spec.campaign_ref@)
    &&& r.objective == (match d {
        Some(m) => m.objective_name,
        None => None,
    })
    &&& r.objective_goal == (match d {
        Some(m) => m.objective_goal,
        None => None,
    })
    &&& r.objective_value == best_of(d)
    &&& r.decision.deep_view() == (match e.status {
        Some(s) => match s.decision {
            Some(x) => Some(x.named()),
            None => None,
        },
        None => None,
    })
    &&& r.parent == (match e.spec.lineage {
        Some(l) => l.parent,
        None => None,
    })
    &&& r.generation == (match e.spec.lineage {
        Some(l) => l.generation,
        None => None,
    })
    &&& (match (r.runtime_seconds, runtime_of(e, w)) {
        (Some(a), Some(b)) => a == b,
        (None, None) => true,
        _ => false,
    })
    &&& r.gpu_hours == (match e.status {
        Some(s) => match s.cost {
            Some(c) => c.gpu_hours,
            None => None,
        },
        None => None,
    })
    &&& r.campaign.deep_view() == Some(e.spec.campaign_ref@)
    &&& r.mode.deep_view() == mode_of(e)
    &&& r.hypothesis.deep_view() == Some(cut(e.spec.hypothesis@, 240))
    &&& r.conditions@.len() == 0
    &&& r.drive is None
    &&& r.strategy is None
    &&& r.best_experiment is None
    &&& r.succeeded is None
    &&& r.failed is None
    &&& r.running is None
}

fn phase_or_pending(e: &Experiment) -> (r: String)
    ensures
        r@ == (match e.status {
            Some(s) => s.phase.named(),
            None => "Pending"@,
        }),
{
    match &e.status {
        Some(s) => s.phase.label().to_owned(),
        None => "Pending".to_owned(),
    }
}

fn find_mode(e: &Experiment) -> (r: Option<String>)
    ensures
        r.deep_view() == mode_of(*e),
{
    match e.spec.parameters.get("mode") {
        Some(v) => match v.as_str() {
            Some(s) => Some(s.clone()),
            None => None,
        },
        None => None,
    }
}

/// The row of an experiment. Its run window comes from its Job (exp-<name>), so the embed can
/// scope its Grafana time range to when the experiment actually ran; its template from the
/// owning campaign.
pub fn experiment_summary(
    e: &Experiment,
    jobs: &Vec<Job>,
    campaigns: &Vec<ResearchCampaign>,
) -> (r: ResourceSummary)
    ensures
        is_experiment_row(*e, jobs@, campaigns@, r),
{
    let mut job = "exp-".to_owned();
    job.append(e.metadata.name_any().as_str());
    let window = find_window(jobs, job.as_str());
    let mut r = ResourceSummary {
        namespace: e.metadata.namespace_or_default(),
        name: e.metadata.name_any(),
        kind: "experiment".to_owned(),
        phase: phase_or_pending(e),
        detail: e.spec.hypothesis.clone(),
        workspace_path: None,
        logs_link: None,
        metrics_link: None,
        started_at: to_ms(&window.0),
        ended_at: to_ms(&window.1),
        created_at: to_ms(&e.metadata.creation_timestamp),
        drive: None,
        template: find_template(campaigns, e.spec.campaign_ref.as_str()),
        strategy: None,
        objective: None,
        objective_goal: None,
        objective_value: None,
        best_experiment: None,
        decision: None,
        parent: None,
        generation: None,
        runtime_seconds: seconds_between(&window),
        gpu_hours: None,
        succeeded: None,
        failed: None,
        running: None,
        campaign: Some(e.spec.campaign_ref.clone()),
        mode: find_mode(e),
        hypothesis: Some(truncate(e.spec.hypothesis.as_str(), 240)),
        conditions: Vec::new(),
    };
    if let Some(l) = &e.spec.lineage {
        r.parent = copy_text(&l.parent);
        r.generation = l.generation;
    }
    if let Some(s) = &e.status {
        r.detail = text_or_owned(&s.message, e.spec.hypothesis.as_str());
        r.workspace_path = copy_text(&s.workspace_path);
        r.logs_link = copy_text(&s.logs_link);
        r.metrics_link = copy_text(&s.metrics_link);
        r.objective_value = find_best(&s.metrics_detail);
        if let Some(m) = &s.metrics_detail {
            r.objective = copy_text(&m.objective_name);
            r.objective_goal = copy_text(&m.objective_goal);
        }
        if let Some(d) = &s.decision {
            r.decision = Some(d.label().to_owned());
        }
        if let Some(c) = &s.cost {
            if c.runtime_seconds.is_some() {
                r.runtime_seconds = c.runtime_seconds;
            }
            r.gpu_hours = copy_real(&c.gpu_hours);
        }
    }
    r
}

// ---------------------------------------------------------------------------
// Campaigns
// ---------------------------------------------------------------------------

/// The goal as the rows write it.
pub open spec fn goal_text(g: ObjectiveGoal) -> Seq<char> {
    match g {
        ObjectiveGoal::Minimize => "minimize"@,
        ObjectiveGoal::Maximize => "maximize"@,
    }
}

/// The goal as the rows write it.
pub fn goal_str(g: &ObjectiveGoal) -> (r: &'static str)
    ensures
        r@ == goal_text(*g),
{
    match g {
        ObjectiveGoal::Minimize => "minimize",
        ObjectiveGoal::Maximize => "maximize",
    }
}

/// The objective of the last template with the name: its metric and its goal.
pub open spec fn objective_named(templates: Seq<ExperimentTemplate>, name: Seq<char>) -> (
    Option<Seq<char>>,
    Option<Seq<char>>,
)
    decreases templates.len(),
{
    if templates.len() == 0 {
        (None, None)
    } else if templates.last().metadata.named() == name {
        (
            Some(templates.last().spec.objective.metric@),
            Some(goal_text(templates.last().spec.objective.goal)),
        )
    } else {
        objective_named(templates.drop_last(), name)
    }
}

fn find_objective(templates: &Vec<ExperimentTemplate>, name: &str) -> (r: (
    Option<String>,
    Option<String>,
))
    ensures
        (r.0.deep_view(), r.1.deep_view()) == objective_named(templates@, name@),
{
    let mut i: usize = templates.len();
    assert(templates@.take(i as int) =~= templates@);
    while i > 0
        invariant
            i <= templates.len(),
            objective_named(templates@, name@) == objective_named(
                templates@.take(i as int),
                name@,
            ),
        decreases i,
    {
        let ghost upto = templates@.take(i as int);
        assert(upto.last() == templates@[i - 1]);
        assert(upto.drop_last() =~= templates@.take(i - 1));
        i = i - 1;
        if same(templates[i].metadata.name_any().as_str(), name) {
            return (
                Some(templates[i].spec.objective.metric.clone()),
                Some(goal_str(&templates[i].spec.objective.goal).to_owned()),
            );
        }
    }
    (None, None)
}

/// The name of the first owner of the kind.
pub open spec fn owner_of(owners: Seq<OwnerReference>, kind: Seq<char>) -> Option<Seq<char>>
    decreases owners.len(),
{
    if owners.len() == 0 {
        None
    } else if owners[0].kind@ == kind {
        Some(owners[0].name@)
    } else {
        owner_of(owners.drop_first(), kind)
    }
}

/// The drive that owns the resource.
pub open spec fn drive_of(m: ObjectMeta) -> Option<Seq<char>> {
    match m.owner_references {
        Some(owners) => owner_of(owners@, "ResearchDrive"@),
        None => None,
    }
}

fn find_drive(m: &ObjectMeta) -> (r: Option<String>)
    ensures
        r.deep_view() == drive_of(*m),
{
    if let Some(owners) = &m.owner_references {
        let mut i: usize = 0;
        assert(owners@.skip(0) =~= owners@);
        while i < owners.len()
            invariant
                i <= owners.len(),
                m.owner_references == Some(*owners),
                owner_of(owners@, "ResearchDrive"@) == owner_of(
                    owners@.skip(i as int),
                    "ResearchDrive"@,
                ),
            decreases owners.len() - i,
        {
            assert(owners@.skip(i as int)[0] == owners@[i as int]);
            assert(owners@.skip(i as int).drop_first() =~= owners@.skip(i + 1));
            if same(owners[i].kind.as_str(), "ResearchDrive") {
                return Some(owners[i].name.clone());
            }
            i = i + 1;
        }
    }
    None
}

/// The condition as the rows hold it.
pub open spec fn is_condition(c: ExperimentCondition, r: ConditionDto) -> bool {
    &&& r.ctype@ == text_or(c.condition_type, Seq::empty())
    &&& r.status@ == text_or(c.status, Seq::empty())
    &&& r.reason@ == text_or(c.reason, Seq::empty())
}

/// The conditions as the rows hold them.
pub open spec fn is_conditions(cs: Option<Vec<ExperimentCondition>>, r: Seq<ConditionDto>) -> bool {
    match cs {
        Some(v) => r.len() == v@.len() && forall|i: int|
            0 <= i < r.len() ==> is_condition(v@[i], #[trigger] r[i]),
        None => r.len() == 0,
    }
}

fn flatten_conditions(cs: &Option<Vec<ExperimentCondition>>) -> (r: Vec<ConditionDto>)
    ensures
        is_conditions(*cs, r@),
{
    let mut out: Vec<ConditionDto> = Vec::new();
    if let Some(v) = cs {
        let mut i: usize = 0;
        while i < v.len()
            invariant
                i <= v.len(),
                out@.len() == i,
                forall|k: int| 0 <= k < i ==> is_condition(v@[k], #[trigger] out@[k]),
            decreases v.len() - i,
        {
            let c = &v[i];
            out.push(
                ConditionDto {
                    ctype: or_empty(&c.condition_type),
                    status: or_empty(&c.status),
                    reason: or_empty(&c.reason),
                },
            );
            i = i + 1;
        }
    }
    out
}

/// What the console says of the campaign in one line.
pub open spec fn campaign_detail(c: ResearchCampaign) -> Seq<char> {
    match c.status {
        Some(s) => "running="@ + decimal(s.running_experiments as nat) + " succeeded="@ + decimal(
            s.succeeded_experiments as nat,
        ) + " failed="@ + decimal(s.failed_experiments as nat) + " best="@ + text_or(
            s.best_experiment,
            "-"@,
        ),
        None => "template="@ + c.spec.template_ref@,
    }
}

/// What the console says of the campaign in one line.
pub fn campaign_line(c: &ResearchCampaign) -> (r: String)
    ensures
        r@ == campaign_detail(*c),
{
    match &c.status {
        Some(s) => {
            let mut t = "running=".to_owned();
            t.append(decimal_of(s.running_experiments as u64).as_str());
            t.append(" succeeded=");
            t.append(decimal_of(s.succeeded_experiments as u64).as_str());
            t.append(" failed=");
            t.append(decimal_of(s.failed_experiments as u64).as_str());
            t.append(" best=");
            t.append(text_or_owned(&s.best_experiment, "-").as_str());
            t
        },
        None => {
            let mut t = "template=".to_owned();
            t.append(c.spec.template_ref.as_str());
            t
        },
    }
}

/// The phase of the campaign, or that it is pending.
pub open spec fn campaign_phase(c: ResearchCampaign) -> Seq<char> {
    match c.status {
        Some(s) => text_or(s.phase, "Pending"@),
        None => "Pending"@,
    }
}

/// The phase of the campaign, or that it is pending.
pub fn campaign_phase_str(c: &ResearchCampaign) -> (r: String)
    ensures
        r@ == campaign_phase(*c),
{
    match &c.status {
        Some(s) => text_or_owned(&s.phase, "Pending"),
        None => "Pending".to_owned(),
    }
}

/// What the console says of the campaign.
pub open spec fn is_campaign_row(
    c: ResearchCampaign,
    templates: Seq<ExperimentTemplate>,
    r: ResourceSummary,
) -> bool {
    let o = objective_named(templates, c.spec.template_ref@);
    &&& r.namespace@ == c.metadata.in_namespace()
    &&& r.name@ == c.metadata.named()
    &&& r.kind@ == "researchcampaign"@
    &&& r.phase@ == campaign_phase(c)
    &&& r.detail@ == campaign_detail(c)
    &&& r.workspace_path is None
    &&& r.logs_link is None
    &&& r.metrics_link is None
    &&& r.started_at.deep_view() == ms_of(c.metadata.creation_timestamp)
    &&& r.ended_at is None
    &&& r.created_at.deep_view() == ms_of(c.metadata.creation_timestamp)
    &&& r.drive.deep_view() == drive_of(c.metadata)
    &&& r.template.deep_view() == Some(c.spec.template_ref@)
    &&& r.strategy.deep_view() == Some(c.spec.strategy.strategy_type@)
    &&& r.objective.deep_view() == o.0
    &&& r.objective_goal.deep_view() == o.1
    &&& (match c.status {
        Some(s) => {
            &&& r.objective_value == s.best_objective
            &&& r.best_experiment == s.best_experiment
            &&& r.succeeded == Some(s.succeeded_experiments)
            &&& r.failed == Some(s.failed_experiments)
            &&& r.running == Some(s.running_experiments)
            &&& is_conditions(s.conditions, r.conditions@)
        },
        None => {
            &&& r.objective_value is None
            &&& r.best_experiment is None
            &&& r.succeeded is None
            &&& r.failed is None
            &&& r.running is None
            &&& r.conditions@.len() == 0
        },
    })
    &&& r.decision is None
    &&& r.parent is None
    &&& r.generation is None
    &&& r.runtime_seconds is None
    &&& r.gpu_hours is None
    &&& r.campaign is None
    &&& r.mode is None
    &&& r.hypothesis is None
}

/// A row with nothing but the given texts.
fn plain_row(meta: &ObjectMeta, kind: &str, phase: String, detail: String) -> (r: ResourceSummary)
    ensures
        is_plain_row(*meta, kind@, phase@, detail@, r),
        r.workspace_path is None,
        r.logs_link is None,
        r.metrics_link is None,
{
    ResourceSummary {
        namespace: meta.namespace_or_default(),
        name: meta.name_any(),
        kind: kind.to_owned(),
        phase,
        detail,
        workspace_path: None,
        logs_link: None,
        metrics_link: None,
        started_at: None,
        ended_at: None,
        created_at: to_ms(&meta.creation_timestamp),
        drive: None,
        template: None,
        strategy: None,
        objective: None,
        objective_goal: None,
        objective_value: None,
        best_experiment: None,
        decision: None,
        parent: None,
        generation: None,
        runtime_seconds: None,
        gpu_hours: None,
        succeeded: None,
        failed: None,
        running: None,
        campaign: None,
        mode: None,
        hypothesis: None,
        conditions: Vec::new(),
    }
}

/// The row holds the texts, and beside its links nothing else.
pub open spec fn is_plain_row(
    meta: ObjectMeta,
    kind: Seq<char>,
    phase: Seq<char>,
    detail: Seq<char>,
    r: ResourceSummary,
) -> bool {
    &&& r.namespace@ == meta.in_namespace()
    &&& r.name@ == meta.named()
    &&& r.kind@ == kind
    &&& r.phase@ == phase
    &&& r.detail@ == detail
    &&& r.started_at is None
    &&& r.ended_at is None
    &&& r.created_at.deep_view() == ms_of(meta.creation_timestamp)
    &&& r.drive is None
    &&& r.template is None
    &&& r.strategy is None
    &&& r.objective is None
    &&& r.objective_goal is None
    &&& r.objective_value is None
    &&& r.best_experiment is None
    &&& r.decision is None
    &&& r.parent is None
    &&& r.generation is None
    &&& r.runtime_seconds is None
    &&& r.gpu_hours is None
    &&& r.succeeded is None
    &&& r.failed is None
    &&& r.running is None
    &&& r.campaign is None
    &&& r.mode is None
    &&& r.hypothesis is None
    &&& r.conditions@.len() == 0
}

/// The row of a campaign. Its window runs from its creation to now; its objective comes from
/// its template; its drive from its owner references, so the viewer can drop an echoed drive
/// prefix from legacy branch names without renaming the CR.
pub fn campaign_summary(c: &ResearchCampaign, templates: &Vec<ExperimentTemplate>) -> (r:
    ResourceSummary)
    ensures
        is_campaign_row(*c, templates@, r),
{
    let (metric, goal) = find_objective(templates, c.spec.template_ref.as_str());
    let mut r = plain_row(
        &c.metadata,
        "researchcampaign",
        campaign_phase_str(c),
        campaign_line(c),
    );
    r.started_at = to_ms(&c.metadata.creation_timestamp);
    r.drive = find_drive(&c.metadata);
    r.template = Some(c.spec.template_ref.clone());
    r.strategy = Some(c.spec.strategy.strategy_type.clone());
    r.objective = metric;
    r.objective_goal = goal;
    if let Some(s) = &c.status {
        r.objective_value = copy_real(&s.best_objective);
        r.best_experiment = copy_text(&s.best_experiment);
        r.succeeded = Some(s.succeeded_experiments);
        r.failed = Some(s.failed_experiments);
        r.running = Some(s.running_experiments);
        r.conditions = flatten_conditions(&s.conditions);
    }
    r
}

// ---------------------------------------------------------------------------
// Templates, suites, runs, profiles
// ---------------------------------------------------------------------------

/// What the console says of the template.
pub open spec fn is_template_row(t: ExperimentTemplate, r: TemplateSummary) -> bool {
    &&& r.namespace@ == t.metadata.in_namespace()
    &&& r.name@ == t.metadata.named()
    &&& r.created_at.deep_view() == ms_of(t.metadata.creation_timestamp)
    &&& r.objective@ == t.spec.objective.metric@ + " / "@ + t.spec.objective.goal.named()
    &&& r.detail@ == "runtime="@ + t.spec.runtime_profile_ref@ + " source="@
        + t.spec.source.git.url@
}

/// The row of a template.
pub fn template_summary(t: &ExperimentTemplate) -> (r: TemplateSummary)
    ensures
        is_template_row(*t, r),
{
    let mut objective = t.spec.objective.metric.clone();
    objective.append(" / ");
    objective.append(t.spec.objective.goal.label());
    let mut detail = "runtime=".to_owned();
    detail.append(t.spec.runtime_profile_ref.as_str());
    detail.append(" source=");
    detail.append(t.spec.source.git.url.as_str());
    TemplateSummary {
        namespace: t.metadata.namespace_or_default(),
        name: t.metadata.name_any(),
        created_at: to_ms(&t.metadata.creation_timestamp),
        objective,
        detail,
    }
}

/// How the readiness of a resource reads.
pub open spec fn readiness(ready: Option<bool>) -> Seq<char> {
    match ready {
        Some(b) => if b {
            "Ready"@
        } else {
            "NotReady"@
        },
        None => "No status"@,
    }
}

/// How the readiness of a resource reads.
pub fn readiness_str(ready: Option<bool>) -> (r: &'static str)
    ensures
        r@ == readiness(ready),
{
    match ready {
        Some(b) => if b {
            "Ready"
        } else {
            "NotReady"
        },
        None => "No status",
    }
}

/// Whether the suite is ready.
pub open spec fn suite_ready(s: BenchmarkSuite) -> Option<bool> {
    match s.status {
        Some(st) => Some(st.ready),
        None => None,
    }
}

/// What the suite holds.
pub open spec fn suite_detail(s: BenchmarkSuite) -> Seq<char> {
    s.spec.taxonomy.named() + " tasks="@ + decimal(s.spec.tasks@.len())
}

/// What the console says of the suite.
pub open spec fn is_suite_row(s: BenchmarkSuite, r: ResourceSummary) -> bool {
    &&& is_plain_row(
        s.metadata,
        "benchmarksuite"@,
        readiness(suite_ready(s)),
        suite_detail(s),
        r,
    )
    &&& r.workspace_path is None
    &&& r.logs_link is None
    &&& r.metrics_link is None
}

/// What the suite holds, and whether it is ready.
pub fn suite_texts(s: &BenchmarkSuite) -> (r: (&'static str, String))
    ensures
        r.0@ == readiness(suite_ready(*s)),
        r.1@ == suite_detail(*s),
{
    let ready: Option<bool> = match &s.status {
        Some(st) => Some(st.ready),
        None => None,
    };
    let mut detail = s.spec.taxonomy.label().to_owned();
    detail.append(" tasks=");
    detail.append(decimal_of(s.spec.tasks.len() as u64).as_str());
    (readiness_str(ready), detail)
}

/// The row of a benchmark suite.
pub fn suite_summary(s: &BenchmarkSuite) -> (r: ResourceSummary)
    ensures
        is_suite_row(*s, r),
{
    let (phase, detail) = suite_texts(s);
    plain_row(&s.metadata, "benchmarksuite", phase.to_owned(), detail)
}

/// The workspace of the run.
pub open spec fn run_workspace(b: BenchmarkRun) -> Option<String> {
    match b.spec.output {
        Some(o) => o.workspace_path,
        None => None,
    }
}

/// What the console says of the run.
pub open spec fn is_run_row(b: BenchmarkRun, r: ResourceSummary) -> bool {
    &&& is_plain_row(
        b.metadata,
        "benchmarkrun"@,
        match b.status {
            Some(s) => s.phase.named(),
            None => "Pending"@,
        },
        text_or(run_workspace(b), "suite="@ + b.spec.suite_ref.name@),
        r,
    )
    &&& r.workspace_path == run_workspace(b)
    &&& r.logs_link == (match b.status {
        Some(s) => s.logs_link,
        None => None,
    })
    &&& r.metrics_link == (match b.status {
        Some(s) => s.metrics_link,
        None => None,
    })
}

/// The row of a benchmark run.
pub fn run_summary(b: &BenchmarkRun) -> (r: ResourceSummary)
    ensures
        is_run_row(*b, r),
{
    let workspace = match &b.spec.output {
        Some(o) => copy_text(&o.workspace_path),
        None => None,
    };
    let mut suite = "suite=".to_owned();
    suite.append(b.spec.suite_ref.name.as_str());
    let phase = match &b.status {
        Some(s) => s.phase.label(),
        None => "Pending",
    };
    let mut r = plain_row(
        &b.metadata,
        "benchmarkrun",
        phase.to_owned(),
        text_or_owned(&workspace, suite.as_str()),
    );
    r.workspace_path = workspace;
    if let Some(s) = &b.status {
        r.logs_link = copy_text(&s.logs_link);
        r.metrics_link = copy_text(&s.metrics_link);
    }
    r
}

/// Whether the profile is ready.
pub open spec fn profile_ready(p: RuntimeProfile) -> Option<bool> {
    match p.status {
        Some(st) => Some(st.ready),
        None => None,
    }
}

/// What the profile runs.
pub open spec fn profile_detail(p: RuntimeProfile) -> Seq<char> {
    p.spec.runtime.runtime_type.named() + " "@ + p.spec.runtime.mode.named() + " image="@
        + p.spec.image@
}

/// What the console says of the profile.
pub open spec fn is_profile_row(p: RuntimeProfile, r: ResourceSummary) -> bool {
    &&& is_plain_row(
        p.metadata,
        "runtimeprofile"@,
        readiness(profile_ready(p)),
        profile_detail(p),
        r,
    )
    &&& r.workspace_path is None
    &&& r.logs_link is None
    &&& r.metrics_link is None
}

/// What the profile runs, and whether it is ready.
pub fn profile_texts(p: &RuntimeProfile) -> (r: (&'static str, String))
    ensures
        r.0@ == readiness(profile_ready(*p)),
        r.1@ == profile_detail(*p),
{
    let ready: Option<bool> = match &p.status {
        Some(st) => Some(st.ready),
        None => None,
    };
    let mut detail = p.spec.runtime.runtime_type.label().to_owned();
    detail.append(" ");
    detail.append(p.spec.runtime.mode.label());
    detail.append(" image=");
    detail.append(p.spec.image.as_str());
    (readiness_str(ready), detail)
}

/// The row of a runtime profile.
pub fn profile_summary(p: &RuntimeProfile) -> (r: ResourceSummary)
    ensures
        is_profile_row(*p, r),
{
    let (phase, detail) = profile_texts(p);
    plain_row(&p.metadata, "runtimeprofile", phase.to_owned(), detail)
}

// ---------------------------------------------------------------------------
// Reports and drives
// ---------------------------------------------------------------------------

/// What the console says of the report.
pub open spec fn is_report_row(p: ResearchReport, r: ReportSummary) -> bool {
    &&& r.namespace@ == p.metadata.in_namespace()
    &&& r.name@ == p.metadata.named()
    &&& r.campaign_ref@ == p.spec.campaign_ref@
    &&& r.title@ == text_or(p.spec.title, Seq::empty())
    &&& r.phase@ == (match p.status {
        Some(s) => text_or(s.phase, "Draft"@),
        None => "Draft"@,
    })
    &&& r.excluded_count == p.spec.excluded_experiments@.len()
    &&& r.sections.entries() == p.spec.sections.entries()
    &&& r.seeded_hypotheses@ == p.spec.seeded_hypotheses@
    &&& r.created_at.deep_view() == ms_of(p.metadata.creation_timestamp)
}

/// The row of a report.
pub fn report_summary(p: &ResearchReport) -> (r: ReportSummary)
    ensures
        is_report_row(*p, r),
{
    let phase = match &p.status {
        Some(s) => text_or_owned(&s.phase, "Draft"),
        None => "Draft".to_owned(),
    };
    ReportSummary {
        namespace: p.metadata.namespace_or_default(),
        name: p.metadata.name_any(),
        campaign_ref: p.spec.campaign_ref.clone(),
        title: or_empty(&p.spec.title),
        phase,
        excluded_count: p.spec.excluded_experiments.len(),
        sections: copy_text_map(&p.spec.sections),
        seeded_hypotheses: copy_texts(&p.spec.seeded_hypotheses),
        created_at: to_ms(&p.metadata.creation_timestamp),
    }
}

/// The drive's condition as the rows hold it.
pub open spec fn is_drive_condition(c: Condition, r: ConditionDto) -> bool {
    &&& r.ctype@ == c.condition_type@
    &&& r.status@ == c.status.named()
    &&& r.reason@ == text_or(c.reason, Seq::empty())
}

/// The template's progress as the rows hold it.
pub open spec fn is_template_progress(t: TemplateProgress, r: TemplateProgressDto) -> bool {
    &&& r.template_ref@ == t.template_ref@
    &&& r.best_objective == t.best_objective
    &&& r.succeeded == t.succeeded_experiments
    &&& r.passed == t.passed
}

/// The stage's record as the rows hold it.
pub open spec fn is_stage(h: StageRecord, r: StageProgressDto) -> bool {
    &&& r.name@ == h.name@
    &&& r.promoted_at == h.promoted_at
    &&& r.templates@.len() == h.template_progress@.len()
    &&& forall|i: int|
        0 <= i < r.templates@.len() ==> is_template_progress(
            h.template_progress@[i],
            #[trigger] r.templates@[i],
        )
}

/// The stages that the drive went through.
pub open spec fn stages_of(d: ResearchDrive) -> Seq<StageRecord> {
    match d.status {
        Some(s) => match s.curriculum {
            Some(c) => c.stage_history@,
            None => Seq::empty(),
        },
        None => Seq::empty(),
    }
}

/// The conditions of the drive.
pub open spec fn drive_conditions(d: ResearchDrive) -> Seq<Condition> {
    match d.status {
        Some(s) => s.conditions@,
        None => Seq::empty(),
    }
}

/// What the console says of the drive.
pub open spec fn is_drive_row(d: ResearchDrive, r: DriveSummary) -> bool {
    &&& r.namespace@ == d.metadata.in_namespace()
    &&& r.name@ == d.metadata.named()
    &&& r.created_at.deep_view() == ms_of(d.metadata.creation_timestamp)
    &&& r.phase@ == (match d.status {
        Some(s) => match s.phase {
            Some(p) => p.named(),
            None => "Pending"@,
        },
        None => "Pending"@,
    })
    &&& r.stage == (match d.status {
        Some(s) => match s.curriculum {
            Some(c) => c.current_stage,
            None => None,
        },
        None => None,
    })
    &&& r.stagnation == (match d.status {
        Some(s) => s.stagnation_counter,
        None => 0,
    })
    &&& r.conditions@.len() == drive_conditions(d).len()
    &&& forall|i: int|
        0 <= i < r.conditions@.len() ==> is_drive_condition(
            drive_conditions(d)[i],
            #[trigger] r.conditions@[i],
        )
    &&& r.stages@.len() == stages_of(d).len()
    &&& forall|i: int|
        0 <= i < r.stages@.len() ==> is_stage(stages_of(d)[i], #[trigger] r.stages@[i])
}

fn stage_summary(h: &StageRecord) -> (r: StageProgressDto)
    ensures
        is_stage(*h, r),
{
    let mut templates: Vec<TemplateProgressDto> = Vec::new();
    let mut i: usize = 0;
    while i < h.template_progress.len()
        invariant
            i <= h.template_progress.len(),
            templates@.len() == i,
            forall|k: int|
                0 <= k < i ==> is_template_progress(
                    h.template_progress@[k],
                    #[trigger] templates@[k],
                ),
        decreases h.template_progress.len() - i,
    {
        let t = &h.template_progress[i];
        templates.push(
            TemplateProgressDto {
                template_ref: t.template_ref.clone(),
                best_objective: copy_real(&t.best_objective),
                succeeded: t.succeeded_experiments,
                passed: t.passed,
            },
        );
        i = i + 1;
    }
    StageProgressDto { name: h.name.clone(), promoted_at: copy_text(&h.promoted_at), templates }
}

fn stage_summaries(v: &Vec<StageRecord>) -> (r: Vec<StageProgressDto>)
    ensures
        r@.len() == v@.len(),
        forall|i: int| 0 <= i < r@.len() ==> is_stage(v@[i], #[trigger] r@[i]),
{
    let mut out: Vec<StageProgressDto> = Vec::new();
    let mut i: usize = 0;
    while i < v.len()
        invariant
            i <= v.len(),
            out@.len() == i,
            forall|k: int| 0 <= k < i ==> is_stage(v@[k], #[trigger] out@[k]),
        decreases v.len() - i,
    {
        out.push(stage_summary(&v[i]));
        i = i + 1;
    }
    out
}

fn drive_condition_rows(v: &Vec<Condition>) -> (r: Vec<ConditionDto>)
    ensures
        r@.len() == v@.len(),
        forall|i: int| 0 <= i < r@.len() ==> is_drive_condition(v@[i], #[trigger] r@[i]),
{
    let mut out: Vec<ConditionDto> = Vec::new();
    let mut i: usize = 0;
    while i < v.len()
        invariant
            i <= v.len(),
            out@.len() == i,
            forall|k: int| 0 <= k < i ==> is_drive_condition(v@[k], #[trigger] out@[k]),
        decreases v.len() - i,
    {
        let c = &v[i];
        out.push(
            ConditionDto {
                ctype: c.condition_type.clone(),
                status: c.status.label().to_owned(),
                reason: or_empty(&c.reason),
            },
        );
        i = i + 1;
    }
    out
}

/// The row of a drive.
pub fn drive_summary(d: &ResearchDrive) -> (r: DriveSummary)
    ensures
        is_drive_row(*d, r),
{
    let mut r = DriveSummary {
        namespace: d.metadata.namespace_or_default(),
        name: d.metadata.name_any(),
        created_at: to_ms(&d.metadata.creation_timestamp),
        phase: "Pending".to_owned(),
        stage: None,
        stagnation: 0,
        conditions: Vec::new(),
        stages: Vec::new(),
    };
    if let Some(s) = &d.status {
        if let Some(p) = &s.phase {
            r.phase = p.label().to_owned();
        }
        if let Some(c) = &s.curriculum {
            r.stage = copy_text(&c.current_stage);
            r.stages = stage_summaries(&c.stage_history);
        }
        r.stagnation = s.stagnation_counter;
        r.conditions = drive_condition_rows(&s.conditions);
    }
    r
}

// ---------------------------------------------------------------------------
// The snapshot
// ---------------------------------------------------------------------------

/// Everything that the backend lists from the cluster.
pub struct Listing {
    pub experiments: Vec<Experiment>,
    pub campaigns: Vec<ResearchCampaign>,
    pub templates: Vec<ExperimentTemplate>,
    pub suites: Vec<BenchmarkSuite>,
    pub runs: Vec<BenchmarkRun>,
    pub profiles: Vec<RuntimeProfile>,
    pub jobs: Vec<Job>,
    pub reports: Vec<ResearchReport>,
    pub drives: Vec<ResearchDrive>,
}

/// The snapshot has one row for each listed resource, in the order of the list.
pub open spec fn is_cluster_snapshot(l: Listing, r: ClusterSnapshot) -> bool {
    &&& r.experiments@.len() == l.experiments@.len()
    &&& forall|i: int|
        0 <= i < r.experiments@.len() ==> is_experiment_row(
            l.experiments@[i],
            l.jobs@,
            l.campaigns@,
            #[trigger] r.experiments@[i],
        )
    &&& r.campaigns@.len() == l.campaigns@.len()
    &&& forall|i: int|
        0 <= i < r.campaigns@.len() ==> is_campaign_row(
            l.campaigns@[i],
            l.templates@,
            #[trigger] r.campaigns@[i],
        )
    &&& r.templates@.len() == l.templates@.len()
    &&& forall|i: int|
        0 <= i < r.templates@.len() ==> is_template_row(l.templates@[i], #[trigger] r.templates@[i])
    &&& r.benchmark_suites@.len() == l.suites@.len()
    &&& forall|i: int|
        0 <= i < r.benchmark_suites@.len() ==> is_suite_row(
            l.suites@[i],
            #[trigger] r.benchmark_suites@[i],
        )
    &&& r.benchmark_runs@.len() == l.runs@.len()
    &&& forall|i: int|
        0 <= i < r.benchmark_runs@.len() ==> is_run_row(l.runs@[i], #[trigger] r.benchmark_runs@[i])
    &&& r.runtime_profiles@.len() == l.profiles@.len()
    &&& forall|i: int|
        0 <= i < r.runtime_profiles@.len() ==> is_profile_row(
            l.profiles@[i],
            #[trigger] r.runtime_profiles@[i],
        )
    &&& r.reports@.len() == l.reports@.len()
    &&& forall|i: int|
        0 <= i < r.reports@.len() ==> is_report_row(l.reports@[i], #[trigger] r.reports@[i])
    &&& r.drives@.len() == l.drives@.len()
    &&& forall|i: int|
        0 <= i < r.drives@.len() ==> is_drive_row(l.drives@[i], #[trigger] r.drives@[i])
}

fn experiment_rows(l: &Listing) -> (r: Vec<ResourceSummary>)
    ensures
        r@.len() == l.experiments@.len(),
        forall|i: int|
            0 <= i < r@.len() ==> is_experiment_row(
                l.experiments@[i],
                l.jobs@,
                l.campaigns@,
                #[trigger] r@[i],
            ),
{
    let mut out: Vec<ResourceSummary> = Vec::new();
    let mut i: usize = 0;
    while i < l.experiments.len()
        invariant
            i <= l.experiments.len(),
            out@.len() == i,
            forall|k: int|
                0 <= k < i ==> is_experiment_row(
                    l.experiments@[k],
                    l.jobs@,
                    l.campaigns@,
                    #[trigger] out@[k],
                ),
        decreases l.experiments.len() - i,
    {
        out.push(experiment_summary(&l.experiments[i], &l.jobs, &l.campaigns));
        i = i + 1;
    }
    out
}

fn campaign_rows(l: &Listing) -> (r: Vec<ResourceSummary>)
    ensures
        r@.len() == l.campaigns@.len(),
        forall|i: int|
            0 <= i < r@.len() ==> is_campaign_row(
                l.campaigns@[i],
                l.templates@,
                #[trigger] r@[i],
            ),
{
    let mut out: Vec<ResourceSummary> = Vec::new();
    let mut i: usize = 0;
    while i < l.campaigns.len()
        invariant
            i <= l.campaigns.len(),
            out@.len() == i,
            forall|k: int|
                0 <= k < i ==> is_campaign_row(
                    l.campaigns@[k],
                    l.templates@,
                    #[trigger] out@[k],
                ),
        decreases l.campaigns.len() - i,
    {
        out.push(campaign_summary(&l.campaigns[i], &l.templates));
        i = i + 1;
    }
    out
}

/// Collapses what was listed into the snapshot that the frontend gets.
pub fn cluster_snapshot(l: &Listing) -> (r: ClusterSnapshot)
    ensures
        is_cluster_snapshot(*l, r),
{
    let mut templates: Vec<TemplateSummary> = Vec::new();
    let mut i: usize = 0;
    while i < l.templates.len()
        invariant
            i <= l.templates.len(),
            templates@.len() == i,
            forall|k: int| 0 <= k < i ==> is_template_row(l.templates@[k], #[trigger] templates@[k]),
        decreases l.templates.len() - i,
    {
        templates.push(template_summary(&l.templates[i]));
        i = i + 1;
    }
    let mut suites: Vec<ResourceSummary> = Vec::new();
    let mut i: usize = 0;
    while i < l.suites.len()
        invariant
            i <= l.suites.len(),
            suites@.len() == i,
            forall|k: int| 0 <= k < i ==> is_suite_row(l.suites@[k], #[trigger] suites@[k]),
        decreases l.suites.len() - i,
    {
        suites.push(suite_summary(&l.suites[i]));
        i = i + 1;
    }
    let mut runs: Vec<ResourceSummary> = Vec::new();
    let mut i: usize = 0;
    while i < l.runs.len()
        invariant
            i <= l.runs.len(),
            runs@.len() == i,
            forall|k: int| 0 <= k < i ==> is_run_row(l.runs@[k], #[trigger] runs@[k]),
        decreases l.runs.len() - i,
    {
        runs.push(run_summary(&l.runs[i]));
        i = i + 1;
    }
    let mut profiles: Vec<ResourceSummary> = Vec::new();
    let mut i: usize = 0;
    while i < l.profiles.len()
        invariant
            i <= l.profiles.len(),
            profiles@.len() == i,
            forall|k: int| 0 <= k < i ==> is_profile_row(l.profiles@[k], #[trigger] profiles@[k]),
        decreases l.profiles.len() - i,
    {
        profiles.push(profile_summary(&l.profiles[i]));
        i = i + 1;
    }
    let mut reports: Vec<ReportSummary> = Vec::new();
    let mut i: usize = 0;
    while i < l.reports.len()
        invariant
            i <= l.reports.len(),
            reports@.len() == i,
            forall|k: int| 0 <= k < i ==> is_report_row(l.reports@[k], #[trigger] reports@[k]),
        decreases l.reports.len() - i,
    {
        reports.push(report_summary(&l.reports[i]));
        i = i + 1;
    }
    let mut drives: Vec<DriveSummary> = Vec::new();
    let mut i: usize = 0;
    while i < l.drives.len()
        invariant
            i <= l.drives.len(),
            drives@.len() == i,
            forall|k: int| 0 <= k < i ==> is_drive_row(l.drives@[k], #[trigger] drives@[k]),
        decreases l.drives.len() - i,
    {
        drives.push(drive_summary(&l.drives[i]));
        i = i + 1;
    }
    ClusterSnapshot {
        experiments: experiment_rows(l),
        campaigns: campaign_rows(l),
        templates,
        benchmark_suites: suites,
        benchmark_runs: runs,
        runtime_profiles: profiles,
        reports,
        drives,
    }
}

// ---------------------------------------------------------------------------
// What a snapshot says
// ---------------------------------------------------------------------------

/// A letter in lower case.
pub open spec fn small(c: char) -> char {
    if 'A' <= c && c <= 'Z' {
        (c as u32 + 32) as char
    } else {
        c
    }
}

/// A campaign is shown with the objective and the goal of the template that it refers to (the last
/// one of that name), the goal in lower case: a campaign that maximizes reads "maximize", one that
/// minimizes reads "minimize", and the two never read alike.
pub proof fn a_campaign_reads_the_goal_of_its_template(
    l: Listing,
    r: ClusterSnapshot,
    i: int,
    j: int,
)
    requires
        is_cluster_snapshot(l, r),
        0 <= i < l.campaigns@.len(),
        0 <= j < l.templates@.len(),
        l.templates@[j].metadata.named() == l.campaigns@[i].spec.template_ref@,
        forall|k: int|
            j < k < l.templates@.len() ==> (#[trigger] l.templates@[k]).metadata.named()
                != l.campaigns@[i].spec.template_ref@,
    ensures
        ({
            let o = l.templates@[j].spec.objective;
            let row = r.campaigns@[i];
            &&& row.objective matches Some(m) && m@ == o.metric@
            &&& row.objective_goal matches Some(g) && g@ == o.goal.named().map_values(
                |c: char| small(c),
            )
            &&& row.objective_goal matches Some(g) && (g@ == seq![
                'm',
                'a',
                'x',
                'i',
                'm',
                'i',
                'z',
                'e',
            ] <==> o.goal is Maximize)
            &&& row.objective_goal matches Some(g) && (g@ == seq![
                'm',
                'i',
                'n',
                'i',
                'm',
                'i',
                'z',
                'e',
            ] <==> o.goal is Minimize)
        }),
{
    lemma_objective_of(l.templates@, l.campaigns@[i].spec.template_ref@, j);
    let row = r.campaigns@[i];
    assert(is_campaign_row(l.campaigns@[i], l.templates@, row));
    let goal = l.templates@[j].spec.objective.goal;
    reveal_strlit("minimize");
    reveal_strlit("maximize");
    reveal_strlit("Minimize");
    reveal_strlit("Maximize");
    assert("minimize"@[1] != "maximize"@[1]);
    assert("maximize"@ =~= seq!['m', 'a', 'x', 'i', 'm', 'i', 'z', 'e']);
    assert("minimize"@ =~= seq!['m', 'i', 'n', 'i', 'm', 'i', 'z', 'e']);
    assert("Minimize"@.map_values(|c: char| small(c)) =~= "minimize"@);
    assert("Maximize"@.map_values(|c: char| small(c)) =~= "maximize"@);
}

proof fn lemma_objective_of(templates: Seq<ExperimentTemplate>, name: Seq<char>, j: int)
    requires
        0 <= j < templates.len(),
        templates[j].metadata.named() == name,
        forall|k: int|
            j < k < templates.len() ==> (#[trigger] templates[k]).metadata.named() != name,
    ensures
        objective_named(templates, name) == (
            Some(templates[j].spec.objective.metric@),
            Some(goal_text(templates[j].spec.objective.goal)),
        ),
    decreases templates.len(),
{
    if j < templates.len() - 1 {
        assert(templates[templates.len() - 1].metadata.named() != name);
        lemma_objective_of(templates.drop_last(), name, j);
    }
}

/// A campaign whose template is not at hand is shown without an objective.
pub proof fn without_a_template_no_objective(l: Listing, r: ClusterSnapshot, i: int)
    requires
        is_cluster_snapshot(l, r),
        0 <= i < l.campaigns@.len(),
        forall|k: int|
            0 <= k < l.templates@.len() ==> (#[trigger] l.templates@[k]).metadata.named()
                != l.campaigns@[i].spec.template_ref@,
    ensures
        r.campaigns@[i].objective is None,
        r.campaigns@[i].objective_goal is None,
{
    lemma_no_objective(l.templates@, l.campaigns@[i].spec.template_ref@);
    assert(is_campaign_row(l.campaigns@[i], l.templates@, r.campaigns@[i]));
}

proof fn lemma_no_objective(templates: Seq<ExperimentTemplate>, name: Seq<char>)
    requires
        forall|k: int|
            0 <= k < templates.len() ==> (#[trigger] templates[k]).metadata.named() != name,
    ensures
        objective_named(templates, name) == (None::<Seq<char>>, None::<Seq<char>>),
    decreases templates.len(),
{
    if templates.len() > 0 {
        assert(templates[templates.len() - 1].metadata.named() != name);
        lemma_no_objective(templates.drop_last(), name);
    }
}

/// An experiment is shown with the template of the campaign that it belongs to.
pub proof fn an_experiment_reads_the_template_of_its_campaign(
    l: Listing,
    r: ClusterSnapshot,
    i: int,
    j: int,
)
    requires
        is_cluster_snapshot(l, r),
        0 <= i < l.experiments@.len(),
        0 <= j < l.campaigns@.len(),
        l.campaigns@[j].metadata.named() == l.experiments@[i].spec.campaign_ref@,
        forall|k: int|
            j < k < l.campaigns@.len() ==> (#[trigger] l.campaigns@[k]).metadata.named()
                != l.experiments@[i].spec.campaign_ref@,
    ensures
        r.experiments@[i].campaign matches Some(c) && c@ == l.campaigns@[j].metadata.named(),
        r.experiments@[i].template matches Some(t) && t@ == l.campaigns@[j].spec.template_ref@,
{
    lemma_template_of(l.campaigns@, l.experiments@[i].spec.campaign_ref@, j);
    assert(is_experiment_row(l.experiments@[i], l.jobs@, l.campaigns@, r.experiments@[i]));
}

proof fn lemma_template_of(campaigns: Seq<ResearchCampaign>, name: Seq<char>, j: int)
    requires
        0 <= j < campaigns.len(),
        campaigns[j].metadata.named() == name,
        forall|k: int|
            j < k < campaigns.len() ==> (#[trigger] campaigns[k]).metadata.named() != name,
    ensures
        template_of(campaigns, name) == Some(campaigns[j].spec.template_ref@),
    decreases campaigns.len(),
{
    if j < campaigns.len() - 1 {
        assert(campaigns[campaigns.len() - 1].metadata.named() != name);
        lemma_template_of(campaigns.drop_last(), name, j);
    }
}

/// An experiment runs from the start of its job to the completion of it: the job is the one that
/// carries the experiment's name behind "exp-". Where no cost was recorded the run time is the
/// whole seconds between the two, and a recorded run time comes first.
pub proof fn an_experiment_runs_as_long_as_its_job(
    l: Listing,
    r: ClusterSnapshot,
    i: int,
    j: int,
    s: JobStatus,
)
    requires
        is_cluster_snapshot(l, r),
        0 <= i < l.experiments@.len(),
        0 <= j < l.jobs@.len(),
        l.jobs@[j].metadata.name matches Some(n) && n@ == seq!['e', 'x', 'p', '-']
            + l.experiments@[i].metadata.named(),
        forall|k: int|
            j < k < l.jobs@.len() ==> !((#[trigger] l.jobs@[k]).metadata.name matches Some(n) && n@
                == seq!['e', 'x', 'p', '-'] + l.experiments@[i].metadata.named()),
        l.jobs@[j].status == Some(s),
    ensures
        ({
            let e = l.experiments@[i];
            let row = r.experiments@[i];
            let costed = e.status is Some && e.status->0.cost is Some
                && e.status->0.cost->0.runtime_seconds is Some;
            &&& row.started_at is Some <==> s.start_time is Some
            &&& s.start_time matches Some(t) ==> row.started_at->0@ == signed(t.millis as int)
            &&& row.ended_at is Some <==> s.completion_time is Some
            &&& s.completion_time matches Some(t) ==> row.ended_at->0@ == signed(t.millis as int)
            &&& costed ==> row.runtime_seconds == e.status->0.cost->0.runtime_seconds
            &&& !costed ==> (row.runtime_seconds is Some <==> s.start_time is Some
                && s.completion_time is Some)
            &&& !costed && row.runtime_seconds is Some ==> ({
                let span = s.completion_time->0.millis - s.start_time->0.millis;
                &&& span >= 0 ==> row.runtime_seconds->0 * 1000 <= span < (row.runtime_seconds->0
                    + 1) * 1000
                &&& span < 0 ==> (row.runtime_seconds->0 - 1) * 1000 < span
                    <= row.runtime_seconds->0 * 1000
            })
        }),
{
    reveal_strlit("exp-");
    assert("exp-"@ =~= seq!['e', 'x', 'p', '-']);
    let name = job_of(l.experiments@[i]);
    lemma_job_named(l.jobs@, name, j);
    assert(is_experiment_row(l.experiments@[i], l.jobs@, l.campaigns@, r.experiments@[i]));
}

proof fn lemma_job_named(jobs: Seq<Job>, name: Seq<char>, j: int)
    requires
        0 <= j < jobs.len(),
        jobs[j].metadata.name matches Some(n) && n@ == name,
        forall|k: int|
            j < k < jobs.len() ==> !((#[trigger] jobs[k]).metadata.name matches Some(n) && n@
                == name),
    ensures
        job_named(jobs, name) == Some(jobs[j]),
    decreases jobs.len(),
{
    if j < jobs.len() - 1 {
        assert(!(jobs[jobs.len() - 1].metadata.name matches Some(n) && n@ == name));
        lemma_job_named(jobs.drop_last(), name, j);
    }
}

/// An experiment without a job has no times.
pub proof fn without_a_job_no_times(l: Listing, r: ClusterSnapshot, i: int)
    requires
        is_cluster_snapshot(l, r),
        0 <= i < l.experiments@.len(),
        forall|k: int|
            0 <= k < l.jobs@.len() ==> !((#[trigger] l.jobs@[k]).metadata.name matches Some(n) && n@
                == seq!['e', 'x', 'p', '-'] + l.experiments@[i].metadata.named()),
    ensures
        r.experiments@[i].started_at is None,
        r.experiments@[i].ended_at is None,
{
    reveal_strlit("exp-");
    assert("exp-"@ =~= seq!['e', 'x', 'p', '-']);
    lemma_no_job(l.jobs@, job_of(l.experiments@[i]));
    assert(is_experiment_row(l.experiments@[i], l.jobs@, l.campaigns@, r.experiments@[i]));
}

proof fn lemma_no_job(jobs: Seq<Job>, name: Seq<char>)
    requires
        forall|k: int|
            0 <= k < jobs.len() ==> !((#[trigger] jobs[k]).metadata.name matches Some(n) && n@
                == name),
    ensures
        job_named(jobs, name) is None,
    decreases jobs.len(),
{
    if jobs.len() > 0 {
        assert(!(jobs[jobs.len() - 1].metadata.name matches Some(n) && n@ == name));
        lemma_no_job(jobs.drop_last(), name);
    }
}

/// An experiment is shown as it stands: by its own name and namespace, pending as long as nothing
/// was reported and then in the reported phase; with its message, or its hypothesis where there is
/// none; with the links, the decision and the GPU hours of its status, the parent and the
/// generation of its lineage, and nothing of what only a campaign has.
pub proof fn an_experiment_is_shown_as_it_stands(l: Listing, r: ClusterSnapshot, i: int)
    requires
        is_cluster_snapshot(l, r),
        0 <= i < l.experiments@.len(),
    ensures
        ({
            let e = l.experiments@[i];
            let row = r.experiments@[i];
            &&& row.name@ == e.metadata.named()
            &&& row.namespace@ == e.metadata.in_namespace()
            &&& row.kind@ == "experiment"@
            &&& e.status is None ==> row.phase@ == "Pending"@ && row.detail@ == e.spec.hypothesis@
                && row.workspace_path is None && row.logs_link is None && row.metrics_link is None
                && row.decision is None && row.gpu_hours is None
            &&& e.status matches Some(s) ==> {
                &&& row.phase@ == s.phase.named()
                &&& s.message matches Some(m) ==> row.detail@ == m@
                &&& s.message is None ==> row.detail@ == e.spec.hypothesis@
                &&& row.workspace_path == s.workspace_path
                &&& row.logs_link == s.logs_link
                &&& row.metrics_link == s.metrics_link
                &&& row.decision is Some <==> s.decision is Some
                &&& s.decision matches Some(d) ==> row.decision->0@ == d.named()
                &&& s.cost matches Some(c) ==> row.gpu_hours == c.gpu_hours
                &&& s.cost is None ==> row.gpu_hours is None
            }
            &&& e.spec.lineage matches Some(l) ==> row.parent == l.parent && row.generation
                == l.generation
            &&& e.spec.lineage is None ==> row.parent is None && row.generation is None
            &&& row.campaign matches Some(c) && c@ == e.spec.campaign_ref@
            &&& row.created_at is Some <==> e.metadata.creation_timestamp is Some
            &&& e.metadata.creation_timestamp matches Some(t) ==> row.created_at->0@ == signed(
                t.millis as int,
            )
            &&& row.hypothesis matches Some(h) && h@.is_prefix_of(e.spec.hypothesis@)
            &&& row.hypothesis matches Some(h) && h@.len() == (if e.spec.hypothesis@.len() <= 240 {
                e.spec.hypothesis@.len()
            } else {
                240
            })
            &&& row.drive is None && row.strategy is None && row.best_experiment is None
            &&& row.succeeded is None && row.failed is None && row.running is None
            &&& row.conditions@.len() == 0
        }),
{
    assert(is_experiment_row(l.experiments@[i], l.jobs@, l.campaigns@, r.experiments@[i]));
}

/// An experiment is shown with its objective's name and goal as measured, and with the number that
/// stands under that name among its best metrics.
pub proof fn an_experiment_is_valued_by_its_objective(
    l: Listing,
    r: ClusterSnapshot,
    i: int,
    m: ExperimentMetrics,
)
    requires
        is_cluster_snapshot(l, r),
        0 <= i < l.experiments@.len(),
        l.experiments@[i].status is Some,
        l.experiments@[i].status->0.metrics_detail == Some(m),
    ensures
        r.experiments@[i].objective == m.objective_name,
        r.experiments@[i].objective_goal == m.objective_goal,
        m.objective_name is None || m.best is None ==> r.experiments@[i].objective_value is None,
        m.objective_name is Some && m.best is Some ==> (match member_of(
            m.best->0,
            m.objective_name->0@,
        ) {
            Some(v) => r.experiments@[i].objective_value == float_of(v),
            None => r.experiments@[i].objective_value is None,
        }),
{
    assert(is_experiment_row(l.experiments@[i], l.jobs@, l.campaigns@, r.experiments@[i]));
}

/// An experiment's mode is the text under "mode" among its parameters, and without such a
/// parameter it has none.
pub proof fn a_mode_is_the_parameter_of_that_name(l: Listing, r: ClusterSnapshot, i: int)
    requires
        is_cluster_snapshot(l, r),
        0 <= i < l.experiments@.len(),
    ensures
        ({
            let ps = l.experiments@[i].spec.parameters@;
            let key = seq!['m', 'o', 'd', 'e'];
            let row = r.experiments@[i];
            &&& !ps.contains_key(key) ==> row.mode is None
            &&& ps.contains_key(key) ==> row.mode.deep_view() == text_of(ps[key])
        }),
{
    reveal_strlit("mode");
    assert("mode"@ =~= seq!['m', 'o', 'd', 'e']);
    assert(is_experiment_row(l.experiments@[i], l.jobs@, l.campaigns@, r.experiments@[i]));
}

/// A campaign is shown as it stands: with the counts, the best experiment and the best objective of
/// its status, each under its own name; it counts as started when it was created.
pub proof fn a_campaign_is_shown_as_it_stands(l: Listing, r: ClusterSnapshot, i: int)
    requires
        is_cluster_snapshot(l, r),
        0 <= i < l.campaigns@.len(),
    ensures
        ({
            let c = l.campaigns@[i];
            let row = r.campaigns@[i];
            &&& row.name@ == c.metadata.named()
            &&& row.namespace@ == c.metadata.in_namespace()
            &&& row.kind@ == "researchcampaign"@
            &&& row.template matches Some(t) && t@ == c.spec.template_ref@
            &&& row.strategy matches Some(t) && t@ == c.spec.strategy.strategy_type@
            &&& row.started_at is Some <==> c.metadata.creation_timestamp is Some
            &&& row.created_at is Some <==> c.metadata.creation_timestamp is Some
            &&& c.metadata.creation_timestamp matches Some(t) ==> row.created_at->0@ == signed(
                t.millis as int,
            ) && row.started_at->0@ == signed(t.millis as int)
            &&& row.ended_at is None
            &&& c.status is None ==> row.phase@ == "Pending"@ && row.detail@ == "template="@
                + c.spec.template_ref@ && row.succeeded is None && row.failed is None
                && row.running is None && row.best_experiment is None && row.objective_value is None
                && row.conditions@.len() == 0
            &&& c.status matches Some(s) ==> {
                &&& s.phase matches Some(p) ==> row.phase@ == p@
                &&& s.phase is None ==> row.phase@ == "Pending"@
                &&& row.succeeded == Some(s.succeeded_experiments)
                &&& row.failed == Some(s.failed_experiments)
                &&& row.running == Some(s.running_experiments)
                &&& row.best_experiment == s.best_experiment
                &&& row.objective_value == s.best_objective
                &&& s.conditions is None ==> row.conditions@.len() == 0
                &&& s.conditions matches Some(cs) ==> row.conditions@.len() == cs@.len()
            }
            &&& row.parent is None && row.generation is None && row.decision is None
            &&& row.campaign is None && row.mode is None && row.hypothesis is None
            &&& row.runtime_seconds is None && row.gpu_hours is None
            &&& row.workspace_path is None && row.logs_link is None && row.metrics_link is None
        }),
{
    assert(is_campaign_row(l.campaigns@[i], l.templates@, r.campaigns@[i]));
}

/// The detail of a campaign with a status gives each count behind its own name.
pub proof fn the_detail_of_a_campaign_counts(
    l: Listing,
    r: ClusterSnapshot,
    i: int,
    s: ResearchCampaignStatus,
)
    requires
        is_cluster_snapshot(l, r),
        0 <= i < l.campaigns@.len(),
        l.campaigns@[i].status == Some(s),
    ensures
        shows(r.campaigns@[i].detail@, "running="@ + decimal(s.running_experiments as nat)),
        shows(r.campaigns@[i].detail@, "succeeded="@ + decimal(s.succeeded_experiments as nat)),
        shows(r.campaigns@[i].detail@, "failed="@ + decimal(s.failed_experiments as nat)),
        s.best_experiment matches Some(b) ==> shows(r.campaigns@[i].detail@, "best="@ + b@),
        s.best_experiment is None ==> shows(r.campaigns@[i].detail@, "best=-"@),
{
    assert(is_campaign_row(l.campaigns@[i], l.templates@, r.campaigns@[i]));
    lemma_campaign_detail(
        decimal(s.running_experiments as nat),
        decimal(s.succeeded_experiments as nat),
        decimal(s.failed_experiments as nat),
        text_or(s.best_experiment, "-"@),
    );
    assert("best=-"@ =~= "best="@ + "-"@) by {
        reveal_strlit("best=-");
        reveal_strlit("best=");
        reveal_strlit("-");
    }
}

proof fn lemma_campaign_detail(a: Seq<char>, b: Seq<char>, c: Seq<char>, d: Seq<char>)
    ensures
        shows("running="@ + a + " succeeded="@ + b + " failed="@ + c + " best="@ + d, "running="@ + a),
        shows(
            "running="@ + a + " succeeded="@ + b + " failed="@ + c + " best="@ + d,
            "succeeded="@ + b,
        ),
        shows("running="@ + a + " succeeded="@ + b + " failed="@ + c + " best="@ + d, "failed="@ + c),
        shows("running="@ + a + " succeeded="@ + b + " failed="@ + c + " best="@ + d, "best="@ + d),
{
    assert(" succeeded="@ =~= " "@ + "succeeded="@) by {
        reveal_strlit(" succeeded=");
        reveal_strlit(" ");
        reveal_strlit("succeeded=");
    }
    assert(" failed="@ =~= " "@ + "failed="@) by {
        reveal_strlit(" failed=");
        reveal_strlit(" ");
        reveal_strlit("failed=");
    }
    assert(" best="@ =~= " "@ + "best="@) by {
        reveal_strlit(" best=");
        reveal_strlit(" ");
        reveal_strlit("best=");
    }
    let s1 = "running="@ + a;
    let s2 = s1 + " succeeded="@ + b;
    let s3 = s2 + " failed="@ + c;
    let s4 = s3 + " best="@ + d;
    lemma_shows_itself(s1);
    lemma_shows_labelled(s1, " "@, "succeeded="@, b);
    lemma_shows_labelled(s2, " "@, "failed="@, c);
    lemma_shows_labelled(s3, " "@, "best="@, d);
    lemma_shows_front2(s1, " succeeded="@, b, s1);
    lemma_shows_front2(s2, " failed="@, c, s1);
    lemma_shows_front2(s3, " best="@, d, s1);
    lemma_shows_front2(s2, " failed="@, c, "succeeded="@ + b);
    lemma_shows_front2(s3, " best="@, d, "succeeded="@ + b);
    lemma_shows_front2(s3, " best="@, d, "failed="@ + c);
}

/// A campaign belongs to the first drive among its owners, and to none where no drive owns it.
pub proof fn a_campaign_belongs_to_the_drive_that_owns_it(
    l: Listing,
    r: ClusterSnapshot,
    i: int,
    owners: Seq<OwnerReference>,
    j: int,
)
    requires
        is_cluster_snapshot(l, r),
        0 <= i < l.campaigns@.len(),
        l.campaigns@[i].metadata.owner_references is Some,
        l.campaigns@[i].metadata.owner_references->0@ == owners,
        0 <= j <= owners.len(),
        forall|k: int| 0 <= k < j ==> (#[trigger] owners[k]).kind@ != "ResearchDrive"@,
        j < owners.len() ==> owners[j].kind@ == "ResearchDrive"@,
    ensures
        j < owners.len() ==> (r.campaigns@[i].drive matches Some(d) && d@ == owners[j].name@),
        j == owners.len() ==> r.campaigns@[i].drive is None,
{
    assert(is_campaign_row(l.campaigns@[i], l.templates@, r.campaigns@[i]));
    lemma_owner(owners, "ResearchDrive"@, j);
}

proof fn lemma_owner(owners: Seq<OwnerReference>, kind: Seq<char>, j: int)
    requires
        0 <= j <= owners.len(),
        forall|k: int| 0 <= k < j ==> (#[trigger] owners[k]).kind@ != kind,
        j < owners.len() ==> owners[j].kind@ == kind,
    ensures
        owner_of(owners, kind) == if j < owners.len() {
            Some(owners[j].name@)
        } else {
            None
        },
    decreases owners.len(),
{
    if owners.len() > 0 && j > 0 {
        assert(owners[0].kind@ != kind);
        let rest = owners.drop_first();
        assert forall|k: int| 0 <= k < j - 1 implies (#[trigger] rest[k]).kind@ != kind by {
            assert(rest[k] == owners[k + 1]);
        }
        lemma_owner(rest, kind, j - 1);
    }
}

/// A campaign that nobody owns belongs to no drive.
pub proof fn an_unowned_campaign_has_no_drive(l: Listing, r: ClusterSnapshot, i: int)
    requires
        is_cluster_snapshot(l, r),
        0 <= i < l.campaigns@.len(),
        l.campaigns@[i].metadata.owner_references is None,
    ensures
        r.campaigns@[i].drive is None,
{
    assert(is_campaign_row(l.campaigns@[i], l.templates@, r.campaigns@[i]));
}

/// The conditions of a campaign stand in their order, each with its own type, status and reason.
pub proof fn conditions_keep_their_parts(
    l: Listing,
    r: ClusterSnapshot,
    i: int,
    cs: Seq<ExperimentCondition>,
    j: int,
)
    requires
        is_cluster_snapshot(l, r),
        0 <= i < l.campaigns@.len(),
        l.campaigns@[i].status is Some,
        l.campaigns@[i].status->0.conditions is Some,
        l.campaigns@[i].status->0.conditions->0@ == cs,
        0 <= j < cs.len(),
    ensures
        r.campaigns@[i].conditions@.len() == cs.len(),
        ({
            let c = r.campaigns@[i].conditions@[j];
            &&& cs[j].condition_type matches Some(t) ==> c.ctype@ == t@
            &&& cs[j].status matches Some(t) ==> c.status@ == t@
            &&& cs[j].reason matches Some(t) ==> c.reason@ == t@
            &&& cs[j].condition_type is None ==> c.ctype@.len() == 0
            &&& cs[j].status is None ==> c.status@.len() == 0
            &&& cs[j].reason is None ==> c.reason@.len() == 0
        }),
{
    assert(is_campaign_row(l.campaigns@[i], l.templates@, r.campaigns@[i]));
    assert(is_condition(cs[j], r.campaigns@[i].conditions@[j]));
}

/// A suite or a profile is ready exactly when its status says so, and a resource without a status
/// is neither ready nor not.
pub proof fn readiness_is_what_the_status_says(l: Listing, r: ClusterSnapshot, i: int)
    requires
        is_cluster_snapshot(l, r),
    ensures
        0 <= i < l.suites@.len() ==> {
            let s = l.suites@[i];
            let row = r.benchmark_suites@[i];
            &&& row.phase@ == "Ready"@ <==> s.status is Some && s.status->0.ready
            &&& row.phase@ == "NotReady"@ <==> s.status is Some && !s.status->0.ready
            &&& row.phase@ == "No status"@ <==> s.status is None
        },
        0 <= i < l.profiles@.len() ==> {
            let p = l.profiles@[i];
            let row = r.runtime_profiles@[i];
            &&& row.phase@ == "Ready"@ <==> p.status is Some && p.status->0.ready
            &&& row.phase@ == "NotReady"@ <==> p.status is Some && !p.status->0.ready
            &&& row.phase@ == "No status"@ <==> p.status is None
        },
{
    reveal_strlit("Ready");
    reveal_strlit("NotReady");
    reveal_strlit("No status");
    assert("Ready"@.len() != "NotReady"@.len());
    assert("Ready"@.len() != "No status"@.len());
    assert("NotReady"@.len() != "No status"@.len());
    if 0 <= i < l.suites@.len() {
        assert(is_suite_row(l.suites@[i], r.benchmark_suites@[i]));
    }
    if 0 <= i < l.profiles@.len() {
        assert(is_profile_row(l.profiles@[i], r.runtime_profiles@[i]));
    }
}

/// Suites, runs and profiles are shown by their own names under their own kinds: a suite with its
/// taxonomy and how many tasks it has, a run with where it writes or else its suite, a profile with
/// its runtime and its image.
pub proof fn the_other_rows_say_what_they_are(l: Listing, r: ClusterSnapshot, i: int)
    requires
        is_cluster_snapshot(l, r),
    ensures
        0 <= i < l.suites@.len() ==> {
            let s = l.suites@[i];
            let row = r.benchmark_suites@[i];
            &&& row.name@ == s.metadata.named() && row.namespace@ == s.metadata.in_namespace()
            &&& row.kind@ == "benchmarksuite"@
            &&& row.detail@ == s.spec.taxonomy.named() + " tasks="@ + decimal(s.spec.tasks@.len())
        },
        0 <= i < l.runs@.len() ==> {
            let b = l.runs@[i];
            let row = r.benchmark_runs@[i];
            &&& row.name@ == b.metadata.named() && row.namespace@ == b.metadata.in_namespace()
            &&& row.kind@ == "benchmarkrun"@
            &&& b.status is None ==> row.phase@ == "Pending"@ && row.logs_link is None
                && row.metrics_link is None
            &&& b.status matches Some(s) ==> row.phase@ == s.phase.named() && row.logs_link
                == s.logs_link && row.metrics_link == s.metrics_link
            &&& b.spec.output is None ==> row.workspace_path is None
            &&& b.spec.output matches Some(o) ==> row.workspace_path == o.workspace_path
            &&& row.workspace_path matches Some(p) ==> row.detail@ == p@
            &&& row.workspace_path is None ==> row.detail@ == "suite="@ + b.spec.suite_ref.name@
        },
        0 <= i < l.profiles@.len() ==> {
            let p = l.profiles@[i];
            let row = r.runtime_profiles@[i];
            &&& row.name@ == p.metadata.named() && row.namespace@ == p.metadata.in_namespace()
            &&& row.kind@ == "runtimeprofile"@
            &&& row.detail@ == p.spec.runtime.runtime_type.named() + " "@
                + p.spec.runtime.mode.named() + " image="@ + p.spec.image@
        },
        0 <= i < l.templates@.len() ==> {
            let t = l.templates@[i];
            let row = r.templates@[i];
            &&& row.name@ == t.metadata.named() && row.namespace@ == t.metadata.in_namespace()
            &&& row.objective@ == t.spec.objective.metric@ + " / "@ + t.spec.objective.goal.named()
            &&& row.detail@ == "runtime="@ + t.spec.runtime_profile_ref@ + " source="@
                + t.spec.source.git.url@
        },
{
    if 0 <= i < l.suites@.len() {
        assert(is_suite_row(l.suites@[i], r.benchmark_suites@[i]));
    }
    if 0 <= i < l.runs@.len() {
        assert(is_run_row(l.runs@[i], r.benchmark_runs@[i]));
    }
    if 0 <= i < l.profiles@.len() {
        assert(is_profile_row(l.profiles@[i], r.runtime_profiles@[i]));
    }
    if 0 <= i < l.templates@.len() {
        assert(is_template_row(l.templates@[i], r.templates@[i]));
    }
}

/// A report is listed under its campaign and its title, as a draft until its status says otherwise,
/// with as many exclusions as it lists.
pub proof fn a_report_is_listed_as_it_stands(l: Listing, r: ClusterSnapshot, i: int)
    requires
        is_cluster_snapshot(l, r),
        0 <= i < l.reports@.len(),
    ensures
        ({
            let p = l.reports@[i];
            let row = r.reports@[i];
            &&& row.name@ == p.metadata.named() && row.namespace@ == p.metadata.in_namespace()
            &&& row.campaign_ref@ == p.spec.campaign_ref@
            &&& p.spec.title matches Some(t) ==> row.title@ == t@
            &&& p.spec.title is None ==> row.title@.len() == 0
            &&& row.phase@ == (if p.status is Some && p.status->0.phase is Some {
                p.status->0.phase->0@
            } else {
                "Draft"@
            })
            &&& row.excluded_count == p.spec.excluded_experiments@.len()
            &&& row.sections.entries() == p.spec.sections.entries()
            &&& row.seeded_hypotheses@ == p.spec.seeded_hypotheses@
        }),
{
    assert(is_report_row(l.reports@[i], r.reports@[i]));
}

/// A drive is shown in its phase, pending until it has one, with the stage that it is in and how
/// long it stagnates; each condition with its own type, status and reason; and each stage with its
/// templates, in their order.
pub proof fn a_drive_is_shown_as_it_stands(l: Listing, r: ClusterSnapshot, i: int, j: int, k: int)
    requires
        is_cluster_snapshot(l, r),
        0 <= i < l.drives@.len(),
    ensures
        ({
            let d = l.drives@[i];
            let row = r.drives@[i];
            &&& row.name@ == d.metadata.named() && row.namespace@ == d.metadata.in_namespace()
            &&& row.phase@ == (if d.status is Some && d.status->0.phase is Some {
                d.status->0.phase->0.named()
            } else {
                "Pending"@
            })
            &&& d.status is None ==> row.stagnation == 0 && row.stage is None
                && row.conditions@.len() == 0 && row.stages@.len() == 0
            &&& d.status matches Some(s) ==> {
                &&& row.stagnation == s.stagnation_counter
                &&& row.conditions@.len() == s.conditions@.len()
                &&& 0 <= j < s.conditions@.len() ==> {
                    let c = row.conditions@[j];
                    &&& c.ctype@ == s.conditions@[j].condition_type@
                    &&& c.status@ == s.conditions@[j].status.named()
                    &&& s.conditions@[j].reason matches Some(t) ==> c.reason@ == t@
                    &&& s.conditions@[j].reason is None ==> c.reason@.len() == 0
                }
                &&& s.curriculum is None ==> row.stage is None && row.stages@.len() == 0
                &&& s.curriculum matches Some(c) ==> {
                    &&& row.stage == c.current_stage
                    &&& row.stages@.len() == c.stage_history@.len()
                    &&& 0 <= j < c.stage_history@.len() ==> {
                        let h = c.stage_history@[j];
                        let g = row.stages@[j];
                        &&& g.name@ == h.name@
                        &&& g.promoted_at == h.promoted_at
                        &&& g.templates@.len() == h.template_progress@.len()
                        &&& 0 <= k < h.template_progress@.len() ==> {
                            let t = h.template_progress@[k];
                            let u = g.templates@[k];
                            &&& u.template_ref@ == t.template_ref@
                            &&& u.best_objective == t.best_objective
                            &&& u.succeeded == t.succeeded_experiments
                            &&& u.passed == t.passed
                        }
                    }
                }
            }
        }),
{
    let d = l.drives@[i];
    let row = r.drives@[i];
    assert(is_drive_row(d, row));
    if 0 <= j < row.conditions@.len() {
        assert(is_drive_condition(drive_conditions(d)[j], row.conditions@[j]));
    }
    if 0 <= j < row.stages@.len() {
        assert(is_stage(stages_of(d)[j], row.stages@[j]));
        if 0 <= k < row.stages@[j].templates@.len() {
            assert(is_template_progress(
                stages_of(d)[j].template_progress@[k],
                row.stages@[j].templates@[k],
            ));
        }
    }
}

} // verus!

//! Research drill-down: global fleet → campaign → experiment or report. The hierarchy
//! mirrors resource ownership (ResearchDrive → ResearchCampaign → Experiment /
//! ResearchReport); one level is visible at a time and the breadcrumb bar renders the path
//! back.

use vstd::prelude::*;
use crate::calendar::{fmt_ms, ms_text};
use crate::models::{
    ClusterSnapshot, DriveSummary, ReportSummary, ResourceSummary, StageProgressDto,
    TemplateProgressDto,
};
use crate::numeral::{decimal, decimal_of};
use crate::tables::{
    column, date_cell, experiment_cell_list, experiment_column_list, experiment_columns,
    experiment_row, is_row, pinned_column, CellView, DataColumnSpec, DataRow, RowExt, SortDir,
    Table,
};
use crate::text::{cat, same};
use crate::web::labels::{
    are_badges_of, campaign_label, cond_badges, fmt_rfc3339, label_of, minute_of, Badge,
};
use crate::web::lists::{campaign_table, is_campaign_table};

verus! {

broadcast use vstd::seq_lib::group_seq_properties;

/// Research drill-down depth.
#[derive(Debug, Clone, PartialEq)]
pub enum ResearchNav {
    Global,
    Campaign(String),
    Experiment { campaign: String, exp: ResourceSummary },
    Report { campaign: String, report: ReportSummary },
}

// ---------------------------------------------------------------------------
// Breadcrumbs
// ---------------------------------------------------------------------------

/// Where a breadcrumb leads.
#[derive(Debug, Clone, Copy, PartialEq, Eq, Structural)]
pub enum Target {
    Global,
    Campaign,
}

/// One breadcrumb; the current one leads nowhere.
#[derive(Debug, Clone)]
pub struct Crumb {
    pub text: String,
    pub target: Option<Target>,
}

/// The campaign of the level.
pub open spec fn campaign_of(nav: ResearchNav) -> Option<Seq<char>> {
    match nav {
        ResearchNav::Global => None,
        ResearchNav::Campaign(c) => Some(c@),
        ResearchNav::Experiment { campaign, .. } => Some(campaign@),
        ResearchNav::Report { campaign, .. } => Some(campaign@),
    }
}

/// The experiment or report of the level.
pub open spec fn leaf_of(nav: ResearchNav) -> Option<Seq<char>> {
    match nav {
        ResearchNav::Experiment { exp, .. } => Some(exp.name@),
        ResearchNav::Report { report, .. } => Some(report.name@),
        _ => None,
    }
}

/// The path to the level: every ancestor leads back to its depth.
pub open spec fn path_to(nav: ResearchNav) -> Seq<(Seq<char>, Option<Target>)> {
    let root = seq![("research"@, Some(Target::Global))];
    match (campaign_of(nav), leaf_of(nav)) {
        (Some(c), Some(l)) => root.push((c, Some(Target::Campaign))).push((l, None)),
        (Some(c), None) => root.push((c, None)),
        _ => root,
    }
}

/// What the breadcrumbs say, and where they lead.
pub open spec fn crumb_path(crumbs: Seq<Crumb>) -> Seq<(Seq<char>, Option<Target>)> {
    crumbs.map_values(|c: Crumb| (c.text@, c.target))
}

/// The campaign that the level belongs to.
pub fn nav_campaign(nav: &ResearchNav) -> (r: Option<String>)
    ensures
        r.deep_view() == campaign_of(*nav),
{
    match nav {
        ResearchNav::Global => None,
        ResearchNav::Campaign(c) => Some(c.clone()),
        ResearchNav::Experiment { campaign, .. } => Some(campaign.clone()),
        ResearchNav::Report { campaign, .. } => Some(campaign.clone()),
    }
}

/// Breadcrumbs: every ancestor is a button back to that depth.
pub fn crumbs(nav: &ResearchNav) -> (r: Vec<Crumb>)
    ensures
        crumb_path(r@) == path_to(*nav),
{
    let leaf: Option<String> = match nav {
        ResearchNav::Experiment { exp, .. } => Some(exp.name.clone()),
        ResearchNav::Report { report, .. } => Some(report.name.clone()),
        _ => None,
    };
    let mut out: Vec<Crumb> = Vec::new();
    out.push(Crumb { text: "research".to_owned(), target: Some(Target::Global) });
    if let Some(c) = nav_campaign(nav) {
        let target = if leaf.is_some() {
            Some(Target::Campaign)
        } else {
            None
        };
        out.push(Crumb { text: c, target });
    }
    if let Some(l) = leaf {
        out.push(Crumb { text: l, target: None });
    }
    assert(crumb_path(out@) =~= path_to(*nav));
    out
}

/// The level behind the breadcrumb; the root has no campaign to lead to.
pub fn follow(nav: ResearchNav, target: Target) -> (r: ResearchNav)
    ensures
        target == Target::Global ==> r is Global,
        target == Target::Campaign ==> match campaign_of(nav) {
            Some(c) => r matches ResearchNav::Campaign(x) && x@ == c,
            None => r == nav,
        },
{
    match target {
        Target::Global => ResearchNav::Global,
        Target::Campaign => match nav {
            ResearchNav::Global => ResearchNav::Global,
            ResearchNav::Campaign(c) => ResearchNav::Campaign(c),
            ResearchNav::Experiment { campaign, .. } => ResearchNav::Campaign(campaign),
            ResearchNav::Report { campaign, .. } => ResearchNav::Campaign(campaign),
        },
    }
}

/// A breadcrumb leads to a level whose path is the path up to it.
pub proof fn a_crumb_leads_to_its_own_path(nav: ResearchNav, i: int, after: ResearchNav)
    requires
        0 <= i < path_to(nav).len(),
        path_to(nav)[i].1 is Some,
        path_to(nav)[i].1->0 == Target::Global ==> after is Global,
        path_to(nav)[i].1->0 == Target::Campaign ==> (after matches ResearchNav::Campaign(c)
            && Some(c@) == campaign_of(nav)),
    ensures
        path_to(after).len() == i + 1,
        forall|k: int| 0 <= k <= i ==> (#[trigger] path_to(after)[k]).0 == path_to(nav)[k].0,
{
}

// ---------------------------------------------------------------------------
// What belongs to a campaign
// ---------------------------------------------------------------------------

/// The places of the experiments of the campaign.
pub open spec fn members(exps: Seq<ResourceSummary>, campaign: Seq<char>) -> Seq<int>
    decreases exps.len(),
{
    if exps.len() == 0 {
        Seq::empty()
    } else {
        let rest = members(exps.drop_last(), campaign);
        if exps.last().campaign.deep_view() == Some(campaign) {
            rest.push(exps.len() - 1)
        } else {
            rest
        }
    }
}

/// The places of the reports on the campaign.
pub open spec fn reports_on(reports: Seq<ReportSummary>, campaign: Seq<char>) -> Seq<int>
    decreases reports.len(),
{
    if reports.len() == 0 {
        Seq::empty()
    } else {
        let rest = reports_on(reports.drop_last(), campaign);
        if reports.last().campaign_ref@ == campaign {
            rest.push(reports.len() - 1)
        } else {
            rest
        }
    }
}

/// The members of a campaign are the experiments that name it, each once, in order.
pub proof fn members_name_the_campaign(exps: Seq<ResourceSummary>, campaign: Seq<char>)
    ensures
        forall|k: int|
            0 <= k < members(exps, campaign).len() ==> 0 <= #[trigger] members(exps, campaign)[k]
                < exps.len() && exps[members(exps, campaign)[k]].campaign.deep_view() == Some(
                campaign,
            ),
        forall|i: int|
            0 <= i < exps.len() && (#[trigger] exps[i]).campaign.deep_view() == Some(campaign)
                ==> members(exps, campaign).contains(i),
        forall|a: int, b: int|
            0 <= a < b < members(exps, campaign).len() ==> #[trigger] members(exps, campaign)[a]
                < #[trigger] members(exps, campaign)[b],
    decreases exps.len(),
{
    if exps.len() > 0 {
        let t = exps.drop_last();
        members_name_the_campaign(t, campaign);
        let m = members(exps, campaign);
        let rest = members(t, campaign);
        assert forall|i: int|
            0 <= i < exps.len() && (#[trigger] exps[i]).campaign.deep_view() == Some(
                campaign,
            ) implies m.contains(i) by {
            if i < t.len() {
                assert(t[i] == exps[i]);
                let k = rest.index_of(i);
                assert(m[k] == i);
            } else {
                assert(m[m.len() - 1] == i);
            }
        }
    }
}

/// The reports on a campaign are those that refer to it, each once, in order.
pub proof fn reports_refer_to_the_campaign(reports: Seq<ReportSummary>, campaign: Seq<char>)
    ensures
        forall|k: int|
            0 <= k < reports_on(reports, campaign).len() ==> 0 <= #[trigger] reports_on(
                reports,
                campaign,
            )[k] < reports.len() && reports[reports_on(reports, campaign)[k]].campaign_ref@
                == campaign,
        forall|i: int|
            0 <= i < reports.len() && (#[trigger] reports[i]).campaign_ref@ == campaign
                ==> reports_on(reports, campaign).contains(i),
        forall|a: int, b: int|
            0 <= a < b < reports_on(reports, campaign).len() ==> #[trigger] reports_on(
                reports,
                campaign,
            )[a] < #[trigger] reports_on(reports, campaign)[b],
    decreases reports.len(),
{
    if reports.len() > 0 {
        let t = reports.drop_last();
        reports_refer_to_the_campaign(t, campaign);
        let m = reports_on(reports, campaign);
        let rest = reports_on(t, campaign);
        assert forall|i: int|
            0 <= i < reports.len() && (#[trigger] reports[i]).campaign_ref@
                == campaign implies m.contains(i) by {
            if i < t.len() {
                assert(t[i] == reports[i]);
                let k = rest.index_of(i);
                assert(m[k] == i);
            } else {
                assert(m[m.len() - 1] == i);
            }
        }
    }
}

/// Whether the experiment belongs to the campaign.
pub fn belongs(e: &ResourceSummary, campaign: &str) -> (r: bool)
    ensures
        r == (e.campaign.deep_view() == Some(campaign@)),
{
    match &e.campaign {
        Some(c) => same(c.as_str(), campaign),
        None => false,
    }
}

/// The places of the experiments of the campaign.
pub fn members_of(exps: &Vec<ResourceSummary>, campaign: &str) -> (r: Vec<usize>)
    ensures
        r@.map_values(|i: usize| i as int) == members(exps@, campaign@),
{
    let mut out: Vec<usize> = Vec::new();
    let mut i: usize = 0;
    assert(out@.map_values(|i: usize| i as int) =~= members(exps@.take(0), campaign@));
    while i < exps.len()
        invariant
            i <= exps.len(),
            out@.map_values(|i: usize| i as int) == members(exps@.take(i as int), campaign@),
        decreases exps.len() - i,
    {
        assert(exps@.take(i + 1).drop_last() =~= exps@.take(i as int));
        let ghost before = out@.map_values(|i: usize| i as int);
        if belongs(&exps[i], campaign) {
            out.push(i);
            assert(out@.map_values(|i: usize| i as int) =~= before.push(i as int));
        }
        i = i + 1;
    }
    assert(exps@.take(i as int) =~= exps@);
    out
}

/// The places of the reports on the campaign.
pub fn reports_of(reports: &Vec<ReportSummary>, campaign: &str) -> (r: Vec<usize>)
    ensures
        r@.map_values(|i: usize| i as int) == reports_on(reports@, campaign@),
{
    let mut out: Vec<usize> = Vec::new();
    let mut i: usize = 0;
    assert(out@.map_values(|i: usize| i as int) =~= reports_on(reports@.take(0), campaign@));
    while i < reports.len()
        invariant
            i <= reports.len(),
            out@.map_values(|i: usize| i as int) == reports_on(reports@.take(i as int), campaign@),
        decreases reports.len() - i,
    {
        assert(reports@.take(i + 1).drop_last() =~= reports@.take(i as int));
        let ghost before = out@.map_values(|i: usize| i as int);
        if same(reports[i].campaign_ref.as_str(), campaign) {
            out.push(i);
            assert(out@.map_values(|i: usize| i as int) =~= before.push(i as int));
        }
        i = i + 1;
    }
    assert(reports@.take(i as int) =~= reports@);
    out
}

/// The place of the first resource with the name.
pub open spec fn place_of(list: Seq<ResourceSummary>, name: Seq<char>) -> Option<int>
    decreases list.len(),
{
    if list.len() == 0 {
        None
    } else {
        match place_of(list.drop_last(), name) {
            Some(i) => Some(i),
            None => if list.last().name@ == name {
                Some(list.len() - 1)
            } else {
                None
            },
        }
    }
}

proof fn lemma_place_prefix(list: Seq<ResourceSummary>, name: Seq<char>, n: int)
    requires
        0 <= n <= list.len(),
        place_of(list.take(n), name) is Some,
    ensures
        place_of(list, name) == place_of(list.take(n), name),
    decreases list.len(),
{
    if n < list.len() {
        assert(list.drop_last().take(n) =~= list.take(n));
        lemma_place_prefix(list.drop_last(), name, n);
    } else {
        assert(list.take(n) =~= list);
    }
}

/// The place of the first resource with the name.
pub fn find_resource(list: &Vec<ResourceSummary>, name: &str) -> (r: Option<usize>)
    ensures
        match r {
            Some(i) => place_of(list@, name@) == Some(i as int) && i < list.len()
                && list@[i as int].name@ == name@,
            None => place_of(list@, name@) is None,
        },
{
    let mut i: usize = 0;
    while i < list.len()
        invariant
            i <= list.len(),
            place_of(list@.take(i as int), name@) is None,
        decreases list.len() - i,
    {
        assert(list@.take(i + 1).drop_last() =~= list@.take(i as int));
        if same(list[i].name.as_str(), name) {
            proof {
                lemma_place_prefix(list@, name@, i + 1);
            }
            return Some(i);
        }
        i = i + 1;
    }
    assert(list@.take(i as int) =~= list@);
    None
}

// ---------------------------------------------------------------------------
// The fleet
// ---------------------------------------------------------------------------

/// How far one template came.
#[derive(Debug, Clone)]
pub struct TemplateLine {
    pub template: String,
    pub best: String,
    pub succeeded: String,
    pub passed: bool,
}

/// The line says how far the template came.
pub open spec fn is_line_of(t: TemplateProgressDto, l: TemplateLine) -> bool {
    &&& l.template@ == t.template_ref@
    &&& l.best@ == (match t.best_objective {
        Some(b) => b.fixed3@,
        None => "—"@,
    })
    &&& l.succeeded@ == decimal(t.succeeded as nat)
    &&& l.passed == t.passed
}

/// One stage of a curriculum.
#[derive(Debug, Clone)]
pub struct StageCard {
    pub title: String,
    pub lines: Vec<TemplateLine>,
}

/// The card shows the stage: its name, when it was promoted, and its templates in order.
pub open spec fn is_stage_card(s: StageProgressDto, c: StageCard) -> bool {
    &&& c.title@ == (match s.promoted_at {
        Some(at) => s.name@ + " — promoted "@ + minute_of(at@),
        None => s.name@,
    })
    &&& c.lines@.len() == s.templates@.len()
    &&& forall|i: int|
        0 <= i < s.templates@.len() ==> is_line_of(s.templates@[i], #[trigger] c.lines@[i])
}

/// One autonomous loop.
#[derive(Debug, Clone)]
pub struct DriveCard {
    pub name: String,
    pub phase: String,
    pub created: String,
    pub stage: Option<String>,
    pub stagnation: String,
    pub badges: Vec<Badge>,
    pub stages: Vec<StageCard>,
}

/// The card shows the drive.
pub open spec fn is_drive_card(d: DriveSummary, c: DriveCard) -> bool {
    &&& c.name@ == d.name@
    &&& c.phase@ == d.phase@
    &&& c.created@ == " created "@ + ms_text(d.created_at)
    &&& c.stage.deep_view() == (match d.stage {
        Some(s) => Some("stage: "@ + s@),
        None => None,
    })
    &&& c.stagnation@ == " stagnation "@ + decimal(d.stagnation as nat)
    &&& are_badges_of(d.conditions@, c.badges@)
    &&& c.stages@.len() == d.stages@.len()
    &&& forall|i: int|
        0 <= i < d.stages@.len() ==> is_stage_card(d.stages@[i], #[trigger] c.stages@[i])
}

fn stage_card(s: &StageProgressDto) -> (r: StageCard)
    ensures
        is_stage_card(*s, r),
{
    let mut title = s.name.clone();
    if let Some(at) = &s.promoted_at {
        title.append(" — promoted ");
        title.append(fmt_rfc3339(at.as_str()).as_str());
    }
    let mut lines: Vec<TemplateLine> = Vec::new();
    let mut i: usize = 0;
    while i < s.templates.len()
        invariant
            i <= s.templates.len(),
            lines@.len() == i,
            forall|k: int| 0 <= k < i ==> is_line_of(s.templates@[k], #[trigger] lines@[k]),
        decreases s.templates.len() - i,
    {
        let t = &s.templates[i];
        lines.push(
            TemplateLine {
                template: t.template_ref.clone(),
                best: match &t.best_objective {
                    Some(b) => b.fixed3.clone(),
                    None => "—".to_owned(),
                },
                succeeded: decimal_of(t.succeeded as u64),
                passed: t.passed,
            },
        );
        i = i + 1;
    }
    StageCard { title, lines }
}

/// The card of a drive.
pub fn drive_card(d: &DriveSummary) -> (r: DriveCard)
    ensures
        is_drive_card(*d, r),
{
    let mut stages: Vec<StageCard> = Vec::new();
    let mut i: usize = 0;
    while i < d.stages.len()
        invariant
            i <= d.stages.len(),
            stages@.len() == i,
            forall|k: int| 0 <= k < i ==> is_stage_card(d.stages@[k], #[trigger] stages@[k]),
        decreases d.stages.len() - i,
    {
        stages.push(stage_card(&d.stages[i]));
        i = i + 1;
    }
    DriveCard {
        name: d.name.clone(),
        phase: d.phase.clone(),
        created: cat(" created ", fmt_ms(&d.created_at).as_str()),
        stage: match &d.stage {
            Some(s) => Some(cat("stage: ", s.as_str())),
            None => None,
        },
        stagnation: cat(" stagnation ", decimal_of(d.stagnation as u64).as_str()),
        badges: cond_badges(&d.conditions),
        stages,
    }
}

/// The global level: every drive, and every campaign.
#[derive(Debug, Clone)]
pub struct FleetPage {
    pub title: &'static str,
    pub note: &'static str,
    pub drives: Vec<DriveCard>,
    pub campaigns: Table,
}

/// The page shows the fleet.
pub open spec fn is_fleet_page(snap: ClusterSnapshot, p: FleetPage) -> bool {
    &&& p.title@ == "Research"@
    &&& p.note@
        == "The autonomous loops, their curriculum evidence, and every campaign. Click through: campaign › experiment or report."@
    &&& p.drives@.len() == snap.drives@.len()
    &&& forall|i: int|
        0 <= i < snap.drives@.len() ==> is_drive_card(snap.drives@[i], #[trigger] p.drives@[i])
    &&& is_campaign_table(
        snap.campaigns@,
        None,
        "athena.table.research.campaigns"@,
        Some("No campaigns found."),
        p.campaigns,
    )
}

/// The global level of the drill-down.
pub fn fleet_page(snap: &ClusterSnapshot) -> (r: FleetPage)
    ensures
        is_fleet_page(*snap, r),
{
    let mut drives: Vec<DriveCard> = Vec::new();
    let mut i: usize = 0;
    while i < snap.drives.len()
        invariant
            i <= snap.drives.len(),
            drives@.len() == i,
            forall|k: int| 0 <= k < i ==> is_drive_card(snap.drives@[k], #[trigger] drives@[k]),
        decreases snap.drives.len() - i,
    {
        drives.push(drive_card(&snap.drives[i]));
        i = i + 1;
    }
    FleetPage {
        title: "Research",
        note: "The autonomous loops, their curriculum evidence, and every campaign. Click through: campaign › experiment or report.",
        drives,
        campaigns: campaign_table(
            &snap.campaigns,
            &None,
            "athena.table.research.campaigns",
            Some("No campaigns found."),
        ),
    }
}

// ---------------------------------------------------------------------------
// One campaign
// ---------------------------------------------------------------------------

/// The chip of a value that may be missing.
pub open spec fn chip(prefix: Seq<char>, value: Option<String>) -> Seq<Seq<char>> {
    match value {
        Some(v) => seq![prefix + v@],
        None => Seq::empty(),
    }
}

fn add_chip(chips: &mut Vec<String>, prefix: &str, value: &Option<String>)
    ensures
        final(chips).deep_view() == old(chips).deep_view() + chip(prefix@, *value),
{
    let ghost before = chips.deep_view();
    if let Some(v) = value {
        let s = cat(prefix, v.as_str());
        chips.push(s);
        assert(chips.deep_view() =~= before.push(s@));
    }
    assert(chips.deep_view() =~= before + chip(prefix@, *value));
}

/// What a campaign's page says of the campaign.
#[derive(Debug, Clone)]
pub struct CampaignHead {
    pub phase: String,
    pub created: String,
    pub chips: Vec<String>,
    pub detail: String,
    pub badges: Vec<Badge>,
}

/// The head shows the campaign.
pub open spec fn is_campaign_head(c: ResourceSummary, h: CampaignHead) -> bool {
    &&& h.phase@ == c.phase@
    &&& h.created@ == " created "@ + ms_text(c.created_at)
    &&& h.chips.deep_view() == chip("template: "@, c.template) + chip("strategy: "@, c.strategy)
    &&& h.detail@ == " "@ + c.detail@
    &&& are_badges_of(c.conditions@, h.badges@)
}

fn campaign_head(c: &ResourceSummary) -> (r: CampaignHead)
    ensures
        is_campaign_head(*c, r),
{
    let mut chips: Vec<String> = Vec::new();
    add_chip(&mut chips, "template: ", &c.template);
    add_chip(&mut chips, "strategy: ", &c.strategy);
    assert(chips.deep_view() =~= chip("template: "@, c.template) + chip(
        "strategy: "@,
        c.strategy,
    ));
    CampaignHead {
        phase: c.phase.clone(),
        created: cat(" created ", fmt_ms(&c.created_at).as_str()),
        chips,
        detail: cat(" ", c.detail.as_str()),
        badges: cond_badges(&c.conditions),
    }
}

/// The experiments at the places, one row each.
pub open spec fn rows_at(
    exps: Seq<ResourceSummary>,
    places: Seq<int>,
    rows: Seq<DataRow<usize>>,
) -> bool {
    &&& rows.len() == places.len()
    &&& forall|k: int|
        0 <= k < places.len() ==> is_row(
            #[trigger] rows[k],
            exps[places[k]].name@,
            experiment_cell_list(exps[places[k]], places[k] as usize, false),
            false,
        )
}

/// The cells of a report row on a campaign's page.
pub open spec fn member_report_cells(r: ReportSummary, i: usize) -> Seq<CellView<usize>> {
    seq![
        CellView::Custom(i, r.name@, r.name@),
        CellView::Text(r.title@),
        CellView::Styled(r.phase@, "phase"@),
        date_cell(r.created_at),
    ]
}

/// The reports at the places, one row each.
pub open spec fn report_rows_at(
    reports: Seq<ReportSummary>,
    places: Seq<int>,
    rows: Seq<DataRow<usize>>,
) -> bool {
    &&& rows.len() == places.len()
    &&& forall|k: int|
        0 <= k < places.len() ==> is_row(
            #[trigger] rows[k],
            reports[places[k]].name@,
            member_report_cells(reports[places[k]], places[k] as usize),
            false,
        )
}

/// One campaign: its experiments and its reports.
#[derive(Debug, Clone)]
pub struct CampaignPage {
    pub title: String,
    /// The full name.
    pub tooltip: String,
    pub head: Option<CampaignHead>,
    pub experiments: Table,
    /// Missing where there is no report.
    pub reports: Option<Table>,
}

/// The page shows the campaign, its experiments and its reports.
pub open spec fn is_campaign_page(
    snap: ClusterSnapshot,
    campaign: Seq<char>,
    p: CampaignPage,
) -> bool {
    &&& p.tooltip@ == campaign
    &&& match place_of(snap.campaigns@, campaign) {
        Some(i) => {
            &&& p.title@ == label_of(snap.campaigns@[i])
            &&& p.head matches Some(h) && is_campaign_head(snap.campaigns@[i], h)
        },
        None => p.title@ == campaign && p.head is None,
    }
    &&& p.experiments.is_set_up(
        experiment_column_list(false),
        Some(("created", SortDir::Desc)),
        Some("athena.table.research.experiments"@),
        Some("No experiments in this campaign."),
        Some("filter experiments…"),
    )
    &&& rows_at(snap.experiments@, members(snap.experiments@, campaign), p.experiments.rows@)
    &&& p.reports is None <==> reports_on(snap.reports@, campaign).len() == 0
    &&& p.reports matches Some(t) ==> {
        &&& t.is_set_up(
            seq![
                pinned_column("name", "Report"),
                column("title", "Title"),
                column("phase", "Phase"),
                column("created", "Created"),
            ],
            Some(("created", SortDir::Desc)),
            None,
            None,
            None,
        )
        &&& report_rows_at(snap.reports@, reports_on(snap.reports@, campaign), t.rows@)
    }
}

fn member_rows(exps: &Vec<ResourceSummary>, campaign: &str) -> (r: Vec<DataRow<usize>>)
    ensures
        rows_at(exps@, members(exps@, campaign@), r@),
{
    let places = members_of(exps, campaign);
    let ghost m = members(exps@, campaign@);
    proof {
        members_name_the_campaign(exps@, campaign@);
    }
    let mut rows: Vec<DataRow<usize>> = Vec::new();
    let mut k: usize = 0;
    while k < places.len()
        invariant
            k <= places.len(),
            m == places@.map_values(|i: usize| i as int),
            forall|j: int| 0 <= j < m.len() ==> 0 <= #[trigger] m[j] < exps.len(),
            rows_at(exps@, m.take(k as int), rows@),
        decreases places.len() - k,
    {
        assert(m[k as int] == places@[k as int] as int);
        let e = &exps[places[k]];
        rows.push(experiment_row(e, places[k], false));
        assert(m.take(k + 1)[k as int] == m[k as int]);
        assert(forall|j: int| 0 <= j < k ==> m.take(k + 1)[j] == m.take(k as int)[j]);
        k = k + 1;
    }
    assert(m.take(k as int) =~= m);
    rows
}

fn member_report_rows(reports: &Vec<ReportSummary>, campaign: &str) -> (r: Vec<DataRow<usize>>)
    ensures
        report_rows_at(reports@, reports_on(reports@, campaign@), r@),
{
    let places = reports_of(reports, campaign);
    let ghost m = reports_on(reports@, campaign@);
    proof {
        reports_refer_to_the_campaign(reports@, campaign@);
    }
    let mut rows: Vec<DataRow<usize>> = Vec::new();
    let mut k: usize = 0;
    while k < places.len()
        invariant
            k <= places.len(),
            m == places@.map_values(|i: usize| i as int),
            forall|j: int| 0 <= j < m.len() ==> 0 <= #[trigger] m[j] < reports.len(),
            report_rows_at(reports@, m.take(k as int), rows@),
        decreases places.len() - k,
    {
        assert(m[k as int] == places@[k as int] as int);
        let r = &reports[places[k]];
        let row = DataRow::new(r.name.as_str()).cell(
            places[k],
            r.name.as_str(),
            r.name.as_str(),
        ).text(r.title.as_str()).text_class(r.phase.as_str(), "phase").date(&r.created_at);
        assert(row.drawn() =~= member_report_cells(*r, places@[k as int]));
        rows.push(row);
        assert(m.take(k + 1)[k as int] == m[k as int]);
        assert(forall|j: int| 0 <= j < k ==> m.take(k + 1)[j] == m.take(k as int)[j]);
        k = k + 1;
    }
    assert(m.take(k as int) =~= m);
    rows
}

/// One campaign of the drill-down.
pub fn campaign_page(snap: &ClusterSnapshot, campaign: &str) -> (r: CampaignPage)
    ensures
        is_campaign_page(*snap, campaign@, r),
{
    let (title, head) = match find_resource(&snap.campaigns, campaign) {
        Some(i) => (campaign_label(&snap.campaigns[i]), Some(campaign_head(&snap.campaigns[i]))),
        None => (campaign.to_owned(), None),
    };
    let rows = member_report_rows(&snap.reports, campaign);
    let reports = if rows.len() == 0 {
        None
    } else {
        let mut columns: Vec<DataColumnSpec> = Vec::new();
        columns.push(DataColumnSpec::new("name", "Report").pinned());
        columns.push(DataColumnSpec::new("title", "Title"));
        columns.push(DataColumnSpec::new("phase", "Phase"));
        columns.push(DataColumnSpec::new("created", "Created"));
        assert(columns@ =~= seq![
            pinned_column("name", "Report"),
            column("title", "Title"),
            column("phase", "Phase"),
            column("created", "Created"),
        ]);
        Some(
            Table {
                columns,
                rows,
                order: Some(("created", SortDir::Desc)),
                storage_key: None,
                empty: None,
                placeholder: None,
            },
        )
    };
    CampaignPage {
        title,
        tooltip: campaign.to_owned(),
        head,
        experiments: Table {
            columns: experiment_columns(false),
            rows: member_rows(&snap.experiments, campaign),
            order: Some(("created", SortDir::Desc)),
            storage_key: Some("athena.table.research.experiments".to_owned()),
            empty: Some("No experiments in this campaign."),
            placeholder: Some("filter experiments…"),
        },
        reports,
    }
}

// ---------------------------------------------------------------------------
// One experiment, one report
// ---------------------------------------------------------------------------

/// One experiment.
#[derive(Debug, Clone)]
pub struct ExperimentPage {
    pub title: String,
    pub phase: String,
    pub chips: Vec<String>,
    pub times: String,
    pub hypothesis: Option<String>,
    /// Where the filmstrip of its evaluation is, if it has one.
    pub filmstrip: String,
}

/// The page shows the experiment.
pub open spec fn is_experiment_page(e: ResourceSummary, p: ExperimentPage) -> bool {
    &&& p.title@ == e.name@
    &&& p.phase@ == e.phase@
    &&& p.chips.deep_view() == chip(Seq::empty(), e.decision) + chip("template: "@, e.template)
        + chip("parent: "@, e.parent)
    &&& p.times@ == " created "@ + ms_text(e.created_at) + " · started "@ + ms_text(e.started_at)
        + " · ended "@ + ms_text(e.ended_at)
    &&& p.hypothesis == e.hypothesis
    &&& p.filmstrip@ == "https://spot.casazza.io/api/v1/experiments/"@ + e.name@
        + "/figures/eval_filmstrip.png"@
}

/// One experiment of the drill-down.
pub fn experiment_page(e: &ResourceSummary) -> (r: ExperimentPage)
    ensures
        is_experiment_page(*e, r),
{
    let mut chips: Vec<String> = Vec::new();
    if let Some(d) = &e.decision {
        chips.push(d.clone());
    }
    assert(chips.deep_view() =~= chip(Seq::empty(), e.decision)) by {
        if let Some(d) = e.decision {
            assert(Seq::<char>::empty() + d@ =~= d@);
        }
    }
    add_chip(&mut chips, "template: ", &e.template);
    add_chip(&mut chips, "parent: ", &e.parent);
    let mut times = cat(" created ", fmt_ms(&e.created_at).as_str());
    times.append(" · started ");
    times.append(fmt_ms(&e.started_at).as_str());
    times.append(" · ended ");
    times.append(fmt_ms(&e.ended_at).as_str());
    let mut filmstrip = cat("https://spot.casazza.io/api/v1/experiments/", e.name.as_str());
    filmstrip.append("/figures/eval_filmstrip.png");
    ExperimentPage {
        title: e.name.clone(),
        phase: e.phase.clone(),
        chips,
        times,
        hypothesis: match &e.hypothesis {
            Some(h) => Some(h.clone()),
            None => None,
        },
        filmstrip,
    }
}

/// One report: the report IS the research record, so it is rendered whole.
#[derive(Debug, Clone)]
pub struct ReportPage {
    pub title: String,
    pub phase: String,
    pub name: String,
    pub sections: Vec<(String, String)>,
    pub seeded: Vec<String>,
}

/// The title of a report, or its name where it has none.
pub open spec fn title_of(r: ReportSummary) -> Seq<char> {
    if r.title@.len() == 0 {
        r.name@
    } else {
        r.title@
    }
}

/// The page shows the report: its sections in order, and its hypotheses.
pub open spec fn is_report_page(r: ReportSummary, p: ReportPage) -> bool {
    &&& p.title@ == title_of(r)
    &&& p.phase@ == r.phase@
    &&& p.name@ == " "@ + r.name@
    &&& p.sections@.map_values(|e: (String, String)| (e.0@, e.1)) == r.sections.entries()
    &&& p.seeded@ == r.seeded_hypotheses@
}

/// The title of a report, or its name where it has none.
pub fn report_title(r: &ReportSummary) -> (t: String)
    ensures
        t@ == title_of(*r),
{
    if r.title.as_str().is_empty() {
        r.name.clone()
    } else {
        r.title.clone()
    }
}

/// One report of the drill-down.
pub fn report_page(r: &ReportSummary) -> (p: ReportPage)
    ensures
        is_report_page(*r, p),
{
    let m = &r.sections;
    let ghost all = m.entries();
    let n: usize = m.len();
    let mut sections: Vec<(String, String)> = Vec::new();
    let mut i: usize = 0;
    while i < n
        invariant
            i <= n,
            all == m.entries(),
            n == all.len(),
            sections@.map_values(|e: (String, String)| (e.0@, e.1)) == all.take(i as int),
        decreases n - i,
    {
        let ghost before = sections@.map_values(|e: (String, String)| (e.0@, e.1));
        let k = m.key_at(i).clone();
        let v = m.value_at(i).clone();
        sections.push((k, v));
        assert(sections@.map_values(|e: (String, String)| (e.0@, e.1)) =~= before.push((k@, v)));
        assert(before.push((k@, v)) =~= all.take(i + 1));
        i = i + 1;
    }
    assert(all.take(i as int) =~= all);
    let mut seeded: Vec<String> = Vec::new();
    let mut j: usize = 0;
    while j < r.seeded_hypotheses.len()
        invariant
            j <= r.seeded_hypotheses.len(),
            seeded@ == r.seeded_hypotheses@.take(j as int),
        decreases r.seeded_hypotheses.len() - j,
    {
        seeded.push(r.seeded_hypotheses[j].clone());
        assert(seeded@ =~= r.seeded_hypotheses@.take(j + 1));
        j = j + 1;
    }
    assert(r.seeded_hypotheses@.take(j as int) =~= r.seeded_hypotheses@);
    ReportPage {
        title: report_title(r),
        phase: r.phase.clone(),
        name: cat(" ", r.name.as_str()),
        sections,
        seeded,
    }
}

// ---------------------------------------------------------------------------
// The page
// ---------------------------------------------------------------------------

/// What stands below the breadcrumbs.
#[derive(Debug, Clone)]
pub enum Level {
    Fleet(FleetPage),
    Campaign(CampaignPage),
    Experiment(ExperimentPage),
    Report(ReportPage),
}

/// The research surface.
#[derive(Debug, Clone)]
pub struct ResearchPage {
    pub crumbs: Vec<Crumb>,
    pub level: Level,
}

/// The page shows the level that the navigation is at, and the path to it.
pub open spec fn is_research_page(snap: ClusterSnapshot, nav: ResearchNav, p: ResearchPage) -> bool {
    &&& crumb_path(p.crumbs@) == path_to(nav)
    &&& match nav {
        ResearchNav::Global => p.level matches Level::Fleet(f) && is_fleet_page(snap, f),
        ResearchNav::Campaign(c) => p.level matches Level::Campaign(g) && is_campaign_page(
            snap,
            c@,
            g,
        ),
        ResearchNav::Experiment { campaign: _, exp } => p.level matches Level::Experiment(e)
            && is_experiment_page(exp, e),
        ResearchNav::Report { campaign: _, report } => p.level matches Level::Report(r)
            && is_report_page(report, r),
    }
}

/// The drill-down research surface.
pub fn research_view(snap: &ClusterSnapshot, nav: &ResearchNav) -> (r: ResearchPage)
    ensures
        is_research_page(*snap, *nav, r),
{
    let level = match nav {
        ResearchNav::Global => Level::Fleet(fleet_page(snap)),
        ResearchNav::Campaign(c) => Level::Campaign(campaign_page(snap, c.as_str())),
        ResearchNav::Experiment { campaign: _, exp } => Level::Experiment(experiment_page(exp)),
        ResearchNav::Report { campaign: _, report } => Level::Report(report_page(report)),
    };
    ResearchPage { crumbs: crumbs(nav), level }
}

// ---------------------------------------------------------------------------
// What the levels say
// ---------------------------------------------------------------------------

/// The path to a level goes through the fleet and the campaign, each but the last leading back.
pub proof fn a_path_goes_through_its_campaign(nav: ResearchNav)
    ensures
        path_to(nav)[0] == ("research"@, Some(Target::Global)),
        nav is Global ==> path_to(nav).len() == 1,
        nav matches ResearchNav::Campaign(c) ==> path_to(nav).len() == 2 && path_to(nav)[1] == (
            c@,
            None::<Target>,
        ),
        nav matches ResearchNav::Experiment { campaign, exp } ==> path_to(nav).len() == 3
            && path_to(nav)[1] == (campaign@, Some(Target::Campaign)) && path_to(nav)[2] == (
            exp.name@,
            None::<Target>,
        ),
        nav matches ResearchNav::Report { campaign, report } ==> path_to(nav).len() == 3
            && path_to(nav)[1] == (campaign@, Some(Target::Campaign)) && path_to(nav)[2] == (
            report.name@,
            None::<Target>,
        ),
{
}

/// A place is the first of its name, and a name that is nowhere has none.
pub proof fn a_place_is_the_first_of_its_name(list: Seq<ResourceSummary>, name: Seq<char>)
    ensures
        place_of(list, name) matches Some(i) ==> 0 <= i < list.len() && list[i].name@ == name,
        place_of(list, name) matches Some(i) ==> forall|k: int|
            0 <= k < i ==> (#[trigger] list[k]).name@ != name,
        place_of(list, name) is None ==> forall|k: int|
            0 <= k < list.len() ==> (#[trigger] list[k]).name@ != name,
    decreases list.len(),
{
    if list.len() > 0 {
        let t = list.drop_last();
        a_place_is_the_first_of_its_name(t, name);
        assert forall|k: int| 0 <= k < t.len() implies t[k] == list[k] by {}
        match place_of(t, name) {
            Some(i) => {
                assert(t[i] == list[i]);
                assert forall|k: int| 0 <= k < i implies (#[trigger] list[k]).name@ != name by {
                    assert(t[k].name@ != name);
                }
            },
            None => {
                assert forall|k: int| 0 <= k < t.len() implies (#[trigger] list[k]).name@
                    != name by {
                    assert(t[k].name@ != name);
                }
            },
        }
    }
}

/// A drive's card says of the drive what it is: name, phase, stage, how long it stagnates; of each
/// stage when it was promoted, and of each template its best value, its successes and whether it
/// passed.
pub proof fn a_drive_card_says_what_the_drive_is(
    snap: ClusterSnapshot,
    p: FleetPage,
    i: int,
    j: int,
    k: int,
)
    requires
        is_fleet_page(snap, p),
        0 <= i < snap.drives@.len(),
    ensures
        p.drives@.len() == snap.drives@.len(),
        ({
            let d = snap.drives@[i];
            let c = p.drives@[i];
            &&& c.name@ == d.name@ && c.phase@ == d.phase@
            &&& c.created@ == " created "@ + ms_text(d.created_at)
            &&& c.stage is Some <==> d.stage is Some
            &&& d.stage matches Some(s) ==> c.stage->0@ == "stage: "@ + s@
            &&& c.stagnation@ == " stagnation "@ + decimal(d.stagnation as nat)
            &&& c.badges@.len() == d.conditions@.len()
            &&& c.stages@.len() == d.stages@.len()
            &&& 0 <= j < d.stages@.len() ==> {
                let s = d.stages@[j];
                let g = c.stages@[j];
                &&& s.promoted_at is None ==> g.title@ == s.name@
                &&& s.promoted_at matches Some(at) ==> g.title@ == s.name@ + " — promoted "@
                    + minute_of(at@)
                &&& g.lines@.len() == s.templates@.len()
                &&& 0 <= k < s.templates@.len() ==> {
                    let t = s.templates@[k];
                    let l = g.lines@[k];
                    &&& l.template@ == t.template_ref@
                    &&& l.passed == t.passed
                    &&& l.succeeded@ == decimal(t.succeeded as nat)
                    &&& t.best_objective matches Some(b) ==> l.best@ == b.fixed3@
                    &&& t.best_objective is None ==> l.best@ == "—"@
                }
            }
        }),
{
    let d = snap.drives@[i];
    let c = p.drives@[i];
    assert(is_drive_card(d, c));
    if 0 <= j < d.stages@.len() {
        assert(is_stage_card(d.stages@[j], c.stages@[j]));
        if 0 <= k < d.stages@[j].templates@.len() {
            assert(is_line_of(d.stages@[j].templates@[k], c.stages@[j].lines@[k]));
        }
    }
}

/// The page of a campaign heads with the campaign of that name, lists just its experiments and just
/// its reports, in their order, and leaves the reports out where there are none.
pub proof fn a_campaign_page_lists_its_own(
    snap: ClusterSnapshot,
    campaign: Seq<char>,
    p: CampaignPage,
    k: int,
)
    requires
        is_campaign_page(snap, campaign, p),
    ensures
        p.tooltip@ == campaign,
        p.head is Some <==> exists|i: int|
            0 <= i < snap.campaigns@.len() && (#[trigger] snap.campaigns@[i]).name@ == campaign,
        p.head is None ==> p.title@ == campaign,
        p.experiments.rows@.len() == members(snap.experiments@, campaign).len(),
        0 <= k < p.experiments.rows@.len() ==> exists|i: int|
            0 <= i < snap.experiments@.len() && (#[trigger] snap.experiments@[i]).campaign is Some
                && snap.experiments@[i].campaign->0@ == campaign && p.experiments.rows@[k].key@
                == snap.experiments@[i].name@,
        p.reports is Some <==> exists|i: int|
            0 <= i < snap.reports@.len() && (#[trigger] snap.reports@[i]).campaign_ref@ == campaign,
        p.reports matches Some(t) ==> (0 <= k < t.rows@.len() ==> exists|i: int|
            0 <= i < snap.reports@.len() && (#[trigger] snap.reports@[i]).campaign_ref@ == campaign
                && t.rows@[k].key@ == snap.reports@[i].name@),
{
    a_place_is_the_first_of_its_name(snap.campaigns@, campaign);
    members_name_the_campaign(snap.experiments@, campaign);
    reports_refer_to_the_campaign(snap.reports@, campaign);
    if let Some(i) = place_of(snap.campaigns@, campaign) {
        assert(snap.campaigns@[i].name@ == campaign);
    }
    let ms = members(snap.experiments@, campaign);
    if 0 <= k < ms.len() {
        let i = ms[k];
        assert(is_row(
            p.experiments.rows@[k],
            snap.experiments@[i].name@,
            experiment_cell_list(snap.experiments@[i], i as usize, false),
            false,
        ));
        assert(snap.experiments@[i].campaign.deep_view() == Some(campaign));
    }
    let rs = reports_on(snap.reports@, campaign);
    if rs.len() > 0 {
        let i = rs[0];
        assert(snap.reports@[i].campaign_ref@ == campaign);
    }
    if exists|i: int|
        0 <= i < snap.reports@.len() && (#[trigger] snap.reports@[i]).campaign_ref@ == campaign {
        let i = choose|i: int|
            0 <= i < snap.reports@.len() && (#[trigger] snap.reports@[i]).campaign_ref@ == campaign;
        assert(rs.contains(i));
    }
    if let Some(t) = p.reports {
        if 0 <= k < t.rows@.len() {
            let i = rs[k];
            assert(is_row(
                t.rows@[k],
                snap.reports@[i].name@,
                member_report_cells(snap.reports@[i], i as usize),
                false,
            ));
            assert(snap.reports@[i].campaign_ref@ == campaign);
        }
    }
}

/// A campaign's head gives its phase, its template and its strategy behind their labels.
pub proof fn a_campaign_head_goes_by_its_labels(c: ResourceSummary, h: CampaignHead)
    requires
        is_campaign_head(c, h),
    ensures
        h.phase@ == c.phase@,
        h.detail@ == " "@ + c.detail@,
        h.created@ == " created "@ + ms_text(c.created_at),
        c.template is Some && c.strategy is Some ==> h.chips.deep_view() == seq![
            "template: "@ + c.template->0@,
            "strategy: "@ + c.strategy->0@,
        ],
        c.template is Some && c.strategy is None ==> h.chips.deep_view() == seq![
            "template: "@ + c.template->0@,
        ],
        c.template is None && c.strategy is Some ==> h.chips.deep_view() == seq![
            "strategy: "@ + c.strategy->0@,
        ],
        c.template is None && c.strategy is None ==> h.chips.deep_view().len() == 0,
{
    let chips = chip("template: "@, c.template) + chip("strategy: "@, c.strategy);
    if c.template is Some && c.strategy is Some {
        assert(chips =~= seq!["template: "@ + c.template->0@, "strategy: "@ + c.strategy->0@]);
    } else if c.template is Some {
        assert(chips =~= seq!["template: "@ + c.template->0@]);
    } else if c.strategy is Some {
        assert(chips =~= seq!["strategy: "@ + c.strategy->0@]);
    }
}

/// The page of an experiment gives its decision, its template and its parent as far as it has them,
/// and its times in their order.
pub proof fn an_experiment_page_says_what_it_is(e: ResourceSummary, p: ExperimentPage)
    requires
        is_experiment_page(e, p),
    ensures
        p.title@ == e.name@ && p.phase@ == e.phase@ && p.hypothesis == e.hypothesis,
        e.decision matches Some(d) ==> p.chips.deep_view().len() > 0 && p.chips.deep_view()[0]
            == d@,
        e.template matches Some(t) ==> p.chips.deep_view().contains("template: "@ + t@),
        e.parent matches Some(t) ==> p.chips.deep_view().contains("parent: "@ + t@),
        p.chips.deep_view().len() == (if e.decision is Some {
            1int
        } else {
            0
        }) + (if e.template is Some {
            1int
        } else {
            0
        }) + (if e.parent is Some {
            1int
        } else {
            0
        }),
        p.times@ == " created "@ + ms_text(e.created_at) + " · started "@ + ms_text(e.started_at)
            + " · ended "@ + ms_text(e.ended_at),
{
    let a = chip(Seq::empty(), e.decision);
    let b = chip("template: "@, e.template);
    let c = chip("parent: "@, e.parent);
    let all = a + b + c;
    assert(p.chips.deep_view() == all);
    if let Some(d) = e.decision {
        assert(all[0] == a[0]);
        assert(Seq::<char>::empty() + d@ =~= d@);
    }
    if let Some(t) = e.template {
        assert(all[a.len() as int] == b[0]);
    }
    if let Some(t) = e.parent {
        assert(all[(a.len() + b.len()) as int] == c[0]);
    }
}

/// A report is headed by its title, or by its name where it has none, and shows every section and
/// every hypothesis.
pub proof fn a_report_page_says_what_it_is(r: ReportSummary, p: ReportPage, i: int)
    requires
        is_report_page(r, p),
    ensures
        r.title@.len() > 0 ==> p.title@ == r.title@,
        r.title@.len() == 0 ==> p.title@ == r.name@,
        p.phase@ == r.phase@,
        p.seeded@ == r.seeded_hypotheses@,
        p.sections@.len() == r.sections.entries().len(),
        0 <= i < p.sections@.len() ==> p.sections@[i].0@ == r.sections.entries()[i].0
            && p.sections@[i].1 == r.sections.entries()[i].1,
{
    let all = p.sections@.map_values(|e: (String, String)| (e.0@, e.1));
    assert(all.len() == p.sections@.len());
    if 0 <= i < p.sections@.len() {
        assert(all[i] == (p.sections@[i].0@, p.sections@[i].1));
    }
}

} // verus!

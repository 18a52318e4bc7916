//! What the curator shows.

use vstd::prelude::*;
use crate::calendar::{fmt_ms, ms_text};
use crate::curator::{
    effective_campaign, filled_lines, is_payload, nonblank_lines, problem_of, saved_sections,
    texts, working_campaign, CuratorState, Draft, SaveState, Tab,
};
use crate::dossier::parts::{or_text, text_or};
use crate::json::{member_of, text_of, Json};
use crate::lowercase::{lowered, to_lower};
use crate::models::{
    ClusterSnapshot, ConditionMessageDto, ReportDetailDto, ReportSpecDto, ReportSummary,
    ResourceSummary,
};
use crate::numeral::{decimal, decimal_of};
use crate::reports::{is_creation, is_new, is_replacement, is_update, Refusal};
use crate::research_report::{Reference, ReportSubject, ResearchReport, ResearchReportSpec};
use crate::snapshot::copy_text;
use crate::tables::{
    experiment_cell_list, experiment_cells, experiment_column_list, experiment_columns,
    fixed_column, is_row, CellView, DataColumnSpec, DataRow, SortDir, Table,
};
use crate::text::{lines_of, same, trim, trimmed};
use crate::textmap::map_of;
use crate::textset::TextSet;
use crate::web::labels::{campaign_label, cond_class, label_of};
use crate::web::lists::{campaign_table, is_campaign_table};
use crate::web::research::{
    find_resource, members, members_name_the_campaign, members_of, place_of, report_title,
    reports_of, reports_on, reports_refer_to_the_campaign, title_of,
};

verus! {

broadcast use vstd::seq_lib::group_seq_properties;

// ---------------------------------------------------------------------------
// The subject bar
// ---------------------------------------------------------------------------

/// The campaign that the curator works on, and how to change it.
#[derive(Debug)]
pub struct SubjectBar {
    /// The campaign's label and full name, and when it was created.
    pub campaign: Option<(String, String, String)>,
    /// The curator follows the global selection.
    pub following: bool,
    pub change_disabled: bool,
    pub change_tip: &'static str,
    pub change_text: &'static str,
    /// The curator can go back to the global selection.
    pub can_follow: bool,
}

/// The curator follows the global selection: nothing is loaded and nothing is pinned.
pub open spec fn follows(st: CuratorState) -> bool {
    st.loaded is None && st.pinned_campaign is None
}

/// The bar shows the campaign at the place, if there is one.
pub open spec fn is_subject_bar(
    snap: ClusterSnapshot,
    st: CuratorState,
    place: Option<int>,
    b: SubjectBar,
) -> bool {
    &&& match place {
        Some(i) => {
            let c = snap.campaigns@[i];
            b.campaign matches Some((label, name, created)) && label@ == label_of(c) && name@
                == c.name@ && created@ == " "@ + ms_text(c.created_at)
        },
        None => b.campaign is None,
    }
    &&& b.following == follows(st)
    &&& b.change_disabled == st.is_dirty()
    &&& b.change_tip@ == (if st.is_dirty() {
        "save or revert first"@
    } else {
        "pick a campaign"@
    })
    &&& b.change_text@ == (if st.picking {
        "close"@
    } else {
        "change"@
    })
    &&& b.can_follow == (!follows(st) && !st.is_dirty())
}

fn subject_bar(snap: &ClusterSnapshot, st: &CuratorState, place: Option<usize>, dirty: bool) -> (r:
    SubjectBar)
    requires
        place matches Some(i) ==> i < snap.campaigns@.len(),
        dirty == st.is_dirty(),
    ensures
        is_subject_bar(
            *snap,
            *st,
            match place {
                Some(i) => Some(i as int),
                None => None,
            },
            r,
        ),
{
    let following = st.loaded.is_none() && st.pinned_campaign.is_none();
    let campaign = match place {
        Some(i) => {
            let c = &snap.campaigns[i];
            let mut created = " ".to_owned();
            created.append(fmt_ms(&c.created_at).as_str());
            Some((campaign_label(c), c.name.clone(), created))
        },
        None => None,
    };
    SubjectBar {
        campaign,
        following,
        change_disabled: dirty,
        change_tip: if dirty {
            "save or revert first"
        } else {
            "pick a campaign"
        },
        change_text: if st.picking {
            "close"
        } else {
            "change"
        },
        can_follow: !following && !dirty,
    }
}

// ---------------------------------------------------------------------------
// The report chooser
// ---------------------------------------------------------------------------

/// One report of the campaign.
#[derive(Debug)]
pub struct ReportButton {
    pub namespace: String,
    pub name: String,
    pub label: String,
    pub tip: String,
    pub active: bool,
    pub disabled: bool,
}

/// The report is the one that is loaded.
pub open spec fn is_loaded(st: CuratorState, name: Seq<char>) -> bool {
    st.loaded matches Some(r) && r.spec.name@ == name
}

/// The button opens the report; unsaved edits keep the others closed.
pub open spec fn is_report_button(st: CuratorState, r: ReportSummary, b: ReportButton) -> bool {
    &&& b.namespace@ == r.namespace@
    &&& b.name@ == r.name@
    &&& b.label@ == title_of(r)
    &&& b.tip@ == r.name@ + " · "@ + r.phase@
    &&& b.active == is_loaded(st, r.name@)
    &&& b.disabled == (st.is_dirty() && !is_loaded(st, r.name@))
}

/// The buttons of the reports on the campaign, in order.
pub open spec fn are_report_buttons(
    reports: Seq<ReportSummary>,
    campaign: Seq<char>,
    st: CuratorState,
    buttons: Seq<ReportButton>,
) -> bool {
    let places = reports_on(reports, campaign);
    &&& buttons.len() == places.len()
    &&& forall|k: int|
        0 <= k < buttons.len() ==> is_report_button(
            st,
            reports[places[k]],
            #[trigger] buttons[k],
        )
}

fn report_buttons(
    reports: &Vec<ReportSummary>,
    campaign: &str,
    st: &CuratorState,
    dirty: bool,
) -> (r: Vec<ReportButton>)
    requires
        dirty == st.is_dirty(),
    ensures
        are_report_buttons(reports@, campaign@, *st, r@),
{
    let places = reports_of(reports, campaign);
    let ghost m = reports_on(reports@, campaign@);
    proof {
        reports_refer_to_the_campaign(reports@, campaign@);
    }
    let mut out: Vec<ReportButton> = Vec::new();
    let mut k: usize = 0;
    while k < places.len()
        invariant
            k <= places.len(),
            dirty == st.is_dirty(),
            m == places@.map_values(|i: usize| i as int),
            forall|j: int| 0 <= j < m.len() ==> 0 <= #[trigger] m[j] < reports.len(),
            out@.len() == k,
            forall|j: int|
                0 <= j < k ==> is_report_button(*st, reports@[m[j]], #[trigger] out@[j]),
        decreases places.len() - k,
    {
        assert(m[k as int] == places@[k as int] as int);
        let r = &reports[places[k]];
        let active = match &st.loaded {
            Some(l) => same(l.spec.name.as_str(), r.name.as_str()),
            None => false,
        };
        let mut tip = r.name.clone();
        tip.append(" · ");
        tip.append(r.phase.as_str());
        out.push(
            ReportButton {
                namespace: r.namespace.clone(),
                name: r.name.clone(),
                label: report_title(r),
                tip,
                active,
                disabled: dirty && !active,
            },
        );
        k = k + 1;
    }
    out
}

// ---------------------------------------------------------------------------
// Tabs
// ---------------------------------------------------------------------------

/// What the badge of the tab counts.
pub open spec fn badge_count(t: Tab, d: Draft) -> nat {
    match t {
        Tab::Narrative => d.sections@.len(),
        Tab::Hypotheses => filled_lines(lines_of(d.seeded@)).len(),
        Tab::References => match d.references {
            Json::Array(v) => v@.len(),
            _ => 0,
        },
        Tab::Dataset => d.excluded.elements().len(),
        _ => 0,
    }
}

/// The badge of the tab: what it counts, where there is any; a minus sign in front of what is
/// excluded.
pub open spec fn badge_of(t: Tab, d: Draft) -> Option<Seq<char>> {
    let n = badge_count(t, d);
    if n == 0 {
        None
    } else if t == Tab::Dataset {
        Some("−"@ + decimal(n))
    } else {
        Some(decimal(n))
    }
}

/// The badge of the tab.
pub fn tab_badge(t: Tab, st: &CuratorState) -> (r: Option<String>)
    ensures
        r.deep_view() == badge_of(t, st.draft),
{
    let d = &st.draft;
    let n: usize = match t {
        Tab::Narrative => d.sections.len(),
        Tab::Hypotheses => {
            let lines = nonblank_lines(d.seeded.as_str());
            assert(lines@.len() == lines.deep_view().len());
            lines.len()
        },
        Tab::References => match &d.references {
            Json::Array(v) => v.len(),
            _ => 0,
        },
        Tab::Dataset => d.excluded.len(),
        _ => 0,
    };
    if n == 0 {
        None
    } else if t == Tab::Dataset {
        let mut s = "−".to_owned();
        s.append(decimal_of(n as u64).as_str());
        Some(s)
    } else {
        Some(decimal_of(n as u64))
    }
}

/// One tab of the curator.
#[derive(Debug)]
pub struct TabButton {
    pub tab: Tab,
    pub label: &'static str,
    pub badge: Option<String>,
    pub active: bool,
}

/// The button of the tab.
pub open spec fn is_tab_button(st: CuratorState, t: Tab, b: TabButton) -> bool {
    &&& b.tab == t
    &&& b.label@ == t.named()
    &&& b.badge.deep_view() == badge_of(t, st.draft)
    &&& b.active == (st.tab == t)
}

/// One button for each tab, in order.
pub open spec fn are_tab_buttons(st: CuratorState, buttons: Seq<TabButton>) -> bool {
    let tabs = seq![
        Tab::Dataset,
        Tab::Narrative,
        Tab::Hypotheses,
        Tab::References,
        Tab::Preview,
        Tab::Status,
    ];
    &&& buttons.len() == tabs.len()
    &&& forall|i: int|
        0 <= i < tabs.len() ==> is_tab_button(st, tabs[i], #[trigger] buttons[i])
}

fn tab_buttons(st: &CuratorState) -> (r: Vec<TabButton>)
    ensures
        are_tab_buttons(*st, r@),
{
    let tabs = Tab::all();
    let mut out: Vec<TabButton> = Vec::new();
    let mut i: usize = 0;
    while i < tabs.len()
        invariant
            i <= tabs.len(),
            out@.len() == i,
            forall|k: int| 0 <= k < i ==> is_tab_button(*st, tabs@[k], #[trigger] out@[k]),
        decreases tabs.len() - i,
    {
        let t = tabs[i];
        out.push(
            TabButton {
                tab: t,
                label: t.label(),
                badge: tab_badge(t, st),
                active: st.tab == t,
            },
        );
        i = i + 1;
    }
    out
}

// ---------------------------------------------------------------------------
// The dataset
// ---------------------------------------------------------------------------

/// The names of the experiments at the places that `pick` picks, in order.
pub open spec fn names_at(
    exps: Seq<ResourceSummary>,
    places: Seq<int>,
    pick: spec_fn(ResourceSummary) -> bool,
) -> Seq<Seq<char>>
    decreases places.len(),
{
    if places.len() == 0 {
        Seq::empty()
    } else {
        let rest = names_at(exps, places.drop_last(), pick);
        if pick(exps[places.last()]) {
            rest.push(exps[places.last()].name@)
        } else {
            rest
        }
    }
}

/// The experiment failed.
pub open spec fn has_failed(e: ResourceSummary) -> bool {
    e.phase@ == "Failed"@
}

/// The experiment has no Keep decision.
pub open spec fn is_not_kept(e: ResourceSummary) -> bool {
    e.decision.deep_view() != Some("Keep"@)
}

/// The campaign's experiments, which of them are included, and the bulk actions.
#[derive(Debug)]
pub struct DatasetPage {
    pub count: String,
    /// What `exclude failed` excludes; without any the button is disabled.
    pub failed: Vec<String>,
    /// What `only Keep` excludes.
    pub not_kept: Vec<String>,
    pub table: Table,
}

/// The columns of the dataset table.
pub open spec fn dataset_columns() -> Seq<DataColumnSpec> {
    seq![fixed_column("include", "In")] + experiment_column_list(false)
}

/// The cells of a dataset row.
pub open spec fn dataset_cells(
    e: ResourceSummary,
    i: usize,
    excluded: Set<Seq<char>>,
) -> Seq<CellView<usize>> {
    seq![CellView::Toggle(i, !excluded.contains(e.name@))] + experiment_cell_list(e, i, false)
}

/// The experiments at the places, one row each.
pub open spec fn dataset_rows(
    exps: Seq<ResourceSummary>,
    places: Seq<int>,
    excluded: Set<Seq<char>>,
    rows: Seq<DataRow<usize>>,
) -> bool {
    &&& rows.len() == places.len()
    &&& forall|k: int|
        0 <= k < places.len() ==> is_row(
            #[trigger] rows[k],
            exps[places[k]].name@,
            dataset_cells(exps[places[k]], places[k] as usize, excluded),
            false,
        )
}

/// The page shows the campaign's experiments.
pub open spec fn is_dataset_page(
    exps: Seq<ResourceSummary>,
    campaign: Seq<char>,
    excluded: Set<Seq<char>>,
    p: DatasetPage,
) -> bool {
    let places = members(exps, campaign);
    &&& p.count@ == decimal(
        names_at(exps, places, |e: ResourceSummary| !excluded.contains(e.name@)).len(),
    ) + " / "@ + decimal(places.len()) + " included"@
    &&& p.failed.deep_view() == names_at(exps, places, |e: ResourceSummary| has_failed(e))
    &&& p.not_kept.deep_view() == names_at(exps, places, |e: ResourceSummary| is_not_kept(e))
    &&& p.table.is_set_up(
        dataset_columns(),
        Some(("created", SortDir::Desc)),
        Some("athena.table.curator.dataset"@),
        Some("No experiments in this campaign."),
        Some("filter experiments…"),
    )
    &&& dataset_rows(exps, places, excluded, p.table.rows@)
}

/// The campaign's experiments with the universal columns and an include toggle, and what
/// the bulk actions exclude.
pub fn dataset_tab(exps: &Vec<ResourceSummary>, campaign: &str, excluded: &TextSet) -> (r:
    DatasetPage)
    ensures
        is_dataset_page(exps@, campaign@, excluded@, r),
{
    let places = members_of(exps, campaign);
    let ghost m = members(exps@, campaign@);
    let ghost kept = |e: ResourceSummary| !excluded@.contains(e.name@);
    let ghost fail = |e: ResourceSummary| has_failed(e);
    let ghost weak = |e: ResourceSummary| is_not_kept(e);
    proof {
        members_name_the_campaign(exps@, campaign@);
    }
    let mut included: usize = 0;
    let mut failed: Vec<String> = Vec::new();
    let mut not_kept: Vec<String> = Vec::new();
    let mut rows: Vec<DataRow<usize>> = Vec::new();
    let mut k: usize = 0;
    assert(failed.deep_view() =~= names_at(exps@, m.take(0), fail));
    assert(not_kept.deep_view() =~= names_at(exps@, m.take(0), weak));
    while k < places.len()
        invariant
            k <= places.len(),
            m == places@.map_values(|i: usize| i as int),
            kept == (|e: ResourceSummary| !excluded@.contains(e.name@)),
            fail == (|e: ResourceSummary| has_failed(e)),
            weak == (|e: ResourceSummary| is_not_kept(e)),
            forall|j: int| 0 <= j < m.len() ==> 0 <= #[trigger] m[j] < exps.len(),
            included <= k,
            included == names_at(exps@, m.take(k as int), kept).len(),
            failed.deep_view() == names_at(exps@, m.take(k as int), fail),
            not_kept.deep_view() == names_at(exps@, m.take(k as int), weak),
            dataset_rows(exps@, m.take(k as int), excluded@, rows@),
        decreases places.len() - k,
    {
        assert(m[k as int] == places@[k as int] as int);
        assert(m.take(k + 1).drop_last() =~= m.take(k as int));
        assert(m.take(k + 1).last() == m[k as int]);
        let e = &exps[places[k]];
        let on = !excluded.contains(e.name.as_str());
        if on {
            included = included + 1;
        }
        if same(e.phase.as_str(), "Failed") {
            let ghost before = failed.deep_view();
            failed.push(e.name.clone());
            assert(failed.deep_view() =~= before.push(e.name@));
        }
        let keep = match &e.decision {
            Some(d) => same(d.as_str(), "Keep"),
            None => false,
        };
        if !keep {
            let ghost before = not_kept.deep_view();
            not_kept.push(e.name.clone());
            assert(not_kept.deep_view() =~= before.push(e.name@));
        }
        let lead = DataRow::new(e.name.as_str()).toggle(places[k], on);
        let row = experiment_cells(lead, e, places[k], false);
        assert(row.drawn() =~= dataset_cells(*e, places@[k as int], excluded@));
        rows.push(row);
        assert(forall|j: int| 0 <= j < k ==> m.take(k + 1)[j] == m.take(k as int)[j]);
        k = k + 1;
    }
    assert(m.take(k as int) =~= m);
    let mut count = decimal_of(included as u64);
    count.append(" / ");
    count.append(decimal_of(places.len() as u64).as_str());
    count.append(" included");
    let mut columns: Vec<DataColumnSpec> = Vec::new();
    columns.push(DataColumnSpec::new("include", "In").pinned().unsorted());
    let mut rest = experiment_columns(false);
    columns.append(&mut rest);
    assert(columns@ =~= dataset_columns());
    DatasetPage {
        count,
        failed,
        not_kept,
        table: Table {
            columns,
            rows,
            order: Some(("created", SortDir::Desc)),
            storage_key: Some("athena.table.curator.dataset".to_owned()),
            empty: Some("No experiments in this campaign."),
            placeholder: Some("filter experiments…"),
        },
    }
}

// ---------------------------------------------------------------------------
// The narrative
// ---------------------------------------------------------------------------

/// Section names offered as one-click additions (the drive's write-up uses
/// the first four; the rest are common paper sections).
pub open spec fn suggested() -> Seq<&'static str> {
    seq!["Findings", "Method", "Footguns", "Limitations", "Discussion", "Related Work"]
}

/// The headings that the draft has, whatever their case.
pub open spec fn headings(sections: Seq<(String, String)>) -> Set<Seq<char>> {
    sections.map_values(|e: (String, String)| lowered(trimmed(e.0@))).to_set()
}

/// The names that are not among the headings, in order.
pub open spec fn missing_from(names: Seq<&'static str>, present: Set<Seq<char>>) -> Seq<
    &'static str,
>
    decreases names.len(),
{
    if names.len() == 0 {
        Seq::empty()
    } else {
        let rest = missing_from(names.drop_last(), present);
        if present.contains(lowered(names.last()@)) {
            rest
        } else {
            rest.push(names.last())
        }
    }
}

/// The suggested sections that the draft does not have.
pub fn narrative_tab(st: &CuratorState) -> (r: Vec<&'static str>)
    ensures
        r@ == missing_from(suggested(), headings(st.draft.sections@)),
{
    let sections = &st.draft.sections;
    let ghost low = sections@.map_values(|e: (String, String)| lowered(trimmed(e.0@)));
    let mut names: Vec<String> = Vec::new();
    let mut i: usize = 0;
    while i < sections.len()
        invariant
            i <= sections.len(),
            low == sections@.map_values(|e: (String, String)| lowered(trimmed(e.0@))),
            names.deep_view() == low.take(i as int),
        decreases sections.len() - i,
    {
        let ghost before = names.deep_view();
        let s = to_lower(trim(sections[i].0.as_str()).as_str());
        names.push(s);
        assert(names.deep_view() =~= before.push(s@));
        assert(before.push(s@) =~= low.take(i + 1));
        i = i + 1;
    }
    assert(low.take(i as int) =~= low);
    let present = TextSet::of(&names);
    let mut all: Vec<&'static str> = Vec::new();
    all.push("Findings");
    all.push("Method");
    all.push("Footguns");
    all.push("Limitations");
    all.push("Discussion");
    all.push("Related Work");
    assert(all@ =~= suggested());
    let mut out: Vec<&'static str> = Vec::new();
    let mut k: usize = 0;
    assert(out@ =~= missing_from(all@.take(0), present@));
    while k < all.len()
        invariant
            k <= all.len(),
            out@ == missing_from(all@.take(k as int), present@),
        decreases all.len() - k,
    {
        assert(all@.take(k + 1).drop_last() =~= all@.take(k as int));
        if !present.contains(to_lower(all[k]).as_str()) {
            out.push(all[k]);
        }
        k = k + 1;
    }
    assert(all@.take(k as int) =~= all@);
    out
}

// ---------------------------------------------------------------------------
// References
// ---------------------------------------------------------------------------

/// The text of the member, or nothing.
pub open spec fn field_text(r: Json, key: Seq<char>) -> Seq<char> {
    match member_of(r, key) {
        Some(v) => match text_of(v) {
            Some(s) => s,
            None => Seq::empty(),
        },
        None => Seq::empty(),
    }
}

fn field(r: &Json, key: &str) -> (t: String)
    ensures
        t@ == field_text(*r, key@),
{
    match r.get(key) {
        Some(v) => match v.as_str() {
            Some(s) => s.clone(),
            None => String::new(),
        },
        None => String::new(),
    }
}

/// One reference of the draft.
#[derive(Debug)]
pub struct ReferenceLine {
    pub key: String,
    pub title: String,
    pub link: String,
    pub supports: String,
}

/// The line shows the reference; its link is its URL, or its DOI where it has none.
pub open spec fn is_reference_line(r: Json, l: ReferenceLine) -> bool {
    &&& l.key@ == "[@"@ + field_text(r, "key"@) + "]"@
    &&& l.title@ == field_text(r, "title"@)
    &&& l.link@ == (if field_text(r, "url"@).len() == 0 {
        field_text(r, "doi"@)
    } else {
        field_text(r, "url"@)
    })
    &&& l.supports@ == field_text(r, "supports"@)
}

/// The references of the draft.
pub open spec fn reference_list(references: Json) -> Seq<Json> {
    match references {
        Json::Array(v) => v@,
        _ => Seq::empty(),
    }
}

/// The references of the draft, one line each; read-only, and kept unchanged on save.
pub fn references_tab(st: &CuratorState) -> (r: Vec<ReferenceLine>)
    ensures
        r@.len() == reference_list(st.draft.references).len(),
        forall|i: int|
            0 <= i < r@.len() ==> is_reference_line(
                reference_list(st.draft.references)[i],
                #[trigger] r@[i],
            ),
{
    let mut out: Vec<ReferenceLine> = Vec::new();
    if let Json::Array(v) = &st.draft.references {
        let mut i: usize = 0;
        while i < v.len()
            invariant
                i <= v.len(),
                v@ == reference_list(st.draft.references),
                out@.len() == i,
                forall|k: int| 0 <= k < i ==> is_reference_line(v@[k], #[trigger] out@[k]),
            decreases v.len() - i,
        {
            let r = &v[i];
            let mut key = "[@".to_owned();
            key.append(field(r, "key").as_str());
            key.append("]");
            let url = field(r, "url");
            out.push(
                ReferenceLine {
                    key,
                    title: field(r, "title"),
                    link: if url.as_str().is_empty() {
                        field(r, "doi")
                    } else {
                        url
                    },
                    supports: field(r, "supports"),
                },
            );
            i = i + 1;
        }
    }
    out
}

// ---------------------------------------------------------------------------
// Status
// ---------------------------------------------------------------------------

/// One condition of the report.
#[derive(Debug)]
pub struct ConditionLine {
    pub condition: String,
    pub status: String,
    pub class: &'static str,
    pub reason: String,
    pub message: String,
}

/// The line shows the condition.
pub open spec fn is_condition_line(c: ConditionMessageDto, l: ConditionLine) -> bool {
    &&& l.condition@ == c.ctype@
    &&& l.status@ == c.status@
    &&& l.class@ == (if c.status@ == "True"@ {
        "cond ok"@
    } else {
        "cond bad"@
    })
    &&& l.reason@ == c.reason@
    &&& l.message@ == c.message@
}

/// What the controller observed of the loaded report.
#[derive(Debug)]
pub struct StatusPage {
    pub name: String,
    pub phase: String,
    pub included: String,
    pub dataset: String,
    pub assembled: String,
    pub created: String,
    pub conditions: Vec<ConditionLine>,
}

/// The page shows the status; a dash stands for what is missing.
pub open spec fn is_status_page(d: ReportDetailDto, p: StatusPage) -> bool {
    &&& p.name@ == d.spec.namespace@ + "/"@ + d.spec.name@
    &&& p.phase@ == text_or(d.phase, "—"@)
    &&& p.included@ == (match d.included_count {
        Some(n) => decimal(n as nat),
        None => "—"@,
    })
    &&& p.dataset@ == text_or(d.dataset_uri, "—"@)
    &&& p.assembled@ == text_or(d.last_assembled_time, "—"@)
    &&& p.created@ == ms_text(d.created_at)
    &&& p.conditions@.len() == d.conditions@.len()
    &&& forall|i: int|
        0 <= i < d.conditions@.len() ==> is_condition_line(
            d.conditions@[i],
            #[trigger] p.conditions@[i],
        )
}

/// The status of the loaded report; a new report has none before it is saved.
pub fn status_tab(st: &CuratorState) -> (r: Option<StatusPage>)
    ensures
        r is Some <==> st.loaded is Some,
        r matches Some(p) ==> is_status_page(st.loaded->0, p),
{
    let d = match &st.loaded {
        None => {
            return None;
        },
        Some(d) => d,
    };
    let mut conditions: Vec<ConditionLine> = Vec::new();
    let mut i: usize = 0;
    while i < d.conditions.len()
        invariant
            i <= d.conditions.len(),
            conditions@.len() == i,
            forall|k: int|
                0 <= k < i ==> is_condition_line(d.conditions@[k], #[trigger] conditions@[k]),
        decreases d.conditions.len() - i,
    {
        let c = &d.conditions[i];
        conditions.push(
            ConditionLine {
                condition: c.ctype.clone(),
                status: c.status.clone(),
                class: cond_class(c.status.as_str()),
                reason: c.reason.clone(),
                message: c.message.clone(),
            },
        );
        i = i + 1;
    }
    let mut name = d.spec.namespace.clone();
    name.append("/");
    name.append(d.spec.name.as_str());
    Some(
        StatusPage {
            name,
            phase: or_text(&d.phase, "—").to_owned(),
            included: match d.included_count {
                Some(n) => decimal_of(n as u64),
                None => "—".to_owned(),
            },
            dataset: or_text(&d.dataset_uri, "—").to_owned(),
            assembled: or_text(&d.last_assembled_time, "—").to_owned(),
            created: fmt_ms(&d.created_at),
            conditions,
        },
    )
}

// ---------------------------------------------------------------------------
// Preview
// ---------------------------------------------------------------------------

/// What the preview tab shows: its style class, and its text.
pub open spec fn preview_text(preview: Option<Result<String, String>>) -> (Seq<char>, Seq<char>) {
    match preview {
        None => ("muted"@, "Not composed yet."@),
        Some(Ok(md)) => ("preview"@, md@),
        Some(Err(e)) => ("err"@, "Preview failed: "@ + e@),
    }
}

/// The composed dossier, or why there is none.
pub fn preview_tab(st: &CuratorState) -> (r: (&'static str, String))
    ensures
        (r.0@, r.1@) == preview_text(st.preview),
{
    match &st.preview {
        None => ("muted", "Not composed yet.".to_owned()),
        Some(Ok(md)) => ("preview", md.clone()),
        Some(Err(e)) => {
            let mut s = "Preview failed: ".to_owned();
            s.append(e.as_str());
            ("err", s)
        },
    }
}

/// What a preview is composed from: the unsaved draft, at no version.
pub fn preview_request(st: &CuratorState, campaign: &ResourceSummary) -> (r: ReportSpecDto)
    ensures
        is_payload(st.draft, campaign.namespace@, campaign.name@, None, r),
{
    st.draft.to_dto(campaign.namespace.as_str(), campaign.name.as_str(), None)
}

// ---------------------------------------------------------------------------
// The footer
// ---------------------------------------------------------------------------

/// Name, title, and what can be done with the draft.
#[derive(Debug)]
pub struct Footer {
    pub is_new: bool,
    pub name: String,
    pub title: String,
    pub dirty: bool,
    pub revert_disabled: bool,
    pub save_disabled: bool,
    pub save_tip: String,
    pub save_text: &'static str,
    /// The style class and the text of the message, where there is one.
    pub note: Option<(&'static str, String)>,
}

/// The draft can be saved: it was changed, nothing is wrong with it, and nothing is under way.
pub open spec fn can_save(st: CuratorState) -> bool {
    &&& st.is_dirty()
    &&& problem_of(st.draft, st.loaded is None) is None
    &&& !(st.save is Busy)
}

/// The message of the footer: what is wrong with a changed draft, else what became of the
/// last save.
pub open spec fn note_of(st: CuratorState) -> Option<(Seq<char>, Seq<char>)> {
    let problem = problem_of(st.draft, st.loaded is None);
    if problem is Some && st.is_dirty() {
        Some(("err"@, problem->0))
    } else {
        match st.save {
            SaveState::Busy(m) => Some(("muted"@, m@)),
            SaveState::Done(m) => if st.is_dirty() {
                None
            } else {
                Some(("ok"@, m@))
            },
            SaveState::Failed(m) => Some(("err"@, m@)),
            SaveState::Idle => None,
        }
    }
}

/// The footer of the state.
pub open spec fn is_footer(st: CuratorState, f: Footer) -> bool {
    let problem = problem_of(st.draft, st.loaded is None);
    &&& f.is_new == (st.loaded is None)
    &&& f.name@ == st.draft.name@
    &&& f.title@ == st.draft.title@
    &&& f.dirty == st.is_dirty()
    &&& f.revert_disabled == (!st.is_dirty() || st.save is Busy)
    &&& f.save_disabled == !can_save(st)
    &&& f.save_tip@ == (match problem {
        Some(p) => p,
        None => Seq::empty(),
    })
    &&& f.save_text@ == (if st.loaded is None {
        "create"@
    } else {
        "save"@
    })
    &&& match note_of(st) {
        Some((class, text)) => f.note matches Some((c, t)) && c@ == class && t@ == text,
        None => f.note is None,
    }
}

/// Name, title, and the buttons that revert and save.
pub fn footer(st: &CuratorState) -> (r: Footer)
    ensures
        is_footer(*st, r),
{
    let is_new = st.loaded.is_none();
    let problem = st.draft.problem(is_new);
    let dirty = st.dirty();
    let busy = matches!(st.save, SaveState::Busy(_));
    let save_tip = match &problem {
        Some(p) => p.clone(),
        None => String::new(),
    };
    let save_disabled = !(dirty && problem.is_none() && !busy);
    let note: Option<(&'static str, String)> = if dirty && problem.is_some() {
        Some(("err", save_tip.clone()))
    } else {
        match &st.save {
            SaveState::Busy(m) => Some(("muted", (*m).to_owned())),
            SaveState::Done(m) => if dirty {
                None
            } else {
                Some(("ok", m.clone()))
            },
            SaveState::Failed(m) => Some(("err", m.clone())),
            SaveState::Idle => None,
        }
    };
    Footer {
        is_new,
        name: st.draft.name.clone(),
        title: st.draft.title.clone(),
        dirty,
        revert_disabled: !dirty || busy,
        save_disabled,
        save_tip,
        save_text: if is_new {
            "create"
        } else {
            "save"
        },
        note,
    }
}

/// How a draft is saved.
#[derive(Debug, Clone, Copy, PartialEq, Eq, Structural)]
pub enum SaveKind {
    /// A new report.
    Create,
    /// In place of the version that was loaded.
    Update,
}

/// The version that was loaded.
pub open spec fn loaded_version(st: CuratorState) -> Option<String> {
    match st.loaded {
        Some(r) => r.spec.resource_version,
        None => None,
    }
}

/// What a save sends: the draft against the loaded version, so that a concurrent change is a
/// conflict, never a silent overwrite.
pub fn save_request(st: &CuratorState, campaign: &ResourceSummary) -> (r: (SaveKind, ReportSpecDto))
    ensures
        is_payload(st.draft, campaign.namespace@, campaign.name@, loaded_version(*st), r.1),
        r.0 == (if loaded_version(*st) is Some {
            SaveKind::Update
        } else {
            SaveKind::Create
        }),
{
    let rv = match &st.loaded {
        Some(r) => copy_text(&r.spec.resource_version),
        None => None,
    };
    let kind = if rv.is_some() {
        SaveKind::Update
    } else {
        SaveKind::Create
    };
    (kind, st.draft.to_dto(campaign.namespace.as_str(), campaign.name.as_str(), rv))
}

// ---------------------------------------------------------------------------
// The page
// ---------------------------------------------------------------------------

/// What stands on the open tab.
#[derive(Debug)]
pub enum TabBody {
    Dataset(DatasetPage),
    /// The sections that can be added; the draft's own are edited in place.
    Narrative(Vec<&'static str>),
    Hypotheses(String),
    References(Vec<ReferenceLine>),
    Preview(&'static str, String),
    Status(Option<StatusPage>),
}

/// The open tab shows what it is for.
pub open spec fn is_tab_body(
    snap: ClusterSnapshot,
    st: CuratorState,
    campaign: Seq<char>,
    b: TabBody,
) -> bool {
    match st.tab {
        Tab::Dataset => b matches TabBody::Dataset(p) && is_dataset_page(
            snap.experiments@,
            campaign,
            st.draft.excluded@,
            p,
        ),
        Tab::Narrative => b matches TabBody::Narrative(v) && v@ == missing_from(
            suggested(),
            headings(st.draft.sections@),
        ),
        Tab::Hypotheses => b matches TabBody::Hypotheses(s) && s@ == st.draft.seeded@,
        Tab::References => {
            &&& b matches TabBody::References(v)
            &&& v@.len() == reference_list(st.draft.references).len()
            &&& forall|i: int|
                0 <= i < v@.len() ==> is_reference_line(
                    reference_list(st.draft.references)[i],
                    #[trigger] v@[i],
                )
        },
        Tab::Preview => b matches TabBody::Preview(class, text) && (class@, text@) == preview_text(
            st.preview,
        ),
        Tab::Status => b matches TabBody::Status(p) && match st.loaded {
            Some(d) => p matches Some(s) && is_status_page(d, s),
            None => p is None,
        },
    }
}

/// The editor of a campaign's reports.
#[derive(Debug)]
pub struct Editor {
    pub reports: Vec<ReportButton>,
    /// A new report is being composed.
    pub new_active: bool,
    pub new_disabled: bool,
    pub tabs: Vec<TabButton>,
    pub body: TabBody,
    pub footer: Footer,
}

/// The editor works on the campaign.
pub open spec fn is_editor(
    snap: ClusterSnapshot,
    st: CuratorState,
    campaign: Seq<char>,
    e: Editor,
) -> bool {
    &&& are_report_buttons(snap.reports@, campaign, st, e.reports@)
    &&& e.new_active == (st.loaded is None)
    &&& e.new_disabled == (st.is_dirty() && st.loaded is Some)
    &&& are_tab_buttons(st, e.tabs@)
    &&& is_tab_body(snap, st, campaign, e.body)
    &&& is_footer(st, e.footer)
}

/// What stands below the subject bar.
#[derive(Debug)]
pub enum Content {
    /// The campaign table.
    Picking(Table),
    /// There is no campaign to work on.
    NoCampaign(&'static str),
    Editing(Editor),
}

/// The curator.
#[derive(Debug)]
pub struct CuratorPage {
    pub subject: SubjectBar,
    pub content: Content,
}

/// The place of the campaign that the curator works on, where the snapshot has it.
pub open spec fn subject_place(
    snap: ClusterSnapshot,
    st: CuratorState,
    selected: Option<ResourceSummary>,
    nav_campaign: Option<Seq<char>>,
) -> Option<int> {
    match working_campaign(st, selected, nav_campaign) {
        Some(name) => place_of(snap.campaigns@, name),
        None => None,
    }
}

/// The page shows the campaign table while one is picked, else the editor of the campaign.
pub open spec fn is_curator_page(
    snap: ClusterSnapshot,
    st: CuratorState,
    selected: Option<ResourceSummary>,
    nav_campaign: Option<Seq<char>>,
    p: CuratorPage,
) -> bool {
    let place = subject_place(snap, st, selected, nav_campaign);
    &&& is_subject_bar(snap, st, place, p.subject)
    &&& if st.picking {
        p.content matches Content::Picking(t) && is_campaign_table(
            snap.campaigns@,
            None,
            "athena.table.curator.campaigns"@,
            None,
            t,
        )
    } else {
        match place {
            Some(i) => p.content matches Content::Editing(e) && is_editor(
                snap,
                st,
                snap.campaigns@[i].name@,
                e,
            ),
            None => p.content matches Content::NoCampaign(m) && m@
                == "Select a campaign in Research or Campaigns, or use change."@,
        }
    }
}

/// The curator.
pub fn curator_view(
    snap: &ClusterSnapshot,
    st: &CuratorState,
    selected: &Option<ResourceSummary>,
    nav_campaign: &Option<String>,
) -> (r: CuratorPage)
    ensures
        is_curator_page(*snap, *st, *selected, nav_campaign.deep_view(), r),
{
    let place = match effective_campaign(st, selected, nav_campaign) {
        Some(name) => find_resource(&snap.campaigns, name.as_str()),
        None => None,
    };
    let dirty = st.dirty();
    let subject = subject_bar(snap, st, place, dirty);
    if st.picking {
        let table = campaign_table(
            &snap.campaigns,
            &None,
            "athena.table.curator.campaigns",
            None,
        );
        return CuratorPage { subject, content: Content::Picking(table) };
    }
    let content = match place {
        None => Content::NoCampaign("Select a campaign in Research or Campaigns, or use change."),
        Some(i) => {
            let campaign = snap.campaigns[i].name.as_str();
            let body = match st.tab {
                Tab::Dataset => TabBody::Dataset(
                    dataset_tab(&snap.experiments, campaign, &st.draft.excluded),
                ),
                Tab::Narrative => TabBody::Narrative(narrative_tab(st)),
                Tab::Hypotheses => TabBody::Hypotheses(st.draft.seeded.clone()),
                Tab::References => TabBody::References(references_tab(st)),
                Tab::Preview => {
                    let (class, text) = preview_tab(st);
                    TabBody::Preview(class, text)
                },
                Tab::Status => TabBody::Status(status_tab(st)),
            };
            Content::Editing(
                Editor {
                    reports: report_buttons(&snap.reports, campaign, st, dirty),
                    new_active: st.loaded.is_none(),
                    new_disabled: dirty && st.loaded.is_some(),
                    tabs: tab_buttons(st),
                    body,
                    footer: footer(st),
                },
            )
        },
    };
    CuratorPage { subject, content }
}

// ---------------------------------------------------------------------------
// What the curator promises
// ---------------------------------------------------------------------------

/// Saving is offered only for a draft that was changed and that nothing is wrong with.
pub proof fn only_a_valid_changed_draft_is_saved(st: CuratorState, f: Footer)
    requires
        is_footer(st, f),
        !f.save_disabled,
    ensures
        st.is_dirty(),
        problem_of(st.draft, st.loaded is None) is None,
{
}

/// A new draft that the curator lets through is one that the backend takes: its name is a
/// label, and what is not edited reads as it did.
pub proof fn what_can_be_saved_can_be_created(
    st: CuratorState,
    campaign: ResourceSummary,
    f: Footer,
    dto: ReportSpecDto,
    references: Result<Vec<Reference>, String>,
    about: Result<Option<ReportSubject>, String>,
    r: Result<ResearchReport, Refusal>,
)
    requires
        st.loaded is None,
        trimmed(campaign.name@).len() > 0,
        is_footer(st, f),
        !f.save_disabled,
        is_payload(st.draft, campaign.namespace@, campaign.name@, loaded_version(st), dto),
        references is Ok,
        about is Ok,
        is_creation(dto, references, about, r),
    ensures
        r matches Ok(p) && is_new(trimmed(st.draft.name@), p) && p.spec.campaign_ref@
            == campaign.name@,
{
}

/// Saves go against the version that the report was loaded at, whatever version it has by then:
/// a concurrent change is a conflict, never a silent overwrite.
pub proof fn saves_go_against_the_loaded_version(
    st: CuratorState,
    campaign: ResourceSummary,
    dto: ReportSpecDto,
    references: Result<Vec<Reference>, String>,
    about: Result<Option<ReportSubject>, String>,
    plan: (ResearchReportSpec, String),
    current: ResearchReport,
    next: ResearchReport,
)
    requires
        loaded_version(st) is Some,
        is_payload(st.draft, campaign.namespace@, campaign.name@, loaded_version(st), dto),
        is_update(dto, references, about, Ok(plan)),
        is_replacement(current, plan.0, plan.1, next),
    ensures
        next.metadata.resource_version == loaded_version(st),
        texts(next.spec.sections@) == map_of(saved_sections(st.draft.sections@)),
        next.status == current.status,
{
}

// ---------------------------------------------------------------------------
// What the curator shows
// ---------------------------------------------------------------------------

/// The subject can be changed, and the selection followed, only while nothing is unsaved.
pub proof fn the_subject_stays_while_unsaved(
    snap: ClusterSnapshot,
    st: CuratorState,
    place: Option<int>,
    b: SubjectBar,
)
    requires
        is_subject_bar(snap, st, place, b),
    ensures
        b.change_disabled <==> st.is_dirty(),
        b.following <==> st.loaded is None && st.pinned_campaign is None,
        b.can_follow <==> !b.following && !st.is_dirty(),
        b.change_text@ == "close"@ <==> st.picking,
        b.change_text@ == "change"@ <==> !st.picking,
        b.change_tip@ == "save or revert first"@ <==> st.is_dirty(),
        b.campaign is Some <==> place is Some,
        place matches Some(i) ==> (b.campaign matches Some((label, name, created)) && name@
            == snap.campaigns@[i].name@),
{
    reveal_strlit("close");
    reveal_strlit("change");
    reveal_strlit("save or revert first");
    reveal_strlit("pick a campaign");
    assert("close"@.len() != "change"@.len());
    assert("save or revert first"@.len() != "pick a campaign"@.len());
}

/// Every report on the campaign has a button under its own name; the loaded one is active, and the
/// others wait while something is unsaved.
pub proof fn a_report_button_is_of_its_report(
    reports: Seq<ReportSummary>,
    campaign: Seq<char>,
    st: CuratorState,
    buttons: Seq<ReportButton>,
    k: int,
)
    requires
        are_report_buttons(reports, campaign, st, buttons),
        0 <= k < buttons.len(),
    ensures
        ({
            let r = reports[reports_on(reports, campaign)[k]];
            let b = buttons[k];
            let loaded = st.loaded is Some && st.loaded->0.spec.name@ == r.name@;
            &&& b.name@ == r.name@ && b.namespace@ == r.namespace@
            &&& r.campaign_ref@ == campaign
            &&& b.active <==> loaded
            &&& b.disabled <==> st.is_dirty() && !loaded
            &&& r.title@.len() > 0 ==> b.label@ == r.title@
            &&& r.title@.len() == 0 ==> b.label@ == r.name@
        }),
{
    crate::web::research::reports_refer_to_the_campaign(reports, campaign);
    assert(is_report_button(st, reports[reports_on(reports, campaign)[k]], buttons[k]));
}

/// A tab shows its own page, and its button is active; a badge counts what the tab holds, and an
/// empty tab has none.
pub proof fn a_tab_counts_what_it_holds(st: CuratorState, buttons: Seq<TabButton>, i: int)
    requires
        are_tab_buttons(st, buttons),
        0 <= i < buttons.len(),
    ensures
        buttons.len() == 6,
        buttons[i].active <==> st.tab == buttons[i].tab,
        buttons[i].label@ == buttons[i].tab.named(),
        buttons[i].tab is Narrative ==> (buttons[i].badge is Some <==> st.draft.sections@.len() > 0),
        buttons[i].tab is Narrative && buttons[i].badge is Some ==> buttons[i].badge->0@ == decimal(
            st.draft.sections@.len(),
        ),
        buttons[i].tab is Hypotheses && buttons[i].badge is Some ==> buttons[i].badge->0@
            == decimal(filled_lines(lines_of(st.draft.seeded@)).len()),
        buttons[i].tab is Hypotheses ==> (buttons[i].badge is Some <==> filled_lines(
            lines_of(st.draft.seeded@),
        ).len() > 0),
        buttons[i].tab is Dataset ==> (buttons[i].badge is Some
            <==> st.draft.excluded.elements().len() > 0),
        buttons[i].tab is Dataset && buttons[i].badge is Some ==> buttons[i].badge->0@ == "−"@
            + decimal(st.draft.excluded.elements().len()),
        buttons[i].tab is References ==> (buttons[i].badge is Some
            <==> st.draft.references is Array && st.draft.references->Array_0@.len() > 0),
        buttons[i].tab is References && buttons[i].badge is Some ==> buttons[i].badge->0@
            == decimal(st.draft.references->Array_0@.len()),
        buttons[i].tab is Preview || buttons[i].tab is Status ==> buttons[i].badge is None,
{
    let tabs = seq![
        Tab::Dataset,
        Tab::Narrative,
        Tab::Hypotheses,
        Tab::References,
        Tab::Preview,
        Tab::Status,
    ];
    assert(is_tab_button(st, tabs[i], buttons[i]));
}

/// The body is that of the tab.
pub proof fn a_body_is_that_of_its_tab(
    snap: ClusterSnapshot,
    st: CuratorState,
    campaign: Seq<char>,
    b: TabBody,
)
    requires
        is_tab_body(snap, st, campaign, b),
    ensures
        b is Dataset <==> st.tab is Dataset,
        b is Narrative <==> st.tab is Narrative,
        b is Hypotheses <==> st.tab is Hypotheses,
        b is References <==> st.tab is References,
        b is Preview <==> st.tab is Preview,
        b is Status <==> st.tab is Status,
        b matches TabBody::Status(p) ==> (p is Some <==> st.loaded is Some),
        b matches TabBody::Hypotheses(s) ==> s@ == st.draft.seeded@,
{
}

/// The dataset page counts what is not excluded out of the campaign's experiments, and names the
/// failed and the unkept ones.
pub proof fn the_dataset_page_counts_what_is_in(
    exps: Seq<ResourceSummary>,
    places: Seq<int>,
    pick: spec_fn(ResourceSummary) -> bool,
    k: int,
)
    ensures
        names_at(exps, places.push(k), pick) == (if pick(exps[k]) {
            names_at(exps, places, pick).push(exps[k].name@)
        } else {
            names_at(exps, places, pick)
        }),
        names_at(exps, Seq::empty(), pick).len() == 0,
        has_failed(exps[k]) <==> exps[k].phase@ == seq!['F', 'a', 'i', 'l', 'e', 'd'],
        is_not_kept(exps[k]) <==> !(exps[k].decision is Some && exps[k].decision->0@ == seq![
            'K',
            'e',
            'e',
            'p',
        ]),
{
    reveal_strlit("Failed");
    reveal_strlit("Keep");
    assert("Failed"@ =~= seq!['F', 'a', 'i', 'l', 'e', 'd']);
    assert("Keep"@ =~= seq!['K', 'e', 'e', 'p']);
    assert(places.push(k).drop_last() =~= places);
}

/// Every experiment of the campaign has a row, switched on exactly when it is not excluded.
pub proof fn a_dataset_row_is_on_unless_excluded(
    exps: Seq<ResourceSummary>,
    campaign: Seq<char>,
    excluded: Set<Seq<char>>,
    p: DatasetPage,
    k: int,
)
    requires
        is_dataset_page(exps, campaign, excluded, p),
        0 <= k < p.table.rows@.len(),
    ensures
        p.table.rows@.len() == members(exps, campaign).len(),
        p.table.rows@[k].drawn()[0] matches CellView::Toggle(i, on) && (on <==> !excluded.contains(
            p.table.rows@[k].key@,
        )),
        p.table.columns@[0].id@ == "include"@,
        p.count@ == decimal(
            names_at(
                exps,
                members(exps, campaign),
                |e: ResourceSummary| !excluded.contains(e.name@),
            ).len(),
        ) + " / "@ + decimal(members(exps, campaign).len()) + " included"@,
        p.failed.deep_view() == names_at(
            exps,
            members(exps, campaign),
            |e: ResourceSummary| has_failed(e),
        ),
        p.not_kept.deep_view() == names_at(
            exps,
            members(exps, campaign),
            |e: ResourceSummary| is_not_kept(e),
        ),
{
    let n = members(exps, campaign)[k];
    assert(is_row(
        p.table.rows@[k],
        exps[n].name@,
        dataset_cells(exps[n], n as usize, excluded),
        false,
    ));
}

/// A heading is suggested exactly as long as no section carries it, whatever the case.
pub proof fn a_heading_is_suggested_until_it_is_there(
    names: Seq<&'static str>,
    name: &'static str,
    present: Set<Seq<char>>,
)
    ensures
        missing_from(names.push(name), present) == (if present.contains(lowered(name@)) {
            missing_from(names, present)
        } else {
            missing_from(names, present).push(name)
        }),
        missing_from(Seq::empty(), present).len() == 0,
{
    assert(names.push(name).drop_last() =~= names);
}

/// A reference is shown by its key, its title, what it supports, and its address, or else its DOI.
pub proof fn a_reference_line_goes_by_its_fields(r: Json, l: ReferenceLine)
    requires
        is_reference_line(r, l),
    ensures
        member_of(r, "title"@) matches Some(Json::Text(t)) ==> l.title@ == t@,
        member_of(r, "supports"@) matches Some(Json::Text(t)) ==> l.supports@ == t@,
        member_of(r, "key"@) matches Some(Json::Text(t)) ==> l.key@ == "[@"@ + t@ + "]"@,
        member_of(r, "url"@) matches Some(Json::Text(t)) ==> (t@.len() > 0 ==> l.link@ == t@),
        member_of(r, "url"@) is None ==> (member_of(r, "doi"@) matches Some(Json::Text(t))
            ==> l.link@ == t@),
{
}

/// A condition reads well exactly when it is true, and the status page gives what the report's
/// status gives, a dash for what it does not.
pub proof fn the_status_page_goes_by_its_labels(d: ReportDetailDto, p: StatusPage, i: int)
    requires
        is_status_page(d, p),
    ensures
        p.name@ == d.spec.namespace@ + "/"@ + d.spec.name@,
        d.phase matches Some(t) ==> p.phase@ == t@,
        d.phase is None ==> p.phase@ == "—"@,
        d.included_count matches Some(n) ==> p.included@ == decimal(n as nat),
        d.included_count is None ==> p.included@ == "—"@,
        d.dataset_uri matches Some(t) ==> p.dataset@ == t@,
        d.last_assembled_time matches Some(t) ==> p.assembled@ == t@,
        p.created@ == ms_text(d.created_at),
        p.conditions@.len() == d.conditions@.len(),
        0 <= i < d.conditions@.len() ==> {
            let c = d.conditions@[i];
            let l = p.conditions@[i];
            &&& l.condition@ == c.ctype@ && l.status@ == c.status@
            &&& l.reason@ == c.reason@ && l.message@ == c.message@
            &&& l.class@ == "cond ok"@ <==> c.status@ == "True"@
            &&& l.class@ == "cond bad"@ <==> c.status@ != "True"@
        },
{
    reveal_strlit("cond ok");
    reveal_strlit("cond bad");
    assert("cond ok"@.len() != "cond bad"@.len());
    if 0 <= i < d.conditions@.len() {
        assert(is_condition_line(d.conditions@[i], p.conditions@[i]));
    }
}

/// A draft is created where none was loaded and saved where one was; it can be saved exactly when it
/// was changed, has no problem and is not just being saved, and reverted exactly when it was
/// changed and is not just being saved.
pub proof fn the_footer_lets_a_good_draft_through(st: CuratorState, f: Footer)
    requires
        is_footer(st, f),
    ensures
        !f.save_disabled <==> st.is_dirty() && problem_of(st.draft, st.loaded is None) is None && !(
        st.save is Busy),
        !f.revert_disabled <==> st.is_dirty() && !(st.save is Busy),
        f.is_new <==> st.loaded is None,
        f.save_text@ == "create"@ <==> st.loaded is None,
        f.save_text@ == "save"@ <==> st.loaded is Some,
        f.dirty <==> st.is_dirty(),
        f.name@ == st.draft.name@ && f.title@ == st.draft.title@,
        problem_of(st.draft, st.loaded is None) matches Some(p) ==> f.save_tip@ == p,
        problem_of(st.draft, st.loaded is None) is None ==> f.save_tip@.len() == 0,
{
    reveal_strlit("create");
    reveal_strlit("save");
    assert("create"@.len() != "save"@.len());
}

/// A problem of a changed draft is said first; a failure is shown as one, and a success only while
/// nothing was changed since.
pub proof fn the_note_says_what_matters(st: CuratorState, f: Footer)
    requires
        is_footer(st, f),
    ensures
        ({
            let problem = problem_of(st.draft, st.loaded is None);
            &&& problem is Some && st.is_dirty() ==> (f.note matches Some((c, t)) && c@ == "err"@
                && t@ == problem->0)
            &&& !(problem is Some && st.is_dirty()) ==> {
                &&& st.save matches SaveState::Busy(m) ==> (f.note matches Some((c, t)) && c@
                    == "muted"@ && t@ == m@)
                &&& st.save matches SaveState::Failed(m) ==> (f.note matches Some((c, t)) && c@
                    == "err"@ && t@ == m@)
                &&& st.save is Done && st.is_dirty() ==> f.note is None
                &&& st.save matches SaveState::Done(m) ==> (!st.is_dirty() ==> (
                f.note matches Some((c, t)) && c@ == "ok"@ && t@ == m@))
                &&& st.save is Idle ==> f.note is None
            }
        }),
{
}

/// A preview shows what was composed, why it could not be, or that it was not yet.
pub proof fn a_preview_shows_what_was_composed(md: String, e: String)
    ensures
        preview_text(Some(Ok(md))) == ("preview"@, md@),
        preview_text(Some(Err(e))) == ("err"@, "Preview failed: "@ + e@),
        preview_text(None) == ("muted"@, "Not composed yet."@),
{
}

/// A report can be started anew only while nothing of a loaded one is unsaved.
pub proof fn a_new_report_waits_for_the_loaded_one(
    snap: ClusterSnapshot,
    st: CuratorState,
    campaign: Seq<char>,
    e: Editor,
)
    requires
        is_editor(snap, st, campaign, e),
    ensures
        e.new_active <==> st.loaded is None,
        e.new_disabled <==> st.is_dirty() && st.loaded is Some,
{
}

/// The page shows the campaigns while one is picked, else the editor of the campaign that is worked
/// on, else that there is none.
pub proof fn the_page_edits_the_working_campaign(
    snap: ClusterSnapshot,
    st: CuratorState,
    selected: Option<ResourceSummary>,
    nav: Option<Seq<char>>,
    p: CuratorPage,
)
    requires
        is_curator_page(snap, st, selected, nav, p),
    ensures
        p.content is Picking <==> st.picking,
        p.content is Editing <==> !st.picking && working_campaign(st, selected, nav) is Some
            && exists|i: int|
            0 <= i < snap.campaigns@.len() && (#[trigger] snap.campaigns@[i]).name@
                == working_campaign(st, selected, nav)->0,
{
    if let Some(name) = working_campaign(st, selected, nav) {
        crate::web::research::a_place_is_the_first_of_its_name(snap.campaigns@, name);
        if let Some(i) = place_of(snap.campaigns@, name) {
            assert(snap.campaigns@[i].name@ == name);
        }
    }
}

} // verus!

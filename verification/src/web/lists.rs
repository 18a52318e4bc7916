//! The resource lists of the web console, and the panels of the selected resource.

use vstd::prelude::*;
use crate::calendar::ms_text;
use crate::dossier::parts::{or_text, text_or};
use crate::lowercase::{lowered, to_lower};
use crate::models::{manifest_name, ClusterSnapshot, ReportSummary, ResourceSummary, TemplateSummary};
use crate::numeral::decimal;
use crate::tables::{
    campaign_cell_list, campaign_column_list, campaign_columns, campaign_row, column, count_of,
    date_cell, experiment_cell_list, experiment_column_list, experiment_columns, experiment_row,
    fixed_column, is_row, pinned_column, CellView, DataColumnSpec, DataRow, RowExt, SortDir, Table,
};
use crate::text::same;
use crate::web::labels::{campaign_label, label_of, time_range, window_fits, window_of};
use crate::workspace::views::{preset_names, PanelKind, SavedViews, ViewsSpec};

verus! {

broadcast use vstd::seq_lib::group_seq_properties;

/// One list with its heading.
#[derive(Debug, Clone)]
pub struct Page {
    pub title: &'static str,
    pub note: &'static str,
    pub table: Table,
}

/// The selected resource has the name.
pub open spec fn is_selected(selected: Option<ResourceSummary>, name: Seq<char>) -> bool {
    selected matches Some(s) && s.name@ == name
}

fn selects(selected: &Option<ResourceSummary>, name: &str) -> (r: bool)
    ensures
        r == is_selected(*selected, name@),
{
    match selected {
        Some(s) => same(s.name.as_str(), name),
        None => false,
    }
}

// ---------------------------------------------------------------------------
// Experiments and campaigns
// ---------------------------------------------------------------------------

/// One row for each experiment, in order; the selected one is highlighted.
pub open spec fn experiment_rows(
    exps: Seq<ResourceSummary>,
    selected: Option<ResourceSummary>,
    with_campaign: bool,
    rows: Seq<DataRow<usize>>,
) -> bool {
    &&& rows.len() == exps.len()
    &&& forall|i: int|
        0 <= i < exps.len() ==> is_row(
            #[trigger] rows[i],
            exps[i].name@,
            experiment_cell_list(exps[i], i as usize, with_campaign),
            is_selected(selected, exps[i].name@),
        )
}

/// The rows of the experiments; the name of each is a button.
pub fn rows_of_experiments(
    exps: &Vec<ResourceSummary>,
    selected: &Option<ResourceSummary>,
    with_campaign: bool,
) -> (r: Vec<DataRow<usize>>)
    ensures
        experiment_rows(exps@, *selected, with_campaign, r@),
{
    let mut rows: Vec<DataRow<usize>> = Vec::new();
    let mut i: usize = 0;
    while i < exps.len()
        invariant
            i <= exps.len(),
            experiment_rows(exps@.take(i as int), *selected, with_campaign, rows@),
        decreases exps.len() - i,
    {
        let on = selects(selected, exps[i].name.as_str());
        rows.push(experiment_row(&exps[i], i, with_campaign).selected(on));
        assert(exps@.take(i + 1)[i as int] == exps@[i as int]);
        assert(forall|k: int| 0 <= k < i ==> exps@.take(i + 1)[k] == exps@.take(i as int)[k]);
        i = i + 1;
    }
    assert(exps@.take(i as int) =~= exps@);
    rows
}

/// One row for each campaign, in order; the selected one is highlighted.
pub open spec fn campaign_rows(
    campaigns: Seq<ResourceSummary>,
    selected: Option<ResourceSummary>,
    rows: Seq<DataRow<usize>>,
) -> bool {
    &&& rows.len() == campaigns.len()
    &&& forall|i: int|
        0 <= i < campaigns.len() ==> is_row(
            #[trigger] rows[i],
            campaigns[i].name@,
            campaign_cell_list(campaigns[i], i as usize, label_of(campaigns[i])),
            is_selected(selected, campaigns[i].name@),
        )
}

/// The rows of the campaigns; the label of each is a button.
pub fn rows_of_campaigns(
    campaigns: &Vec<ResourceSummary>,
    selected: &Option<ResourceSummary>,
) -> (r: Vec<DataRow<usize>>)
    ensures
        campaign_rows(campaigns@, *selected, r@),
{
    let mut rows: Vec<DataRow<usize>> = Vec::new();
    let mut i: usize = 0;
    while i < campaigns.len()
        invariant
            i <= campaigns.len(),
            campaign_rows(campaigns@.take(i as int), *selected, rows@),
        decreases campaigns.len() - i,
    {
        let c = &campaigns[i];
        let on = selects(selected, c.name.as_str());
        let label = campaign_label(c);
        rows.push(campaign_row(c, i, label.as_str()).selected(on));
        assert(campaigns@.take(i + 1)[i as int] == campaigns@[i as int]);
        assert(forall|k: int|
            0 <= k < i ==> campaigns@.take(i + 1)[k] == campaigns@.take(i as int)[k]);
        i = i + 1;
    }
    assert(campaigns@.take(i as int) =~= campaigns@);
    rows
}

/// The page lists the experiments.
pub open spec fn is_experiments_page(
    snap: ClusterSnapshot,
    selected: Option<ResourceSummary>,
    p: Page,
) -> bool {
    &&& p.title@ == "Experiments"@
    &&& p.note@ == "Kubernetes-native experiment resources, phases, and workspace refs."@
    &&& p.table.is_set_up(
        experiment_column_list(true),
        Some(("created", SortDir::Desc)),
        Some("athena.table.experiments"@),
        Some("No experiments found."),
        Some("filter experiments…"),
    )
    &&& experiment_rows(snap.experiments@, selected, true, p.table.rows@)
}

/// The experiment list.
pub fn experiments_view(snap: &ClusterSnapshot, selected: &Option<ResourceSummary>) -> (r: Page)
    ensures
        is_experiments_page(*snap, *selected, r),
{
    Page {
        title: "Experiments",
        note: "Kubernetes-native experiment resources, phases, and workspace refs.",
        table: Table {
            columns: experiment_columns(true),
            rows: rows_of_experiments(&snap.experiments, selected, true),
            order: Some(("created", SortDir::Desc)),
            storage_key: Some("athena.table.experiments".to_owned()),
            empty: Some("No experiments found."),
            placeholder: Some("filter experiments…"),
        },
    }
}

/// A table of campaigns that remembers its columns under the key.
pub open spec fn is_campaign_table(
    campaigns: Seq<ResourceSummary>,
    selected: Option<ResourceSummary>,
    storage_key: Seq<char>,
    empty: Option<&'static str>,
    t: Table,
) -> bool {
    &&& t.is_set_up(
        campaign_column_list(),
        Some(("created", SortDir::Desc)),
        Some(storage_key),
        empty,
        Some("filter campaigns…"),
    )
    &&& campaign_rows(campaigns, selected, t.rows@)
}

/// A table of campaigns.
pub fn campaign_table(
    campaigns: &Vec<ResourceSummary>,
    selected: &Option<ResourceSummary>,
    storage_key: &str,
    empty: Option<&'static str>,
) -> (r: Table)
    ensures
        is_campaign_table(campaigns@, *selected, storage_key@, empty, r),
{
    Table {
        columns: campaign_columns(),
        rows: rows_of_campaigns(campaigns, selected),
        order: Some(("created", SortDir::Desc)),
        storage_key: Some(storage_key.to_owned()),
        empty,
        placeholder: Some("filter campaigns…"),
    }
}

/// The page lists the campaigns.
pub open spec fn is_campaigns_page(
    snap: ClusterSnapshot,
    selected: Option<ResourceSummary>,
    p: Page,
) -> bool {
    &&& p.title@ == "Campaigns"@
    &&& p.note@
        == "Click a campaign to load its metrics (all member experiments, over the campaign window) into the Metrics panel."@
    &&& is_campaign_table(
        snap.campaigns@,
        selected,
        "athena.table.campaigns"@,
        Some("No campaigns found."),
        p.table,
    )
}

/// The campaign list.
pub fn campaigns_view(snap: &ClusterSnapshot, selected: &Option<ResourceSummary>) -> (r: Page)
    ensures
        is_campaigns_page(*snap, *selected, r),
{
    Page {
        title: "Campaigns",
        note: "Click a campaign to load its metrics (all member experiments, over the campaign window) into the Metrics panel.",
        table: campaign_table(
            &snap.campaigns,
            selected,
            "athena.table.campaigns",
            Some("No campaigns found."),
        ),
    }
}

// ---------------------------------------------------------------------------
// Templates
// ---------------------------------------------------------------------------

/// The cells of a template row.
pub open spec fn template_cells(t: TemplateSummary, i: usize) -> Seq<CellView<usize>> {
    seq![
        CellView::Text(t.name@),
        CellView::Text(t.objective@),
        date_cell(t.created_at),
        CellView::Styled(t.detail@, "muted"@),
        CellView::Action(i),
    ]
}

/// One row for each template, in order.
pub open spec fn template_rows(
    templates: Seq<TemplateSummary>,
    rows: Seq<DataRow<usize>>,
) -> bool {
    &&& rows.len() == templates.len()
    &&& forall|i: int|
        0 <= i < templates.len() ==> is_row(
            #[trigger] rows[i],
            templates[i].name@,
            template_cells(templates[i], i as usize),
            false,
        )
}

/// The page lists the templates.
pub open spec fn is_templates_page(snap: ClusterSnapshot, p: Page) -> bool {
    &&& p.title@ == "Experiment Templates"@
    &&& p.note@ == "Load Kubernetes-owned template YAML and inspect objectives + sources."@
    &&& p.table.is_set_up(
        seq![
            pinned_column("name", "Template"),
            column("objective", "Objective"),
            column("created", "Created"),
            column("source", "Source"),
            fixed_column("load", ""),
        ],
        Some(("name", SortDir::Asc)),
        Some("athena.table.templates"@),
        Some("No templates found."),
        Some("filter templates…"),
    )
    &&& template_rows(snap.templates@, p.table.rows@)
}

/// The template list; the last cell of a row loads its YAML.
pub fn templates_view(snap: &ClusterSnapshot) -> (r: Page)
    ensures
        is_templates_page(*snap, r),
{
    let templates = &snap.templates;
    let mut rows: Vec<DataRow<usize>> = Vec::new();
    let mut i: usize = 0;
    while i < templates.len()
        invariant
            i <= templates.len(),
            template_rows(templates@.take(i as int), rows@),
        decreases templates.len() - i,
    {
        let t = &templates[i];
        let row = DataRow::new(t.name.as_str()).text(t.name.as_str()).text(
            t.objective.as_str(),
        ).date(&t.created_at).text_class(t.detail.as_str(), "muted").action(i);
        assert(row.drawn() =~= template_cells(*t, i));
        rows.push(row);
        assert(templates@.take(i + 1)[i as int] == *t);
        assert(forall|k: int|
            0 <= k < i ==> templates@.take(i + 1)[k] == templates@.take(i as int)[k]);
        i = i + 1;
    }
    assert(templates@.take(i as int) =~= templates@);
    let mut columns: Vec<DataColumnSpec> = Vec::new();
    columns.push(DataColumnSpec::new("name", "Template").pinned());
    columns.push(DataColumnSpec::new("objective", "Objective"));
    columns.push(DataColumnSpec::new("created", "Created"));
    columns.push(DataColumnSpec::new("source", "Source"));
    columns.push(DataColumnSpec::new("load", "").pinned().unsorted());
    assert(columns@ =~= seq![
        pinned_column("name", "Template"),
        column("objective", "Objective"),
        column("created", "Created"),
        column("source", "Source"),
        fixed_column("load", ""),
    ]);
    Page {
        title: "Experiment Templates",
        note: "Load Kubernetes-owned template YAML and inspect objectives + sources.",
        table: Table {
            columns,
            rows,
            order: Some(("name", SortDir::Asc)),
            storage_key: Some("athena.table.templates".to_owned()),
            empty: Some("No templates found."),
            placeholder: Some("filter templates…"),
        },
    }
}

// ---------------------------------------------------------------------------
// Plain resource tables
// ---------------------------------------------------------------------------

/// The cells of a plain resource row.
pub open spec fn resource_cells(r: ResourceSummary) -> Seq<CellView<usize>> {
    seq![
        CellView::Text(r.name@),
        CellView::Styled(r.phase@, "phase"@),
        date_cell(r.created_at),
        CellView::Styled(r.detail@, "muted"@),
    ]
}

/// One row for each resource, in order.
pub open spec fn resource_rows(list: Seq<ResourceSummary>, rows: Seq<DataRow<usize>>) -> bool {
    &&& rows.len() == list.len()
    &&& forall|i: int|
        0 <= i < list.len() ==> is_row(
            #[trigger] rows[i],
            list[i].name@,
            resource_cells(list[i]),
            false,
        )
}

/// A table of the resources (name, phase, creation, detail).
pub open spec fn is_resource_table(
    list: Seq<ResourceSummary>,
    name_col: &'static str,
    detail_col: &'static str,
    t: Table,
) -> bool {
    &&& t.is_set_up(
        seq![
            pinned_column("name", name_col),
            column("phase", "Phase"),
            column("created", "Created"),
            column("detail", detail_col),
        ],
        Some(("created", SortDir::Desc)),
        Some("athena.table."@ + lowered(name_col@)),
        None,
        None,
    )
    &&& resource_rows(list, t.rows@)
}

/// A generic table (name, phase, creation, detail) for the views
/// that don't need row interactions.
pub fn resource_table(
    list: &Vec<ResourceSummary>,
    name_col: &'static str,
    detail_col: &'static str,
) -> (r: Table)
    ensures
        is_resource_table(list@, name_col, detail_col, r),
{
    let mut rows: Vec<DataRow<usize>> = Vec::new();
    let mut i: usize = 0;
    while i < list.len()
        invariant
            i <= list.len(),
            resource_rows(list@.take(i as int), rows@),
        decreases list.len() - i,
    {
        let x = &list[i];
        let row = DataRow::new(x.name.as_str()).text(x.name.as_str()).text_class(
            x.phase.as_str(),
            "phase",
        ).date(&x.created_at).text_class(x.detail.as_str(), "muted");
        assert(row.drawn() =~= resource_cells(*x));
        rows.push(row);
        assert(list@.take(i + 1)[i as int] == *x);
        assert(forall|k: int| 0 <= k < i ==> list@.take(i + 1)[k] == list@.take(i as int)[k]);
        i = i + 1;
    }
    assert(list@.take(i as int) =~= list@);
    let mut columns: Vec<DataColumnSpec> = Vec::new();
    columns.push(DataColumnSpec::new("name", name_col).pinned());
    columns.push(DataColumnSpec::new("phase", "Phase"));
    columns.push(DataColumnSpec::new("created", "Created"));
    columns.push(DataColumnSpec::new("detail", detail_col));
    assert(columns@ =~= seq![
        pinned_column("name", name_col),
        column("phase", "Phase"),
        column("created", "Created"),
        column("detail", detail_col),
    ]);
    let mut storage_key = "athena.table.".to_owned();
    storage_key.append(to_lower(name_col).as_str());
    Table {
        columns,
        rows,
        order: Some(("created", SortDir::Desc)),
        storage_key: Some(storage_key),
        empty: None,
        placeholder: None,
    }
}

/// The page lists the runtime profiles.
pub open spec fn is_runtime_page(snap: ClusterSnapshot, p: Page) -> bool {
    &&& p.title@ == "Runtime Profiles"@
    &&& p.note@ == "RuntimeProfile resources: execution mode, images, workspace storage."@
    &&& is_resource_table(snap.runtime_profiles@, "RuntimeProfile", "Runtime", p.table)
}

/// The runtime profile list.
pub fn runtime_view(snap: &ClusterSnapshot) -> (r: Page)
    ensures
        is_runtime_page(*snap, r),
{
    Page {
        title: "Runtime Profiles",
        note: "RuntimeProfile resources: execution mode, images, workspace storage.",
        table: resource_table(&snap.runtime_profiles, "RuntimeProfile", "Runtime"),
    }
}

/// The benchmark lists.
#[derive(Debug, Clone)]
pub struct BenchmarksPage {
    pub title: &'static str,
    pub note: &'static str,
    pub suites: Table,
    pub runs: Table,
}

/// The page lists the benchmark suites and runs.
pub open spec fn is_benchmarks_page(snap: ClusterSnapshot, p: BenchmarksPage) -> bool {
    &&& p.title@ == "Benchmarks"@
    &&& p.note@ == "BenchmarkSuite and BenchmarkRun resources read from Kubernetes status."@
    &&& is_resource_table(snap.benchmark_suites@, "BenchmarkSuite", "Tasks", p.suites)
    &&& is_resource_table(snap.benchmark_runs@, "BenchmarkRun", "Suite", p.runs)
}

/// The benchmark suite and run lists.
pub fn benchmarks_view(snap: &ClusterSnapshot) -> (r: BenchmarksPage)
    ensures
        is_benchmarks_page(*snap, r),
{
    BenchmarksPage {
        title: "Benchmarks",
        note: "BenchmarkSuite and BenchmarkRun resources read from Kubernetes status.",
        suites: resource_table(&snap.benchmark_suites, "BenchmarkSuite", "Tasks"),
        runs: resource_table(&snap.benchmark_runs, "BenchmarkRun", "Suite"),
    }
}

// ---------------------------------------------------------------------------
// Reports
// ---------------------------------------------------------------------------

/// The cells of a report row.
pub open spec fn report_cells(r: ReportSummary, i: usize) -> Seq<CellView<usize>> {
    seq![
        CellView::Text(r.name@),
        CellView::Text(r.campaign_ref@),
        CellView::Text(r.title@),
        CellView::Styled(r.phase@, "phase"@),
        date_cell(r.created_at),
        count_of(r.excluded_count as u64),
        CellView::Action(i),
    ]
}

/// One row for each report, in order.
pub open spec fn report_rows(reports: Seq<ReportSummary>, rows: Seq<DataRow<usize>>) -> bool {
    &&& rows.len() == reports.len()
    &&& forall|i: int|
        0 <= i < reports.len() ==> is_row(
            #[trigger] rows[i],
            reports[i].name@,
            report_cells(reports[i], i as usize),
            false,
        )
}

/// The page lists the reports.
pub open spec fn is_reports_page(snap: ClusterSnapshot, p: Page) -> bool {
    &&& p.title@ == "Reports"@
    &&& p.note@
        == "Published ResearchReport resources. Click Load to open one in the Report Curator."@
    &&& p.table.is_set_up(
        seq![
            pinned_column("name", "Report"),
            column("campaign", "Campaign"),
            column("title", "Title"),
            column("phase", "Phase"),
            column("created", "Created"),
            column("excluded", "Excluded"),
            fixed_column("load", ""),
        ],
        Some(("created", SortDir::Desc)),
        Some("athena.table.reports"@),
        Some("No reports found."),
        Some("filter reports…"),
    )
    &&& report_rows(snap.reports@, p.table.rows@)
}

/// The report list; the last cell of a row opens it in the curator.
pub fn reports_view(snap: &ClusterSnapshot) -> (r: Page)
    ensures
        is_reports_page(*snap, r),
{
    let reports = &snap.reports;
    let mut rows: Vec<DataRow<usize>> = Vec::new();
    let mut i: usize = 0;
    while i < reports.len()
        invariant
            i <= reports.len(),
            report_rows(reports@.take(i as int), rows@),
        decreases reports.len() - i,
    {
        let x = &reports[i];
        let row = DataRow::new(x.name.as_str()).text(x.name.as_str()).text(
            x.campaign_ref.as_str(),
        ).text(x.title.as_str()).text_class(x.phase.as_str(), "phase").date(&x.created_at).count(
            x.excluded_count as u64,
        ).action(i);
        assert(row.drawn() =~= report_cells(*x, i));
        rows.push(row);
        assert(reports@.take(i + 1)[i as int] == *x);
        assert(forall|k: int| 0 <= k < i ==> reports@.take(i + 1)[k] == reports@.take(i as int)[k]);
        i = i + 1;
    }
    assert(reports@.take(i as int) =~= reports@);
    let mut columns: Vec<DataColumnSpec> = Vec::new();
    columns.push(DataColumnSpec::new("name", "Report").pinned());
    columns.push(DataColumnSpec::new("campaign", "Campaign"));
    columns.push(DataColumnSpec::new("title", "Title"));
    columns.push(DataColumnSpec::new("phase", "Phase"));
    columns.push(DataColumnSpec::new("created", "Created"));
    columns.push(DataColumnSpec::new("excluded", "Excluded"));
    columns.push(DataColumnSpec::new("load", "").pinned().unsorted());
    assert(columns@ =~= seq![
        pinned_column("name", "Report"),
        column("campaign", "Campaign"),
        column("title", "Title"),
        column("phase", "Phase"),
        column("created", "Created"),
        column("excluded", "Excluded"),
        fixed_column("load", ""),
    ]);
    Page {
        title: "Reports",
        note: "Published ResearchReport resources. Click Load to open one in the Report Curator.",
        table: Table {
            columns,
            rows,
            order: Some(("created", SortDir::Desc)),
            storage_key: Some("athena.table.reports".to_owned()),
            empty: Some("No reports found."),
            placeholder: Some("filter reports…"),
        },
    }
}

// ---------------------------------------------------------------------------
// The selected resource
// ---------------------------------------------------------------------------

/// What the panels of the selected resource show when nothing is selected.
pub fn no_selection() -> (r: &'static str)
    ensures
        r@ == "Select an experiment from the Experiments panel."@,
{
    "Select an experiment from the Experiments panel."
}

/// The metadata of a resource.
#[derive(Debug, Clone)]
pub struct DetailPage {
    pub title: String,
    pub note: String,
    pub phase: String,
    pub namespace: String,
    pub detail: String,
    pub workspace: String,
    pub manifest: String,
}

/// The page shows the metadata of the resource.
pub open spec fn is_detail_page(s: ResourceSummary, p: DetailPage) -> bool {
    &&& p.title@ == s.name@
    &&& p.note@ == s.namespace@ + " / "@ + s.kind@ + " · phase "@ + s.phase@
    &&& p.phase@ == s.phase@
    &&& p.namespace@ == s.namespace@
    &&& p.detail@ == s.detail@
    &&& p.workspace@ == text_or(s.workspace_path, "Not reported"@)
    &&& p.manifest@ == manifest_name(s.namespace@, s.kind@, s.name@)
}

/// Metadata for the selected resource.
pub fn experiment_detail_view(selected: &Option<ResourceSummary>) -> (r: Option<DetailPage>)
    ensures
        r is Some <==> *selected is Some,
        r matches Some(p) ==> is_detail_page(selected->0, p),
{
    match selected {
        None => None,
        Some(s) => {
            let mut note = s.namespace.clone();
            note.append(" / ");
            note.append(s.kind.as_str());
            note.append(" · phase ");
            note.append(s.phase.as_str());
            Some(
                DetailPage {
                    title: s.name.clone(),
                    note,
                    phase: s.phase.clone(),
                    namespace: s.namespace.clone(),
                    detail: s.detail.clone(),
                    workspace: or_text(&s.workspace_path, "Not reported").to_owned(),
                    manifest: s.manifest_path(),
                },
            )
        },
    }
}

/// Grafana base URL for the embedded learning-metric dashboards.
pub const GRAFANA_BASE: &'static str = "https://grafana.casazza.io";

/// UID of the Auto-RL / training-loss research-runs dashboard.
pub const GRAFANA_DASHBOARD_UID: &'static str = "athena-research-runs";

/// An embedded dashboard: its one variable, and its time range.
#[derive(Debug, Clone)]
pub struct Dashboard {
    pub base_url: &'static str,
    pub uid: &'static str,
    pub var: &'static str,
    pub value: String,
    pub from: String,
    pub to: String,
    pub theme: &'static str,
    pub title: &'static str,
}

/// The dashboard of the resource: all the experiments of a campaign, or one experiment, over
/// the run window.
pub open spec fn is_dashboard_of(s: ResourceSummary, d: Dashboard) -> bool {
    &&& d.base_url@ == GRAFANA_BASE@
    &&& d.uid@ == GRAFANA_DASHBOARD_UID@
    &&& d.var@ == (if s.kind@ == "researchcampaign"@ {
        "campaign"@
    } else {
        "experiment"@
    })
    &&& d.value@ == s.name@
    &&& (d.from@, d.to@) == window_of(s)
    &&& d.theme@ == "dark"@
    &&& d.title@ == "Athena research runs"@
}

/// Embedded learning-metrics dashboard, scoped to the selected experiment OR
/// campaign and time-ranged to its run window. A campaign selection scopes by the
/// `campaign` dashboard var (all its experiments); an experiment by `experiment`.
pub fn experiment_metrics_view(selected: &Option<ResourceSummary>) -> (r: Option<Dashboard>)
    requires
        *selected matches Some(s) ==> window_fits(s),
    ensures
        r is Some <==> *selected is Some,
        r matches Some(d) ==> is_dashboard_of(selected->0, d),
{
    match selected {
        None => None,
        Some(s) => {
            let (from, to) = time_range(s);
            Some(
                Dashboard {
                    base_url: GRAFANA_BASE,
                    uid: GRAFANA_DASHBOARD_UID,
                    var: if same(s.kind.as_str(), "researchcampaign") {
                        "campaign"
                    } else {
                        "experiment"
                    },
                    value: s.name.clone(),
                    from,
                    to,
                    theme: "dark",
                    title: "Athena research runs",
                },
            )
        },
    }
}

/// The title of the manifest editor for the selected resource.
pub fn experiment_manifest_view(selected: &Option<ResourceSummary>) -> (r: Option<String>)
    ensures
        r.deep_view() == (match *selected {
            Some(s) => Some(manifest_name(s.namespace@, s.kind@, s.name@)),
            None => None,
        }),
{
    match selected {
        Some(s) => Some(s.manifest_path()),
        None => None,
    }
}

// ---------------------------------------------------------------------------
// The view bar
// ---------------------------------------------------------------------------

/// One button of the view bar.
#[derive(Debug, Clone)]
pub struct ViewTab {
    pub name: String,
    pub active: bool,
    /// The view can be deleted.
    pub custom: bool,
}

/// One tab for each view, in order; those that are no preset can be deleted.
pub open spec fn are_tabs(
    registry: SavedViews,
    presets: Seq<Seq<char>>,
    tabs: Seq<ViewTab>,
) -> bool {
    &&& tabs.len() == registry.views@.len()
    &&& forall|i: int|
        0 <= i < tabs.len() ==> {
            &&& (#[trigger] tabs[i]).name@ == registry.views@[i]@
            &&& tabs[i].active == (registry.views@[i]@ == registry.active@)
            &&& tabs[i].custom == !presets.contains(registry.views@[i]@)
        }
}

/// Top-bar view switcher: one button per view.
pub fn view_bar<K: PanelKind>(registry: &SavedViews, spec: &ViewsSpec<K>) -> (r: Vec<ViewTab>)
    ensures
        are_tabs(*registry, preset_names(spec.presets@), r@),
{
    let mut tabs: Vec<ViewTab> = Vec::new();
    let mut i: usize = 0;
    while i < registry.views.len()
        invariant
            i <= registry.views.len(),
            tabs@.len() == i,
            forall|k: int|
                0 <= k < i ==> {
                    &&& (#[trigger] tabs@[k]).name@ == registry.views@[k]@
                    &&& tabs@[k].active == (registry.views@[k]@ == registry.active@)
                    &&& tabs@[k].custom == !preset_names(spec.presets@).contains(
                        registry.views@[k]@,
                    )
                },
        decreases registry.views.len() - i,
    {
        let name = registry.views[i].as_str();
        tabs.push(
            ViewTab {
                name: name.to_owned(),
                active: same(name, registry.active.as_str()),
                custom: !spec.is_preset(name),
            },
        );
        i = i + 1;
    }
    tabs
}

/// Under each column of the templates stands what the column names.
pub proof fn a_template_row_goes_by_its_columns(snap: ClusterSnapshot, p: Page, i: int, j: int)
    requires
        is_templates_page(snap, p),

        0 <= i < snap.templates@.len(),
        0 <= j < p.table.columns@.len(),
    ensures
        p.table.rows@.len() == snap.templates@.len(),
        ({
            let cols = p.table.columns@;
            let row = p.table.rows@[i];
            &&& row.drawn().len() == cols.len()
            &&& row.key@ == snap.templates@[i].name@
            &&& row.selected == false
            &&& cols[j].id@ == "name"@ ==> cols[j].title@ == "Template"@ && row.drawn()[j] == CellView::<usize>::Text(snap.templates@[i].name@)
            &&& cols[j].id@ == "objective"@ ==> cols[j].title@ == "Objective"@ && row.drawn()[j] == CellView::<usize>::Text(snap.templates@[i].objective@)
            &&& cols[j].id@ == "created"@ ==> cols[j].title@ == "Created"@ && row.drawn()[j] == CellView::<usize>::Date(ms_text(snap.templates@[i].created_at), snap.templates@[i].created_at.deep_view())
            &&& cols[j].id@ == "source"@ ==> cols[j].title@ == "Source"@ && row.drawn()[j] == CellView::<usize>::Styled(snap.templates@[i].detail@, "muted"@)
            &&& cols[j].id@ == "load"@ ==> cols[j].title@ == ""@ && row.drawn()[j] == CellView::<usize>::Action(i as usize)
        }),
{
    lemma_a_template_row_goes_by_its_columns();
    assert(is_row(p.table.rows@[i], snap.templates@[i].name@, template_cells(snap.templates@[i], i as usize), false));
}

proof fn lemma_a_template_row_goes_by_its_columns()
    ensures
        "name"@ != "objective"@,
        "name"@ != "created"@,
        "name"@ != "source"@,
        "name"@ != "load"@,
        "objective"@ != "created"@,
        "objective"@ != "source"@,
        "objective"@ != "load"@,
        "created"@ != "source"@,
        "created"@ != "load"@,
        "source"@ != "load"@,
{
    reveal_strlit("name");
    reveal_strlit("objective");
    reveal_strlit("created");
    reveal_strlit("source");
    reveal_strlit("load");
    assert("name"@.len() != "objective"@.len());
    assert("name"@.len() != "created"@.len());
    assert("name"@.len() != "source"@.len());
    assert("name"@[0] != "load"@[0]);
    assert("objective"@.len() != "created"@.len());
    assert("objective"@.len() != "source"@.len());
    assert("objective"@.len() != "load"@.len());
    assert("created"@.len() != "source"@.len());
    assert("created"@.len() != "load"@.len());
    assert("source"@.len() != "load"@.len());
}

/// Under each column of the reports stands what the column names.
pub proof fn a_report_row_goes_by_its_columns(snap: ClusterSnapshot, p: Page, i: int, j: int)
    requires
        is_reports_page(snap, p),

        0 <= i < snap.reports@.len(),
        0 <= j < p.table.columns@.len(),
    ensures
        p.table.rows@.len() == snap.reports@.len(),
        ({
            let cols = p.table.columns@;
            let row = p.table.rows@[i];
            &&& row.drawn().len() == cols.len()
            &&& row.key@ == snap.reports@[i].name@
            &&& row.selected == false
            &&& cols[j].id@ == "name"@ ==> cols[j].title@ == "Report"@ && row.drawn()[j] == CellView::<usize>::Text(snap.reports@[i].name@)
            &&& cols[j].id@ == "campaign"@ ==> cols[j].title@ == "Campaign"@ && row.drawn()[j] == CellView::<usize>::Text(snap.reports@[i].campaign_ref@)
            &&& cols[j].id@ == "title"@ ==> cols[j].title@ == "Title"@ && row.drawn()[j] == CellView::<usize>::Text(snap.reports@[i].title@)
            &&& cols[j].id@ == "phase"@ ==> cols[j].title@ == "Phase"@ && row.drawn()[j] == CellView::<usize>::Styled(snap.reports@[i].phase@, "phase"@)
            &&& cols[j].id@ == "created"@ ==> cols[j].title@ == "Created"@ && row.drawn()[j] == CellView::<usize>::Date(ms_text(snap.reports@[i].created_at), snap.reports@[i].created_at.deep_view())
            &&& cols[j].id@ == "excluded"@ ==> cols[j].title@ == "Excluded"@ && row.drawn()[j] == CellView::<usize>::Count(snap.reports@[i].excluded_count as i128, decimal(snap.reports@[i].excluded_count as nat))
            &&& cols[j].id@ == "load"@ ==> cols[j].title@ == ""@ && row.drawn()[j] == CellView::<usize>::Action(i as usize)
        }),
{
    lemma_a_report_row_goes_by_its_columns();
    assert(is_row(p.table.rows@[i], snap.reports@[i].name@, report_cells(snap.reports@[i], i as usize), false));
}

proof fn lemma_a_report_row_goes_by_its_columns()
    ensures
        "name"@ != "campaign"@,
        "name"@ != "title"@,
        "name"@ != "phase"@,
        "name"@ != "created"@,
        "name"@ != "excluded"@,
        "name"@ != "load"@,
        "campaign"@ != "title"@,
        "campaign"@ != "phase"@,
        "campaign"@ != "created"@,
        "campaign"@ != "excluded"@,
        "campaign"@ != "load"@,
        "title"@ != "phase"@,
        "title"@ != "created"@,
        "title"@ != "excluded"@,
        "title"@ != "load"@,
        "phase"@ != "created"@,
        "phase"@ != "excluded"@,
        "phase"@ != "load"@,
        "created"@ != "excluded"@,
        "created"@ != "load"@,
        "excluded"@ != "load"@,
{
    reveal_strlit("name");
    reveal_strlit("campaign");
    reveal_strlit("title");
    reveal_strlit("phase");
    reveal_strlit("created");
    reveal_strlit("excluded");
    reveal_strlit("load");
    assert("name"@.len() != "campaign"@.len());
    assert("name"@.len() != "title"@.len());
    assert("name"@.len() != "phase"@.len());
    assert("name"@.len() != "created"@.len());
    assert("name"@.len() != "excluded"@.len());
    assert("name"@[0] != "load"@[0]);
    assert("campaign"@.len() != "title"@.len());
    assert("campaign"@.len() != "phase"@.len());
    assert("campaign"@.len() != "created"@.len());
    assert("campaign"@[0] != "excluded"@[0]);
    assert("campaign"@.len() != "load"@.len());
    assert("title"@[0] != "phase"@[0]);
    assert("title"@.len() != "created"@.len());
    assert("title"@.len() != "excluded"@.len());
    assert("title"@.len() != "load"@.len());
    assert("phase"@.len() != "created"@.len());
    assert("phase"@.len() != "excluded"@.len());
    assert("phase"@.len() != "load"@.len());
    assert("created"@.len() != "excluded"@.len());
    assert("created"@.len() != "load"@.len());
    assert("excluded"@.len() != "load"@.len());
}

/// Under each column of a resource list stands what the column names.
pub proof fn a_resource_row_goes_by_its_columns(list: Seq<ResourceSummary>, name_col: &'static str, detail_col: &'static str, t: Table, i: int, j: int)
    requires
        is_resource_table(list, name_col, detail_col, t),

        0 <= i < list.len(),
        0 <= j < t.columns@.len(),
    ensures
        t.rows@.len() == list.len(),
        ({
            let cols = t.columns@;
            let row = t.rows@[i];
            &&& row.drawn().len() == cols.len()
            &&& row.key@ == list[i].name@
            &&& row.selected == false
            &&& cols[j].id@ == "name"@ ==> cols[j].title@ == name_col@ && row.drawn()[j] == CellView::<usize>::Text(list[i].name@)
            &&& cols[j].id@ == "phase"@ ==> cols[j].title@ == "Phase"@ && row.drawn()[j] == CellView::<usize>::Styled(list[i].phase@, "phase"@)
            &&& cols[j].id@ == "created"@ ==> cols[j].title@ == "Created"@ && row.drawn()[j] == CellView::<usize>::Date(ms_text(list[i].created_at), list[i].created_at.deep_view())
            &&& cols[j].id@ == "detail"@ ==> cols[j].title@ == detail_col@ && row.drawn()[j] == CellView::<usize>::Styled(list[i].detail@, "muted"@)
        }),
{
    lemma_a_resource_row_goes_by_its_columns();
    assert(is_row(t.rows@[i], list[i].name@, resource_cells(list[i]), false));
}

proof fn lemma_a_resource_row_goes_by_its_columns()
    ensures
        "name"@ != "phase"@,
        "name"@ != "created"@,
        "name"@ != "detail"@,
        "phase"@ != "created"@,
        "phase"@ != "detail"@,
        "created"@ != "detail"@,
{
    reveal_strlit("name");
    reveal_strlit("phase");
    reveal_strlit("created");
    reveal_strlit("detail");
    assert("name"@.len() != "phase"@.len());
    assert("name"@.len() != "created"@.len());
    assert("name"@.len() != "detail"@.len());
    assert("phase"@.len() != "created"@.len());
    assert("phase"@.len() != "detail"@.len());
    assert("created"@.len() != "detail"@.len());
}

/// Every experiment and every campaign has a row under its own name, and just the selected one is
/// highlighted.
pub proof fn the_selected_row_is_highlighted(
    snap: ClusterSnapshot,
    selected: Option<ResourceSummary>,
    e: Page,
    c: Page,
    i: int,
)
    requires
        is_experiments_page(snap, selected, e),
        is_campaigns_page(snap, selected, c),
    ensures
        e.table.rows@.len() == snap.experiments@.len(),
        c.table.rows@.len() == snap.campaigns@.len(),
        0 <= i < snap.experiments@.len() ==> e.table.rows@[i].key@ == snap.experiments@[i].name@
            && (e.table.rows@[i].selected <==> selected is Some && selected->0.name@
            == snap.experiments@[i].name@),
        0 <= i < snap.campaigns@.len() ==> c.table.rows@[i].key@ == snap.campaigns@[i].name@ && (
        c.table.rows@[i].selected <==> selected is Some && selected->0.name@
            == snap.campaigns@[i].name@),
        0 <= i < snap.experiments@.len() ==> e.table.rows@[i].drawn() == experiment_cell_list(
            snap.experiments@[i],
            i as usize,
            true,
        ),
        0 <= i < snap.campaigns@.len() ==> c.table.rows@[i].drawn() == campaign_cell_list(
            snap.campaigns@[i],
            i as usize,
            label_of(snap.campaigns@[i]),
        ),
        e.table.columns@ == experiment_column_list(true),
        c.table.columns@ == campaign_column_list(),
        e.table.order == Some(("created", SortDir::Desc)),
        c.table.order == Some(("created", SortDir::Desc)),
{
    if 0 <= i < snap.experiments@.len() {
        assert(is_row(
            e.table.rows@[i],
            snap.experiments@[i].name@,
            experiment_cell_list(snap.experiments@[i], i as usize, true),
            is_selected(selected, snap.experiments@[i].name@),
        ));
    }
    if 0 <= i < snap.campaigns@.len() {
        assert(is_row(
            c.table.rows@[i],
            snap.campaigns@[i].name@,
            campaign_cell_list(snap.campaigns@[i], i as usize, label_of(snap.campaigns@[i])),
            is_selected(selected, snap.campaigns@[i].name@),
        ));
    }
}

/// The lists of suites, runs and profiles stand apart: each holds its own resources under its own
/// heading.
pub proof fn the_resource_lists_stand_apart(
    snap: ClusterSnapshot,
    b: BenchmarksPage,
    r: Page,
    i: int,
)
    requires
        is_benchmarks_page(snap, b),
        is_runtime_page(snap, r),
    ensures
        b.suites.rows@.len() == snap.benchmark_suites@.len(),
        b.runs.rows@.len() == snap.benchmark_runs@.len(),
        r.table.rows@.len() == snap.runtime_profiles@.len(),
        b.suites.columns@[0].title@ == "BenchmarkSuite"@,
        b.runs.columns@[0].title@ == "BenchmarkRun"@,
        r.table.columns@[0].title@ == "RuntimeProfile"@,
        0 <= i < snap.benchmark_suites@.len() ==> b.suites.rows@[i].key@
            == snap.benchmark_suites@[i].name@,
        0 <= i < snap.benchmark_runs@.len() ==> b.runs.rows@[i].key@
            == snap.benchmark_runs@[i].name@,
        0 <= i < snap.runtime_profiles@.len() ==> r.table.rows@[i].key@
            == snap.runtime_profiles@[i].name@,
{
    if 0 <= i < snap.benchmark_suites@.len() {
        let x = snap.benchmark_suites@[i];
        assert(is_row(b.suites.rows@[i], x.name@, resource_cells(x), false));
    }
    if 0 <= i < snap.benchmark_runs@.len() {
        let x = snap.benchmark_runs@[i];
        assert(is_row(b.runs.rows@[i], x.name@, resource_cells(x), false));
    }
    if 0 <= i < snap.runtime_profiles@.len() {
        let x = snap.runtime_profiles@[i];
        assert(is_row(r.table.rows@[i], x.name@, resource_cells(x), false));
    }
}

/// The detail of a resource is its own: name, namespace, phase, detail, and its workspace or that
/// none was reported.
pub proof fn a_detail_is_of_the_selected_resource(s: ResourceSummary, p: DetailPage)
    requires
        is_detail_page(s, p),
    ensures
        p.title@ == s.name@,
        p.phase@ == s.phase@,
        p.namespace@ == s.namespace@,
        p.detail@ == s.detail@,
        s.workspace_path matches Some(w) ==> p.workspace@ == w@,
        s.workspace_path is None ==> p.workspace@ == "Not reported"@,
        p.manifest@ == "k8s://"@ + s.namespace@ + "/"@ + s.kind@ + "/"@ + s.name@ + ".yaml"@,
        p.note@ == s.namespace@ + " / "@ + s.kind@ + " · phase "@ + s.phase@,
{
}

/// The dashboard of a campaign asks for the campaign, that of anything else for the experiment, each
/// by its own name, from before the start to after the end.
pub proof fn a_dashboard_asks_for_its_resource(s: ResourceSummary, d: Dashboard)
    requires
        is_dashboard_of(s, d),
    ensures
        d.value@ == s.name@,
        d.var@ == "campaign"@ <==> s.kind@ == "researchcampaign"@,
        d.var@ == "experiment"@ <==> s.kind@ != "researchcampaign"@,
        d.from@ == window_of(s).0 && d.to@ == window_of(s).1,
{
    reveal_strlit("campaign");
    reveal_strlit("experiment");
    assert("campaign"@.len() != "experiment"@.len());
}

/// The tabs stand for the views in their order: just the active one is active, and just those that
/// are no preset can be taken away.
pub proof fn tabs_stand_for_views(
    registry: SavedViews,
    presets: Seq<Seq<char>>,
    tabs: Seq<ViewTab>,
    i: int,
)
    requires
        are_tabs(registry, presets, tabs),
        0 <= i < registry.views@.len(),
    ensures
        tabs.len() == registry.views@.len(),
        tabs[i].name@ == registry.views@[i]@,
        tabs[i].active <==> registry.views@[i]@ == registry.active@,
        tabs[i].custom <==> forall|k: int|
            0 <= k < presets.len() ==> #[trigger] presets[k] != registry.views@[i]@,
{
    assert(tabs[i].name@ == registry.views@[i]@);
    let name = registry.views@[i]@;
    if presets.contains(name) {
        let k = presets.index_of(name);
        assert(presets[k] == name);
    }
}

} // verus!

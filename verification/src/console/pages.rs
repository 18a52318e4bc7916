//! What the native console shows.

use vstd::prelude::*;
use crate::console::records::{
    ClusterSnapshot, MetricPanelSummary, ResourceManifestRef, ResourceSummary, TemplateSummary,
};
use crate::console::state::{
    all_resources, meant, AthenaConsole, ConsoleView, PhaseFilter,
};
use crate::dossier::parts::{or_text, text_or};
use crate::models::manifest_name;
use crate::numeral::{decimal, wide_decimal_of};
use crate::snapshot::copy_text;

verus! {

broadcast use vstd::seq_lib::group_seq_properties;

// ---------------------------------------------------------------------------
// Tables
// ---------------------------------------------------------------------------

/// How many pixels one portion of a table is wide.
pub const PORTION_PX: u64 = 170;

/// How many pixels lie between two columns.
pub const SPACING_PX: u64 = 16;

/// One column of a table.
#[derive(Debug, Clone, Copy, PartialEq, Eq)]
pub struct TableColumn {
    pub title: &'static str,
    /// In pixels.
    pub width: u64,
}

/// A column of so many portions.
pub open spec fn portions(title: &'static str, portion: u16) -> TableColumn {
    TableColumn { title, width: (portion * PORTION_PX) as u64 }
}

impl TableColumn {
    /// A column of so many portions.
    pub fn portion(title: &'static str, portion: u16) -> (r: Self)
        ensures
            r == portions(title, portion),
    {
        TableColumn { title, width: portion as u64 * PORTION_PX }
    }
}

/// The widths of the columns together.
pub open spec fn widths(columns: Seq<TableColumn>) -> int
    decreases columns.len(),
{
    if columns.len() == 0 {
        0
    } else {
        widths(columns.drop_last()) + columns.last().width
    }
}

/// The width of a table: its columns, and what lies between them.
pub open spec fn width_of(columns: Seq<TableColumn>) -> int {
    widths(columns) + (if columns.len() == 0 {
        0
    } else {
        (columns.len() - 1) * SPACING_PX
    })
}

proof fn lemma_widths_grow(columns: Seq<TableColumn>, n: int)
    requires
        0 <= n <= columns.len(),
    ensures
        0 <= widths(columns.take(n)) <= widths(columns),
    decreases columns.len(),
{
    if n < columns.len() {
        assert(columns.drop_last().take(n) =~= columns.take(n));
        lemma_widths_grow(columns.drop_last(), n);
    } else {
        assert(columns.take(n) =~= columns);
        if columns.len() > 0 {
            lemma_widths_grow(columns.drop_last(), n - 1);
        }
    }
}

/// The width of a table, in pixels.
pub fn table_width(columns: &Vec<TableColumn>) -> (r: u64)
    requires
        width_of(columns@) <= u64::MAX,
    ensures
        r == width_of(columns@),
{
    let mut sum: u64 = 0;
    let mut i: usize = 0;
    proof {
        if columns@.len() > 0 {
            assert((columns@.len() - 1) * SPACING_PX >= 0) by (nonlinear_arith)
                requires
                    columns@.len() > 0,
            ;
        }
    }
    while i < columns.len()
        invariant
            i <= columns.len(),
            sum == widths(columns@.take(i as int)),
            widths(columns@) <= u64::MAX,
        decreases columns.len() - i,
    {
        assert(columns@.take(i + 1).drop_last() =~= columns@.take(i as int));
        proof {
            lemma_widths_grow(columns@, i + 1);
        }
        sum = sum + columns[i].width;
        i = i + 1;
    }
    assert(columns@.take(i as int) =~= columns@);
    if columns.len() == 0 {
        sum
    } else {
        proof {
            lemma_widths_grow(columns@, columns@.len() as int);
        }
        sum + (columns.len() - 1) as u64 * SPACING_PX
    }
}

/// The width of a cell: that of its column, and never nothing.
pub fn cell_width(column: &TableColumn) -> (r: u64)
    ensures
        r == (if column.width < 1 {
            1
        } else {
            column.width
        }),
{
    if column.width < 1 {
        1
    } else {
        column.width
    }
}

// ---------------------------------------------------------------------------
// Buttons
// ---------------------------------------------------------------------------

/// What a button asks for.
#[derive(Debug)]
pub enum Press {
    Back,
    Manifest(ResourceManifestRef),
    Workspace(String),
    Copy(String),
    Url(String),
}

/// What a button asks for.
pub ghost enum PressView {
    Back,
    Manifest(ResourceManifestRef),
    Workspace(Seq<char>),
    Copy(Seq<char>),
    Url(Seq<char>),
}

/// One button.
#[derive(Debug)]
pub struct Button {
    pub label: &'static str,
    pub press: Press,
}

impl View for Button {
    type V = (Seq<char>, PressView);

    open spec fn view(&self) -> (Seq<char>, PressView) {
        (
            self.label@,
            match self.press {
                Press::Back => PressView::Back,
                Press::Manifest(m) => PressView::Manifest(m),
                Press::Workspace(p) => PressView::Workspace(p@),
                Press::Copy(p) => PressView::Copy(p@),
                Press::Url(u) => PressView::Url(u@),
            },
        )
    }
}

/// The buttons, in order.
pub open spec fn pressed(buttons: Seq<Button>) -> Seq<(Seq<char>, PressView)> {
    buttons.map_values(|b: Button| b@)
}

/// The reference to the resource's manifest.
pub open spec fn reference_of(r: ResourceSummary) -> ResourceManifestRef {
    ResourceManifestRef { namespace: r.namespace, name: r.name, kind: r.kind }
}

/// The buttons of what the resource reports: its workspace, its logs, its metrics.
pub open spec fn reported(r: ResourceSummary) -> Seq<(Seq<char>, PressView)> {
    (match r.workspace_path {
        Some(p) => seq![
            ("Workspace"@, PressView::Workspace(p@)),
            ("Copy"@, PressView::Copy(p@)),
        ],
        None => Seq::empty(),
    }) + (match r.logs_link {
        Some(u) => seq![("Logs"@, PressView::Url(u@))],
        None => Seq::empty(),
    }) + (match r.metrics_link {
        Some(u) => seq![("Metrics"@, PressView::Url(u@))],
        None => Seq::empty(),
    })
}

/// The path that the workspace button opens: only what the resource reports as its
/// workspace, never its detail.
pub fn workspace_action_path(resource: &ResourceSummary) -> (r: Option<String>)
    ensures
        r == resource.workspace_path,
{
    copy_text(&resource.workspace_path)
}

fn push_button(buttons: &mut Vec<Button>, label: &'static str, press: Press)
    ensures
        pressed(final(buttons)@) == pressed(old(buttons)@).push((Button { label, press })@),
{
    let ghost before = pressed(buttons@);
    let b = Button { label, press };
    buttons.push(b);
    assert(pressed(buttons@) =~= before.push(b@));
}

fn push_reported(buttons: &mut Vec<Button>, r: &ResourceSummary)
    ensures
        pressed(final(buttons)@) == pressed(old(buttons)@) + reported(*r),
{
    let ghost before = pressed(buttons@);
    if let Some(path) = workspace_action_path(r) {
        push_button(buttons, "Workspace", Press::Workspace(path.clone()));
        push_button(buttons, "Copy", Press::Copy(path));
    }
    if let Some(u) = &r.logs_link {
        push_button(buttons, "Logs", Press::Url(u.clone()));
    }
    if let Some(u) = &r.metrics_link {
        push_button(buttons, "Metrics", Press::Url(u.clone()));
    }
    assert(pressed(buttons@) =~= before + reported(*r));
}

// ---------------------------------------------------------------------------
// Rows
// ---------------------------------------------------------------------------

/// One experiment of the list.
#[derive(Debug)]
pub struct ExperimentLine {
    /// The name is a button that selects the resource.
    pub select: ResourceManifestRef,
    pub phase: String,
    pub workspace: String,
    pub detail: String,
    pub actions: Vec<Button>,
}

/// The line shows the experiment.
pub open spec fn is_experiment_line(e: ResourceSummary, l: ExperimentLine) -> bool {
    &&& l.select == reference_of(e)
    &&& l.phase@ == e.phase@
    &&& l.workspace@ == text_or(e.workspace_path, "Not reported"@)
    &&& l.detail@ == e.detail@
    &&& pressed(l.actions@) == seq![("Manifest IDE"@, PressView::Manifest(reference_of(e)))]
        + reported(e)
}

/// One experiment of the list.
pub fn experiment_row(e: &ResourceSummary) -> (r: ExperimentLine)
    ensures
        is_experiment_line(*e, r),
{
    let mut actions: Vec<Button> = Vec::new();
    push_button(&mut actions, "Manifest IDE", Press::Manifest(e.manifest_ref()));
    assert(pressed(actions@) =~= seq![("Manifest IDE"@, PressView::Manifest(reference_of(*e)))]);
    push_reported(&mut actions, e);
    ExperimentLine {
        select: e.manifest_ref(),
        phase: e.phase.clone(),
        workspace: or_text(&e.workspace_path, "Not reported").to_owned(),
        detail: e.detail.clone(),
        actions,
    }
}

/// One template of the list; its button loads the YAML.
#[derive(Debug)]
pub struct TemplateLine {
    pub name: String,
    pub namespace: String,
    pub objective: String,
    pub detail: String,
}

/// The line shows the template.
pub open spec fn is_template_line(t: TemplateSummary, l: TemplateLine) -> bool {
    &&& l.name@ == t.name@
    &&& l.namespace@ == t.namespace@
    &&& l.objective@ == t.objective@
    &&& l.detail@ == t.detail@
}

/// One template of the list.
pub fn template_row(t: &TemplateSummary) -> (r: TemplateLine)
    ensures
        is_template_line(*t, r),
{
    TemplateLine {
        name: t.name.clone(),
        namespace: t.namespace.clone(),
        objective: t.objective.clone(),
        detail: t.detail.clone(),
    }
}

/// One suite, run or profile of a list.
#[derive(Debug)]
pub struct ResourceLine {
    /// The name is a button that selects the resource.
    pub select: ResourceManifestRef,
    pub phase: String,
    pub detail: String,
    /// The link that the button opens, where there is one.
    pub open: Option<String>,
}

/// The line shows the resource; its button opens the metrics, or the logs where there are
/// none.
pub open spec fn is_resource_line(x: ResourceSummary, l: ResourceLine) -> bool {
    &&& l.select == reference_of(x)
    &&& l.phase@ == x.phase@
    &&& l.detail@ == x.detail@
    &&& l.open == (if x.metrics_link is Some {
        x.metrics_link
    } else {
        x.logs_link
    })
}

/// One suite, run or profile of a list.
pub fn resource_row(x: &ResourceSummary) -> (r: ResourceLine)
    ensures
        is_resource_line(*x, r),
{
    ResourceLine {
        select: x.manifest_ref(),
        phase: x.phase.clone(),
        detail: x.detail.clone(),
        open: if x.metrics_link.is_some() {
            copy_text(&x.metrics_link)
        } else {
            copy_text(&x.logs_link)
        },
    }
}

/// One line for each resource, in order.
pub open spec fn resource_lines(list: Seq<ResourceSummary>, lines: Seq<ResourceLine>) -> bool {
    &&& lines.len() == list.len()
    &&& forall|i: int| 0 <= i < list.len() ==> is_resource_line(list[i], #[trigger] lines[i])
}

fn lines_of_resources(list: &Vec<ResourceSummary>) -> (r: Vec<ResourceLine>)
    ensures
        resource_lines(list@, r@),
{
    let mut out: Vec<ResourceLine> = Vec::new();
    let mut i: usize = 0;
    while i < list.len()
        invariant
            i <= list.len(),
            out@.len() == i,
            forall|k: int| 0 <= k < i ==> is_resource_line(list@[k], #[trigger] out@[k]),
        decreases list.len() - i,
    {
        out.push(resource_row(&list[i]));
        i = i + 1;
    }
    out
}

// ---------------------------------------------------------------------------
// Metric panels
// ---------------------------------------------------------------------------

/// The metric panels of the resources, in order.
pub open spec fn panels_in(list: Seq<ResourceSummary>) -> Seq<MetricPanelSummary>
    decreases list.len(),
{
    if list.len() == 0 {
        Seq::empty()
    } else {
        panels_in(list.drop_last()) + list.last().metric_panels@
    }
}

/// The references, followed.
pub open spec fn followed(v: Seq<&MetricPanelSummary>) -> Seq<MetricPanelSummary> {
    v.map_values(|p: &MetricPanelSummary| *p)
}

fn push_panels<'a>(out: &mut Vec<&'a MetricPanelSummary>, list: &'a Vec<ResourceSummary>)
    ensures
        followed(final(out)@) == followed(old(out)@) + panels_in(list@),
{
    let ghost before = followed(out@);
    let mut i: usize = 0;
    assert(before + panels_in(list@.take(0)) =~= before);
    while i < list.len()
        invariant
            i <= list.len(),
            followed(out@) == before + panels_in(list@.take(i as int)),
        decreases list.len() - i,
    {
        assert(list@.take(i + 1).drop_last() =~= list@.take(i as int));
        let panels = &list[i].metric_panels;
        let ghost here = followed(out@);
        let mut k: usize = 0;
        assert(here + panels@.take(0) =~= here);
        while k < panels.len()
            invariant
                k <= panels.len(),
                followed(out@) == here + panels@.take(k as int),
            decreases panels.len() - k,
        {
            let ghost so_far = out@;
            let p = &panels[k];
            out.push(p);
            assert(followed(out@) =~= followed(so_far).push(*p));
            assert(panels@.take(k + 1) =~= panels@.take(k as int).push(*p));
            assert(followed(so_far).push(*p) =~= here + panels@.take(k + 1));
            k = k + 1;
        }
        assert(panels@.take(k as int) =~= panels@);
        assert(here + panels@ =~= before + panels_in(list@.take(i + 1)));
        i = i + 1;
    }
    assert(list@.take(i as int) =~= list@);
}

/// The most panels that the experiment list shows.
pub const PANELS_SHOWN: usize = 6;

impl AthenaConsole {
    /// The metric panels of the experiments and the benchmark runs.
    pub fn metric_panels(&self) -> (r: Vec<&MetricPanelSummary>)
        ensures
            followed(r@) == panels_in(self.snapshot.experiments@) + panels_in(
                self.snapshot.benchmark_runs@,
            ),
    {
        let mut out: Vec<&MetricPanelSummary> = Vec::new();
        assert(followed(out@) =~= Seq::empty());
        push_panels(&mut out, &self.snapshot.experiments);
        push_panels(&mut out, &self.snapshot.benchmark_runs);
        out
    }

    /// The panels that the experiment list shows: the first ones.
    pub fn metrics_debugging_panel(&self) -> (r: Vec<&MetricPanelSummary>)
        ensures
            ({
                let all = panels_in(self.snapshot.experiments@) + panels_in(
                    self.snapshot.benchmark_runs@,
                );
                followed(r@) == all.take(
                    if all.len() < PANELS_SHOWN {
                        all.len() as int
                    } else {
                        PANELS_SHOWN as int
                    },
                )
            }),
    {
        let all = self.metric_panels();
        let n: usize = if all.len() < PANELS_SHOWN {
            all.len()
        } else {
            PANELS_SHOWN
        };
        let mut out: Vec<&MetricPanelSummary> = Vec::new();
        let mut i: usize = 0;
        while i < n
            invariant
                i <= n,
                n <= all.len(),
                out@ == all@.take(i as int),
            decreases n - i,
        {
            out.push(all[i]);
            assert(out@ =~= all@.take(i + 1));
            i = i + 1;
        }
        assert(followed(out@) =~= followed(all@).take(n as int));
        out
    }
}

// ---------------------------------------------------------------------------
// Pages
// ---------------------------------------------------------------------------

/// The experiments that the filter lets through, in order.
pub open spec fn let_through(list: Seq<ResourceSummary>, filter: PhaseFilter) -> Seq<ResourceSummary>
    decreases list.len(),
{
    if list.len() == 0 {
        Seq::empty()
    } else {
        let rest = let_through(list.drop_last(), filter);
        if filter.passes(list.last().phase@) {
            rest.push(list.last())
        } else {
            rest
        }
    }
}

/// One line for each experiment, in order.
pub open spec fn experiment_lines(list: Seq<ResourceSummary>, lines: Seq<ExperimentLine>) -> bool {
    &&& lines.len() == list.len()
    &&& forall|i: int| 0 <= i < list.len() ==> is_experiment_line(list[i], #[trigger] lines[i])
}

/// One line for each template, in order.
pub open spec fn template_lines(list: Seq<TemplateSummary>, lines: Seq<TemplateLine>) -> bool {
    &&& lines.len() == list.len()
    &&& forall|i: int| 0 <= i < list.len() ==> is_template_line(list[i], #[trigger] lines[i])
}

/// The details of the selected resource.
#[derive(Debug)]
pub struct ResourcePage {
    pub title: String,
    pub note: String,
    pub actions: Vec<Button>,
    pub phase: String,
    pub namespace: String,
    pub kind: String,
    pub detail: String,
    pub workspace: String,
    pub manifest: String,
}

/// The page shows the resource.
pub open spec fn is_resource_page(x: ResourceSummary, p: ResourcePage) -> bool {
    &&& p.title@ == x.name@
    &&& p.note@ == x.namespace@ + " / "@ + x.kind@
    &&& pressed(p.actions@) == seq![
        ("Back"@, PressView::Back),
        ("Manifest IDE"@, PressView::Manifest(reference_of(x))),
    ] + reported(x)
    &&& p.phase@ == x.phase@
    &&& p.namespace@ == x.namespace@
    &&& p.kind@ == x.kind@
    &&& p.detail@ == x.detail@
    &&& p.workspace@ == text_or(x.workspace_path, "Not reported"@)
    &&& p.manifest@ == manifest_name(x.namespace@, x.kind@, x.name@)
}

fn resource_page(x: &ResourceSummary) -> (r: ResourcePage)
    ensures
        is_resource_page(*x, r),
{
    let mut actions: Vec<Button> = Vec::new();
    push_button(&mut actions, "Back", Press::Back);
    push_button(&mut actions, "Manifest IDE", Press::Manifest(x.manifest_ref()));
    assert(pressed(actions@) =~= seq![
        ("Back"@, PressView::Back),
        ("Manifest IDE"@, PressView::Manifest(reference_of(*x))),
    ]);
    push_reported(&mut actions, x);
    let mut note = x.namespace.clone();
    note.append(" / ");
    note.append(x.kind.as_str());
    ResourcePage {
        title: x.name.clone(),
        note,
        actions,
        phase: x.phase.clone(),
        namespace: x.namespace.clone(),
        kind: x.kind.clone(),
        detail: x.detail.clone(),
        workspace: or_text(&x.workspace_path, "Not reported").to_owned(),
        manifest: x.manifest_ref().manifest_path(),
    }
}

/// The message on a resource that is gone.
pub open spec fn gone_text(m: ResourceManifestRef) -> Seq<char> {
    m.kind@ + " "@ + m.namespace@ + "/"@ + m.name@
        + " is no longer present in the loaded snapshot."@
}

/// What stands below the navigation.
#[derive(Debug)]
pub enum Body {
    /// The resources are being loaded.
    Loading(&'static str),
    /// The resources could not be loaded.
    Failed(String),
    /// The selected resource.
    Resource(ResourcePage),
    /// The selected resource is gone.
    Gone(String),
    Experiments(Vec<ExperimentLine>),
    Templates(Vec<TemplateLine>),
    /// The suites, and the runs.
    Benchmarks(Vec<ResourceLine>, Vec<ResourceLine>),
    Runtime(Vec<ResourceLine>),
}

/// The body shows the selected resource, else the active list; nothing before the resources
/// are loaded.
pub open spec fn is_body(c: AthenaConsole, b: Body) -> bool {
    if c.loading {
        b matches Body::Loading(s) && s@ == "Loading Athena resources from kubeconfig..."@
    } else if c.error is Some {
        b matches Body::Failed(s) && s@ == "Failed to load cluster resources: "@ + c.error->0@
    } else if c.selected_resource is Some {
        match meant(all_resources(c.snapshot), c.selected_resource->0) {
            Some(x) => b matches Body::Resource(p) && is_resource_page(x, p),
            None => b matches Body::Gone(s) && s@ == gone_text(c.selected_resource->0),
        }
    } else {
        match c.active_view {
            ConsoleView::Experiments => b matches Body::Experiments(v) && experiment_lines(
                let_through(c.snapshot.experiments@, c.phase_filter),
                v@,
            ),
            ConsoleView::Templates => b matches Body::Templates(v) && template_lines(
                c.snapshot.templates@,
                v@,
            ),
            ConsoleView::Benchmarks => b matches Body::Benchmarks(s, r) && resource_lines(
                c.snapshot.benchmark_suites@,
                s@,
            ) && resource_lines(c.snapshot.benchmark_runs@, r@),
            ConsoleView::Runtime => b matches Body::Runtime(v) && resource_lines(
                c.snapshot.runtime_profiles@,
                v@,
            ),
        }
    }
}

/// One button of the navigation.
#[derive(Debug)]
pub struct NavButton {
    pub view: ConsoleView,
    pub label: String,
    pub active: bool,
}

/// The name of the list in capitals.
pub open spec fn capitals(view: ConsoleView) -> Seq<char> {
    match view {
        ConsoleView::Experiments => "EXPERIMENTS"@,
        ConsoleView::Templates => "TEMPLATES"@,
        ConsoleView::Benchmarks => "BENCHMARKS"@,
        ConsoleView::Runtime => "RUNTIME"@,
    }
}

/// How many resources the list holds.
pub open spec fn listed(s: ClusterSnapshot, view: ConsoleView) -> nat {
    match view {
        ConsoleView::Experiments => s.experiments@.len(),
        ConsoleView::Templates => s.templates@.len(),
        ConsoleView::Benchmarks => s.benchmark_runs@.len() + s.benchmark_suites@.len(),
        ConsoleView::Runtime => s.runtime_profiles@.len(),
    }
}

/// The button of the list.
pub open spec fn is_nav_button(c: AthenaConsole, view: ConsoleView, b: NavButton) -> bool {
    &&& b.view == view
    &&& b.label@ == capitals(view) + "  ["@ + decimal(listed(c.snapshot, view)) + "]"@
    &&& b.active == (c.active_view == view)
}

/// The whole window.
#[derive(Debug)]
pub struct ConsolePage {
    pub nav: Vec<NavButton>,
    pub body: Body,
    pub status: String,
}

/// The window shows the state.
pub open spec fn is_console_page(c: AthenaConsole, p: ConsolePage) -> bool {
    let views = seq![
        ConsoleView::Experiments,
        ConsoleView::Templates,
        ConsoleView::Benchmarks,
        ConsoleView::Runtime,
    ];
    &&& p.nav@.len() == views.len()
    &&& forall|i: int|
        0 <= i < views.len() ==> is_nav_button(c, views[i], #[trigger] p.nav@[i])
    &&& is_body(c, p.body)
    &&& p.status@ == text_or(c.action_status, Seq::empty())
}

impl AthenaConsole {
    fn nav_button(&self, view: ConsoleView) -> (r: NavButton)
        ensures
            is_nav_button(*self, view, r),
    {
        let name = match view {
            ConsoleView::Experiments => "EXPERIMENTS",
            ConsoleView::Templates => "TEMPLATES",
            ConsoleView::Benchmarks => "BENCHMARKS",
            ConsoleView::Runtime => "RUNTIME",
        };
        let mut label = name.to_owned();
        label.append("  [");
        label.append(wide_decimal_of(self.count_for(view)).as_str());
        label.append("]");
        NavButton { view, label, active: self.active_view == view }
    }

    /// The experiments that the filter lets through.
    pub fn experiments_view(&self) -> (r: Vec<ExperimentLine>)
        ensures
            experiment_lines(let_through(self.snapshot.experiments@, self.phase_filter), r@),
    {
        let list = &self.snapshot.experiments;
        let mut out: Vec<ExperimentLine> = Vec::new();
        let mut i: usize = 0;
        while i < list.len()
            invariant
                i <= list.len(),
                experiment_lines(let_through(list@.take(i as int), self.phase_filter), out@),
            decreases list.len() - i,
        {
            assert(list@.take(i + 1).drop_last() =~= list@.take(i as int));
            if self.phase_filter.lets_through(list[i].phase.as_str()) {
                out.push(experiment_row(&list[i]));
            }
            i = i + 1;
        }
        assert(list@.take(i as int) =~= list@);
        out
    }

    /// The templates.
    pub fn templates_view(&self) -> (r: Vec<TemplateLine>)
        ensures
            template_lines(self.snapshot.templates@, r@),
    {
        let list = &self.snapshot.templates;
        let mut out: Vec<TemplateLine> = Vec::new();
        let mut i: usize = 0;
        while i < list.len()
            invariant
                i <= list.len(),
                out@.len() == i,
                forall|k: int| 0 <= k < i ==> is_template_line(list@[k], #[trigger] out@[k]),
            decreases list.len() - i,
        {
            out.push(template_row(&list[i]));
            i = i + 1;
        }
        out
    }

    /// The selected resource, or a message where it is gone.
    pub fn resource_view(&self, resource_ref: &ResourceManifestRef) -> (r: Body)
        ensures
            match meant(all_resources(self.snapshot), *resource_ref) {
                Some(x) => r matches Body::Resource(p) && is_resource_page(x, p),
                None => r matches Body::Gone(s) && s@ == gone_text(*resource_ref),
            },
    {
        match self.find_resource(resource_ref) {
            Some(x) => Body::Resource(resource_page(x)),
            None => {
                let mut s = resource_ref.kind.clone();
                s.append(" ");
                s.append(resource_ref.namespace.as_str());
                s.append("/");
                s.append(resource_ref.name.as_str());
                s.append(" is no longer present in the loaded snapshot.");
                Body::Gone(s)
            },
        }
    }

    /// What stands below the navigation.
    pub fn body(&self) -> (r: Body)
        ensures
            is_body(*self, r),
    {
        if self.loading {
            return Body::Loading("Loading Athena resources from kubeconfig...");
        }
        if let Some(error) = &self.error {
            let mut s = "Failed to load cluster resources: ".to_owned();
            s.append(error.as_str());
            return Body::Failed(s);
        }
        if let Some(resource) = &self.selected_resource {
            return self.resource_view(resource);
        }
        match self.active_view {
            ConsoleView::Experiments => Body::Experiments(self.experiments_view()),
            ConsoleView::Templates => Body::Templates(self.templates_view()),
            ConsoleView::Benchmarks => Body::Benchmarks(
                lines_of_resources(&self.snapshot.benchmark_suites),
                lines_of_resources(&self.snapshot.benchmark_runs),
            ),
            ConsoleView::Runtime => Body::Runtime(
                lines_of_resources(&self.snapshot.runtime_profiles),
            ),
        }
    }

    /// The whole window.
    pub fn window(&self) -> (r: ConsolePage)
        ensures
            is_console_page(*self, r),
    {
        let views = ConsoleView::all();
        let mut nav: Vec<NavButton> = Vec::new();
        let mut i: usize = 0;
        while i < views.len()
            invariant
                i <= views.len(),
                nav@.len() == i,
                forall|k: int| 0 <= k < i ==> is_nav_button(*self, views@[k], #[trigger] nav@[k]),
            decreases views.len() - i,
        {
            nav.push(self.nav_button(views[i]));
            i = i + 1;
        }
        ConsolePage {
            nav,
            body: self.body(),
            status: match &self.action_status {
                Some(s) => s.clone(),
                None => String::new(),
            },
        }
    }
}

/// A resource that reports no workspace has no workspace button, whatever its detail says.
pub proof fn a_detail_is_no_workspace(x: ResourceSummary, k: int)
    requires
        x.workspace_path is None,
        0 <= k < reported(x).len(),
    ensures
        reported(x)[k].1 is Url,
{
}

/// The filter hides exactly the experiments in other phases: what is shown is listed in the
/// phase, and what is listed in the phase is shown.
pub proof fn the_filter_hides_other_phases(list: Seq<ResourceSummary>, filter: PhaseFilter)
    ensures
        forall|k: int|
            0 <= k < let_through(list, filter).len() ==> list.contains(
                #[trigger] let_through(list, filter)[k],
            ) && filter.passes(let_through(list, filter)[k].phase@),
        forall|i: int|
            0 <= i < list.len() && filter.passes((#[trigger] list[i]).phase@) ==> let_through(
                list,
                filter,
            ).contains(list[i]),
        filter is All ==> let_through(list, filter) == list,
    decreases list.len(),
{
    if list.len() > 0 {
        let t = list.drop_last();
        the_filter_hides_other_phases(t, filter);
        let all = let_through(list, filter);
        let rest = let_through(t, filter);
        assert forall|k: int| 0 <= k < all.len() implies list.contains(#[trigger] all[k])
            && filter.passes(all[k].phase@) by {
            if k < rest.len() {
                assert(all[k] == rest[k]);
                let i = t.index_of(rest[k]);
                assert(list[i] == rest[k]);
            } else {
                assert(list[list.len() - 1] == all[k]);
            }
        }
        assert forall|i: int|
            0 <= i < list.len() && filter.passes(
                (#[trigger] list[i]).phase@,
            ) implies all.contains(list[i]) by {
            if i < t.len() {
                assert(t[i] == list[i]);
                let k = rest.index_of(list[i]);
                assert(all[k] == list[i]);
            } else {
                assert(all[all.len() - 1] == list[i]);
            }
        }
        if filter is All {
            assert(all =~= list);
        }
    }
}

/// A view is headed by its name in capitals.
pub proof fn a_view_is_headed_in_capitals(x: ConsoleView)
    ensures
        capitals(x) == "EXPERIMENTS"@ <==> x is Experiments,
        capitals(x) == "TEMPLATES"@ <==> x is Templates,
        capitals(x) == "BENCHMARKS"@ <==> x is Benchmarks,
        capitals(x) == "RUNTIME"@ <==> x is Runtime,
{
    reveal_strlit("EXPERIMENTS");
    reveal_strlit("TEMPLATES");
    reveal_strlit("BENCHMARKS");
    reveal_strlit("RUNTIME");
    assert("EXPERIMENTS"@.len() != "TEMPLATES"@.len());
    assert("EXPERIMENTS"@.len() != "BENCHMARKS"@.len());
    assert("EXPERIMENTS"@.len() != "RUNTIME"@.len());
    assert("TEMPLATES"@.len() != "BENCHMARKS"@.len());
    assert("TEMPLATES"@.len() != "RUNTIME"@.len());
    assert("BENCHMARKS"@.len() != "RUNTIME"@.len());
}

/// A resource offers what it has: its workspace to open and to copy, its logs and its metrics, each
/// with its own address.
pub proof fn a_resource_offers_what_it_has(r: ResourceSummary)
    ensures
        r.workspace_path matches Some(p) ==> reported(r).contains(
            ("Workspace"@, PressView::Workspace(p@)),
        ) && reported(r).contains(("Copy"@, PressView::Copy(p@))),
        r.logs_link matches Some(u) ==> reported(r).contains(("Logs"@, PressView::Url(u@))),
        r.metrics_link matches Some(u) ==> reported(r).contains(("Metrics"@, PressView::Url(u@))),
        reported(r).len() == (if r.workspace_path is Some {
            2int
        } else {
            0
        }) + (if r.logs_link is Some {
            1int
        } else {
            0
        }) + (if r.metrics_link is Some {
            1int
        } else {
            0
        }),
{
    let all = reported(r);
    let a: int = if r.workspace_path is Some {
        2
    } else {
        0
    };
    let b: int = if r.logs_link is Some {
        1
    } else {
        0
    };
    if let Some(p) = r.workspace_path {
        assert(all[0] == ("Workspace"@, PressView::Workspace(p@)));
        assert(all[1] == ("Copy"@, PressView::Copy(p@)));
    }
    if let Some(u) = r.logs_link {
        assert(all[a] == ("Logs"@, PressView::Url(u@)));
    }
    if let Some(u) = r.metrics_link {
        assert(all[a + b] == ("Metrics"@, PressView::Url(u@)));
    }
}

/// A line shows the resource that it selects, and opens its metrics, or else its logs.
pub proof fn a_line_is_of_its_resource(
    x: ResourceSummary,
    l: ResourceLine,
    e: ExperimentLine,
    t: TemplateSummary,
    m: TemplateLine,
)
    ensures
        is_resource_line(x, l) ==> l.select.name == x.name && l.select.namespace == x.namespace
            && l.select.kind == x.kind && l.phase@ == x.phase@ && l.detail@ == x.detail@,
        is_resource_line(x, l) && x.metrics_link is Some ==> l.open == x.metrics_link,
        is_resource_line(x, l) && x.metrics_link is None ==> l.open == x.logs_link,
        is_experiment_line(x, e) ==> e.select.name == x.name && e.select.namespace == x.namespace
            && e.select.kind == x.kind && e.phase@ == x.phase@ && e.detail@ == x.detail@,
        is_experiment_line(x, e) && x.workspace_path is Some ==> e.workspace@
            == x.workspace_path->0@,
        is_experiment_line(x, e) && x.workspace_path is None ==> e.workspace@ == "Not reported"@,
        is_template_line(t, m) ==> m.name@ == t.name@ && m.namespace@ == t.namespace@
            && m.objective@ == t.objective@ && m.detail@ == t.detail@,
{
}

/// The page of a resource is its own, and leads back.
pub proof fn a_page_is_of_its_resource(x: ResourceSummary, p: ResourcePage)
    requires
        is_resource_page(x, p),
    ensures
        p.title@ == x.name@ && p.phase@ == x.phase@ && p.namespace@ == x.namespace@,
        p.kind@ == x.kind@ && p.detail@ == x.detail@,
        x.workspace_path matches Some(w) ==> p.workspace@ == w@,
        x.workspace_path is None ==> p.workspace@ == "Not reported"@,
        p.manifest@ == "k8s://"@ + x.namespace@ + "/"@ + x.kind@ + "/"@ + x.name@ + ".yaml"@,
        p.note@ == x.namespace@ + " / "@ + x.kind@,
        p.actions@.len() == reported(x).len() + 2,
        p.actions@[0]@ == ("Back"@, PressView::Back),
{
    let all = pressed(p.actions@);
    assert(all.len() == p.actions@.len());
    assert(all[0] == p.actions@[0]@);
}

/// The console shows that it loads, else what went wrong, else the selected resource, else the list
/// of the view.
pub proof fn the_body_shows_what_comes_first(c: AthenaConsole, b: Body)
    requires
        is_body(c, b),
    ensures
        b is Loading <==> c.loading,
        b is Failed <==> !c.loading && c.error is Some,
        b is Resource || b is Gone <==> !c.loading && c.error is None
            && c.selected_resource is Some,
        b is Experiments <==> !c.loading && c.error is None && c.selected_resource is None
            && c.active_view is Experiments,
        b is Templates <==> !c.loading && c.error is None && c.selected_resource is None
            && c.active_view is Templates,
        b is Benchmarks <==> !c.loading && c.error is None && c.selected_resource is None
            && c.active_view is Benchmarks,
        b is Runtime <==> !c.loading && c.error is None && c.selected_resource is None
            && c.active_view is Runtime,
        b matches Body::Failed(s) ==> s@ == "Failed to load cluster resources: "@ + c.error->0@,
        b matches Body::Benchmarks(s, r) ==> s@.len() == c.snapshot.benchmark_suites@.len()
            && r@.len() == c.snapshot.benchmark_runs@.len(),
        b matches Body::Templates(v) ==> v@.len() == c.snapshot.templates@.len(),
        b matches Body::Runtime(v) ==> v@.len() == c.snapshot.runtime_profiles@.len(),
{
}

/// A button counts what its view lists, and is active while its view is.
pub proof fn a_nav_button_counts_its_list(c: AthenaConsole, p: ConsolePage, i: int)
    requires
        is_console_page(c, p),
        0 <= i < p.nav@.len(),
    ensures
        p.nav@.len() == 4,
        p.nav@[i].active <==> c.active_view == p.nav@[i].view,
        ({
            let n = match p.nav@[i].view {
                ConsoleView::Experiments => c.snapshot.experiments@.len(),
                ConsoleView::Templates => c.snapshot.templates@.len(),
                ConsoleView::Benchmarks => c.snapshot.benchmark_suites@.len()
                    + c.snapshot.benchmark_runs@.len(),
                ConsoleView::Runtime => c.snapshot.runtime_profiles@.len(),
            };
            p.nav@[i].label@ == capitals(p.nav@[i].view) + "  ["@ + decimal(n) + "]"@
        }),
        c.action_status matches Some(s) ==> p.status@ == s@,
        c.action_status is None ==> p.status@.len() == 0,
{
    let views = seq![
        ConsoleView::Experiments,
        ConsoleView::Templates,
        ConsoleView::Benchmarks,
        ConsoleView::Runtime,
    ];
    assert(is_nav_button(c, views[i], p.nav@[i]));
}

/// The panels of all resources stand in their order.
pub proof fn panels_stand_in_order(list: Seq<ResourceSummary>, x: ResourceSummary)
    ensures
        panels_in(list.push(x)) == panels_in(list) + x.metric_panels@,
        panels_in(Seq::empty()).len() == 0,
{
    assert(list.push(x).drop_last() =~= list);
}

/// A table is as wide as its columns and the gaps between them.
pub proof fn a_table_holds_its_columns(columns: Seq<TableColumn>, c: TableColumn)
    ensures
        columns.len() > 0 ==> width_of(columns.push(c)) == width_of(columns) + SPACING_PX + c.width,
        width_of(seq![c]) == c.width,
        width_of(Seq::empty()) == 0,
{
    assert(columns.push(c).drop_last() =~= columns);
    assert(seq![c].drop_last() =~= Seq::empty());
    reveal_with_fuel(widths, 2);
    let n = columns.len() as int;
    assert(n * SPACING_PX == (n - 1) * SPACING_PX + SPACING_PX) by (nonlinear_arith);
}

} // verus!

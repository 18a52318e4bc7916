//! The application: its state, what each panel shows of it, and what clicks change.

use vstd::prelude::*;
use crate::models::{ClusterSnapshot, ReportSummary, ResourceSummary, SchedulingSnapshot, TemplateSummary};
use crate::web::admin::{
    gpu_pools_view, inference_view, is_inference_page, is_node_line, is_pools_page,
    node_power_view, InferencePage, NodeLine, PoolsPage,
};
use crate::web::form::{
    is_blank_form, is_form_page, report_curator_view, same_entries, FormPage, ReportForm,
};
use crate::web::labels::window_fits;
use crate::web::lists::{
    benchmarks_view, campaigns_view, experiment_detail_view, experiment_manifest_view,
    experiment_metrics_view, experiments_view, is_benchmarks_page, is_campaigns_page,
    is_dashboard_of, is_detail_page, is_experiments_page, is_reports_page, is_runtime_page,
    is_templates_page, reports_view, runtime_view, templates_view, BenchmarksPage, Dashboard,
    DetailPage, Page,
};
use crate::models::manifest_name;
use crate::web::panels::{detail_panel_list, restore_detail_panels, AdminPanel, Panel};
use crate::web::research::{is_research_page, research_view, ResearchNav, ResearchPage};

verus! {

// ---------------------------------------------------------------------------
// Requests
// ---------------------------------------------------------------------------

/// What the frontend asks of the backend: the address behind the origin.
pub open spec fn manifest_path(namespace: Seq<char>, kind: Seq<char>, name: Seq<char>) -> Seq<char> {
    "/api/manifest/"@ + namespace + "/"@ + kind + "/"@ + name
}

/// `GET /api/manifest/{ns}/{kind}/{name}` → resource manifest YAML.
pub fn manifest_request(r: &ResourceSummary) -> (p: String)
    ensures
        p@ == manifest_path(r.namespace@, r.kind@, r.name@),
{
    let mut s = "/api/manifest/".to_owned();
    s.append(r.namespace.as_str());
    s.append("/");
    s.append(r.kind.as_str());
    s.append("/");
    s.append(r.name.as_str());
    s
}

/// `GET /api/template/{ns}/{name}` → ExperimentTemplate YAML.
pub fn template_request(t: &TemplateSummary) -> (p: String)
    ensures
        p@ == "/api/template/"@ + t.namespace@ + "/"@ + t.name@,
{
    let mut s = "/api/template/".to_owned();
    s.append(t.namespace.as_str());
    s.append("/");
    s.append(t.name.as_str());
    s
}

/// `GET /api/reports/{ns}/{name}` → one report.
pub fn report_request(namespace: &str, name: &str) -> (p: String)
    ensures
        p@ == "/api/reports/"@ + namespace@ + "/"@ + name@,
{
    let mut s = "/api/reports/".to_owned();
    s.append(namespace);
    s.append("/");
    s.append(name);
    s
}

// ---------------------------------------------------------------------------
// State
// ---------------------------------------------------------------------------

/// The state of the application.
#[derive(Debug)]
pub struct App {
    /// The admin page is open.
    pub admin: bool,
    /// The selection of the detail panels.
    pub selected: Option<ResourceSummary>,
    /// The manifest in the editor.
    pub manifest_doc: String,
    /// The template in the editor.
    pub template_doc: String,
    /// The report form.
    pub form: ReportForm,
    /// How deep the research surface is.
    pub nav: ResearchNav,
}

/// What follows a selection: the panels that come back from the dock, and the request for
/// the manifest.
#[derive(Debug)]
pub struct Selection {
    pub restore: Vec<Panel>,
    pub fetch: String,
}

/// A document that was asked for, or a comment that says why it is not there.
pub open spec fn document(result: Result<String, String>, failure: Seq<char>) -> Seq<char> {
    match result {
        Ok(yaml) => yaml@,
        Err(e) => failure + e@ + "\n"@,
    }
}

fn document_of(result: Result<String, String>, failure: &str) -> (r: String)
    ensures
        r@ == document(result, failure@),
{
    match result {
        Ok(yaml) => yaml,
        Err(e) => {
            let mut s = failure.to_owned();
            s.append(e.as_str());
            s.append("\n");
            s
        },
    }
}

impl App {
    /// The application as it starts: on the research page, with nothing selected.
    pub fn new() -> (r: Self)
        ensures
            !r.admin,
            r.selected is None,
            r.manifest_doc@ == "# Select an experiment to load its manifest.\n"@,
            r.template_doc@ == "# Load a template to view its YAML.\n"@,
            is_blank_form(r.form),
            r.nav is Global,
    {
        App {
            admin: false,
            selected: None,
            manifest_doc: "# Select an experiment to load its manifest.\n".to_owned(),
            template_doc: "# Load a template to view its YAML.\n".to_owned(),
            form: ReportForm::default(),
            nav: ResearchNav::Global,
        }
    }

    /// Set the selection, surface the three detail panels, and ask for the manifest —
    /// shared by the Experiments and Campaigns tables and the research surface.
    pub fn select_resource(&mut self, r: ResourceSummary) -> (s: Selection)
        ensures
            *final(self) == (App { selected: Some(r), ..*old(self) }),
            s.restore@ == detail_panel_list(),
            s.fetch@ == manifest_path(r.namespace@, r.kind@, r.name@),
    {
        let fetch = manifest_request(&r);
        self.selected = Some(r);
        Selection { restore: restore_detail_panels(), fetch }
    }

    /// Put the manifest into the editor, or why it is not there.
    pub fn manifest_loaded(&mut self, result: Result<String, String>)
        ensures
            final(self).manifest_doc@ == document(result, "# failed to load manifest: "@),
            *final(self) == (App { manifest_doc: final(self).manifest_doc, ..*old(self) }),
    {
        self.manifest_doc = document_of(result, "# failed to load manifest: ");
    }

    /// Put the template into the editor, or why it is not there.
    pub fn template_loaded(&mut self, result: Result<String, String>)
        ensures
            final(self).template_doc@ == document(result, "# failed to load template: "@),
            *final(self) == (App { template_doc: final(self).template_doc, ..*old(self) }),
    {
        self.template_doc = document_of(result, "# failed to load template: ");
    }

    /// Open a published report in the form, which comes back from the dock. `campaign` is the
    /// report's campaign, where the snapshot has it.
    pub fn load_report(&mut self, report: &ReportSummary, campaign: Option<ResourceSummary>) -> (r:
        Panel)
        ensures
            r == Panel::ReportCurator,
            final(self).form.campaign == (if campaign is Some {
                campaign
            } else {
                old(self).form.campaign
            }),
            final(self).form.name@ == report.name@,
            final(self).form.title@ == report.title@,
            final(self).form.excluded == old(self).form.excluded,
            same_entries(final(self).form, old(self).form),
            final(self).form.preview_doc == old(self).form.preview_doc,
            final(self).form.save_status == old(self).form.save_status,
            *final(self) == (App { form: final(self).form, ..*old(self) }),
    {
        self.form.load(report, campaign);
        Panel::ReportCurator
    }
}

// ---------------------------------------------------------------------------
// Bodies
// ---------------------------------------------------------------------------

/// What a panel shows while there is nothing to show: its style class, and its text.
#[derive(Debug)]
pub struct Notice {
    pub class: &'static str,
    pub text: String,
}

/// A snapshot that is on its way, or that failed.
pub open spec fn is_notice(
    error: Option<String>,
    waiting: Seq<char>,
    failure: Seq<char>,
    n: Notice,
) -> bool {
    match error {
        None => n.class@ == "muted"@ && n.text@ == waiting,
        Some(e) => n.class@ == "err"@ && n.text@ == failure + e@,
    }
}

fn waiting_notice(waiting: &str) -> (r: Notice)
    ensures
        r.class@ == "muted"@,
        r.text@ == waiting@,
{
    Notice { class: "muted", text: waiting.to_owned() }
}

fn failure_notice(failure: &str, e: &str) -> (r: Notice)
    ensures
        r.class@ == "err"@,
        r.text@ == failure@ + e@,
{
    let mut text = failure.to_owned();
    text.append(e);
    Notice { class: "err", text }
}

/// The body of a panel of the research workspace.
#[derive(Debug)]
pub enum Body {
    Waiting(Notice),
    Experiments(Page),
    ExperimentDetail(Option<DetailPage>),
    ExperimentMetrics(Option<Dashboard>),
    ExperimentManifest(Option<String>),
    Campaigns(Page),
    Templates(Page),
    RuntimeProfiles(Page),
    Benchmarks(BenchmarksPage),
    ReportCurator(FormPage),
    Reports(Page),
    Research(ResearchPage),
}

/// The panel shows what it is for.
pub open spec fn is_body(app: App, kind: Panel, snap: ClusterSnapshot, b: Body) -> bool {
    match kind {
        Panel::Experiments => b matches Body::Experiments(p) && is_experiments_page(
            snap,
            app.selected,
            p,
        ),
        Panel::ExperimentDetail => b matches Body::ExperimentDetail(p) && match app.selected {
            Some(s) => p matches Some(d) && is_detail_page(s, d),
            None => p is None,
        },
        Panel::ExperimentMetrics => b matches Body::ExperimentMetrics(p) && match app.selected {
            Some(s) => p matches Some(d) && is_dashboard_of(s, d),
            None => p is None,
        },
        Panel::ExperimentManifest => b matches Body::ExperimentManifest(p) && p.deep_view() == (
        match app.selected {
            Some(s) => Some(manifest_name(s.namespace@, s.kind@, s.name@)),
            None => None,
        }),
        Panel::Campaigns => b matches Body::Campaigns(p) && is_campaigns_page(
            snap,
            app.selected,
            p,
        ),
        Panel::Templates => b matches Body::Templates(p) && is_templates_page(snap, p),
        Panel::RuntimeProfiles => b matches Body::RuntimeProfiles(p) && is_runtime_page(snap, p),
        Panel::Benchmarks => b matches Body::Benchmarks(p) && is_benchmarks_page(snap, p),
        Panel::ReportCurator => b matches Body::ReportCurator(p) && is_form_page(
            snap,
            app.form,
            p,
        ),
        Panel::Reports => b matches Body::Reports(p) && is_reports_page(snap, p),
        Panel::Research => b matches Body::Research(p) && is_research_page(snap, app.nav, p),
    }
}

/// What the panel shows: nothing of the cluster before the snapshot is there.
pub fn body(app: &App, kind: Panel, snapshot: &Option<Result<ClusterSnapshot, String>>) -> (r: Body)
    requires
        kind is ExperimentMetrics && *snapshot is Some && snapshot->0 is Ok && app.selected is Some
            ==> window_fits(app.selected->0),
    ensures
        match *snapshot {
            None => r matches Body::Waiting(n) && is_notice(
                None,
                "Loading Athena resources…"@,
                "Failed to load snapshot: "@,
                n,
            ),
            Some(Err(e)) => r matches Body::Waiting(n) && is_notice(
                Some(e),
                "Loading Athena resources…"@,
                "Failed to load snapshot: "@,
                n,
            ),
            Some(Ok(snap)) => is_body(*app, kind, snap, r),
        },
{
    let snap = match snapshot {
        None => {
            return Body::Waiting(waiting_notice("Loading Athena resources…"));
        },
        Some(Err(e)) => {
            return Body::Waiting(failure_notice("Failed to load snapshot: ", e.as_str()));
        },
        Some(Ok(snap)) => snap,
    };
    match kind {
        Panel::Experiments => Body::Experiments(experiments_view(snap, &app.selected)),
        Panel::ExperimentDetail => Body::ExperimentDetail(experiment_detail_view(&app.selected)),
        Panel::ExperimentMetrics => Body::ExperimentMetrics(experiment_metrics_view(&app.selected)),
        Panel::ExperimentManifest => Body::ExperimentManifest(
            experiment_manifest_view(&app.selected),
        ),
        Panel::Campaigns => Body::Campaigns(campaigns_view(snap, &app.selected)),
        Panel::Templates => Body::Templates(templates_view(snap)),
        Panel::RuntimeProfiles => Body::RuntimeProfiles(runtime_view(snap)),
        Panel::Benchmarks => Body::Benchmarks(benchmarks_view(snap)),
        Panel::ReportCurator => Body::ReportCurator(report_curator_view(snap, &app.form)),
        Panel::Reports => Body::Reports(reports_view(snap)),
        Panel::Research => Body::Research(research_view(snap, &app.nav)),
    }
}

/// The body of a panel of the admin workspace.
#[derive(Debug)]
pub enum AdminBody {
    Waiting(Notice),
    GpuPools(PoolsPage),
    NodePower(Vec<NodeLine>),
    Inference(InferencePage),
}

/// The panel shows what it is for.
pub open spec fn is_admin_body(kind: AdminPanel, snap: SchedulingSnapshot, b: AdminBody) -> bool {
    match kind {
        AdminPanel::GpuPools => b matches AdminBody::GpuPools(p) && is_pools_page(snap, p),
        AdminPanel::NodePower => b matches AdminBody::NodePower(lines) && lines@.len()
            == snap.nodes@.len() && forall|i: int|
            0 <= i < snap.nodes@.len() ==> is_node_line(snap.nodes@[i], #[trigger] lines@[i]),
        AdminPanel::Inference => b matches AdminBody::Inference(p) && is_inference_page(snap, p),
    }
}

/// What the admin panel shows: nothing of the cluster before the snapshot is there.
pub fn admin_body(kind: AdminPanel, sched: &Option<Result<SchedulingSnapshot, String>>) -> (r:
    AdminBody)
    ensures
        match *sched {
            None => r matches AdminBody::Waiting(n) && is_notice(
                None,
                "Loading scheduling state…"@,
                "Failed to load scheduling: "@,
                n,
            ),
            Some(Err(e)) => r matches AdminBody::Waiting(n) && is_notice(
                Some(e),
                "Loading scheduling state…"@,
                "Failed to load scheduling: "@,
                n,
            ),
            Some(Ok(snap)) => is_admin_body(kind, snap, r),
        },
{
    let snap = match sched {
        None => {
            return AdminBody::Waiting(waiting_notice("Loading scheduling state…"));
        },
        Some(Err(e)) => {
            return AdminBody::Waiting(failure_notice("Failed to load scheduling: ", e.as_str()));
        },
        Some(Ok(snap)) => snap,
    };
    match kind {
        AdminPanel::GpuPools => AdminBody::GpuPools(gpu_pools_view(snap)),
        AdminPanel::NodePower => AdminBody::NodePower(node_power_view(snap)),
        AdminPanel::Inference => AdminBody::Inference(inference_view(snap)),
    }
}

/// A panel shows its own page, and the panels of the selected resource show nothing until one is
/// selected.
pub proof fn a_panel_shows_its_own_page(app: App, kind: Panel, snap: ClusterSnapshot, b: Body)
    requires
        is_body(app, kind, snap, b),
    ensures
        b is Experiments <==> kind is Experiments,
        b is ExperimentDetail <==> kind is ExperimentDetail,
        b is ExperimentMetrics <==> kind is ExperimentMetrics,
        b is ExperimentManifest <==> kind is ExperimentManifest,
        b is Campaigns <==> kind is Campaigns,
        b is Templates <==> kind is Templates,
        b is RuntimeProfiles <==> kind is RuntimeProfiles,
        b is Benchmarks <==> kind is Benchmarks,
        b is ReportCurator <==> kind is ReportCurator,
        b is Reports <==> kind is Reports,
        b is Research <==> kind is Research,
        b matches Body::ExperimentDetail(p) ==> (p is Some <==> app.selected is Some),
        b matches Body::ExperimentDetail(Some(p)) ==> p.title@ == app.selected->0.name@,
        b matches Body::ExperimentMetrics(p) ==> (p is Some <==> app.selected is Some),
        b matches Body::ExperimentMetrics(Some(p)) ==> p.value@ == app.selected->0.name@,
        b matches Body::ExperimentManifest(p) ==> (p is Some <==> app.selected is Some),
        b matches Body::ExperimentManifest(Some(p)) ==> p@ == "k8s://"@
            + app.selected->0.namespace@ + "/"@ + app.selected->0.kind@ + "/"@
            + app.selected->0.name@ + ".yaml"@,
{
}

/// An admin panel shows its own page.
pub proof fn an_admin_panel_shows_its_own_page(
    kind: AdminPanel,
    snap: SchedulingSnapshot,
    b: AdminBody,
    i: int,
)
    requires
        is_admin_body(kind, snap, b),
    ensures
        b is GpuPools <==> kind is GpuPools,
        b is NodePower <==> kind is NodePower,
        b is Inference <==> kind is Inference,
        b matches AdminBody::NodePower(lines) ==> lines@.len() == snap.nodes@.len() && (0 <= i
            < lines@.len() ==> lines@[i].node@ == snap.nodes@[i].name@),
{
    if let AdminBody::NodePower(lines) = b {
        if 0 <= i < lines@.len() {
            assert(is_node_line(snap.nodes@[i], lines@[i]));
        }
    }
}

/// A notice tells what went wrong once something did, and till then that it waits; a document shows
/// what was read, or why it could not be.
pub proof fn a_notice_tells_what_went_wrong(
    error: Option<String>,
    waiting: Seq<char>,
    failure: Seq<char>,
    n: Notice,
)
    requires
        is_notice(error, waiting, failure, n),
    ensures
        n.class@ == "err"@ <==> error is Some,
        n.class@ == "muted"@ <==> error is None,
        error matches Some(e) ==> n.text@ == failure + e@,
        error is None ==> n.text@ == waiting,
{
    reveal_strlit("err");
    reveal_strlit("muted");
    assert("err"@.len() != "muted"@.len());
}

/// The manifest of a resource is asked for by its namespace, its kind and its name, in this order.
pub proof fn a_manifest_is_asked_for_by_its_name(
    namespace: Seq<char>,
    kind: Seq<char>,
    name: Seq<char>,
    yaml: String,
    e: String,
    failure: Seq<char>,
)
    ensures
        manifest_path(namespace, kind, name) == "/api/manifest/"@ + namespace + seq!['/'] + kind
            + seq!['/'] + name,
        document(Ok(yaml), failure) == yaml@,
        document(Err(e), failure) == failure + e@ + seq!['\n'],
{
    reveal_strlit("/");
    reveal_strlit("\n");
    assert("/"@ =~= seq!['/']);
    assert("\n"@ =~= seq!['\n']);
}

/// Selecting a resource asks for its manifest and brings its three panels back; a manifest goes into
/// the manifest's editor and a template into the template's.
pub proof fn a_selection_asks_for_its_manifest(
    a: &mut App,
    r: ResourceSummary,
    s: Selection,
    b: &mut App,
    c: &mut App,
    yaml: String,
)
    requires
        call_ensures(App::select_resource, (a, r), s),
        call_ensures(App::manifest_loaded, (b, Ok(yaml)), ()),
        call_ensures(App::template_loaded, (c, Ok(yaml)), ()),
    ensures
        final(a).selected == Some(r),
        s.fetch@ == "/api/manifest/"@ + r.namespace@ + "/"@ + r.kind@ + "/"@ + r.name@,
        s.restore@.contains(Panel::ExperimentDetail),
        s.restore@.contains(Panel::ExperimentMetrics),
        s.restore@.contains(Panel::ExperimentManifest),
        s.restore@.len() == 3,
        final(b).manifest_doc@ == yaml@ && final(b).template_doc == old(b).template_doc,
        final(c).template_doc@ == yaml@ && final(c).manifest_doc == old(c).manifest_doc,
{
    assert(s.restore@[0] is ExperimentDetail);
    assert(s.restore@[1] is ExperimentMetrics);
    assert(s.restore@[2] is ExperimentManifest);
}

/// Templates and reports are asked for by namespace and name.
pub proof fn a_request_names_its_resource(
    t: &TemplateSummary,
    p: String,
    namespace: &str,
    name: &str,
    q: String,
)
    requires
        call_ensures(template_request, (t,), p),
        call_ensures(report_request, (namespace, name), q),
    ensures
        p@ == "/api/template/"@ + t.namespace@ + seq!['/'] + t.name@,
        q@ == "/api/reports/"@ + namespace@ + seq!['/'] + name@,
{
    reveal_strlit("/");
    assert("/"@ =~= seq!['/']);
}

/// While there is no snapshot a panel waits, and says so or what went wrong.
pub proof fn a_panel_waits_for_its_snapshot(
    app: &App,
    kind: Panel,
    a: Body,
    e: String,
    b: Body,
    admin: AdminPanel,
    c: AdminBody,
    d: AdminBody,
)
    requires
        call_ensures(body, (app, kind, &None), a),
        call_ensures(body, (app, kind, &Some(Err(e))), b),
        call_ensures(admin_body, (admin, &None), c),
        call_ensures(admin_body, (admin, &Some(Err(e))), d),
    ensures
        a matches Body::Waiting(n) && n.class@ == "muted"@ && n.text@ == "Loading Athena resources…"@,
        b matches Body::Waiting(n) && n.class@ == "err"@ && n.text@ == "Failed to load snapshot: "@
            + e@,
        c matches AdminBody::Waiting(n) && n.class@ == "muted"@ && n.text@
            == "Loading scheduling state…"@,
        d matches AdminBody::Waiting(n) && n.class@ == "err"@ && n.text@
            == "Failed to load scheduling: "@ + e@,
{
}

} // verus!

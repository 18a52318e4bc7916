//! The state of the native console, and how messages change it.

use vstd::prelude::*;
use crate::console::records::{refers_to, ClusterSnapshot, ResourceManifestRef, ResourceSummary};
use crate::models::{manifest_name, name_manifest};
use crate::text::{cat, same};
use crate::textset::{ascending, TextSet};

verus! {

broadcast use vstd::seq_lib::group_seq_properties;

/// The lists of the console.
#[derive(Debug, Clone, Copy, PartialEq, Eq, Structural)]
pub enum ConsoleView {
    Experiments,
    Templates,
    Benchmarks,
    Runtime,
}

impl ConsoleView {
    /// All lists, in the order of the navigation.
    pub fn all() -> (r: Vec<ConsoleView>)
        ensures
            r@ == seq![ConsoleView::Experiments, ConsoleView::Templates, ConsoleView::Benchmarks, ConsoleView::Runtime],
    {
        let mut v: Vec<ConsoleView> = Vec::new();
        v.push(ConsoleView::Experiments);
        v.push(ConsoleView::Templates);
        v.push(ConsoleView::Benchmarks);
        v.push(ConsoleView::Runtime);
        assert(v@ =~= seq![ConsoleView::Experiments, ConsoleView::Templates, ConsoleView::Benchmarks, ConsoleView::Runtime]);
        v
    }

    /// What the list is called.
    pub open spec fn named(&self) -> Seq<char> {
        match *self {
            ConsoleView::Experiments => "Experiments"@,
            ConsoleView::Templates => "Templates"@,
            ConsoleView::Benchmarks => "Benchmarks"@,
            ConsoleView::Runtime => "Runtime"@,
        }
    }

    /// What the list is called.
    pub fn label(self) -> (r: &'static str)
        ensures
            r@ == self.named(),
    {
        match self {
            ConsoleView::Experiments => "Experiments",
            ConsoleView::Templates => "Templates",
            ConsoleView::Benchmarks => "Benchmarks",
            ConsoleView::Runtime => "Runtime",
        }
    }
}

/// The list that a kind of resource stands in.
pub open spec fn list_of(kind: Seq<char>) -> ConsoleView {
    if kind == "benchmarksuite"@ || kind == "benchmarkrun"@ {
        ConsoleView::Benchmarks
    } else if kind == "runtimeprofile"@ {
        ConsoleView::Runtime
    } else {
        ConsoleView::Experiments
    }
}

/// The list that a kind of resource stands in.
pub fn view_for_resource_kind(kind: &str) -> (r: ConsoleView)
    ensures
        r == list_of(kind@),
{
    if same(kind, "benchmarksuite") || same(kind, "benchmarkrun") {
        ConsoleView::Benchmarks
    } else if same(kind, "runtimeprofile") {
        ConsoleView::Runtime
    } else {
        ConsoleView::Experiments
    }
}

/// Which experiments the list shows.
#[derive(Debug, Clone, PartialEq, Eq)]
pub enum PhaseFilter {
    All,
    Phase(String),
}

impl PhaseFilter {
    /// How the filter reads.
    pub open spec fn named(&self) -> Seq<char> {
        match *self {
            PhaseFilter::All => "All phases"@,
            PhaseFilter::Phase(p) => p@,
        }
    }

    /// How the filter reads.
    pub fn to_text(&self) -> (r: String)
        ensures
            r@ == self.named(),
    {
        match self {
            PhaseFilter::All => "All phases".to_owned(),
            PhaseFilter::Phase(p) => p.clone(),
        }
    }

    /// The filter lets the phase through.
    pub open spec fn passes(&self, phase: Seq<char>) -> bool {
        match *self {
            PhaseFilter::All => true,
            PhaseFilter::Phase(p) => phase == p@,
        }
    }

    /// Whether the filter lets the phase through.
    pub fn lets_through(&self, phase: &str) -> (r: bool)
        ensures
            r == self.passes(phase@),
    {
        match self {
            PhaseFilter::All => true,
            PhaseFilter::Phase(p) => same(phase, p.as_str()),
        }
    }
}

/// The editors of the console.
#[derive(Debug, Clone, Copy, PartialEq, Eq, Structural)]
pub enum EditorKind {
    Template,
    Manifest,
}

/// What the status line calls the editor.
pub open spec fn editor_named(kind: EditorKind) -> Seq<char> {
    match kind {
        EditorKind::Template => "template YAML"@,
        EditorKind::Manifest => "manifest draft"@,
    }
}

/// What the status line calls the editor.
pub fn editor_label(kind: EditorKind) -> (r: &'static str)
    ensures
        r@ == editor_named(kind),
{
    match kind {
        EditorKind::Template => "template YAML",
        EditorKind::Manifest => "manifest draft",
    }
}

/// What the editor's own header calls its draft.
pub fn draft_label(kind: EditorKind) -> (r: &'static str)
    ensures
        r@ == (match kind {
            EditorKind::Template => "template draft"@,
            EditorKind::Manifest => "manifest draft"@,
        }),
{
    match kind {
        EditorKind::Template => "template draft",
        EditorKind::Manifest => "manifest draft",
    }
}

/// What an editor shows above its text; the window holds the text.
#[derive(Debug)]
pub struct EditorDocument {
    pub title: String,
    pub source: String,
}

impl EditorDocument {
    /// A document.
    pub fn new(title: &str, source: &str) -> (r: Self)
        ensures
            r.title@ == title@,
            r.source@ == source@,
    {
        EditorDocument { title: title.to_owned(), source: source.to_owned() }
    }
}

/// What happens to the console. `A` is an edit that the window's text widget understands.
#[derive(Debug)]
pub enum Message<A> {
    Refresh,
    Loaded(Result<ClusterSnapshot, String>),
    ViewSelected(ConsoleView),
    ResourceSelected(ResourceManifestRef),
    BackToResourceList,
    PhaseSelected(PhaseFilter),
    OpenGrafana,
    OpenUrl(String),
    OpenWorkspace(String),
    OpenResourceManifest(ResourceManifestRef),
    ResourceManifestLoaded(Result<(ResourceManifestRef, String), String>),
    ExternalActionFinished(Result<String, String>),
    LoadTemplateYaml { namespace: String, name: String },
    TemplateYamlLoaded(Result<(String, String, String), String>),
    EditDocument(EditorKind, A),
    CopyDocument(EditorKind),
    PasteDocument(EditorKind),
    ClipboardRead(EditorKind, Option<String>),
    SelectAllDocument(EditorKind),
    CopyText(String),
}

/// What the window has to do next.
#[derive(Debug)]
pub enum Action<A> {
    Rest,
    /// List the resources, and come back with `Loaded`.
    LoadSnapshot,
    /// Open the dashboard, and come back with `ExternalActionFinished`.
    OpenGrafana,
    /// Open the link, and come back with `ExternalActionFinished`.
    OpenUrl(String),
    /// Open the workspace, and come back with `ExternalActionFinished`.
    OpenWorkspace(String),
    /// Read the manifest, and come back with `ResourceManifestLoaded`.
    LoadManifest(ResourceManifestRef),
    /// Read the template, and come back with `TemplateYamlLoaded`.
    LoadTemplate { namespace: String, name: String },
    /// Put the text into the editor.
    SetText(EditorKind, String),
    /// Perform the edit in the editor.
    Edit(EditorKind, A),
    /// Paste the text into the editor.
    Paste(EditorKind, String),
    /// Select all of the editor's text.
    SelectAll(EditorKind),
    /// Copy the editor's text to the clipboard.
    CopyEditor(EditorKind),
    /// Read the clipboard, and come back with `ClipboardRead`.
    ReadClipboard(EditorKind),
    /// Copy the text to the clipboard.
    WriteClipboard(String),
}

/// The state of the console.
#[derive(Debug)]
pub struct AthenaConsole {
    pub active_view: ConsoleView,
    pub phase_filter: PhaseFilter,
    pub snapshot: ClusterSnapshot,
    pub template_editor: EditorDocument,
    pub manifest_editor: EditorDocument,
    pub selected_resource: Option<ResourceManifestRef>,
    pub loading: bool,
    pub error: Option<String>,
    pub action_status: Option<String>,
}

/// The state differs at most in the status line, which reads so.
pub open spec fn only_says(before: AthenaConsole, after: AthenaConsole, status: Seq<char>) -> bool {
    &&& after.action_status.deep_view() == Some(status)
    &&& after == (AthenaConsole { action_status: after.action_status, ..before })
}

/// How a message changes the state, and what it asks for.
pub open spec fn steps<A>(
    before: AthenaConsole,
    message: Message<A>,
    after: AthenaConsole,
    action: Action<A>,
) -> bool {
    match message {
        Message::Refresh => {
            &&& after == (AthenaConsole {
                loading: true,
                error: None,
                action_status: None,
                ..before
            })
            &&& action is LoadSnapshot
        },
        Message::Loaded(Ok(snapshot)) => {
            &&& after == (AthenaConsole { snapshot, loading: false, error: None, ..before })
            &&& action is Rest
        },
        Message::Loaded(Err(error)) => {
            &&& after == (AthenaConsole { loading: false, error: Some(error), ..before })
            &&& action is Rest
        },
        Message::ViewSelected(view) => {
            &&& after == (AthenaConsole { active_view: view, selected_resource: None, ..before })
            &&& action is Rest
        },
        Message::ResourceSelected(resource) => {
            &&& after == (AthenaConsole {
                active_view: list_of(resource.kind@),
                selected_resource: Some(resource),
                ..before
            })
            &&& action is Rest
        },
        Message::BackToResourceList => {
            &&& after == (AthenaConsole { selected_resource: None, ..before })
            &&& action is Rest
        },
        Message::PhaseSelected(filter) => {
            &&& after == (AthenaConsole { phase_filter: filter, ..before })
            &&& action is Rest
        },
        Message::OpenGrafana => after == before && action is OpenGrafana,
        Message::OpenUrl(url) => after == before && action == Action::<A>::OpenUrl(url),
        Message::OpenWorkspace(path) => after == before && action == Action::<A>::OpenWorkspace(
            path,
        ),
        Message::OpenResourceManifest(resource) => {
            &&& after == (AthenaConsole {
                active_view: list_of(resource.kind@),
                selected_resource: Some(resource),
                ..before
            })
            &&& action == Action::<A>::LoadManifest(resource)
        },
        Message::ResourceManifestLoaded(Ok((resource, yaml))) => {
            &&& after.manifest_editor.title@ == resource.kind@ + " manifest"@
            &&& after.manifest_editor.source@ == manifest_name(
                resource.namespace@,
                resource.kind@,
                resource.name@,
            )
            &&& after.action_status.deep_view() == Some("Loaded manifest from Kubernetes"@)
            &&& after == (AthenaConsole {
                manifest_editor: after.manifest_editor,
                action_status: after.action_status,
                ..before
            })
            &&& action == Action::<A>::SetText(EditorKind::Manifest, yaml)
        },
        Message::ResourceManifestLoaded(Err(error)) => {
            &&& only_says(before, after, "Failed to load manifest: "@ + error@)
            &&& action is Rest
        },
        Message::ExternalActionFinished(Ok(status)) => {
            &&& only_says(before, after, status@)
            &&& action is Rest
        },
        Message::ExternalActionFinished(Err(error)) => {
            &&& only_says(before, after, "Action failed: "@ + error@)
            &&& action is Rest
        },
        Message::LoadTemplateYaml { namespace, name } => {
            &&& after == before
            &&& action == Action::<A>::LoadTemplate { namespace, name }
        },
        Message::TemplateYamlLoaded(Ok((namespace, name, yaml))) => {
            &&& after.template_editor.title@ == "Template YAML"@
            &&& after.template_editor.source@ == manifest_name(
                namespace@,
                "experimenttemplate"@,
                name@,
            )
            &&& after.action_status.deep_view() == Some("Loaded template YAML from Kubernetes"@)
            &&& after == (AthenaConsole {
                template_editor: after.template_editor,
                action_status: after.action_status,
                ..before
            })
            &&& action == Action::<A>::SetText(EditorKind::Template, yaml)
        },
        Message::TemplateYamlLoaded(Err(error)) => {
            &&& only_says(before, after, "Failed to load template YAML: "@ + error@)
            &&& action is Rest
        },
        Message::EditDocument(kind, edit) => after == before && action == Action::Edit(kind, edit),
        Message::CopyDocument(kind) => {
            &&& only_says(before, after, "Copied "@ + editor_named(kind))
            &&& action == Action::<A>::CopyEditor(kind)
        },
        Message::PasteDocument(kind) => after == before && action == Action::<A>::ReadClipboard(
            kind,
        ),
        Message::ClipboardRead(kind, Some(contents)) => {
            &&& only_says(before, after, "Pasted clipboard into "@ + editor_named(kind))
            &&& action == Action::<A>::Paste(kind, contents)
        },
        Message::ClipboardRead(_, None) => {
            &&& only_says(before, after, "Clipboard is empty or unavailable"@)
            &&& action is Rest
        },
        Message::SelectAllDocument(kind) => {
            &&& only_says(before, after, "Selected "@ + editor_named(kind))
            &&& action == Action::<A>::SelectAll(kind)
        },
        Message::CopyText(value) => {
            &&& only_says(before, after, "Copied text"@)
            &&& action == Action::<A>::WriteClipboard(value)
        },
    }
}

impl AthenaConsole {
    /// The console as it starts: it is loading, and the editors hold nothing yet.
    pub fn start() -> (r: Self)
        ensures
            r.active_view == ConsoleView::Experiments,
            r.phase_filter is All,
            r.snapshot.experiments@.len() == 0,
            r.snapshot.templates@.len() == 0,
            r.snapshot.benchmark_suites@.len() == 0,
            r.snapshot.benchmark_runs@.len() == 0,
            r.snapshot.runtime_profiles@.len() == 0,
            r.template_editor.title@ == "Template YAML"@,
            r.template_editor.source@ == "No template loaded"@,
            r.manifest_editor.title@ == "Manifest IDE"@,
            r.manifest_editor.source@ == "No manifest loaded"@,
            r.selected_resource is None,
            r.loading,
            r.error is None,
            r.action_status is None,
    {
        AthenaConsole {
            active_view: ConsoleView::Experiments,
            phase_filter: PhaseFilter::All,
            snapshot: ClusterSnapshot {
                experiments: Vec::new(),
                templates: Vec::new(),
                benchmark_suites: Vec::new(),
                benchmark_runs: Vec::new(),
                runtime_profiles: Vec::new(),
            },
            template_editor: EditorDocument::new("Template YAML", "No template loaded"),
            manifest_editor: EditorDocument::new("Manifest IDE", "No manifest loaded"),
            selected_resource: None,
            loading: true,
            error: None,
            action_status: None,
        }
    }

    /// The text that the editor holds before anything is loaded.
    pub fn starting_text(kind: EditorKind) -> (r: &'static str)
        ensures
            r@ == (match kind {
                EditorKind::Template => "# Select a template and load Kubernetes YAML.\n"@,
                EditorKind::Manifest => "# Select a Kubernetes resource and load its manifest.\n"@,
            }),
    {
        match kind {
            EditorKind::Template => "# Select a template and load Kubernetes YAML.\n",
            EditorKind::Manifest => "# Select a Kubernetes resource and load its manifest.\n",
        }
    }

    /// Take the message in, and say what the window has to do next.
    pub fn update<A>(&mut self, message: Message<A>) -> (r: Action<A>)
        ensures
            steps(*old(self), message, *final(self), r),
    {
        match message {
            Message::Refresh => {
                self.loading = true;
                self.error = None;
                self.action_status = None;
                Action::LoadSnapshot
            },
            Message::Loaded(Ok(snapshot)) => {
                self.snapshot = snapshot;
                self.loading = false;
                self.error = None;
                Action::Rest
            },
            Message::Loaded(Err(error)) => {
                self.loading = false;
                self.error = Some(error);
                Action::Rest
            },
            Message::ViewSelected(view) => {
                self.active_view = view;
                self.selected_resource = None;
                Action::Rest
            },
            Message::ResourceSelected(resource) => {
                self.active_view = view_for_resource_kind(resource.kind.as_str());
                self.selected_resource = Some(resource);
                Action::Rest
            },
            Message::BackToResourceList => {
                self.selected_resource = None;
                Action::Rest
            },
            Message::PhaseSelected(filter) => {
                self.phase_filter = filter;
                Action::Rest
            },
            Message::OpenGrafana => Action::OpenGrafana,
            Message::OpenUrl(url) => Action::OpenUrl(url),
            Message::OpenWorkspace(path) => Action::OpenWorkspace(path),
            Message::OpenResourceManifest(resource) => {
                self.active_view = view_for_resource_kind(resource.kind.as_str());
                let copy = ResourceManifestRef {
                    namespace: resource.namespace.clone(),
                    name: resource.name.clone(),
                    kind: resource.kind.clone(),
                };
                self.selected_resource = Some(copy);
                Action::LoadManifest(resource)
            },
            Message::ResourceManifestLoaded(Ok((resource, yaml))) => {
                self.manifest_editor = EditorDocument {
                    title: cat(resource.kind.as_str(), " manifest"),
                    source: resource.manifest_path(),
                };
                self.action_status = Some("Loaded manifest from Kubernetes".to_owned());
                Action::SetText(EditorKind::Manifest, yaml)
            },
            Message::ResourceManifestLoaded(Err(error)) => {
                self.action_status = Some(cat("Failed to load manifest: ", error.as_str()));
                Action::Rest
            },
            Message::ExternalActionFinished(Ok(status)) => {
                self.action_status = Some(status);
                Action::Rest
            },
            Message::ExternalActionFinished(Err(error)) => {
                self.action_status = Some(cat("Action failed: ", error.as_str()));
                Action::Rest
            },
            Message::LoadTemplateYaml { namespace, name } => Action::LoadTemplate {
                namespace,
                name,
            },
            Message::TemplateYamlLoaded(Ok((namespace, name, yaml))) => {
                self.template_editor = EditorDocument {
                    title: "Template YAML".to_owned(),
                    source: name_manifest(namespace.as_str(), "experimenttemplate", name.as_str()),
                };
                self.action_status = Some("Loaded template YAML from Kubernetes".to_owned());
                Action::SetText(EditorKind::Template, yaml)
            },
            Message::TemplateYamlLoaded(Err(error)) => {
                self.action_status = Some(cat("Failed to load template YAML: ", error.as_str()));
                Action::Rest
            },
            Message::EditDocument(kind, edit) => Action::Edit(kind, edit),
            Message::CopyDocument(kind) => {
                self.action_status = Some(cat("Copied ", editor_label(kind)));
                Action::CopyEditor(kind)
            },
            Message::PasteDocument(kind) => Action::ReadClipboard(kind),
            Message::ClipboardRead(kind, Some(contents)) => {
                self.action_status = Some(cat("Pasted clipboard into ", editor_label(kind)));
                Action::Paste(kind, contents)
            },
            Message::ClipboardRead(_, None) => {
                self.action_status = Some("Clipboard is empty or unavailable".to_owned());
                Action::Rest
            },
            Message::SelectAllDocument(kind) => {
                self.action_status = Some(cat("Selected ", editor_label(kind)));
                Action::SelectAll(kind)
            },
            Message::CopyText(value) => {
                self.action_status = Some("Copied text".to_owned());
                Action::WriteClipboard(value)
            },
        }
    }

    /// What an editor shows above its text.
    pub fn editor(&self, kind: EditorKind) -> (r: &EditorDocument)
        ensures
            *r == (match kind {
                EditorKind::Template => self.template_editor,
                EditorKind::Manifest => self.manifest_editor,
            }),
    {
        match kind {
            EditorKind::Template => &self.template_editor,
            EditorKind::Manifest => &self.manifest_editor,
        }
    }
}

// ---------------------------------------------------------------------------
// What updates keep
// ---------------------------------------------------------------------------

/// Only a snapshot that was loaded replaces the one that is shown: every other message, and
/// a failed load, leaves it as it is.
pub proof fn only_a_load_replaces_the_snapshot<A>(
    before: AthenaConsole,
    message: Message<A>,
    after: AthenaConsole,
    action: Action<A>,
)
    requires
        steps(before, message, after, action),
        after.snapshot != before.snapshot,
    ensures
        message matches Message::Loaded(Ok(s)) && after.snapshot == s,
{
}

/// A refresh always comes to rest: whatever the load comes back with, the console is no
/// longer loading, and shows an error just where the load failed.
pub proof fn a_load_ends_the_loading<A>(
    before: AthenaConsole,
    result: Result<ClusterSnapshot, String>,
    after: AthenaConsole,
    action: Action<A>,
)
    requires
        steps(before, Message::<A>::Loaded(result), after, action),
    ensures
        !after.loading,
        after.error is Some <==> result is Err,
        action is Rest,
{
}

/// Selecting a resource and going back shows the list that the resource stands in.
pub proof fn going_back_shows_the_list<A>(
    s0: AthenaConsole,
    resource: ResourceManifestRef,
    s1: AthenaConsole,
    a1: Action<A>,
    s2: AthenaConsole,
    a2: Action<A>,
)
    requires
        steps(s0, Message::<A>::ResourceSelected(resource), s1, a1),
        steps(s1, Message::<A>::BackToResourceList, s2, a2),
    ensures
        s1.selected_resource == Some(resource),
        s2.selected_resource is None,
        s2.active_view == list_of(resource.kind@),
        s2.snapshot == s0.snapshot,
{
}

// ---------------------------------------------------------------------------
// Looking things up
// ---------------------------------------------------------------------------

/// All the resources that the console can show, in order.
pub open spec fn all_resources(s: ClusterSnapshot) -> Seq<ResourceSummary> {
    s.experiments@ + s.benchmark_suites@ + s.benchmark_runs@ + s.runtime_profiles@
}

/// The place of the first resource that the reference means.
pub open spec fn meant_place(list: Seq<ResourceSummary>, m: ResourceManifestRef) -> Option<int>
    decreases list.len(),
{
    if list.len() == 0 {
        None
    } else if refers_to(m, list[0]) {
        Some(0)
    } else {
        match meant_place(list.drop_first(), m) {
            Some(i) => Some(i + 1),
            None => None,
        }
    }
}

/// The first resource that the reference means.
pub open spec fn meant(list: Seq<ResourceSummary>, m: ResourceManifestRef) -> Option<
    ResourceSummary,
> {
    match meant_place(list, m) {
        Some(i) => Some(list[i]),
        None => None,
    }
}

proof fn lemma_meant_place(list: Seq<ResourceSummary>, m: ResourceManifestRef)
    ensures
        match meant_place(list, m) {
            Some(i) => 0 <= i < list.len() && refers_to(m, list[i]) && forall|k: int|
                0 <= k < i ==> !refers_to(m, #[trigger] list[k]),
            None => forall|k: int| 0 <= k < list.len() ==> !refers_to(m, #[trigger] list[k]),
        },
    decreases list.len(),
{
    if list.len() > 0 && !refers_to(m, list[0]) {
        let t = list.drop_first();
        lemma_meant_place(t, m);
        match meant_place(t, m) {
            Some(i) => {
                assert forall|k: int| 0 <= k < i + 1 implies !refers_to(m, #[trigger] list[k]) by {
                    if k > 0 {
                        assert(t[k - 1] == list[k]);
                    }
                }
            },
            None => {
                assert forall|k: int| 0 <= k < list.len() implies !refers_to(
                    m,
                    #[trigger] list[k],
                ) by {
                    if k > 0 {
                        assert(t[k - 1] == list[k]);
                    }
                }
            },
        }
    }
}

/// Where the first of two lists has what is meant, both together have it there; else it is
/// where the second has it.
proof fn lemma_meant_in_both(
    a: Seq<ResourceSummary>,
    b: Seq<ResourceSummary>,
    m: ResourceManifestRef,
)
    ensures
        meant(a + b, m) == (if meant(a, m) is Some {
            meant(a, m)
        } else {
            meant(b, m)
        }),
    decreases a.len(),
{
    if a.len() == 0 {
        assert(a + b =~= b);
    } else {
        assert((a + b)[0] == a[0]);
        if !refers_to(m, a[0]) {
            let t = a.drop_first();
            assert((a + b).drop_first() =~= t + b);
            lemma_meant_in_both(t, b, m);
            lemma_meant_place(t + b, m);
            lemma_meant_place(t, m);
        }
    }
}

fn find_in<'a>(list: &'a Vec<ResourceSummary>, m: &ResourceManifestRef) -> (r: Option<
    &'a ResourceSummary,
>)
    ensures
        match r {
            Some(x) => meant(list@, *m) == Some(*x) && refers_to(*m, *x),
            None => meant(list@, *m) is None,
        },
{
    proof {
        lemma_meant_place(list@, *m);
    }
    let mut i: usize = 0;
    while i < list.len()
        invariant
            i <= list.len(),
            forall|k: int| 0 <= k < i ==> !refers_to(*m, #[trigger] list@[k]),
            match meant_place(list@, *m) {
                Some(i) => 0 <= i < list@.len() && refers_to(*m, list@[i]) && forall|k: int|
                    0 <= k < i ==> !refers_to(*m, #[trigger] list@[k]),
                None => forall|k: int|
                    0 <= k < list@.len() ==> !refers_to(*m, #[trigger] list@[k]),
            },
        decreases list.len() - i,
    {
        let x = &list[i];
        if same(x.namespace.as_str(), m.namespace.as_str()) && same(
            x.name.as_str(),
            m.name.as_str(),
        ) && same(x.kind.as_str(), m.kind.as_str()) {
            assert(refers_to(*m, list@[i as int]));
            assert(meant_place(list@, *m) == Some(i as int));
            return Some(x);
        }
        i = i + 1;
    }
    None
}

/// The phases of the experiments, each once, in dictionary order.
pub open spec fn are_phase_options(snapshot: ClusterSnapshot, options: Seq<PhaseFilter>) -> bool {
    let phases = snapshot.experiments@.map_values(|e: ResourceSummary| e.phase@);
    let names = options.skip(1).map_values(|f: PhaseFilter| f.named());
    &&& options.len() >= 1
    &&& options[0] is All
    &&& forall|i: int| 1 <= i < options.len() ==> #[trigger] options[i] is Phase
    &&& ascending(names)
    &&& names.to_set() == phases.to_set()
}

impl AthenaConsole {
    /// How many resources the list holds.
    pub fn count_for(&self, view: ConsoleView) -> (r: u128)
        ensures
            r == (match view {
                ConsoleView::Experiments => self.snapshot.experiments@.len(),
                ConsoleView::Templates => self.snapshot.templates@.len(),
                ConsoleView::Benchmarks => self.snapshot.benchmark_runs@.len()
                    + self.snapshot.benchmark_suites@.len(),
                ConsoleView::Runtime => self.snapshot.runtime_profiles@.len(),
            }),
    {
        match view {
            ConsoleView::Experiments => self.snapshot.experiments.len() as u128,
            ConsoleView::Templates => self.snapshot.templates.len() as u128,
            ConsoleView::Benchmarks => self.snapshot.benchmark_runs.len() as u128
                + self.snapshot.benchmark_suites.len() as u128,
            ConsoleView::Runtime => self.snapshot.runtime_profiles.len() as u128,
        }
    }

    /// The resource that the reference means, in the loaded snapshot.
    pub fn find_resource(&self, resource_ref: &ResourceManifestRef) -> (r: Option<&ResourceSummary>)
        ensures
            match r {
                Some(x) => meant(all_resources(self.snapshot), *resource_ref) == Some(*x)
                    && refers_to(*resource_ref, *x),
                None => meant(all_resources(self.snapshot), *resource_ref) is None,
            },
    {
        let s = &self.snapshot;
        proof {
            let m = *resource_ref;
            let ab = s.experiments@ + s.benchmark_suites@;
            lemma_meant_in_both(s.experiments@, s.benchmark_suites@, m);
            lemma_meant_in_both(ab, s.benchmark_runs@, m);
            lemma_meant_in_both(ab + s.benchmark_runs@, s.runtime_profiles@, m);
        }
        if let Some(x) = find_in(&s.experiments, resource_ref) {
            return Some(x);
        }
        if let Some(x) = find_in(&s.benchmark_suites, resource_ref) {
            return Some(x);
        }
        if let Some(x) = find_in(&s.benchmark_runs, resource_ref) {
            return Some(x);
        }
        find_in(&s.runtime_profiles, resource_ref)
    }

    /// The filters that the experiment list offers.
    pub fn phase_options(&self) -> (r: Vec<PhaseFilter>)
        ensures
            are_phase_options(self.snapshot, r@),
    {
        let exps = &self.snapshot.experiments;
        let ghost phases = exps@.map_values(|e: ResourceSummary| e.phase@);
        let mut all: Vec<String> = Vec::new();
        let mut i: usize = 0;
        while i < exps.len()
            invariant
                i <= exps.len(),
                phases == exps@.map_values(|e: ResourceSummary| e.phase@),
                all.deep_view() == phases.take(i as int),
            decreases exps.len() - i,
        {
            let ghost before = all.deep_view();
            let p = exps[i].phase.clone();
            all.push(p);
            assert(all.deep_view() =~= before.push(p@));
            assert(before.push(p@) =~= phases.take(i + 1));
            i = i + 1;
        }
        assert(phases.take(i as int) =~= phases);
        let names = TextSet::of(&all).to_vec();
        let mut out: Vec<PhaseFilter> = Vec::new();
        out.push(PhaseFilter::All);
        let mut k: usize = 0;
        while k < names.len()
            invariant
                k <= names.len(),
                out@.len() == k + 1,
                out@[0] is All,
                forall|j: int| 1 <= j <= k ==> #[trigger] out@[j] is Phase && out@[j].named()
                    == names.deep_view()[j - 1],
            decreases names.len() - k,
        {
            out.push(PhaseFilter::Phase(names[k].clone()));
            k = k + 1;
        }
        proof {
            let shown = out@.skip(1).map_values(|f: PhaseFilter| f.named());
            assert(shown =~= names.deep_view());
        }
        out
    }
}

/// A resource that the snapshot lists is found by its own reference.
pub proof fn a_listed_resource_is_found(s: ClusterSnapshot, i: int, m: ResourceManifestRef)
    requires
        0 <= i < all_resources(s).len(),
        refers_to(m, all_resources(s)[i]),
    ensures
        meant(all_resources(s), m) matches Some(x) && refers_to(m, x),
{
    lemma_meant_place(all_resources(s), m);
}

/// A view is called by its own name, and no two are called alike.
pub proof fn a_view_goes_by_its_name(x: ConsoleView)
    ensures
        x.named() == "Experiments"@ <==> x is Experiments,
        x.named() == "Templates"@ <==> x is Templates,
        x.named() == "Benchmarks"@ <==> x is Benchmarks,
        x.named() == "Runtime"@ <==> x is Runtime,
{
    reveal_strlit("Experiments");
    reveal_strlit("Templates");
    reveal_strlit("Benchmarks");
    reveal_strlit("Runtime");
    assert("Experiments"@.len() != "Templates"@.len());
    assert("Experiments"@.len() != "Benchmarks"@.len());
    assert("Experiments"@.len() != "Runtime"@.len());
    assert("Templates"@.len() != "Benchmarks"@.len());
    assert("Templates"@.len() != "Runtime"@.len());
    assert("Benchmarks"@.len() != "Runtime"@.len());
}

/// An editor is called by what it holds.
pub proof fn an_editor_goes_by_its_name(x: EditorKind)
    ensures
        editor_named(x) == "template YAML"@ <==> x is Template,
        editor_named(x) == "manifest draft"@ <==> x is Manifest,
{
    reveal_strlit("template YAML");
    reveal_strlit("manifest draft");
    assert("template YAML"@.len() != "manifest draft"@.len());
}

/// A resource is listed with its kind: suites and runs among the benchmarks, profiles among the
/// runtimes, and everything else among the experiments.
pub proof fn a_kind_has_its_list(kind: Seq<char>)
    ensures
        list_of(kind) is Benchmarks <==> kind == "benchmarksuite"@ || kind == "benchmarkrun"@,
        list_of(kind) is Runtime <==> kind == "runtimeprofile"@,
        list_of(kind) is Experiments <==> kind != "benchmarksuite"@ && kind != "benchmarkrun"@
            && kind != "runtimeprofile"@,
{
    reveal_strlit("benchmarksuite");
    reveal_strlit("benchmarkrun");
    reveal_strlit("runtimeprofile");
    assert("benchmarksuite"@[0] != "runtimeprofile"@[0]);
    assert("benchmarkrun"@[0] != "runtimeprofile"@[0]);
}

/// A filter lets every phase through, or just its own.
pub proof fn a_filter_passes_its_own_phase(p: String, phase: Seq<char>)
    ensures
        PhaseFilter::All.passes(phase),
        PhaseFilter::Phase(p).passes(phase) <==> phase == p@,
        PhaseFilter::Phase(p).named() == p@,
        PhaseFilter::All.named() == "All phases"@,
{
}

/// A refresh asks for the resources and forgets what went wrong; a load shows what came, or what
/// went wrong, and keeps the view.
pub proof fn a_refresh_loads_anew<A>(
    before: AthenaConsole,
    after: AthenaConsole,
    action: Action<A>,
    snapshot: ClusterSnapshot,
    error: String,
)
    ensures
        steps(before, Message::<A>::Refresh, after, action) ==> after.loading && after.error is None
            && after.action_status is None && after.snapshot == before.snapshot && after.active_view
            == before.active_view && after.selected_resource == before.selected_resource
            && action is LoadSnapshot,
        steps(before, Message::<A>::Loaded(Ok(snapshot)), after, action) ==> after.snapshot
            == snapshot && !after.loading && after.error is None && after.active_view
            == before.active_view && after.selected_resource == before.selected_resource,
        steps(before, Message::<A>::Loaded(Err(error)), after, action) ==> after.snapshot
            == before.snapshot && !after.loading && after.error == Some(error),
{
}

/// Selecting a view leaves the resource, selecting a resource goes to its list, and choosing a
/// phase changes nothing but the filter; none of them asks for anything.
pub proof fn selecting_only_selects<A>(
    before: AthenaConsole,
    after: AthenaConsole,
    action: Action<A>,
    view: ConsoleView,
    resource: ResourceManifestRef,
    filter: PhaseFilter,
)
    ensures
        steps(before, Message::<A>::ViewSelected(view), after, action) ==> after.active_view == view
            && after.selected_resource is None && after.phase_filter == before.phase_filter
            && action is Rest,
        steps(before, Message::<A>::ResourceSelected(resource), after, action)
            ==> after.selected_resource == Some(resource) && after.active_view == list_of(
            resource.kind@,
        ) && action is Rest,
        steps(before, Message::<A>::PhaseSelected(filter), after, action) ==> after.phase_filter
            == filter && after.active_view == before.active_view && after.selected_resource
            == before.selected_resource && action is Rest,
        steps(before, Message::<A>::OpenResourceManifest(resource), after, action)
            ==> after.selected_resource == Some(resource) && after.active_view == list_of(
            resource.kind@,
        ) && action == Action::<A>::LoadManifest(resource),
{
}

/// What goes outside is handed on as it was asked for, and changes nothing but what the console
/// says: an address is opened, a path shown, a text copied, an editor selected or pasted into.
pub proof fn what_goes_outside_is_handed_on<A>(
    before: AthenaConsole,
    after: AthenaConsole,
    action: Action<A>,
    text: String,
    kind: EditorKind,
)
    ensures
        steps(before, Message::<A>::OpenUrl(text), after, action) ==> after == before && action
            == Action::<A>::OpenUrl(text),
        steps(before, Message::<A>::OpenWorkspace(text), after, action) ==> after == before
            && action == Action::<A>::OpenWorkspace(text),
        steps(before, Message::<A>::OpenGrafana, after, action) ==> after == before
            && action is OpenGrafana,
        steps(before, Message::<A>::CopyText(text), after, action) ==> action == Action::<
            A,
        >::WriteClipboard(text) && after.action_status is Some && after.action_status->0@
            == "Copied text"@ && after.snapshot == before.snapshot,
        steps(before, Message::<A>::CopyDocument(kind), after, action) ==> action == Action::<
            A,
        >::CopyEditor(kind) && after.action_status is Some && after.action_status->0@ == "Copied "@
            + editor_named(kind),
        steps(before, Message::<A>::SelectAllDocument(kind), after, action) ==> action == Action::<
            A,
        >::SelectAll(kind) && after.action_status is Some && after.action_status->0@ == "Selected "@
            + editor_named(kind),
        steps(before, Message::<A>::PasteDocument(kind), after, action) ==> after == before
            && action == Action::<A>::ReadClipboard(kind),
        steps(before, Message::<A>::ClipboardRead(kind, Some(text)), after, action) ==> action
            == Action::<A>::Paste(kind, text) && after.action_status is Some
            && after.action_status->0@ == "Pasted clipboard into "@ + editor_named(kind),
        steps(before, Message::<A>::ClipboardRead(kind, None), after, action) ==> action is Rest
            && after.action_status is Some && after.action_status->0@
            == "Clipboard is empty or unavailable"@,
{
}

/// What was loaded stands in the editor that it was loaded for, under the name of where it came
/// from, and a failure is said and changes no editor.
pub proof fn what_was_loaded_stands_in_its_editor<A>(
    before: AthenaConsole,
    after: AthenaConsole,
    action: Action<A>,
    resource: ResourceManifestRef,
    namespace: String,
    name: String,
    yaml: String,
    error: String,
)
    ensures
        steps(before, Message::<A>::ResourceManifestLoaded(Ok((resource, yaml))), after, action)
            ==> action == Action::<A>::SetText(EditorKind::Manifest, yaml)
            && after.manifest_editor.title@ == resource.kind@ + " manifest"@
            && after.manifest_editor.source@ == "k8s://"@ + resource.namespace@ + "/"@
            + resource.kind@ + "/"@ + resource.name@ + ".yaml"@ && after.template_editor
            == before.template_editor,
        steps(before, Message::<A>::TemplateYamlLoaded(Ok((namespace, name, yaml))), after, action)
            ==> action == Action::<A>::SetText(EditorKind::Template, yaml)
            && after.template_editor.source@ == "k8s://"@ + namespace@ + "/experimenttemplate/"@
            + name@ + ".yaml"@ && after.manifest_editor == before.manifest_editor,
        steps(before, Message::<A>::ResourceManifestLoaded(Err(error)), after, action)
            ==> action is Rest && after.action_status is Some && after.action_status->0@
            == "Failed to load manifest: "@ + error@ && after.manifest_editor
            == before.manifest_editor,
        steps(before, Message::<A>::TemplateYamlLoaded(Err(error)), after, action) ==> action is Rest
            && after.action_status is Some && after.action_status->0@
            == "Failed to load template YAML: "@ + error@ && after.template_editor
            == before.template_editor,
        steps(before, Message::<A>::ExternalActionFinished(Ok(name)), after, action)
            ==> after.action_status is Some && after.action_status->0@ == name@,
        steps(before, Message::<A>::ExternalActionFinished(Err(error)), after, action)
            ==> after.action_status is Some && after.action_status->0@ == "Action failed: "@
            + error@,
{
    let a = "k8s://"@ + namespace@;
    let b = a + "/"@ + "experimenttemplate"@ + "/"@;
    assert("/experimenttemplate/"@ =~= "/"@ + "experimenttemplate"@ + "/"@) by {
        reveal_strlit("/experimenttemplate/");
        reveal_strlit("experimenttemplate");
        reveal_strlit("/");
    }
    lemma_regroup(a, "/"@, "experimenttemplate"@, "/"@);
}

proof fn lemma_regroup(a: Seq<char>, b: Seq<char>, c: Seq<char>, d: Seq<char>)
    ensures
        a + b + c + d == a + (b + c + d),
{
    assert(a + b + c + d =~= a + (b + c + d));
}

/// The phases to choose from are all of them first, and then each phase that occurs, once, in
/// order.
pub proof fn every_phase_can_be_chosen(
    snapshot: ClusterSnapshot,
    options: Seq<PhaseFilter>,
    i: int,
)
    requires
        are_phase_options(snapshot, options),
    ensures
        options[0] is All,
        0 <= i < snapshot.experiments@.len() ==> exists|k: int|
            1 <= k < options.len() && (#[trigger] options[k]).named()
                == snapshot.experiments@[i].phase@,
        1 <= i < options.len() ==> options[i] is Phase && exists|k: int|
            0 <= k < snapshot.experiments@.len() && (#[trigger] snapshot.experiments@[k]).phase@
                == options[i].named(),
{
    let phases = snapshot.experiments@.map_values(|e: ResourceSummary| e.phase@);
    let names = options.skip(1).map_values(|f: PhaseFilter| f.named());
    if 0 <= i < snapshot.experiments@.len() {
        let p = phases[i];
        assert(phases.contains(p));
        assert(phases.to_set().contains(p));
        assert(names.to_set().contains(p));
        assert(names.contains(p));
        let k = names.index_of(p);
        assert(names[k] == options.skip(1)[k].named());
        assert(options[k + 1].named() == p);
    }
    if 1 <= i < options.len() {
        let p = names[i - 1];
        assert(p == options.skip(1)[i - 1].named());
        assert(names.contains(p));
        assert(names.to_set().contains(p));
        assert(phases.to_set().contains(p));
        assert(phases.contains(p));
        let k = phases.index_of(p);
        assert(snapshot.experiments@[k].phase@ == p);
    }
}

} // verus!

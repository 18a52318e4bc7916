//! What the native console asks of the desktop, and what it makes of the answers.

use vstd::prelude::*;
use crate::console::records::ResourceManifestRef;
use crate::kubectl::{kubectl_outcome, meaning, KubectlResult};
use crate::text::{cat, trim, trimmed};

verus! {

/// Whether the link can be opened; a blank one cannot.
pub fn check_url(url: &str) -> (r: Result<(), String>)
    ensures
        r is Err <==> trimmed(url@).len() == 0,
        r matches Err(e) ==> e@ == "URL is empty"@,
{
    if trim(url).as_str().is_empty() {
        Err("URL is empty".to_owned())
    } else {
        Ok(())
    }
}

/// What the status line says once the link is open.
pub fn opened_url(url: &str) -> (r: String)
    ensures
        r@ == "Opened link: "@ + url@,
{
    cat("Opened link: ", url)
}

/// The address of the dashboard: the configured one, or the cluster's own.
pub fn grafana_url(configured: Option<String>) -> (r: String)
    ensures
        r@ == (match configured {
            Some(u) => u@,
            None => "https://grafana.casazza.io/d/athena-athena-experiment-debugging/athena-experiment-debugging"@,
        }),
{
    match configured {
        Some(u) => u,
        None => "https://grafana.casazza.io/d/athena-athena-experiment-debugging/athena-experiment-debugging".to_owned(),
    }
}

/// What to do with a workspace.
#[derive(Debug)]
pub enum WorkspaceStep {
    /// The path is blank.
    Refuse(String),
    /// The path does not exist here: say so.
    Report(String),
    /// Open the path with the editor, or with the desktop's own opener where that fails.
    Open,
}

/// What to do with the workspace, given whether its path exists here.
pub fn open_workspace(path: &str, mounted: bool) -> (r: WorkspaceStep)
    ensures
        if trimmed(path@).len() == 0 {
            r matches WorkspaceStep::Refuse(e) && e@ == "workspace path is empty"@
        } else if !mounted {
            r matches WorkspaceStep::Report(s) && s@
                == "Workspace path is cluster-only, not mounted locally: "@ + path@
        } else {
            r is Open
        },
{
    if trim(path).as_str().is_empty() {
        WorkspaceStep::Refuse("workspace path is empty".to_owned())
    } else if !mounted {
        WorkspaceStep::Report(cat("Workspace path is cluster-only, not mounted locally: ", path))
    } else {
        WorkspaceStep::Open
    }
}

/// What the status line says once the workspace is open.
pub fn opened_workspace(path: &str) -> (r: String)
    ensures
        r@ == "Opened workspace: "@ + path@,
{
    cat("Opened workspace: ", path)
}

/// The editor that opens workspaces: the console's own setting, then the usual ones.
pub fn configured_editor(
    athena_editor: Option<String>,
    visual: Option<String>,
    editor: Option<String>,
) -> (r: String)
    ensures
        r@ == (if athena_editor is Some {
            athena_editor->0@
        } else if visual is Some {
            visual->0@
        } else if editor is Some {
            editor->0@
        } else {
            "lapce"@
        }),
{
    match (athena_editor, visual, editor) {
        (Some(e), _, _) => e,
        (None, Some(e), _) => e,
        (None, None, Some(e)) => e,
        (None, None, None) => "lapce".to_owned(),
    }
}

/// The manifest of the resource, or why there is none.
pub fn load_resource_manifest_yaml(resource: ResourceManifestRef, k: KubectlResult) -> (r: Result<
    (ResourceManifestRef, String),
    String,
>)
    ensures
        match r {
            Ok((m, yaml)) => m == resource && meaning(k) == Ok::<Seq<char>, Seq<char>>(yaml@),
            Err(e) => meaning(k) == Err::<Seq<char>, Seq<char>>(e@),
        },
{
    match kubectl_outcome(k) {
        Ok(yaml) => Ok((resource, yaml)),
        Err(e) => Err(e),
    }
}

/// The template's YAML, or why there is none.
pub fn load_template_yaml(namespace: String, name: String, k: KubectlResult) -> (r: Result<
    (String, String, String),
    String,
>)
    ensures
        match r {
            Ok((ns, n, yaml)) => ns == namespace && n == name && meaning(k) == Ok::<
                Seq<char>,
                Seq<char>,
            >(yaml@),
            Err(e) => meaning(k) == Err::<Seq<char>, Seq<char>>(e@),
        },
{
    match kubectl_outcome(k) {
        Ok(yaml) => Ok((namespace, name, yaml)),
        Err(e) => Err(e),
    }
}

/// Only a blank address is refused; a workspace is opened where it is mounted, and where it is not
/// the console says so.
pub proof fn what_is_blank_is_refused(
    url: &str,
    r: Result<(), String>,
    path: &str,
    mounted: bool,
    s: WorkspaceStep,
)
    requires
        call_ensures(check_url, (url,), r),
        call_ensures(open_workspace, (path, mounted), s),
    ensures
        r is Ok <==> trimmed(url@).len() > 0,
        s is Refuse <==> trimmed(path@).len() == 0,
        s is Open <==> trimmed(path@).len() > 0 && mounted,
        s is Report <==> trimmed(path@).len() > 0 && !mounted,
        s matches WorkspaceStep::Report(t) ==> path@.is_suffix_of(t@),
{
    let front = "Workspace path is cluster-only, not mounted locally: "@;
    let t = front + path@;
    assert(t.subrange(front.len() as int, t.len() as int) =~= path@);
}

/// The editor is the console's own, else the visual one, else the plain one, and the address of the
/// dashboard is the configured one where there is one.
pub proof fn the_nearest_setting_wins(
    own: Option<String>,
    visual: Option<String>,
    plain: Option<String>,
    r: String,
    url: Option<String>,
    g: String,
)
    requires
        call_ensures(configured_editor, (own, visual, plain), r),
        call_ensures(grafana_url, (url,), g),
    ensures
        own is Some ==> r@ == own->0@,
        own is None && visual is Some ==> r@ == visual->0@,
        own is None && visual is None && plain is Some ==> r@ == plain->0@,
        own is None && visual is None && plain is None ==> r@ == "lapce"@,
        url is Some ==> g@ == url->0@,
{
}

/// What was loaded is handed on with what it was loaded for.
pub proof fn what_was_loaded_keeps_its_name(
    resource: ResourceManifestRef,
    yaml: String,
    r: Result<(ResourceManifestRef, String), String>,
    namespace: String,
    name: String,
    t: Result<(String, String, String), String>,
)
    requires
        call_ensures(load_resource_manifest_yaml, (resource, KubectlResult::Wrote(yaml)), r),
        call_ensures(load_template_yaml, (namespace, name, KubectlResult::Wrote(yaml)), t),
    ensures
        r matches Ok((m, y)) && m == resource && y@ == yaml@,
        t matches Ok((ns, n, y)) && ns == namespace && n == name && y@ == yaml@,
{
}

} // verus!

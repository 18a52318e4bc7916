//! Manifests, as `kubectl` reads them from the cluster.

use vstd::prelude::*;
use crate::reports::{BAD_GATEWAY, INTERNAL_SERVER_ERROR, OK};
use crate::text::{cat, trim, trimmed};

verus! {

/// The arguments of `kubectl` that read a manifest.
pub open spec fn manifest_words(namespace: Seq<char>, kind: Seq<char>, name: Seq<char>) -> Seq<
    Seq<char>,
> {
    seq!["-n"@, namespace, "get"@, kind, name, "-o"@, "yaml"@]
}

/// The arguments of `kubectl` that read a manifest.
pub fn manifest_args(namespace: &str, kind: &str, name: &str) -> (r: Vec<String>)
    ensures
        r.deep_view() == manifest_words(namespace@, kind@, name@),
{
    let mut v: Vec<String> = Vec::new();
    v.push("-n".to_owned());
    v.push(namespace.to_owned());
    v.push("get".to_owned());
    v.push(kind.to_owned());
    v.push(name.to_owned());
    v.push("-o".to_owned());
    v.push("yaml".to_owned());
    assert(v.deep_view() =~= manifest_words(namespace@, kind@, name@));
    v
}

/// What `kubectl` came back with.
#[derive(Debug)]
pub enum KubectlResult {
    /// It could not be run.
    NotRun(String),
    /// It failed, and wrote this.
    Failed(String),
    /// It wrote what is no text.
    Garbled(String),
    /// It wrote this.
    Wrote(String),
}

/// What a result means: the manifest, or why there is none.
pub open spec fn meaning(k: KubectlResult) -> Result<Seq<char>, Seq<char>> {
    match k {
        KubectlResult::NotRun(e) => Err("failed to run kubectl: "@ + e@),
        KubectlResult::Failed(e) => Err(trimmed(e@)),
        KubectlResult::Garbled(e) => Err("kubectl returned invalid UTF-8: "@ + e@),
        KubectlResult::Wrote(yaml) => Ok(yaml@),
    }
}

/// The manifest, or why there is none.
pub fn kubectl_outcome(k: KubectlResult) -> (r: Result<String, String>)
    ensures
        match r {
            Ok(yaml) => meaning(k) == Ok::<Seq<char>, Seq<char>>(yaml@),
            Err(e) => meaning(k) == Err::<Seq<char>, Seq<char>>(e@),
        },
{
    match k {
        KubectlResult::NotRun(e) => Err(cat("failed to run kubectl: ", e.as_str())),
        KubectlResult::Failed(e) => Err(trim(e.as_str())),
        KubectlResult::Garbled(e) => Err(cat("kubectl returned invalid UTF-8: ", e.as_str())),
        KubectlResult::Wrote(yaml) => Ok(yaml),
    }
}

/// What the backend answers a request for a manifest.
pub fn kubectl_yaml(k: KubectlResult) -> (r: (u16, String))
    ensures
        match k {
            KubectlResult::NotRun(e) => r.0 == INTERNAL_SERVER_ERROR && r.1@
                == "failed to run kubectl: "@ + e@,
            KubectlResult::Failed(e) => r.0 == BAD_GATEWAY && r.1@ == trimmed(e@),
            KubectlResult::Garbled(e) => r.0 == BAD_GATEWAY && r.1@
                == "kubectl returned invalid UTF-8: "@ + e@,
            KubectlResult::Wrote(yaml) => r.0 == OK && r.1@ == yaml@,
        },
{
    let status: u16 = match &k {
        KubectlResult::NotRun(_) => INTERNAL_SERVER_ERROR,
        KubectlResult::Failed(_) => BAD_GATEWAY,
        KubectlResult::Garbled(_) => BAD_GATEWAY,
        KubectlResult::Wrote(_) => OK,
    };
    match kubectl_outcome(k) {
        Ok(yaml) => (status, yaml),
        Err(e) => (status, e),
    }
}

/// What kubectl wrote is taken as it is; what went wrong is told apart by where it did.
pub proof fn a_failure_says_where_it_happened(e: String, yaml: String)
    ensures
        meaning(KubectlResult::Wrote(yaml)) == Ok::<Seq<char>, Seq<char>>(yaml@),
        meaning(KubectlResult::Failed(e)) == Err::<Seq<char>, Seq<char>>(trimmed(e@)),
        meaning(KubectlResult::NotRun(e)) == Err::<Seq<char>, Seq<char>>(
            "failed to run kubectl: "@ + e@,
        ),
        meaning(KubectlResult::Garbled(e)) == Err::<Seq<char>, Seq<char>>(
            "kubectl returned invalid UTF-8: "@ + e@,
        ),
{
}

/// A manifest is asked for in its namespace, by its kind and then its name, as YAML.
pub proof fn a_manifest_is_asked_for_as_yaml(
    namespace: Seq<char>,
    kind: Seq<char>,
    name: Seq<char>,
)
    ensures
        ({
            let w = manifest_words(namespace, kind, name);
            &&& w.len() == 7
            &&& w[0] == "-n"@ && w[1] == namespace
            &&& w[2] == "get"@ && w[3] == kind && w[4] == name
            &&& w[5] == "-o"@ && w[6] == "yaml"@
        }),
{
}

/// Kubectl's answer is passed on as met only where it wrote something; where it could not be run that
/// is the console's own failure, and anything else one behind it.
pub proof fn only_what_was_written_is_met(k: KubectlResult, r: (u16, String))
    requires
        call_ensures(kubectl_yaml, (k,), r),
    ensures
        r.0 == 200 <==> k is Wrote,
        r.0 == 500 <==> k is NotRun,
        r.0 == 502 <==> k is Failed || k is Garbled,
        k matches KubectlResult::Wrote(yaml) ==> r.1@ == yaml@,
{
}

} // verus!

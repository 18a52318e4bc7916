use athena::defaults::{apply_runtime_profile_defaults, deep_merge};
use athena::experiment::{DerivationRelation, ExperimentLineage, ParameterDelta};
use athena::json::{Json, Number};
use athena::number::Real;
use athena::research_campaign;
use athena::research_drive;
use athena::runtime_profile;
use athena::runtime_profile::{default_sky_enabled, default_sky_use_spot};
use athena::textmap::TextMap;

fn integer(n: i64) -> Json {
    let v = n as f64;
    let bits = v.abs().to_bits() as i64;
    Json::Number(Number {
        text: n.to_string(),
        float: Real {
            rank: if v.is_sign_negative() { -bits - 1 } else { bits },
            text: format!("{v}"),
            fixed1: format!("{v:.1}"),
            fixed2: format!("{v:.2}"),
            fixed3: format!("{v:.3}"),
            fixed4: format!("{v:.4}"),
        },
        integer: Some(n),
    })
}

fn text(s: &str) -> Json {
    Json::Text(s.to_string())
}

fn object(members: Vec<(&str, Json)>) -> Json {
    Json::Object(TextMap::of(
        members
            .into_iter()
            .map(|(k, v)| (k.to_string(), v))
            .collect(),
    ))
}

fn base_spec(extra: Vec<(&str, Json)>) -> Json {
    let mut members = vec![
        (
            "runtime",
            object(vec![("type", text("pytorch")), ("mode", text("batchJob"))]),
        ),
        ("image", text("ghcr.io/example/trainer:latest")),
    ];
    members.extend(extra);
    object(members)
}

fn at<'a>(j: &'a Json, path: &[&str]) -> Option<&'a Json> {
    let mut here = j;
    for key in path {
        here = here.get(key)?;
    }
    Some(here)
}

fn flag(j: &Json, path: &[&str], missing: bool) -> bool {
    match at(j, path) {
        Some(Json::Bool(b)) => *b,
        None => missing,
        other => panic!("no flag: {other:?}"),
    }
}

fn whole(j: &Json, path: &[&str]) -> Option<i64> {
    match at(j, path) {
        Some(Json::Number(n)) => n.integer,
        _ => None,
    }
}

// An empty `sky: {}` block opts in and picks up every burst default,
// notably the hard TTL.
#[test]
fn empty_sky_block_gets_ttl_default() {
    let spec = apply_runtime_profile_defaults(base_spec(vec![("sky", object(vec![]))]));
    assert!(at(&spec, &["sky"]).is_some(), "sky present");
    assert!(flag(&spec, &["sky", "enabled"], default_sky_enabled()));
    assert!(flag(&spec, &["sky", "useSpot"], default_sky_use_spot()));
    assert_eq!(whole(&spec, &["sky", "ttlMinutes"]), Some(480));
    assert_eq!(whole(&spec, &["sky", "idleMinutesToAutostop"]), Some(30));
}

// A user-set ttlMinutes survives the merge; siblings still default.
#[test]
fn user_ttl_survives_merge() {
    let spec = apply_runtime_profile_defaults(base_spec(vec![(
        "sky",
        object(vec![("ttlMinutes", integer(60))]),
    )]));
    assert!(at(&spec, &["sky"]).is_some(), "sky present");
    assert_eq!(whole(&spec, &["sky", "ttlMinutes"]), Some(60));
    // Sibling defaults are untouched by the override.
    assert_eq!(whole(&spec, &["sky", "idleMinutesToAutostop"]), Some(30));
    assert!(flag(&spec, &["sky", "useSpot"], default_sky_use_spot()));
}

// A nested override wins without erasing sibling defaults at that depth.
#[test]
fn nested_override_keeps_sibling_defaults() {
    let spec = apply_runtime_profile_defaults(base_spec(vec![(
        "resources",
        object(vec![("requests", object(vec![("cpu", text("8"))]))]),
    )]));
    assert_eq!(at(&spec, &["resources", "requests", "cpu"]).unwrap(), &text("8"));
    // The memory default sits next to the overridden cpu, not erased by it.
    assert_eq!(
        at(&spec, &["resources", "requests", "memory"]).unwrap(),
        &text("512Mi")
    );
}

// No sky block in the manifest => no sky block after defaulting. Absence
// is the on-prem switch and must never be manufactured by defaults.
#[test]
fn absent_sky_stays_absent() {
    let spec = apply_runtime_profile_defaults(base_spec(vec![]));
    assert!(at(&spec, &["sky"]).is_none());
}

// Explicit user null behaves like absence: the default fills it.
#[test]
fn explicit_null_takes_default() {
    let merged = apply_runtime_profile_defaults(base_spec(vec![(
        "sky",
        object(vec![("ttlMinutes", Json::Null)]),
    )]));
    assert_eq!(whole(&merged, &["sky", "ttlMinutes"]), Some(480));
}

// User keys unknown to the defaults tree pass through unmodified.
#[test]
fn unrelated_user_fields_pass_through() {
    let merged = apply_runtime_profile_defaults(base_spec(vec![
        (
            "scheduling",
            object(vec![("queueName", text("athena-local"))]),
        ),
        (
            "resources",
            object(vec![("limits", object(vec![("nvidia.com/gpu", text("1"))]))]),
        ),
    ]));
    assert_eq!(
        at(&merged, &["scheduling", "queueName"]),
        Some(&text("athena-local"))
    );
    assert_eq!(
        at(&merged, &["resources", "limits", "nvidia.com/gpu"]),
        Some(&text("1"))
    );
    // And the requests defaults still landed alongside the user limits.
    assert_eq!(
        at(&merged, &["resources", "requests", "cpu"]),
        Some(&text("500m"))
    );
}

// Arrays are replaced wholesale, never element-merged.
#[test]
fn arrays_replace_wholesale() {
    let merged = deep_merge(
        object(vec![
            ("list", Json::Array(vec![integer(1), integer(2), integer(3)])),
            ("keep", Json::Bool(true)),
        ]),
        object(vec![("list", Json::Array(vec![integer(9)]))]),
    );
    assert_eq!(at(&merged, &["list"]), Some(&Json::Array(vec![integer(9)])));
    assert_eq!(at(&merged, &["keep"]), Some(&Json::Bool(true)));
}

// A null sky block is a hole like an absent one: nothing fills it.
#[test]
fn a_null_sky_block_opens_no_defaults() {
    let merged = apply_runtime_profile_defaults(base_spec(vec![("sky", Json::Null)]));
    assert_eq!(whole(&merged, &["sky", "ttlMinutes"]), None);
}

// What is no object replaces what is one.
#[test]
fn a_scalar_replaces_an_object() {
    let merged = deep_merge(object(vec![("a", object(vec![("b", integer(1))]))]), object(vec![("a", integer(2))]));
    assert_eq!(whole(&merged, &["a"]), Some(2));
    assert_eq!(deep_merge(integer(1), Json::Null), integer(1));
    assert_eq!(deep_merge(integer(1), text("x")), text("x"));
}

#[test]
fn defaulting_again_changes_nothing() {
    let once = apply_runtime_profile_defaults(base_spec(vec![("sky", object(vec![]))]));
    let again = apply_runtime_profile_defaults(once.clone());
    assert_eq!(again, once);
    let ttl = match at(&once, &["sky", "ttlMinutes"]) {
        Some(Json::Number(n)) => n.clone(),
        _ => panic!("no number"),
    };
    assert_eq!(ttl.float.rank, 480f64.to_bits() as i64);
    assert_eq!(ttl.float.fixed2, "480.00");
}

#[test]
fn settings_that_are_left_out_have_their_defaults() {
    assert_eq!(research_campaign::default_vllm_port(), 8000);
    assert_eq!(research_campaign::default_mesh_port(), 9337);
    assert_eq!(research_drive::default_max_active_branches(), research_drive::DriveLimits::default().max_active_branches);
    assert_eq!(research_drive::default_stagnation_window(), research_drive::StagnationSpec::default().window);
    assert_eq!(research_drive::CampaignBudgetLimit::default().max_duration, "48h");
    assert_eq!(runtime_profile::MetricsEndpoint::default().port, runtime_profile::default_metrics_port());
    assert_eq!(runtime_profile::StorageProfile::default().workspace_size, runtime_profile::default_workspace_size());
    assert_eq!(runtime_profile::SkySpec::default().use_spot, runtime_profile::default_sky_use_spot());
}

#[test]
fn a_lineage_says_what_moved() {
    let of = |s: &str| Real { fixed4: s.to_string(), ..Default::default() };
    let delta = |from: Option<&str>, factor: Option<&str>| ParameterDelta {
        param: "lr".into(),
        from: from.map(of),
        to: of("0.0020"),
        factor: factor.map(of),
    };
    let lineage = |parent: Option<&str>, perturbations: Vec<ParameterDelta>| ExperimentLineage {
        relation: DerivationRelation::Perturb,
        parent: parent.map(String::from),
        parent_uid: None,
        generation: None,
        strategy: None,
        perturbations,
        salt: None,
    };
    let moved = lineage(
        Some("p"),
        vec![
            delta(Some("0.0010"), Some("2.0000")),
            delta(Some("0.0010"), None),
            delta(None, Some("2.0000")),
            delta(None, None),
        ],
    );
    assert_eq!(
        moved.describe(),
        "search exploit+explore from p: lr 0.0010->0.0020 (x2.0000), lr 0.0010->0.0020, lr x2.0000, lr=0.0020"
    );
    assert_eq!(
        lineage(Some("p"), vec![]).describe(),
        "search exploit from p (no numeric params to perturb)"
    );
    assert_eq!(lineage(None, vec![]).describe(), "search: no successful parent yet");
    let mut control = lineage(Some("p"), vec![]);
    control.relation = DerivationRelation::Remeasure;
    assert_eq!(
        control.describe(),
        "control: re-measure incumbent p on a fresh seed (calibrates sigma; not a search point)"
    );
}

use athena::json::{Json, Number};
use athena::meta::ObjectMeta;
use athena::number::Real;
use athena::scheduling::{
    as_i64, backend_of, mesh_of, node_of, pool_fits, pool_of, scheduling_snapshot, sum_flavor_resource,
    workload_fits, workload_of, DynamicObject, InferenceBackend, NodePower, WorkloadRow,
};
use athena::textmap::TextMap;
use athena::web::admin::{gpu_pools_view, inference_view, node_power_view};

fn text(s: &str) -> Json {
    Json::Text(s.to_string())
}

fn whole(n: i64) -> Json {
    Json::Number(Number {
        text: n.to_string(),
        float: Real::default(),
        integer: Some(n),
    })
}

fn object(members: Vec<(&str, Json)>) -> Json {
    Json::Object(TextMap::of(
        members
            .into_iter()
            .map(|(k, v)| (k.to_string(), v))
            .collect(),
    ))
}

fn named(name: &str, data: Json) -> DynamicObject {
    DynamicObject {
        metadata: ObjectMeta {
            name: Some(name.to_string()),
            namespace: Some("ns".to_string()),
            ..Default::default()
        },
        data,
    }
}

fn flavor(resources: Vec<(&str, &str, Json)>) -> Json {
    object(vec![(
        "resources",
        Json::Array(
            resources
                .into_iter()
                .map(|(name, key, v)| object(vec![("name", text(name)), (key, v)]))
                .collect(),
        ),
    )])
}

fn queue() -> DynamicObject {
    let quotas = Json::Array(vec![
        flavor(vec![
            ("nvidia.com/gpu", "nominalQuota", whole(4)),
            ("cpu", "nominalQuota", text("48")),
        ]),
        flavor(vec![("nvidia.com/gpu", "nominalQuota", text("2Gi"))]),
    ]);
    let usage = Json::Array(vec![flavor(vec![
        ("nvidia.com/gpu", "total", whole(3)),
        ("cpu", "total", text("x7")),
    ])]);
    named(
        "pool",
        object(vec![
            (
                "spec",
                object(vec![(
                    "resourceGroups",
                    Json::Array(vec![object(vec![("flavors", quotas)])]),
                )]),
            ),
            (
                "status",
                object(vec![
                    ("flavorsUsage", usage),
                    ("pendingWorkloads", whole(5)),
                    ("admittedWorkloads", text("6")),
                ]),
            ),
        ]),
    )
}

fn pod_set(count: Option<i64>, gpus: &str) -> Json {
    let container = object(vec![(
        "resources",
        object(vec![("requests", object(vec![("nvidia.com/gpu", text(gpus))]))]),
    )]);
    let template = object(vec![(
        "spec",
        object(vec![("containers", Json::Array(vec![container]))]),
    )]);
    let mut members = vec![("template", template)];
    if let Some(n) = count {
        members.push(("count", whole(n)));
    }
    object(members)
}

fn workload(conditions: Vec<(&str, &str)>, sets: Vec<Json>) -> DynamicObject {
    named(
        "w",
        object(vec![
            (
                "spec",
                object(vec![
                    ("podSets", Json::Array(sets)),
                    ("queueName", text("local")),
                ]),
            ),
            (
                "status",
                object(vec![(
                    "conditions",
                    Json::Array(
                        conditions
                            .into_iter()
                            .map(|(t, s)| object(vec![("type", text(t)), ("status", text(s))]))
                            .collect(),
                    ),
                )]),
            ),
        ]),
    )
}

#[test]
fn quantities_are_read_by_their_leading_digits() {
    assert_eq!(as_i64(&whole(7)), 7);
    assert_eq!(as_i64(&text("192Gi")), 192);
    assert_eq!(as_i64(&text("48")), 48);
    assert_eq!(as_i64(&text("Gi")), 0);
    assert_eq!(as_i64(&text("")), 0);
    assert_eq!(as_i64(&text("-3")), 0);
    assert_eq!(as_i64(&text("99999999999999999999")), 0);
    assert_eq!(as_i64(&Json::Bool(true)), 0);
    assert_eq!(as_i64(&Json::Null), 0);
    let half = Json::Number(Number { text: "0.5".into(), float: Real::default(), integer: None });
    assert_eq!(as_i64(&half), 0);
}

#[test]
fn a_pool_adds_up_its_flavors() {
    let q = queue();
    assert!(pool_fits(&q.data));
    let p = pool_of(&q);
    assert_eq!(p.name, "pool");
    assert_eq!((p.gpu_nominal, p.gpu_used), (6, 3));
    assert_eq!((p.cpu_nominal, p.cpu_used), (48, 0));
    assert_eq!((p.pending_workloads, p.admitted_workloads), (5, 6));
    assert_eq!(sum_flavor_resource(None, "cpu", "total"), 0);
    assert_eq!(sum_flavor_resource(Some(&text("no list")), "cpu", "total"), 0);
}

#[test]
fn sums_that_leave_the_range_are_found() {
    let flavors = Json::Array(vec![flavor(vec![
        ("cpu", "nominalQuota", whole(i64::MAX)),
        ("cpu", "nominalQuota", whole(1)),
    ])]);
    let data = object(vec![(
        "spec",
        object(vec![(
            "resourceGroups",
            Json::Array(vec![object(vec![("flavors", flavors)])]),
        )]),
    )]);
    assert!(!pool_fits(&data));
    assert!(pool_fits(&Json::Null));
    assert!(!workload_fits(&workload(vec![], vec![pod_set(Some(i64::MAX), "2")]).data));
    assert!(workload_fits(&workload(vec![], vec![pod_set(Some(i64::MAX), "1")]).data));
}

#[test]
fn a_workload_is_finished_before_it_is_admitted() {
    let sets = || vec![pod_set(None, "2"), pod_set(Some(3), "1")];
    let w = workload(vec![("Admitted", "True")], sets());
    assert!(workload_fits(&w.data));
    assert_eq!(
        workload_of(&w),
        WorkloadRow {
            name: "w".into(),
            namespace: "ns".into(),
            queue: "local".into(),
            priority_class: "".into(),
            state: "Admitted".into(),
            gpus: 5,
        }
    );
    let done = workload(vec![("Admitted", "True"), ("Finished", "False")], sets());
    assert_eq!(workload_of(&done).state, "Finished");
    let held = workload(vec![("Admitted", "False")], sets());
    assert_eq!(workload_of(&held).state, "Pending");
    let reserved = workload(vec![("QuotaReserved", "True")], sets());
    assert_eq!(workload_of(&reserved).state, "QuotaReserved");
    let lost = workload(vec![("QuotaReserved", "False")], sets());
    assert_eq!(workload_of(&lost).state, "Pending");
    let both = workload(vec![("QuotaReserved", "True"), ("Admitted", "True")], sets());
    assert_eq!(workload_of(&both).state, "Admitted");
    assert_eq!(workload_of(&named("bare", Json::Null)).state, "Pending");
    assert_eq!(workload_of(&named("bare", Json::Null)).gpus, 0);
}

#[test]
fn machines_and_backends_are_read_from_their_status() {
    let m = named(
        "node",
        object(vec![
            ("status", object(vec![("poweredOn", Json::Bool(true)), ("phase", text("Ready"))])),
            ("spec", object(vec![("poolRef", text("gpu"))])),
        ]),
    );
    assert_eq!(
        node_of(&m),
        NodePower {
            name: "node".into(),
            powered: true,
            phase: "Ready".into(),
            pool: "gpu".into(),
        }
    );
    assert!(!node_of(&named("off", Json::Null)).powered);
    let job = |name: &str, state: &str| {
        named(
            name,
            object(vec![("status", object(vec![("jobDeploymentStatus", text(state))]))]),
        )
    };
    assert_eq!(
        backend_of(&job("vllm-camp", "Running")),
        Some(InferenceBackend {
            campaign: "camp".into(),
            kind: "cluster".into(),
            name: "vllm-camp".into(),
            serving: true,
            endpoint: "http://vllm-camp.ns.svc:8000/v1".into(),
        })
    );
    assert!(!backend_of(&job("vllm-camp", "Failed")).unwrap().serving);
    assert_eq!(backend_of(&job("other", "Running")), None);
}

#[test]
fn a_mesh_serves_while_a_replica_is_ready() {
    let mesh = |name: &str, ready: i64| {
        named(
            name,
            object(vec![("status", object(vec![("readyReplicas", whole(ready))]))]),
        )
    };
    assert_eq!(
        mesh_of(&mesh("mesh-llm-camp", 1)),
        Some(InferenceBackend {
            campaign: "camp".into(),
            kind: "mesh".into(),
            name: "mesh-llm-camp".into(),
            serving: true,
            endpoint: "http://mesh-llm-camp.ns.svc:9337/v1".into(),
        })
    );
    assert!(!mesh_of(&mesh("mesh-llm-camp", 0)).unwrap().serving);
    assert!(!mesh_of(&named("mesh-llm-camp", Json::Null)).unwrap().serving);
    assert_eq!(mesh_of(&mesh("vllm-camp", 1)), None);
}

#[test]
fn a_snapshot_keeps_every_listed_object_but_foreign_jobs() {
    let s = scheduling_snapshot(
        &vec![queue()],
        &vec![workload(vec![], vec![])],
        &vec![named("node", Json::Null)],
        &vec![named("vllm-a", Json::Null), named("b", Json::Null)],
        &vec![named("mesh-llm-m", Json::Null), named("c", Json::Null)],
    );
    assert_eq!(s.pools.len(), 1);
    assert_eq!(s.workloads.len(), 1);
    assert_eq!(s.nodes.len(), 1);
    assert_eq!(s.inference.len(), 2);
    assert_eq!(s.inference[0].campaign, "a");
    assert_eq!(s.inference[1].campaign, "m");
    assert_eq!(s.inference[1].kind, "mesh");
    let pools = gpu_pools_view(&s);
    assert_eq!(pools.pools.len(), 1);
    assert_eq!(pools.pools[0].pool, "pool");
    assert_eq!(pools.workloads.rows.len(), 1);
    assert_eq!(node_power_view(&s)[0].node, "node");
    assert_eq!(inference_view(&s).lines[0].campaign, "a");
}

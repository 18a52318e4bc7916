//! The GPU-scheduling / inference stack as both consoles show it: Kueue
//! (ClusterQueue/Workload), Hephaestus (MetalMachine power), and the
//! ephemeral inference backends (RayJob and mesh-llm Deployment).
//!
//! Kueue/Ray/MetalMachine have no typed structs here, so everything is read from
//! a [`DynamicObject`] and projected into the rows below.

use vstd::prelude::*;
use crate::dossier::parts::{or_empty, text_or};
use crate::json::{member_of, text_of, walked, Json, Number};
use crate::meta::ObjectMeta;
use crate::numeral::{
    a_written_number_reads_back, decimal, lemma_decimal_is_digits, parse_i64, parsed, signed,
};
use crate::research_campaign::{default_mesh_port, default_vllm_port};
use crate::text::{chars_of, digit, is_digit, same, slice_text, strip_prefix, stripped};

verus! {

broadcast use vstd::seq_lib::group_seq_properties;

/// A resource of the cluster without a typed struct.
#[derive(Debug, Clone)]
pub struct DynamicObject {
    pub metadata: ObjectMeta,
    /// Everything but the metadata.
    pub data: Json,
}

/// One GPU pool = one Kueue ClusterQueue: nominal quota vs live usage + queue depth.
#[derive(Debug, Clone, Default, PartialEq)]
pub struct GpuPool {
    pub name: String,
    pub gpu_nominal: i64,
    pub gpu_used: i64,
    pub cpu_nominal: i64,
    pub cpu_used: i64,
    pub pending_workloads: i64,
    pub admitted_workloads: i64,
}

/// One Kueue Workload row (a Job/RayJob's admission record).
#[derive(Debug, Clone, Default, PartialEq)]
pub struct WorkloadRow {
    pub name: String,
    pub namespace: String,
    pub queue: String,
    pub priority_class: String,
    /// Admitted | QuotaReserved | Pending | Finished
    pub state: String,
    pub gpus: i64,
}

/// A GPU node's power state (Hephaestus MetalMachine = scale-from-zero on metal).
#[derive(Debug, Clone, Default, PartialEq)]
pub struct NodePower {
    pub name: String,
    pub powered: bool,
    pub phase: String,
    pub pool: String,
}

/// An ephemeral inference backend the operator brought up for a campaign.
#[derive(Debug, Clone, Default, PartialEq)]
pub struct InferenceBackend {
    pub campaign: String,
    /// "mesh" (single-node mesh-llm Deployment) | "cluster" (multi-node vLLM RayJob)
    pub kind: String,
    pub name: String,
    pub serving: bool,
    pub endpoint: String,
}

/// Full snapshot of the scheduling/inference stack for the console.
#[derive(Debug, Clone, Default, PartialEq)]
pub struct SchedulingSnapshot {
    pub pools: Vec<GpuPool>,
    pub workloads: Vec<WorkloadRow>,
    pub nodes: Vec<NodePower>,
    pub inference: Vec<InferenceBackend>,
}

// ---------------------------------------------------------------------------
// Reading values
// ---------------------------------------------------------------------------

/// How many digits the text begins with.
pub open spec fn digit_run(s: Seq<char>) -> nat
    decreases s.len(),
{
    if s.len() > 0 && digit(s[0]) {
        1 + digit_run(s.drop_first())
    } else {
        0
    }
}

/// The whole number that a value gives. A quota can be a quantity text ("48", "192Gi"): its
/// leading digits count, where they write a 64-bit number.
pub open spec fn int_of(j: Json) -> int {
    match j {
        Json::Number(n) => match n.integer {
            Some(i) => i as int,
            None => 0,
        },
        Json::Text(s) => match parsed(s@.take(digit_run(s@) as int)) {
            Some(i) => i,
            None => 0,
        },
        _ => 0,
    }
}

proof fn lemma_digit_run(s: Seq<char>, k: int)
    requires
        0 <= k <= s.len(),
        forall|i: int| 0 <= i < k ==> digit(#[trigger] s[i]),
        k < s.len() ==> !digit(s[k]),
    ensures
        digit_run(s) == k,
    decreases k,
{
    if k > 0 {
        assert(digit(s[0]));
        let t = s.drop_first();
        assert forall|i: int| 0 <= i < k - 1 implies digit(#[trigger] t[i]) by {
            assert(digit(s[i + 1]));
        }
        lemma_digit_run(t, k - 1);
    }
}

/// The whole number that a value gives, or zero.
pub fn as_i64(v: &Json) -> (r: i64)
    ensures
        r == int_of(*v),
{
    match v {
        Json::Number(n) => match n.integer {
            Some(i) => i,
            None => 0,
        },
        Json::Text(s) => {
            let chars = chars_of(s.as_str());
            let mut k: usize = 0;
            while k < chars.len() && is_digit(chars[k])
                invariant
                    k <= chars.len(),
                    chars@ == s@,
                    forall|i: int| 0 <= i < k ==> digit(#[trigger] s@[i]),
                decreases chars.len() - k,
            {
                k = k + 1;
            }
            proof {
                lemma_digit_run(s@, k as int);
            }
            let head = slice_text(&chars, 0, k);
            assert(head@ =~= s@.take(k as int));
            match parse_i64(head.as_str()) {
                Some(i) => i,
                None => 0,
            }
        },
        _ => 0,
    }
}

/// The elements of an array; none of anything else.
pub open spec fn elements_of(j: Option<Json>) -> Seq<Json> {
    match j {
        Some(Json::Array(v)) => v@,
        _ => Seq::empty(),
    }
}

/// The text that the path leads to, or nothing.
pub open spec fn text_at(j: Json, path: Seq<&str>) -> Seq<char> {
    match walked(j, path) {
        Some(v) => match text_of(v) {
            Some(t) => t,
            None => Seq::empty(),
        },
        None => Seq::empty(),
    }
}

/// The whole number that the path leads to, or zero.
pub open spec fn int_at(j: Json, path: Seq<&str>) -> int {
    match walked(j, path) {
        Some(v) => int_of(v),
        None => 0,
    }
}

fn read_text(j: &Json, path: &Vec<&str>) -> (r: String)
    ensures
        r@ == text_at(*j, path@),
{
    match j.walk(path) {
        Some(v) => match v.as_str() {
            Some(t) => t.clone(),
            None => String::new(),
        },
        None => String::new(),
    }
}

fn read_int(j: &Json, path: &Vec<&str>) -> (r: i64)
    ensures
        r == int_at(*j, path@),
{
    match j.walk(path) {
        Some(v) => as_i64(v),
        None => 0,
    }
}

fn path2<'a>(a: &'a str, b: &'a str) -> (r: Vec<&'a str>)
    ensures
        r@ == seq![a, b],
{
    let mut p: Vec<&'a str> = Vec::new();
    p.push(a);
    p.push(b);
    assert(p@ =~= seq![a, b]);
    p
}

// ---------------------------------------------------------------------------
// Sums
// ---------------------------------------------------------------------------

/// The sum of the numbers.
pub open spec fn total(s: Seq<int>) -> int
    decreases s.len(),
{
    if s.len() == 0 {
        0
    } else {
        total(s.drop_last()) + s.last()
    }
}

/// The number is a 64-bit signed integer.
pub open spec fn fits(n: int) -> bool {
    i64::MIN <= n <= i64::MAX
}

/// Adding up the numbers one by one never leaves the 64-bit signed integers.
pub open spec fn adds_up(s: Seq<int>) -> bool {
    forall|k: int| 0 <= k <= s.len() ==> fits(#[trigger] total(s.take(k)))
}

/// The value has the name.
pub open spec fn has_name(j: Json, name: Seq<char>) -> bool {
    member_of(j, "name"@) matches Some(n) && text_of(n) == Some(name)
}

/// What the entries named `res` give under `key`.
pub open spec fn entry_values(entries: Seq<Json>, res: Seq<char>, key: Seq<char>) -> Seq<int>
    decreases entries.len(),
{
    if entries.len() == 0 {
        Seq::empty()
    } else {
        let rest = entry_values(entries.drop_last(), res, key);
        if has_name(entries.last(), res) {
            rest.push(
                match member_of(entries.last(), key) {
                    Some(v) => int_of(v),
                    None => 0,
                },
            )
        } else {
            rest
        }
    }
}

/// What the flavors' entries for the resource give under `key`.
pub open spec fn flavor_values(flavors: Seq<Json>, res: Seq<char>, key: Seq<char>) -> Seq<int>
    decreases flavors.len(),
{
    if flavors.len() == 0 {
        Seq::empty()
    } else {
        flavor_values(flavors.drop_last(), res, key) + entry_values(
            elements_of(member_of(flavors.last(), "resources"@)),
            res,
            key,
        )
    }
}

fn name_is(j: &Json, name: &str) -> (r: bool)
    ensures
        r == has_name(*j, name@),
{
    match j.get("name") {
        Some(n) => match n.as_str() {
            Some(t) => same(t.as_str(), name),
            None => false,
        },
        None => false,
    }
}

/// Adds what the entries give to `values`.
fn push_entries(values: &mut Vec<i64>, entries: &Vec<Json>, res: &str, key: &str)
    ensures
        ints(final(values)@) == ints(old(values)@) + entry_values(entries@, res@, key@),
{
    let ghost held = ints(values@);
    let mut i: usize = 0;
    assert(entry_values(entries@.take(0), res@, key@) =~= Seq::empty());
    assert(ints(values@) =~= held + Seq::<int>::empty());
    while i < entries.len()
        invariant
            i <= entries.len(),
            ints(values@) == held + entry_values(entries@.take(i as int), res@, key@),
        decreases entries.len() - i,
    {
        assert(entries@.take(i + 1).drop_last() =~= entries@.take(i as int));
        let ghost before = values@;
        if name_is(&entries[i], res) {
            let v: i64 = match entries[i].get(key) {
                Some(v) => as_i64(v),
                None => 0,
            };
            values.push(v);
            assert(ints(values@) =~= ints(before).push(v as int));
            assert(ints(values@) =~= held + entry_values(
                entries@.take(i as int),
                res@,
                key@,
            ).push(v as int));
        }
        i = i + 1;
    }
    assert(entries@.take(i as int) =~= entries@);
}

/// The numbers as mathematical integers.
pub open spec fn ints(s: Seq<i64>) -> Seq<int> {
    s.map_values(|i: i64| i as int)
}

/// What the flavors' entries for the resource give under `key`, one by one.
fn flavor_list(flavors: Option<&Json>, res: &str, key: &str) -> (r: Vec<i64>)
    ensures
        ints(r@) == flavor_values(elements_of(deref(flavors)), res@, key@),
{
    let mut values: Vec<i64> = Vec::new();
    assert(ints(values@) =~= Seq::empty());
    if let Some(Json::Array(v)) = flavors {
        let mut i: usize = 0;
        assert(flavor_values(v@.take(0), res@, key@) =~= Seq::empty());
        while i < v.len()
            invariant
                i <= v.len(),
                ints(values@) == flavor_values(v@.take(i as int), res@, key@),
            decreases v.len() - i,
        {
            assert(v@.take(i + 1).drop_last() =~= v@.take(i as int));
            let ghost before = ints(values@);
            if let Some(Json::Array(entries)) = v[i].get("resources") {
                push_entries(&mut values, entries, res, key);
            } else {
                assert(before + Seq::<int>::empty() =~= before);
            }
            i = i + 1;
        }
        assert(v@.take(i as int) =~= v@);
    }
    values
}

/// The value behind the reference.
pub open spec fn deref(j: Option<&Json>) -> Option<Json> {
    match j {
        Some(v) => Some(*v),
        None => None,
    }
}

/// The sum of the numbers, where adding them up never leaves the 64-bit integers.
fn checked_total(values: &Vec<i64>) -> (r: Option<i64>)
    ensures
        r is Some <==> adds_up(ints(values@)),
        r matches Some(t) ==> t == total(ints(values@)),
{
    let ghost all = ints(values@);
    let mut sum: i64 = 0;
    let mut i: usize = 0;
    assert(all.take(0) =~= Seq::empty());
    while i < values.len()
        invariant
            i <= values.len(),
            all == ints(values@),
            sum == total(all.take(i as int)),
            forall|k: int| 0 <= k <= i ==> fits(#[trigger] total(all.take(k))),
        decreases values.len() - i,
    {
        assert(all.take(i + 1).drop_last() =~= all.take(i as int));
        assert(all.take(i + 1).last() == values@[i as int]);
        match sum.checked_add(values[i]) {
            Some(next) => {
                sum = next;
            },
            None => {
                assert(!fits(total(all.take(i + 1))));
                return None;
            },
        }
        i = i + 1;
    }
    assert(all.take(i as int) =~= all);
    Some(sum)
}

/// Sum a Kueue flavor's resource entries (spec nominalQuota or status total) for `res`.
pub fn sum_flavor_resource(flavors: Option<&Json>, res: &str, key: &str) -> (r: i64)
    requires
        adds_up(flavor_values(elements_of(deref(flavors)), res@, key@)),
    ensures
        r == total(flavor_values(elements_of(deref(flavors)), res@, key@)),
{
    match checked_total(&flavor_list(flavors, res, key)) {
        Some(t) => t,
        None => 0,
    }
}

fn flavor_adds_up(flavors: Option<&Json>, res: &str, key: &str) -> (r: bool)
    ensures
        r == adds_up(flavor_values(elements_of(deref(flavors)), res@, key@)),
{
    checked_total(&flavor_list(flavors, res, key)).is_some()
}

// ---------------------------------------------------------------------------
// Pools
// ---------------------------------------------------------------------------

/// The flavors that the queue grants.
pub open spec fn granted(data: Json) -> Seq<Json> {
    elements_of(walked(data, seq!["spec", "resourceGroups", "0", "flavors"]))
}

/// The flavors that the queue uses.
pub open spec fn used(data: Json) -> Seq<Json> {
    elements_of(walked(data, seq!["status", "flavorsUsage"]))
}

/// The sums of the pool never leave the 64-bit integers.
pub open spec fn pool_adds_up(data: Json) -> bool {
    &&& adds_up(flavor_values(granted(data), "nvidia.com/gpu"@, "nominalQuota"@))
    &&& adds_up(flavor_values(used(data), "nvidia.com/gpu"@, "total"@))
    &&& adds_up(flavor_values(granted(data), "cpu"@, "nominalQuota"@))
    &&& adds_up(flavor_values(used(data), "cpu"@, "total"@))
}

/// The row is that of the ClusterQueue.
pub open spec fn is_pool(cq: DynamicObject, p: GpuPool) -> bool {
    &&& p.name@ == text_or(cq.metadata.name, Seq::empty())
    &&& p.gpu_nominal == total(
        flavor_values(granted(cq.data), "nvidia.com/gpu"@, "nominalQuota"@),
    )
    &&& p.gpu_used == total(flavor_values(used(cq.data), "nvidia.com/gpu"@, "total"@))
    &&& p.cpu_nominal == total(flavor_values(granted(cq.data), "cpu"@, "nominalQuota"@))
    &&& p.cpu_used == total(flavor_values(used(cq.data), "cpu"@, "total"@))
    &&& p.pending_workloads == int_at(cq.data, seq!["status", "pendingWorkloads"])
    &&& p.admitted_workloads == int_at(cq.data, seq!["status", "admittedWorkloads"])
}

fn granted_of(data: &Json) -> (r: Option<&Json>)
    ensures
        deref(r) == walked(*data, seq!["spec", "resourceGroups", "0", "flavors"]),
{
    let mut p: Vec<&str> = Vec::new();
    p.push("spec");
    p.push("resourceGroups");
    p.push("0");
    p.push("flavors");
    assert(p@ =~= seq!["spec", "resourceGroups", "0", "flavors"]);
    data.walk(&p)
}

/// Whether the sums of the pool never leave the 64-bit integers.
pub fn pool_fits(data: &Json) -> (r: bool)
    ensures
        r == pool_adds_up(*data),
{
    let flavors = granted_of(data);
    let usage = data.walk(&path2("status", "flavorsUsage"));
    flavor_adds_up(flavors, "nvidia.com/gpu", "nominalQuota") && flavor_adds_up(
        usage,
        "nvidia.com/gpu",
        "total",
    ) && flavor_adds_up(flavors, "cpu", "nominalQuota") && flavor_adds_up(usage, "cpu", "total")
}

/// The pool of a ClusterQueue.
pub fn pool_of(cq: &DynamicObject) -> (r: GpuPool)
    requires
        pool_adds_up(cq.data),
    ensures
        is_pool(*cq, r),
{
    let flavors = granted_of(&cq.data);
    let usage = cq.data.walk(&path2("status", "flavorsUsage"));
    GpuPool {
        name: or_empty(&cq.metadata.name),
        gpu_nominal: sum_flavor_resource(flavors, "nvidia.com/gpu", "nominalQuota"),
        gpu_used: sum_flavor_resource(usage, "nvidia.com/gpu", "total"),
        cpu_nominal: sum_flavor_resource(flavors, "cpu", "nominalQuota"),
        cpu_used: sum_flavor_resource(usage, "cpu", "total"),
        pending_workloads: read_int(&cq.data, &path2("status", "pendingWorkloads")),
        admitted_workloads: read_int(&cq.data, &path2("status", "admittedWorkloads")),
    }
}

// ---------------------------------------------------------------------------
// Workloads
// ---------------------------------------------------------------------------

/// The member of the value is the text.
pub open spec fn member_is(j: Json, key: Seq<char>, text: Seq<char>) -> bool {
    member_of(j, key) matches Some(v) && text_of(v) == Some(text)
}

/// The conditions of the workload.
pub open spec fn conditions_of(data: Json) -> Seq<Json> {
    elements_of(walked(data, seq!["status", "conditions"]))
}

/// A condition of the workload, of the given type, is true.
pub open spec fn condition_holds(data: Json, kind: Seq<char>) -> bool {
    exists|i: int|
        0 <= i < conditions_of(data).len() && member_is(
            #[trigger] conditions_of(data)[i],
            "type"@,
            kind,
        ) && member_is(conditions_of(data)[i], "status"@, "True"@)
}

/// The workload is finished.
pub open spec fn finished(data: Json) -> bool {
    exists|i: int|
        0 <= i < conditions_of(data).len() && member_is(
            #[trigger] conditions_of(data)[i],
            "type"@,
            "Finished"@,
        )
}

/// The GPUs that one pod of the set requests.
pub open spec fn gpus_per_pod(set: Json) -> int {
    int_at(
        set,
        seq!["template", "spec", "containers", "0", "resources", "requests", "nvidia.com/gpu"],
    )
}

/// How many pods the set has.
pub open spec fn pod_count(set: Json) -> int {
    match member_of(set, "count"@) {
        Some(v) => int_of(v),
        None => 1,
    }
}

/// The GPUs that each pod set requests.
pub open spec fn requested(sets: Seq<Json>) -> Seq<int> {
    sets.map_values(|set: Json| pod_count(set) * gpus_per_pod(set))
}

/// The pod sets of the workload.
pub open spec fn pod_sets(data: Json) -> Seq<Json> {
    elements_of(walked(data, seq!["spec", "podSets"]))
}

/// The products and the sum of the workload's GPUs never leave the 64-bit integers.
pub open spec fn workload_adds_up(data: Json) -> bool {
    &&& forall|i: int| 0 <= i < pod_sets(data).len() ==> fits(#[trigger] requested(pod_sets(data))[i])
    &&& adds_up(requested(pod_sets(data)))
}

/// The row is that of the Workload.
pub open spec fn is_workload(w: DynamicObject, r: WorkloadRow) -> bool {
    &&& r.name@ == text_or(w.metadata.name, Seq::empty())
    &&& r.namespace@ == text_or(w.metadata.namespace, Seq::empty())
    &&& r.queue@ == text_at(w.data, seq!["spec", "queueName"])
    &&& r.priority_class@ == text_at(w.data, seq!["spec", "priorityClassName"])
    &&& r.state@ == (if finished(w.data) {
        "Finished"@
    } else if condition_holds(w.data, "Admitted"@) {
        "Admitted"@
    } else if condition_holds(w.data, "QuotaReserved"@) {
        "QuotaReserved"@
    } else {
        "Pending"@
    })
    &&& r.gpus == total(requested(pod_sets(w.data)))
}

fn member_text_is(j: &Json, key: &str, text: &str) -> (r: bool)
    ensures
        r == member_is(*j, key@, text@),
{
    match j.get(key) {
        Some(v) => match v.as_str() {
            Some(t) => same(t.as_str(), text),
            None => false,
        },
        None => false,
    }
}

fn has_condition(data: &Json, kind: &str) -> (r: bool)
    ensures
        r == condition_holds(*data, kind@),
{
    let ghost all = conditions_of(*data);
    if let Some(Json::Array(v)) = data.walk(&path2("status", "conditions")) {
        let mut i: usize = 0;
        while i < v.len()
            invariant
                i <= v.len(),
                all == v@,
                all == conditions_of(*data),
                forall|k: int|
                    0 <= k < i ==> !(member_is(#[trigger] all[k], "type"@, kind@)
                        && member_is(all[k], "status"@, "True"@)),
            decreases v.len() - i,
        {
            if member_text_is(&v[i], "type", kind) && member_text_is(&v[i], "status", "True") {
                assert(member_is(all[i as int], "type"@, kind@));
                return true;
            }
            i = i + 1;
        }
    }
    false
}

fn is_finished(data: &Json) -> (r: bool)
    ensures
        r == finished(*data),
{
    let ghost all = conditions_of(*data);
    if let Some(Json::Array(v)) = data.walk(&path2("status", "conditions")) {
        let mut i: usize = 0;
        while i < v.len()
            invariant
                i <= v.len(),
                all == v@,
                all == conditions_of(*data),
                forall|k: int| 0 <= k < i ==> !member_is(#[trigger] all[k], "type"@, "Finished"@),
            decreases v.len() - i,
        {
            if member_text_is(&v[i], "type", "Finished") {
                assert(member_is(all[i as int], "type"@, "Finished"@));
                return true;
            }
            i = i + 1;
        }
    }
    false
}

fn per_pod(set: &Json) -> (r: i64)
    ensures
        r == gpus_per_pod(*set),
{
    let mut p: Vec<&str> = Vec::new();
    p.push("template");
    p.push("spec");
    p.push("containers");
    p.push("0");
    p.push("resources");
    p.push("requests");
    p.push("nvidia.com/gpu");
    assert(p@ =~= seq![
        "template",
        "spec",
        "containers",
        "0",
        "resources",
        "requests",
        "nvidia.com/gpu",
    ]);
    read_int(set, &p)
}

/// The GPUs that the pod sets request, where no product leaves the 64-bit integers.
fn requests(data: &Json) -> (r: Option<Vec<i64>>)
    ensures
        r is Some <==> forall|i: int|
            0 <= i < pod_sets(*data).len() ==> fits(#[trigger] requested(pod_sets(*data))[i]),
        r matches Some(v) ==> ints(v@) == requested(pod_sets(*data)),
{
    let ghost all = requested(pod_sets(*data));
    let mut out: Vec<i64> = Vec::new();
    if let Some(Json::Array(v)) = data.walk(&path2("spec", "podSets")) {
        let mut i: usize = 0;
        while i < v.len()
            invariant
                i <= v.len(),
                v@ == pod_sets(*data),
                all == requested(pod_sets(*data)),
                ints(out@) == all.take(i as int),
                forall|k: int| 0 <= k < i ==> fits(#[trigger] all[k]),
            decreases v.len() - i,
        {
            let count: i64 = match v[i].get("count") {
                Some(c) => as_i64(c),
                None => 1,
            };
            let per: i64 = per_pod(&v[i]);
            let ghost held = out@;
            match count.checked_mul(per) {
                Some(product) => {
                    out.push(product);
                    assert(all[i as int] == product);
                    assert(ints(out@) =~= ints(held).push(product as int));
                    assert(ints(out@) =~= all.take(i + 1));
                },
                None => {
                    assert(!fits(all[i as int]));
                    return None;
                },
            }
            i = i + 1;
        }
        assert(all.take(i as int) =~= all);
    } else {
        assert(ints(out@) =~= all);
    }
    Some(out)
}

/// Whether the products and the sum of the workload's GPUs never leave the 64-bit integers.
pub fn workload_fits(data: &Json) -> (r: bool)
    ensures
        r == workload_adds_up(*data),
{
    match requests(data) {
        Some(v) => checked_total(&v).is_some(),
        None => false,
    }
}

/// The row of a Workload.
pub fn workload_of(w: &DynamicObject) -> (r: WorkloadRow)
    requires
        workload_adds_up(w.data),
    ensures
        is_workload(*w, r),
{
    let gpus: i64 = match requests(&w.data) {
        Some(v) => match checked_total(&v) {
            Some(t) => t,
            None => 0,
        },
        None => 0,
    };
    let state = if is_finished(&w.data) {
        "Finished"
    } else if has_condition(&w.data, "Admitted") {
        "Admitted"
    } else if has_condition(&w.data, "QuotaReserved") {
        "QuotaReserved"
    } else {
        "Pending"
    };
    WorkloadRow {
        name: or_empty(&w.metadata.name),
        namespace: or_empty(&w.metadata.namespace),
        queue: read_text(&w.data, &path2("spec", "queueName")),
        priority_class: read_text(&w.data, &path2("spec", "priorityClassName")),
        state: state.to_owned(),
        gpus,
    }
}

// ---------------------------------------------------------------------------
// Nodes and inference backends
// ---------------------------------------------------------------------------

/// The row is that of the MetalMachine.
pub open spec fn is_node(m: DynamicObject, n: NodePower) -> bool {
    &&& n.name@ == text_or(m.metadata.name, Seq::empty())
    &&& n.powered == (walked(m.data, seq!["status", "poweredOn"]) == Some(Json::Bool(true)))
    &&& n.phase@ == text_at(m.data, seq!["status", "phase"])
    &&& n.pool@ == text_at(m.data, seq!["spec", "poolRef"])
}

/// The power state of a MetalMachine: power = status.poweredOn, phase = status.phase,
/// pool = spec.poolRef.
pub fn node_of(m: &DynamicObject) -> (r: NodePower)
    ensures
        is_node(*m, r),
{
    let powered = match m.data.walk(&path2("status", "poweredOn")) {
        Some(Json::Bool(b)) => *b,
        _ => false,
    };
    NodePower {
        name: or_empty(&m.metadata.name),
        powered,
        phase: read_text(&m.data, &path2("status", "phase")),
        pool: read_text(&m.data, &path2("spec", "poolRef")),
    }
}

/// The campaign that the RayJob serves: what follows `vllm-` in its name.
pub open spec fn served_campaign(rj: DynamicObject) -> Option<Seq<char>> {
    stripped(text_or(rj.metadata.name, Seq::empty()), "vllm-"@)
}

/// The backend is that of the RayJob.
pub open spec fn is_backend(rj: DynamicObject, b: InferenceBackend) -> bool {
    &&& served_campaign(rj) == Some(b.campaign@)
    &&& b.kind@ == "cluster"@
    &&& b.name@ == text_or(rj.metadata.name, Seq::empty())
    &&& b.serving == (text_at(rj.data, seq!["status", "jobDeploymentStatus"]) == "Running"@)
    &&& b.endpoint@ == "http://"@ + text_or(rj.metadata.name, Seq::empty()) + "."@ + text_or(
        rj.metadata.namespace,
        Seq::empty(),
    ) + ".svc:8000/v1"@
}

/// The inference backend that a RayJob runs, if it runs one: those named vllm-* do.
pub fn backend_of(rj: &DynamicObject) -> (r: Option<InferenceBackend>)
    ensures
        r is Some <==> served_campaign(*rj) is Some,
        r matches Some(b) ==> is_backend(*rj, b),
{
    let name = or_empty(&rj.metadata.name);
    match strip_prefix(name.as_str(), "vllm-") {
        Some(campaign) => {
            let dep = read_text(&rj.data, &path2("status", "jobDeploymentStatus"));
            let mut endpoint = "http://".to_owned();
            endpoint.append(name.as_str());
            endpoint.append(".");
            endpoint.append(or_empty(&rj.metadata.namespace).as_str());
            endpoint.append(".svc:8000/v1");
            Some(
                InferenceBackend {
                    campaign,
                    kind: "cluster".to_owned(),
                    name,
                    serving: same(dep.as_str(), "Running"),
                    endpoint,
                },
            )
        },
        None => None,
    }
}

/// The campaign that the Deployment serves: what follows `mesh-llm-` in its name.
pub open spec fn meshed_campaign(d: DynamicObject) -> Option<Seq<char>> {
    stripped(text_or(d.metadata.name, Seq::empty()), "mesh-llm-"@)
}

/// The backend is that of the Deployment. It serves while a replica is ready. The endpoint
/// has the default port of mesh-llm, whatever port the campaign gives its mesh.
pub open spec fn is_mesh(d: DynamicObject, b: InferenceBackend) -> bool {
    &&& meshed_campaign(d) == Some(b.campaign@)
    &&& b.kind@ == "mesh"@
    &&& b.name@ == text_or(d.metadata.name, Seq::empty())
    &&& b.serving == (int_at(d.data, seq!["status", "readyReplicas"]) > 0)
    &&& b.endpoint@ == "http://"@ + text_or(d.metadata.name, Seq::empty()) + "."@ + text_or(
        d.metadata.namespace,
        Seq::empty(),
    ) + ".svc:9337/v1"@
}

/// The inference backend that a Deployment runs, if it runs one: those named mesh-llm-* do.
/// The port of the endpoint is the default one.
pub fn mesh_of(d: &DynamicObject) -> (r: Option<InferenceBackend>)
    ensures
        r is Some <==> meshed_campaign(*d) is Some,
        r matches Some(b) ==> is_mesh(*d, b),
{
    let name = or_empty(&d.metadata.name);
    match strip_prefix(name.as_str(), "mesh-llm-") {
        Some(campaign) => {
            let mut endpoint = "http://".to_owned();
            endpoint.append(name.as_str());
            endpoint.append(".");
            endpoint.append(or_empty(&d.metadata.namespace).as_str());
            endpoint.append(".svc:9337/v1");
            Some(
                InferenceBackend {
                    campaign,
                    kind: "mesh".to_owned(),
                    name,
                    serving: read_int(&d.data, &path2("status", "readyReplicas")) > 0,
                    endpoint,
                },
            )
        },
        None => None,
    }
}

// ---------------------------------------------------------------------------
// Snapshot
// ---------------------------------------------------------------------------

/// The jobs that run an inference backend, in their order.
pub open spec fn serving_jobs(jobs: Seq<DynamicObject>) -> Seq<DynamicObject> {
    jobs.filter(|rj: DynamicObject| served_campaign(rj) is Some)
}

/// The Deployments that run an inference backend, in their order.
pub open spec fn meshes(deployments: Seq<DynamicObject>) -> Seq<DynamicObject> {
    deployments.filter(|d: DynamicObject| meshed_campaign(d) is Some)
}

/// The backends are those of the jobs, and behind them those of the Deployments.
pub open spec fn are_backends(
    jobs: Seq<DynamicObject>,
    deployments: Seq<DynamicObject>,
    bs: Seq<InferenceBackend>,
) -> bool {
    let n = serving_jobs(jobs).len();
    &&& bs.len() == n + meshes(deployments).len()
    &&& forall|i: int| 0 <= i < n ==> is_backend(serving_jobs(jobs)[i], #[trigger] bs[i])
    &&& forall|i: int| n <= i < bs.len() ==> is_mesh(meshes(deployments)[i - n], #[trigger] bs[i])
}

/// The snapshot has a row for each listed resource, in their order.
pub open spec fn is_snapshot(
    queues: Seq<DynamicObject>,
    workloads: Seq<DynamicObject>,
    machines: Seq<DynamicObject>,
    jobs: Seq<DynamicObject>,
    deployments: Seq<DynamicObject>,
    r: SchedulingSnapshot,
) -> bool {
    &&& r.pools@.len() == queues.len()
    &&& forall|i: int| 0 <= i < queues.len() ==> is_pool(queues[i], #[trigger] r.pools@[i])
    &&& r.workloads@.len() == workloads.len()
    &&& forall|i: int|
        0 <= i < workloads.len() ==> is_workload(workloads[i], #[trigger] r.workloads@[i])
    &&& r.nodes@.len() == machines.len()
    &&& forall|i: int| 0 <= i < machines.len() ==> is_node(machines[i], #[trigger] r.nodes@[i])
    &&& are_backends(jobs, deployments, r.inference@)
}

fn backends(jobs: &Vec<DynamicObject>, deployments: &Vec<DynamicObject>) -> (r: Vec<
    InferenceBackend,
>)
    ensures
        are_backends(jobs@, deployments@, r@),
{
    let ghost pred = |rj: DynamicObject| served_campaign(rj) is Some;
    let ghost mesh = |d: DynamicObject| meshed_campaign(d) is Some;
    let mut out: Vec<InferenceBackend> = Vec::new();
    let mut i: usize = 0;
    proof {
        reveal(Seq::filter);
    }
    while i < jobs.len()
        invariant
            i <= jobs.len(),
            pred == (|rj: DynamicObject| served_campaign(rj) is Some),
            out@.len() == jobs@.take(i as int).filter(pred).len(),
            forall|k: int|
                0 <= k < out@.len() ==> is_backend(
                    jobs@.take(i as int).filter(pred)[k],
                    #[trigger] out@[k],
                ),
        decreases jobs.len() - i,
    {
        proof {
            reveal(Seq::filter);
            assert(jobs@.take(i + 1).drop_last() =~= jobs@.take(i as int));
        }
        if let Some(b) = backend_of(&jobs[i]) {
            out.push(b);
        }
        i = i + 1;
    }
    assert(jobs@.take(i as int) =~= jobs@);
    let ghost first = out@;
    let mut j: usize = 0;
    while j < deployments.len()
        invariant
            j <= deployments.len(),
            mesh == (|d: DynamicObject| meshed_campaign(d) is Some),
            first.is_prefix_of(out@),
            out@.len() == first.len() + deployments@.take(j as int).filter(mesh).len(),
            forall|k: int|
                first.len() <= k < out@.len() ==> is_mesh(
                    deployments@.take(j as int).filter(mesh)[k - first.len()],
                    #[trigger] out@[k],
                ),
        decreases deployments.len() - j,
    {
        proof {
            reveal(Seq::filter);
            assert(deployments@.take(j + 1).drop_last() =~= deployments@.take(j as int));
        }
        if let Some(b) = mesh_of(&deployments[j]) {
            out.push(b);
        }
        j = j + 1;
    }
    assert(deployments@.take(j as int) =~= deployments@);
    assert forall|k: int| 0 <= k < first.len() implies is_backend(
        serving_jobs(jobs@)[k],
        #[trigger] out@[k],
    ) by {
        assert(out@[k] == first[k]);
    }
    out
}

/// Snapshot the scheduling/inference stack. Best-effort: what could not be listed is
/// given as an empty list, and yields an empty section.
pub fn scheduling_snapshot(
    queues: &Vec<DynamicObject>,
    workloads: &Vec<DynamicObject>,
    machines: &Vec<DynamicObject>,
    jobs: &Vec<DynamicObject>,
    deployments: &Vec<DynamicObject>,
) -> (r: SchedulingSnapshot)
    requires
        forall|i: int| 0 <= i < queues@.len() ==> pool_adds_up((#[trigger] queues@[i]).data),
        forall|i: int|
            0 <= i < workloads@.len() ==> workload_adds_up((#[trigger] workloads@[i]).data),
    ensures
        is_snapshot(queues@, workloads@, machines@, jobs@, deployments@, r),
{
    let mut pools: Vec<GpuPool> = Vec::new();
    let mut i: usize = 0;
    while i < queues.len()
        invariant
            i <= queues.len(),
            forall|i: int| 0 <= i < queues@.len() ==> pool_adds_up((#[trigger] queues@[i]).data),
            pools@.len() == i,
            forall|k: int| 0 <= k < i ==> is_pool(queues@[k], #[trigger] pools@[k]),
        decreases queues.len() - i,
    {
        pools.push(pool_of(&queues[i]));
        i = i + 1;
    }
    let mut rows: Vec<WorkloadRow> = Vec::new();
    let mut j: usize = 0;
    while j < workloads.len()
        invariant
            j <= workloads.len(),
            forall|i: int|
                0 <= i < workloads@.len() ==> workload_adds_up((#[trigger] workloads@[i]).data),
            rows@.len() == j,
            forall|k: int| 0 <= k < j ==> is_workload(workloads@[k], #[trigger] rows@[k]),
        decreases workloads.len() - j,
    {
        rows.push(workload_of(&workloads[j]));
        j = j + 1;
    }
    let mut nodes: Vec<NodePower> = Vec::new();
    let mut k: usize = 0;
    while k < machines.len()
        invariant
            k <= machines.len(),
            nodes@.len() == k,
            forall|i: int| 0 <= i < k ==> is_node(machines@[i], #[trigger] nodes@[i]),
        decreases machines.len() - k,
    {
        nodes.push(node_of(&machines[k]));
        k = k + 1;
    }
    SchedulingSnapshot { pools, workloads: rows, nodes, inference: backends(jobs, deployments) }
}

// ---------------------------------------------------------------------------
// What a snapshot says
// ---------------------------------------------------------------------------

/// A sum takes every number once, in whatever order they come.
pub proof fn sums_add_up(a: Seq<int>, b: Seq<int>)
    ensures
        total(a + b) == total(a) + total(b),
        total(Seq::empty()) == 0,
    decreases b.len(),
{
    if b.len() == 0 {
        assert(a + b =~= a);
    } else {
        sums_add_up(a, b.drop_last());
        assert((a + b).drop_last() =~= a + b.drop_last());
    }
}

/// What a flavor adds to a sum: the entries that carry the resource's name add what stands under
/// the key, nothing where nothing stands there, and no other entry adds anything.
pub proof fn a_flavor_adds_what_it_names(
    flavors: Seq<Json>,
    flavor: Json,
    entries: Seq<Json>,
    entry: Json,
    res: Seq<char>,
    key: Seq<char>,
)
    ensures
        total(flavor_values(flavors.push(flavor), res, key)) == total(
            flavor_values(flavors, res, key),
        ) + (match member_of(flavor, seq!['r', 'e', 's', 'o', 'u', 'r', 'c', 'e', 's']) {
            Some(Json::Array(v)) => total(entry_values(v@, res, key)),
            _ => 0,
        }),
        total(entry_values(entries.push(entry), res, key)) - total(entry_values(entries, res, key))
            == (if member_of(entry, seq!['n', 'a', 'm', 'e']) matches Some(n) && text_of(n) == Some(
            res,
        ) {
            match member_of(entry, key) {
                Some(v) => int_of(v),
                None => 0,
            }
        } else {
            0
        }),
        entry_values(Seq::empty(), res, key).len() == 0,
        flavor_values(Seq::empty(), res, key).len() == 0,
{
    reveal_strlit("resources");
    reveal_strlit("name");
    assert("resources"@ =~= seq!['r', 'e', 's', 'o', 'u', 'r', 'c', 'e', 's']);
    assert("name"@ =~= seq!['n', 'a', 'm', 'e']);
    let all = flavors.push(flavor);
    assert(all.drop_last() =~= flavors);
    let own = entry_values(elements_of(member_of(flavor, "resources"@)), res, key);
    sums_add_up(flavor_values(flavors, res, key), own);
    assert(entries.push(entry).drop_last() =~= entries);
    let before = entry_values(entries, res, key);
    if has_name(entry, res) {
        let v = match member_of(entry, key) {
            Some(v) => int_of(v),
            None => 0,
        };
        assert(before.push(v).drop_last() =~= before);
    }
}

/// A pool shows GPUs beside GPUs and CPUs beside CPUs, what is granted apart from what is used, and
/// waiting workloads apart from admitted ones.
pub proof fn a_pool_shows_grants_and_usage(
    queues: Seq<DynamicObject>,
    workloads: Seq<DynamicObject>,
    machines: Seq<DynamicObject>,
    jobs: Seq<DynamicObject>,
    deployments: Seq<DynamicObject>,
    r: SchedulingSnapshot,
    i: int,
)
    requires
        is_snapshot(queues, workloads, machines, jobs, deployments, r),
        0 <= i < queues.len(),
    ensures
        ({
            let cq = queues[i];
            let p = r.pools@[i];
            let grants = elements_of(
                walked(cq.data, seq!["spec", "resourceGroups", "0", "flavors"]),
            );
            let usage = elements_of(walked(cq.data, seq!["status", "flavorsUsage"]));
            &&& cq.metadata.name matches Some(n) ==> p.name@ == n@
            &&& cq.metadata.name is None ==> p.name@.len() == 0
            &&& p.gpu_nominal == total(flavor_values(grants, "nvidia.com/gpu"@, "nominalQuota"@))
            &&& p.gpu_used == total(flavor_values(usage, "nvidia.com/gpu"@, "total"@))
            &&& p.cpu_nominal == total(flavor_values(grants, "cpu"@, "nominalQuota"@))
            &&& p.cpu_used == total(flavor_values(usage, "cpu"@, "total"@))
            &&& walked(cq.data, seq!["status", "pendingWorkloads"]) matches Some(v)
                ==> p.pending_workloads == int_of(v)
            &&& walked(cq.data, seq!["status", "pendingWorkloads"]) is None ==> p.pending_workloads
                == 0
            &&& walked(cq.data, seq!["status", "admittedWorkloads"]) matches Some(v)
                ==> p.admitted_workloads == int_of(v)
            &&& walked(cq.data, seq!["status", "admittedWorkloads"]) is None
                ==> p.admitted_workloads == 0
        }),
{
    assert(is_pool(queues[i], r.pools@[i]));
}

/// A quantity is read from a number as it stands and from a text by the digits at its front, what
/// follows them being a unit; anything else counts for nothing.
pub proof fn a_quantity_is_its_leading_digits(n: u32, unit: Seq<char>, s: String, x: Number)
    requires
        unit.len() > 0 ==> !digit(unit[0]),
        s@ == decimal(n as nat) + unit,
    ensures
        int_of(Json::Text(s)) == n,
        x.integer matches Some(k) ==> int_of(Json::Number(x)) == k,
        x.integer is None ==> int_of(Json::Number(x)) == 0,
        int_of(Json::Null) == 0,
{
    let d = decimal(n as nat);
    a_written_number_reads_back(n as i64);
    lemma_decimal_is_digits(n as nat);
    lemma_digits_run(d, unit);
    assert(digit_run(s@) == d.len());
    assert(s@.take(d.len() as int) =~= d);
    assert(signed(n as int) == d);
    assert(parsed(d) == Some(n as int));
}

proof fn lemma_digits_run(d: Seq<char>, unit: Seq<char>)
    requires
        forall|i: int| 0 <= i < d.len() ==> digit(#[trigger] d[i]),
        unit.len() > 0 ==> !digit(unit[0]),
    ensures
        digit_run(d + unit) == d.len(),
    decreases d.len(),
{
    if d.len() == 0 {
        assert(d + unit =~= unit);
    } else {
        assert(digit(d[0]));
        assert((d + unit).drop_first() =~= d.drop_first() + unit);
        assert forall|i: int| 0 <= i < d.drop_first().len() implies digit(
            #[trigger] d.drop_first()[i],
        ) by {
            assert(digit(d[i + 1]));
        }
        lemma_digits_run(d.drop_first(), unit);
    }
}

/// A workload is finished once a condition of that type stands there, whatever its status; else it
/// is admitted where the admission holds; else it has its quota where that holds; else it waits.
pub proof fn a_workload_is_in_the_last_state_that_it_reached(
    queues: Seq<DynamicObject>,
    workloads: Seq<DynamicObject>,
    machines: Seq<DynamicObject>,
    jobs: Seq<DynamicObject>,
    deployments: Seq<DynamicObject>,
    r: SchedulingSnapshot,
    i: int,
)
    requires
        is_snapshot(queues, workloads, machines, jobs, deployments, r),
        0 <= i < workloads.len(),
    ensures
        ({
            let row = r.workloads@[i];
            let w = workloads[i];
            let cs = elements_of(walked(w.data, seq!["status", "conditions"]));
            let done = exists|k: int|
                0 <= k < cs.len() && member_is(#[trigger] cs[k], "type"@, "Finished"@);
            let admitted = exists|k: int|
                0 <= k < cs.len() && member_is(#[trigger] cs[k], "type"@, "Admitted"@) && member_is(
                    cs[k],
                    "status"@,
                    "True"@,
                );
            let reserved = exists|k: int|
                0 <= k < cs.len() && member_is(#[trigger] cs[k], "type"@, "QuotaReserved"@)
                    && member_is(cs[k], "status"@, "True"@);
            &&& row.state@ == "Finished"@ <==> done
            &&& row.state@ == "Admitted"@ <==> !done && admitted
            &&& row.state@ == "QuotaReserved"@ <==> !done && !admitted && reserved
            &&& row.state@ == "Pending"@ <==> !done && !admitted && !reserved
            &&& w.metadata.name matches Some(n) ==> row.name@ == n@
            &&& w.metadata.namespace matches Some(n) ==> row.namespace@ == n@
            &&& walked(w.data, seq!["spec", "queueName"]) matches Some(Json::Text(t)) ==> row.queue@
                == t@
            &&& walked(w.data, seq!["spec", "priorityClassName"]) matches Some(Json::Text(t))
                ==> row.priority_class@ == t@
        }),
{
    assert(is_workload(workloads[i], r.workloads@[i]));
    let data = workloads[i].data;
    let cs = elements_of(walked(data, seq!["status", "conditions"]));
    assert(conditions_of(data) == cs);
    if finished(data) {
        let k = choose|k: int|
            0 <= k < conditions_of(data).len() && member_is(
                #[trigger] conditions_of(data)[k],
                "type"@,
                "Finished"@,
            );
        assert(member_is(cs[k], "type"@, "Finished"@));
    }
    if condition_holds(data, "Admitted"@) {
        let k = choose|k: int|
            0 <= k < conditions_of(data).len() && member_is(
                #[trigger] conditions_of(data)[k],
                "type"@,
                "Admitted"@,
            ) && member_is(conditions_of(data)[k], "status"@, "True"@);
        assert(member_is(cs[k], "type"@, "Admitted"@));
    }
    if condition_holds(data, "QuotaReserved"@) {
        let k = choose|k: int|
            0 <= k < conditions_of(data).len() && member_is(
                #[trigger] conditions_of(data)[k],
                "type"@,
                "QuotaReserved"@,
            ) && member_is(conditions_of(data)[k], "status"@, "True"@);
        assert(member_is(cs[k], "type"@, "QuotaReserved"@));
    }
    reveal_strlit("Finished");
    reveal_strlit("Admitted");
    reveal_strlit("QuotaReserved");
    reveal_strlit("Pending");
    assert("Finished"@[0] == 'F');
    assert("Admitted"@[0] == 'A');
    assert("QuotaReserved"@[0] == 'Q');
    assert("Pending"@[0] == 'P');
}

/// A workload asks for the GPUs of all its pod sets: as many per pod as the first container
/// requests, times the pods, one where no count is given.
pub proof fn a_workload_asks_for_all_its_pods(sets: Seq<Json>, set: Json)
    ensures
        total(requested(sets.push(set))) == total(requested(sets)) + int_at(
            set,
            seq!["template", "spec", "containers", "0", "resources", "requests", "nvidia.com/gpu"],
        ) * (match member_of(set, seq!['c', 'o', 'u', 'n', 't']) {
            Some(v) => int_of(v),
            None => 1,
        }),
        total(requested(Seq::empty())) == 0,
{
    reveal_strlit("count");
    assert("count"@ =~= seq!['c', 'o', 'u', 'n', 't']);
    assert(requested(sets.push(set)).drop_last() =~= requested(sets));
    assert(requested(sets.push(set)).last() == pod_count(set) * gpus_per_pod(set));
    let (a, b) = (pod_count(set), gpus_per_pod(set));
    assert(a * b == b * a) by (nonlinear_arith);
}

/// The GPUs that a workload shows are those of its pod sets.
pub proof fn a_workload_shows_what_it_asks_for(
    queues: Seq<DynamicObject>,
    workloads: Seq<DynamicObject>,
    machines: Seq<DynamicObject>,
    jobs: Seq<DynamicObject>,
    deployments: Seq<DynamicObject>,
    r: SchedulingSnapshot,
    i: int,
    v: Vec<Json>,
)
    requires
        is_snapshot(queues, workloads, machines, jobs, deployments, r),
        0 <= i < workloads.len(),
        walked(workloads[i].data, seq!["spec", "podSets"]) == Some(Json::Array(v)),
    ensures
        r.workloads@[i].gpus == total(requested(v@)),
{
    assert(is_workload(workloads[i], r.workloads@[i]));
}

/// A machine is on only where its status says that it is, and is shown with its own phase and
/// pool.
pub proof fn a_machine_is_on_where_its_status_says_so(
    queues: Seq<DynamicObject>,
    workloads: Seq<DynamicObject>,
    machines: Seq<DynamicObject>,
    jobs: Seq<DynamicObject>,
    deployments: Seq<DynamicObject>,
    r: SchedulingSnapshot,
    i: int,
)
    requires
        is_snapshot(queues, workloads, machines, jobs, deployments, r),
        0 <= i < machines.len(),
    ensures
        r.nodes@[i].powered <==> walked(machines[i].data, seq!["status", "poweredOn"]) == Some(
            Json::Bool(true),
        ),
        machines[i].metadata.name matches Some(n) ==> r.nodes@[i].name@ == n@,
        walked(machines[i].data, seq!["status", "phase"]) matches Some(Json::Text(t))
            ==> r.nodes@[i].phase@ == t@,
        walked(machines[i].data, seq!["spec", "poolRef"]) matches Some(Json::Text(t))
            ==> r.nodes@[i].pool@ == t@,
{
    assert(is_node(machines[i], r.nodes@[i]));
}

/// Every job that serves a campaign is a backend: the job's name is "vllm-" and the campaign, it
/// serves while it runs, and it answers under its name and namespace on its own port.
pub proof fn a_backend_serves_the_campaign_that_names_it(
    queues: Seq<DynamicObject>,
    workloads: Seq<DynamicObject>,
    machines: Seq<DynamicObject>,
    jobs: Seq<DynamicObject>,
    deployments: Seq<DynamicObject>,
    r: SchedulingSnapshot,
    name: String,
    namespace: String,
    campaign: Seq<char>,
    job: DynamicObject,
)
    requires
        is_snapshot(queues, workloads, machines, jobs, deployments, r),
        jobs.contains(job),
        job.metadata.name == Some(name),
        job.metadata.namespace == Some(namespace),
        name@ == seq!['v', 'l', 'l', 'm', '-'] + campaign,
    ensures
        exists|i: int|
            0 <= i < r.inference@.len() && {
                let b = #[trigger] r.inference@[i];
                &&& b.campaign@ == campaign
                &&& b.kind@ == "cluster"@
                &&& b.name@ == name@
                &&& b.serving <==> (walked(
                    job.data,
                    seq!["status", "jobDeploymentStatus"],
                ) matches Some(Json::Text(t)) && t@ == "Running"@)
                &&& b.endpoint@ == "http://"@ + name@ + "."@ + namespace@ + ".svc:8000/v1"@
            },
{
    reveal_strlit("vllm-");
    reveal_strlit("Running");
    let p = "vllm-"@;
    assert(p =~= seq!['v', 'l', 'l', 'm', '-']);
    assert(name@.take(p.len() as int) =~= p);
    assert(p.is_prefix_of(name@));
    assert(name@.skip(p.len() as int) =~= campaign);
    assert(served_campaign(job) == Some(campaign));
    let pred = |rj: DynamicObject| served_campaign(rj) is Some;
    jobs.filter_lemma(pred);
    let k = jobs.index_of(job);
    assert(pred(jobs[k]));
    assert(jobs.filter(pred).contains(jobs[k]));
    let i = serving_jobs(jobs).index_of(job);
    let b = r.inference@[i];
    assert(is_backend(serving_jobs(jobs)[i], b));
    assert("Running"@.len() == 7);
    assert(text_or(job.metadata.name, Seq::empty()) == name@);
    assert(text_or(job.metadata.namespace, Seq::empty()) == namespace@);
    assert(b.serving <==> (walked(
        job.data,
        seq!["status", "jobDeploymentStatus"],
    ) matches Some(Json::Text(t)) && t@ == "Running"@));
}

/// Every deployment of a mesh is a backend too: its name is "mesh-llm-" and the campaign, and it
/// serves as soon as one replica is ready.
pub proof fn a_mesh_serves_the_campaign_that_names_it(
    queues: Seq<DynamicObject>,
    workloads: Seq<DynamicObject>,
    machines: Seq<DynamicObject>,
    jobs: Seq<DynamicObject>,
    deployments: Seq<DynamicObject>,
    r: SchedulingSnapshot,
    name: String,
    namespace: String,
    campaign: Seq<char>,
    mesh: DynamicObject,
)
    requires
        is_snapshot(queues, workloads, machines, jobs, deployments, r),
        deployments.contains(mesh),
        mesh.metadata.name == Some(name),
        mesh.metadata.namespace == Some(namespace),
        name@ == seq!['m', 'e', 's', 'h', '-', 'l', 'l', 'm', '-'] + campaign,
    ensures
        exists|i: int|
            0 <= i < r.inference@.len() && {
                let b = #[trigger] r.inference@[i];
                &&& b.campaign@ == campaign
                &&& b.kind@ == "mesh"@
                &&& b.name@ == name@
                &&& b.serving <==> (walked(
                    mesh.data,
                    seq!["status", "readyReplicas"],
                ) matches Some(v) && int_of(v) > 0)
                &&& b.endpoint@ == "http://"@ + name@ + "."@ + namespace@ + ".svc:9337/v1"@
            },
{
    reveal_strlit("mesh-llm-");
    let p = "mesh-llm-"@;
    assert(p =~= seq!['m', 'e', 's', 'h', '-', 'l', 'l', 'm', '-']);
    assert(name@.take(p.len() as int) =~= p);
    assert(p.is_prefix_of(name@));
    assert(name@.skip(p.len() as int) =~= campaign);
    assert(meshed_campaign(mesh) == Some(campaign));
    let pred = |d: DynamicObject| meshed_campaign(d) is Some;
    deployments.filter_lemma(pred);
    let k = deployments.index_of(mesh);
    assert(pred(deployments[k]));
    assert(deployments.filter(pred).contains(deployments[k]));
    let n = serving_jobs(jobs).len() as int;
    let i = meshes(deployments).index_of(mesh);
    assert(is_mesh(meshes(deployments)[n + i - n], r.inference@[n + i]));
}

/// A job or a deployment that carries another name is no backend.
pub proof fn a_backend_has_its_prefix(
    queues: Seq<DynamicObject>,
    workloads: Seq<DynamicObject>,
    machines: Seq<DynamicObject>,
    jobs: Seq<DynamicObject>,
    deployments: Seq<DynamicObject>,
    r: SchedulingSnapshot,
    i: int,
)
    requires
        is_snapshot(queues, workloads, machines, jobs, deployments, r),
        0 <= i < r.inference@.len(),
    ensures
        ({
            let b = r.inference@[i];
            ||| b.kind@ == "cluster"@ && b.name@ == "vllm-"@ + b.campaign@
            ||| b.kind@ == "mesh"@ && b.name@ == "mesh-llm-"@ + b.campaign@
        }),
{
    let n = serving_jobs(jobs).len() as int;
    if i < n {
        let job = serving_jobs(jobs)[i];
        assert(is_backend(job, r.inference@[i]));
        lemma_stripped(text_or(job.metadata.name, Seq::empty()), "vllm-"@);
    } else {
        let d = meshes(deployments)[i - n];
        assert(is_mesh(d, r.inference@[i]));
        lemma_stripped(text_or(d.metadata.name, Seq::empty()), "mesh-llm-"@);
    }
}

proof fn lemma_stripped(s: Seq<char>, p: Seq<char>)
    requires
        stripped(s, p) is Some,
    ensures
        s == p + stripped(s, p)->0,
{
    assert(s =~= p + s.skip(p.len() as int));
}

/// A backend answers on the port that its campaign serves on by default.
pub proof fn a_backend_answers_on_its_default_port(
    job: DynamicObject,
    b: InferenceBackend,
    vllm: u16,
    mesh: DynamicObject,
    m: InferenceBackend,
    port: u16,
)
    requires
        is_backend(job, b),
        is_mesh(mesh, m),
        call_ensures(default_vllm_port, (), vllm),
        call_ensures(default_mesh_port, (), port),
    ensures
        (".svc:"@ + signed(vllm as int) + "/v1"@).is_suffix_of(b.endpoint@),
        (".svc:"@ + signed(port as int) + "/v1"@).is_suffix_of(m.endpoint@),
{
    reveal_with_fuel(decimal, 5);
    reveal_strlit(".svc:8000/v1");
    reveal_strlit(".svc:9337/v1");
    reveal_strlit(".svc:");
    reveal_strlit("/v1");
    assert(decimal(8000) =~= seq!['8', '0', '0', '0']);
    assert(decimal(9337) =~= seq!['9', '3', '3', '7']);
    assert(".svc:8000/v1"@ =~= ".svc:"@ + decimal(8000) + "/v1"@);
    assert(".svc:9337/v1"@ =~= ".svc:"@ + decimal(9337) + "/v1"@);
    lemma_ends(b.endpoint@, ".svc:8000/v1"@);
    lemma_ends(m.endpoint@, ".svc:9337/v1"@);
}

proof fn lemma_ends(s: Seq<char>, end: Seq<char>)
    requires
        exists|front: Seq<char>| s == #[trigger] (front + end),
    ensures
        end.is_suffix_of(s),
{
    let front = choose|front: Seq<char>| s == #[trigger] (front + end);
    assert(s.subrange(front.len() as int, s.len() as int) =~= end);
}

} // verus!

//! The admin page: the GPU-scheduling and inference stack, read-only.

use vstd::prelude::*;
use crate::models::{GpuPool, InferenceBackend, NodePower, SchedulingSnapshot, WorkloadRow};
use crate::numeral::{signed, signed_of};
use crate::tables::{
    column, is_row, pinned_column, whole_of, CellView, DataColumnSpec, DataRow, Table,
};
use crate::text::same;

verus! {

broadcast use vstd::seq_lib::group_seq_properties;

// ---------------------------------------------------------------------------
// Pools and queues
// ---------------------------------------------------------------------------

/// One pool.
#[derive(Debug, Clone)]
pub struct PoolCard {
    pub pool: String,
    pub gpu: String,
    pub cpu: String,
    pub queue: String,
}

/// The card shows the pool: quota against live usage, and its queue.
pub open spec fn is_pool_card(p: GpuPool, c: PoolCard) -> bool {
    &&& c.pool@ == p.name@
    &&& c.gpu@ == signed(p.gpu_used as int) + " / "@ + signed(p.gpu_nominal as int) + " used"@
    &&& c.cpu@ == signed(p.cpu_used as int) + " / "@ + signed(p.cpu_nominal as int)
    &&& c.queue@ == signed(p.admitted_workloads as int) + " admitted · "@ + signed(
        p.pending_workloads as int,
    ) + " pending"@
}

fn pool_card(p: &GpuPool) -> (r: PoolCard)
    ensures
        is_pool_card(*p, r),
{
    let mut gpu = signed_of(p.gpu_used);
    gpu.append(" / ");
    gpu.append(signed_of(p.gpu_nominal).as_str());
    gpu.append(" used");
    let mut cpu = signed_of(p.cpu_used);
    cpu.append(" / ");
    cpu.append(signed_of(p.cpu_nominal).as_str());
    let mut queue = signed_of(p.admitted_workloads);
    queue.append(" admitted · ");
    queue.append(signed_of(p.pending_workloads).as_str());
    queue.append(" pending");
    PoolCard { pool: p.name.clone(), gpu, cpu, queue }
}

/// The priority of a workload as the table shows it.
pub open spec fn priority_of(w: WorkloadRow) -> Seq<char> {
    if w.priority_class@.len() == 0 {
        "default"@
    } else {
        w.priority_class@
    }
}

/// The cells of a workload row.
pub open spec fn workload_cells(w: WorkloadRow) -> Seq<CellView<usize>> {
    seq![
        CellView::Text(w.name@),
        CellView::Text(w.namespace@),
        CellView::Text(w.queue@),
        CellView::Styled(priority_of(w), "phase"@),
        CellView::Text(w.state@),
        whole_of(w.gpus),
    ]
}

/// The workloads that have not finished, in order.
pub open spec fn active(ws: Seq<WorkloadRow>) -> Seq<WorkloadRow>
    decreases ws.len(),
{
    if ws.len() == 0 {
        Seq::empty()
    } else {
        let rest = active(ws.drop_last());
        if ws.last().state@ == "Finished"@ {
            rest
        } else {
            rest.push(ws.last())
        }
    }
}

/// One row for each workload, in order.
pub open spec fn workload_rows(ws: Seq<WorkloadRow>, rows: Seq<DataRow<usize>>) -> bool {
    &&& rows.len() == ws.len()
    &&& forall|i: int|
        0 <= i < ws.len() ==> is_row(
            #[trigger] rows[i],
            ws[i].namespace@ + "/"@ + ws[i].name@,
            workload_cells(ws[i]),
            false,
        )
}

/// The pools and the workload queue.
#[derive(Debug, Clone)]
pub struct PoolsPage {
    pub title: &'static str,
    pub note: &'static str,
    pub pools: Vec<PoolCard>,
    pub workloads: Table,
}

/// The page shows the pools and the workloads that have not finished.
pub open spec fn is_pools_page(snap: SchedulingSnapshot, p: PoolsPage) -> bool {
    &&& p.title@ == "GPU Pools & Queues"@
    &&& p.note@
        == "Kueue admission — quota vs live usage, and the workload queue (preemption in play)."@
    &&& p.pools@.len() == snap.pools@.len()
    &&& forall|i: int|
        0 <= i < snap.pools@.len() ==> is_pool_card(snap.pools@[i], #[trigger] p.pools@[i])
    &&& p.workloads.is_set_up(
        seq![
            pinned_column("name", "Workload"),
            column("ns", "NS"),
            column("queue", "Queue"),
            column("priority", "Priority"),
            column("state", "State"),
            column("gpu", "GPU"),
        ],
        None,
        Some("athena.table.workloads"@),
        Some("No active workloads."),
        Some("filter workloads…"),
    )
    &&& workload_rows(active(snap.workloads@), p.workloads.rows@)
}

fn active_rows(ws: &Vec<WorkloadRow>) -> (r: Vec<DataRow<usize>>)
    ensures
        workload_rows(active(ws@), r@),
{
    let mut rows: Vec<DataRow<usize>> = Vec::new();
    let mut i: usize = 0;
    while i < ws.len()
        invariant
            i <= ws.len(),
            workload_rows(active(ws@.take(i as int)), rows@),
        decreases ws.len() - i,
    {
        assert(ws@.take(i + 1).drop_last() =~= ws@.take(i as int));
        let ghost before = active(ws@.take(i as int));
        let w = &ws[i];
        if !same(w.state.as_str(), "Finished") {
            let mut key = w.namespace.clone();
            key.append("/");
            key.append(w.name.as_str());
            let priority = if w.priority_class.as_str().is_empty() {
                "default"
            } else {
                w.priority_class.as_str()
            };
            let row = DataRow::new(key.as_str()).text(w.name.as_str()).text(
                w.namespace.as_str(),
            ).text(w.queue.as_str()).text_class(priority, "phase").text(w.state.as_str()).whole(
                w.gpus,
            );
            assert(row.drawn() =~= workload_cells(*w));
            rows.push(row);
            assert(active(ws@.take(i + 1)) == before.push(*w));
        }
        i = i + 1;
    }
    assert(ws@.take(i as int) =~= ws@);
    rows
}

/// Kueue pools and the workload queue.
pub fn gpu_pools_view(snap: &SchedulingSnapshot) -> (r: PoolsPage)
    ensures
        is_pools_page(*snap, r),
{
    let mut pools: Vec<PoolCard> = Vec::new();
    let mut i: usize = 0;
    while i < snap.pools.len()
        invariant
            i <= snap.pools.len(),
            pools@.len() == i,
            forall|k: int| 0 <= k < i ==> is_pool_card(snap.pools@[k], #[trigger] pools@[k]),
        decreases snap.pools.len() - i,
    {
        pools.push(pool_card(&snap.pools[i]));
        i = i + 1;
    }
    let mut columns: Vec<DataColumnSpec> = Vec::new();
    columns.push(DataColumnSpec::new("name", "Workload").pinned());
    columns.push(DataColumnSpec::new("ns", "NS"));
    columns.push(DataColumnSpec::new("queue", "Queue"));
    columns.push(DataColumnSpec::new("priority", "Priority"));
    columns.push(DataColumnSpec::new("state", "State"));
    columns.push(DataColumnSpec::new("gpu", "GPU"));
    assert(columns@ =~= seq![
        pinned_column("name", "Workload"),
        column("ns", "NS"),
        column("queue", "Queue"),
        column("priority", "Priority"),
        column("state", "State"),
        column("gpu", "GPU"),
    ]);
    PoolsPage {
        title: "GPU Pools & Queues",
        note: "Kueue admission — quota vs live usage, and the workload queue (preemption in play).",
        pools,
        workloads: Table {
            columns,
            rows: active_rows(&snap.workloads),
            order: None,
            storage_key: Some("athena.table.workloads".to_owned()),
            empty: Some("No active workloads."),
            placeholder: Some("filter workloads…"),
        },
    }
}

// ---------------------------------------------------------------------------
// Power and inference
// ---------------------------------------------------------------------------

/// One node: its name, its power, its phase, and its pool.
#[derive(Debug, Clone)]
pub struct NodeLine {
    pub node: String,
    pub power: &'static str,
    pub phase: String,
    pub pool: String,
}

/// The line shows the node.
pub open spec fn is_node_line(n: NodePower, l: NodeLine) -> bool {
    &&& l.node@ == n.name@
    &&& l.power@ == (if n.powered {
        "● ON"@
    } else {
        "○ off"@
    })
    &&& l.phase@ == n.phase@
    &&& l.pool@ == n.pool@
}

/// Hephaestus scale-from-zero — physical GPU nodes powered on/off, one line each.
pub fn node_power_view(snap: &SchedulingSnapshot) -> (r: Vec<NodeLine>)
    ensures
        r@.len() == snap.nodes@.len(),
        forall|i: int|
            0 <= i < snap.nodes@.len() ==> is_node_line(snap.nodes@[i], #[trigger] r@[i]),
{
    let mut out: Vec<NodeLine> = Vec::new();
    let mut i: usize = 0;
    while i < snap.nodes.len()
        invariant
            i <= snap.nodes.len(),
            out@.len() == i,
            forall|k: int| 0 <= k < i ==> is_node_line(snap.nodes@[k], #[trigger] out@[k]),
        decreases snap.nodes.len() - i,
    {
        let n = &snap.nodes[i];
        out.push(
            NodeLine {
                node: n.name.clone(),
                power: if n.powered {
                    "● ON"
                } else {
                    "○ off"
                },
                phase: n.phase.clone(),
                pool: n.pool.clone(),
            },
        );
        i = i + 1;
    }
    out
}

/// One inference backend.
#[derive(Debug, Clone)]
pub struct BackendLine {
    pub campaign: String,
    pub kind: String,
    pub serving: &'static str,
    pub endpoint: String,
}

/// The line shows the backend.
pub open spec fn is_backend_line(b: InferenceBackend, l: BackendLine) -> bool {
    &&& l.campaign@ == b.campaign@
    &&& l.kind@ == b.kind@
    &&& l.serving@ == (if b.serving {
        "● serving"@
    } else {
        "… starting"@
    })
    &&& l.endpoint@ == b.endpoint@
}

/// The inference backends: a note, and one line each.
#[derive(Debug, Clone)]
pub struct InferencePage {
    pub title: &'static str,
    pub note: &'static str,
    pub lines: Vec<BackendLine>,
}

/// The page shows the backends, or says that there is none.
pub open spec fn is_inference_page(snap: SchedulingSnapshot, p: InferencePage) -> bool {
    &&& p.title@ == "Inference Backends"@
    &&& p.note@ == (if snap.inference@.len() == 0 {
        "No ephemeral inference backend active. Campaigns with inferenceMesh / inferenceCluster appear here while serving."@
    } else {
        "Ephemeral per-campaign endpoints (mesh-llm / vLLM-on-Ray)."@
    })
    &&& p.lines@.len() == snap.inference@.len()
    &&& forall|i: int|
        0 <= i < snap.inference@.len() ==> is_backend_line(
            snap.inference@[i],
            #[trigger] p.lines@[i],
        )
}

/// Ephemeral per-campaign inference endpoints.
pub fn inference_view(snap: &SchedulingSnapshot) -> (r: InferencePage)
    ensures
        is_inference_page(*snap, r),
{
    let mut lines: Vec<BackendLine> = Vec::new();
    let mut i: usize = 0;
    while i < snap.inference.len()
        invariant
            i <= snap.inference.len(),
            lines@.len() == i,
            forall|k: int|
                0 <= k < i ==> is_backend_line(snap.inference@[k], #[trigger] lines@[k]),
        decreases snap.inference.len() - i,
    {
        let b = &snap.inference[i];
        lines.push(
            BackendLine {
                campaign: b.campaign.clone(),
                kind: b.kind.clone(),
                serving: if b.serving {
                    "● serving"
                } else {
                    "… starting"
                },
                endpoint: b.endpoint.clone(),
            },
        );
        i = i + 1;
    }
    InferencePage {
        title: "Inference Backends",
        note: if snap.inference.len() == 0 {
            "No ephemeral inference backend active. Campaigns with inferenceMesh / inferenceCluster appear here while serving."
        } else {
            "Ephemeral per-campaign endpoints (mesh-llm / vLLM-on-Ray)."
        },
        lines,
    }
}

/// Under each column of the workloads stands what the column names; the finished ones are left out.
pub proof fn a_workload_row_goes_by_its_columns(snap: SchedulingSnapshot, p: PoolsPage, i: int, j: int)
    requires
        is_pools_page(snap, p),

        0 <= i < active(snap.workloads@).len(),
        0 <= j < p.workloads.columns@.len(),
    ensures
        p.workloads.rows@.len() == active(snap.workloads@).len(),
        ({
            let cols = p.workloads.columns@;
            let row = p.workloads.rows@[i];
            &&& row.drawn().len() == cols.len()
            &&& row.key@ == active(snap.workloads@)[i].namespace@ + "/"@ + active(snap.workloads@)[i].name@
            &&& row.selected == false
            &&& cols[j].id@ == "name"@ ==> cols[j].title@ == "Workload"@ && row.drawn()[j] == CellView::<usize>::Text(active(snap.workloads@)[i].name@)
            &&& cols[j].id@ == "ns"@ ==> cols[j].title@ == "NS"@ && row.drawn()[j] == CellView::<usize>::Text(active(snap.workloads@)[i].namespace@)
            &&& cols[j].id@ == "queue"@ ==> cols[j].title@ == "Queue"@ && row.drawn()[j] == CellView::<usize>::Text(active(snap.workloads@)[i].queue@)
            &&& cols[j].id@ == "priority"@ ==> cols[j].title@ == "Priority"@ && row.drawn()[j] == CellView::<usize>::Styled(if active(snap.workloads@)[i].priority_class@.len() == 0 {
                "default"@
            } else {
                active(snap.workloads@)[i].priority_class@
            }, "phase"@)
            &&& cols[j].id@ == "state"@ ==> cols[j].title@ == "State"@ && row.drawn()[j] == CellView::<usize>::Text(active(snap.workloads@)[i].state@)
            &&& cols[j].id@ == "gpu"@ ==> cols[j].title@ == "GPU"@ && row.drawn()[j] == CellView::<usize>::Count(active(snap.workloads@)[i].gpus as i128, signed(active(snap.workloads@)[i].gpus as int))
        }),
{
    lemma_a_workload_row_goes_by_its_columns();
    let w = active(snap.workloads@)[i];
    assert(is_row(p.workloads.rows@[i], w.namespace@ + "/"@ + w.name@, workload_cells(w), false));
}

proof fn lemma_a_workload_row_goes_by_its_columns()
    ensures
        "name"@ != "ns"@,
        "name"@ != "queue"@,
        "name"@ != "priority"@,
        "name"@ != "state"@,
        "name"@ != "gpu"@,
        "ns"@ != "queue"@,
        "ns"@ != "priority"@,
        "ns"@ != "state"@,
        "ns"@ != "gpu"@,
        "queue"@ != "priority"@,
        "queue"@ != "state"@,
        "queue"@ != "gpu"@,
        "priority"@ != "state"@,
        "priority"@ != "gpu"@,
        "state"@ != "gpu"@,
{
    reveal_strlit("name");
    reveal_strlit("ns");
    reveal_strlit("queue");
    reveal_strlit("priority");
    reveal_strlit("state");
    reveal_strlit("gpu");
    assert("name"@.len() != "ns"@.len());
    assert("name"@.len() != "queue"@.len());
    assert("name"@.len() != "priority"@.len());
    assert("name"@.len() != "state"@.len());
    assert("name"@.len() != "gpu"@.len());
    assert("ns"@.len() != "queue"@.len());
    assert("ns"@.len() != "priority"@.len());
    assert("ns"@.len() != "state"@.len());
    assert("ns"@.len() != "gpu"@.len());
    assert("queue"@.len() != "priority"@.len());
    assert("queue"@[0] != "state"@[0]);
    assert("queue"@.len() != "gpu"@.len());
    assert("priority"@.len() != "state"@.len());
    assert("priority"@.len() != "gpu"@.len());
    assert("state"@.len() != "gpu"@.len());
}

/// A workload is active exactly as long as it is not finished, and the active ones keep their
/// order.
pub proof fn active_workloads_are_not_finished(ws: Seq<WorkloadRow>, w: WorkloadRow)
    ensures
        active(ws).contains(w) <==> ws.contains(w) && w.state@ != "Finished"@,
        active(ws.push(w)) == (if w.state@ == "Finished"@ {
            active(ws)
        } else {
            active(ws).push(w)
        }),
    decreases ws.len(),
{
    assert(ws.push(w).drop_last() =~= ws);
    if ws.len() > 0 {
        let t = ws.drop_last();
        let last = ws.last();
        active_workloads_are_not_finished(t, w);
        assert(ws[ws.len() - 1] == last);
        if ws.contains(w) && w != last {
            let k = ws.index_of(w);
            assert(t[k] == w);
        }
        if t.contains(w) {
            let k = t.index_of(w);
            assert(ws[k] == w);
        }
        if last.state@ != "Finished"@ {
            let more = active(t).push(last);
            assert(more[more.len() - 1] == last);
            if active(t).contains(w) {
                let k = active(t).index_of(w);
                assert(more[k] == w);
            }
            if more.contains(w) && w != last {
                let k = more.index_of(w);
                assert(active(t)[k] == w);
            }
        }
    }
}

/// A pool's card sets what is used before what is granted and what is admitted before what waits.
pub proof fn a_pool_card_sets_use_before_grant(snap: SchedulingSnapshot, p: PoolsPage, i: int)
    requires
        is_pools_page(snap, p),
        0 <= i < snap.pools@.len(),
    ensures
        p.pools@.len() == snap.pools@.len(),
        p.pools@[i].pool@ == snap.pools@[i].name@,
        (signed(snap.pools@[i].gpu_used as int) + " / "@ + signed(
            snap.pools@[i].gpu_nominal as int,
        ) + " used"@) == p.pools@[i].gpu@,
        (signed(snap.pools@[i].cpu_used as int) + " / "@ + signed(
            snap.pools@[i].cpu_nominal as int,
        )) == p.pools@[i].cpu@,
        (signed(snap.pools@[i].admitted_workloads as int) + " admitted · "@ + signed(
            snap.pools@[i].pending_workloads as int,
        ) + " pending"@) == p.pools@[i].queue@,
{
    assert(is_pool_card(snap.pools@[i], p.pools@[i]));
}

/// A machine reads as on exactly when it is powered, a backend as serving exactly when it serves;
/// both are shown with what is theirs.
pub proof fn a_line_says_whether_it_is_up(
    n: NodePower,
    l: NodeLine,
    b: InferenceBackend,
    m: BackendLine,
)
    requires
        is_node_line(n, l),
        is_backend_line(b, m),
    ensures
        l.node@ == n.name@ && l.phase@ == n.phase@ && l.pool@ == n.pool@,
        l.power@ == "● ON"@ <==> n.powered,
        l.power@ == "○ off"@ <==> !n.powered,
        m.campaign@ == b.campaign@ && m.kind@ == b.kind@ && m.endpoint@ == b.endpoint@,
        m.serving@ == "● serving"@ <==> b.serving,
        m.serving@ == "… starting"@ <==> !b.serving,
{
    reveal_strlit("● ON");
    reveal_strlit("○ off");
    reveal_strlit("● serving");
    reveal_strlit("… starting");
    assert("● ON"@[0] != "○ off"@[0]);
    assert("● serving"@[0] != "… starting"@[0]);
}

/// The backends are listed in their order, and the note says whether there are any.
pub proof fn backends_are_listed(snap: SchedulingSnapshot, p: InferencePage, i: int)
    requires
        is_inference_page(snap, p),
    ensures
        p.lines@.len() == snap.inference@.len(),
        0 <= i < snap.inference@.len() ==> p.lines@[i].campaign@ == snap.inference@[i].campaign@,
        p.note@ == "Ephemeral per-campaign endpoints (mesh-llm / vLLM-on-Ray)."@
            <==> snap.inference@.len() > 0,
{
    reveal_strlit(
        "No ephemeral inference backend active. Campaigns with inferenceMesh / inferenceCluster appear here while serving.",
    );
    reveal_strlit("Ephemeral per-campaign endpoints (mesh-llm / vLLM-on-Ray).");
    assert("Ephemeral per-campaign endpoints (mesh-llm / vLLM-on-Ray)."@[0] == 'E');
    assert("No ephemeral inference backend active. Campaigns with inferenceMesh / inferenceCluster appear here while serving."@[0]
        == 'N');
    if 0 <= i < snap.inference@.len() {
        assert(is_backend_line(snap.inference@[i], p.lines@[i]));
    }
}

} // verus!

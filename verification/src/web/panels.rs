//! The panels of the console's two workspaces, their default layouts, and the named views
//! over the research workspace.

use vstd::prelude::*;
use crate::workspace::views::{Mode, PanelKind, PanelWin, ViewPreset, ViewsSpec, WinState};

verus! {

broadcast use vstd::seq_lib::group_seq_properties;

/// The console's views, one panel each.
#[derive(Debug, Clone, Copy, PartialEq, Eq, Hash, Structural)]
pub enum Panel {
    /// Experiment list.
    Experiments,
    /// Metadata for the selected experiment (phase, namespace, workspace…).
    ExperimentDetail,
    /// Learning metrics (embedded Grafana dashboard) for the selected experiment.
    ExperimentMetrics,
    /// Manifest IDE for the selected experiment.
    ExperimentManifest,
    /// ResearchCampaign list.
    Campaigns,
    /// ExperimentTemplate list + template-YAML editor.
    Templates,
    /// RuntimeProfile list.
    RuntimeProfiles,
    /// BenchmarkSuite + BenchmarkRun lists.
    Benchmarks,
    /// Compose a campaign's experiments into a research-paper dataset.
    ReportCurator,
    /// Published ResearchReport list.
    Reports,
    /// Drill-down research surface: global fleet → campaign → experiment or
    /// report.
    Research,
}

impl Panel {
    /// What the panel is called.
    pub open spec fn named(&self) -> Seq<char> {
        match *self {
            Panel::Experiments => "Experiments"@,
            Panel::ExperimentDetail => "Experiment Detail"@,
            Panel::ExperimentMetrics => "Experiment Metrics"@,
            Panel::ExperimentManifest => "Experiment Manifest"@,
            Panel::Campaigns => "Campaigns"@,
            Panel::Templates => "Templates"@,
            Panel::RuntimeProfiles => "Runtime Profiles"@,
            Panel::Benchmarks => "Benchmarks"@,
            Panel::ReportCurator => "Report Curator"@,
            Panel::Reports => "Reports"@,
            Panel::Research => "Research"@,
        }
    }

    /// What the panel is called.
    pub fn title(self) -> (r: &'static str)
        ensures
            r@ == self.named(),
    {
        match self {
            Panel::Experiments => "Experiments",
            Panel::ExperimentDetail => "Experiment Detail",
            Panel::ExperimentMetrics => "Experiment Metrics",
            Panel::ExperimentManifest => "Experiment Manifest",
            Panel::Campaigns => "Campaigns",
            Panel::Templates => "Templates",
            Panel::RuntimeProfiles => "Runtime Profiles",
            Panel::Benchmarks => "Benchmarks",
            Panel::ReportCurator => "Report Curator",
            Panel::Reports => "Reports",
            Panel::Research => "Research",
        }
    }
}

impl PanelKind for Panel {
    fn is(&self, other: &Self) -> (r: bool) {
        *self == *other
    }
}

/// Admin-only page: the GPU-scheduling / inference stack. It stands on a SEPARATE
/// workspace (its own layout), opened via the topbar "Admin" toggle.
/// Observability only — cluster config stays GitOps.
#[derive(Debug, Clone, Copy, PartialEq, Eq, Hash, Structural)]
pub enum AdminPanel {
    GpuPools,
    NodePower,
    Inference,
}

impl AdminPanel {
    /// What the panel is called.
    pub open spec fn named(&self) -> Seq<char> {
        match *self {
            AdminPanel::GpuPools => "GPU Pools & Queues"@,
            AdminPanel::NodePower => "Node Power · Hephaestus"@,
            AdminPanel::Inference => "Inference Backends"@,
        }
    }

    /// What the panel is called.
    pub fn title(self) -> (r: &'static str)
        ensures
            r@ == self.named(),
    {
        match self {
            AdminPanel::GpuPools => "GPU Pools & Queues",
            AdminPanel::NodePower => "Node Power · Hephaestus",
            AdminPanel::Inference => "Inference Backends",
        }
    }
}

impl PanelKind for AdminPanel {
    fn is(&self, other: &Self) -> (r: bool) {
        *self == *other
    }
}

// ---------------------------------------------------------------------------
// Layouts
// ---------------------------------------------------------------------------

/// Gap between panels, and from the workspace edge.
pub const GUTTER: u32 = 16;

/// Where a panel floats, in pixels.
#[derive(Debug, Clone, Copy, PartialEq, Eq, Structural)]
pub struct Place {
    pub x: u32,
    pub y: u32,
    pub w: u32,
    pub h: u32,
}

/// Where the `i`-th panel of a column begins: a gutter below the one above it.
pub open spec fn top_of<K>(panels: Seq<(K, u32)>, i: int) -> int
    decreases i,
{
    if i <= 0 {
        GUTTER as int
    } else {
        top_of(panels, i - 1) + panels[i - 1].1 + GUTTER
    }
}

/// How many tile rows of `row_px` pixels the height takes.
pub open spec fn tile_rows(h: int, row_px: int) -> int {
    let n = (h + row_px - 1) / row_px;
    if n > 255 {
        255
    } else {
        n
    }
}

/// The panels, stacked down a column.
pub open spec fn stacked<K>(
    x: u32,
    w: u32,
    tile_w: u8,
    panels: Seq<(K, u32)>,
    row_px: int,
) -> Seq<PanelWin<K, Place>> {
    Seq::new(
        panels.len(),
        |i: int|
            PanelWin {
                kind: panels[i].0,
                state: WinState::Floating,
                tile_w,
                tile_h: tile_rows(panels[i].1 as int, row_px) as u8,
                place: Place { x, y: top_of(panels, i) as u32, w, h: panels[i].1 },
            },
    )
}

proof fn lemma_tops_grow<K>(panels: Seq<(K, u32)>, i: int, j: int)
    requires
        0 <= i <= j,
    ensures
        GUTTER <= top_of(panels, i) <= top_of(panels, j),
    decreases j,
{
    if i < j {
        lemma_tops_grow(panels, i, j - 1);
    } else if i > 0 {
        lemma_tops_grow(panels, i - 1, j - 1);
    }
}

fn rows_of(h: u32, row_px: u32) -> (r: u8)
    requires
        row_px > 0,
    ensures
        r == tile_rows(h as int, row_px as int),
{
    let n: u64 = (h as u64 + row_px as u64 - 1) / (row_px as u64);
    if n > 255 {
        255
    } else {
        n as u8
    }
}

/// Stack `panels` (kind + height) down a column of width `w` starting at `x`,
/// deriving every `y`. The same authored height becomes an explicit tile-row
/// span, of rows of `row_px` pixels; the host preserves that span as a floor.
pub fn column<K: PanelKind>(
    x: u32,
    w: u32,
    tile_w: u8,
    panels: &Vec<(K, u32)>,
    row_px: u32,
) -> (r: Vec<PanelWin<K, Place>>)
    requires
        row_px > 0,
        top_of(panels@, panels@.len() as int) <= u32::MAX,
    ensures
        r@ == stacked(x, w, tile_w, panels@, row_px as int),
{
    let ghost all = stacked(x, w, tile_w, panels@, row_px as int);
    let mut out: Vec<PanelWin<K, Place>> = Vec::new();
    let mut y: u32 = GUTTER;
    let mut i: usize = 0;
    while i < panels.len()
        invariant
            i <= panels.len(),
            row_px > 0,
            top_of(panels@, panels@.len() as int) <= u32::MAX,
            y == top_of(panels@, i as int),
            all == stacked(x, w, tile_w, panels@, row_px as int),
            out@ == all.take(i as int),
        decreases panels.len() - i,
    {
        let (kind, h) = panels[i];
        proof {
            lemma_tops_grow(panels@, i + 1, panels@.len() as int);
        }
        out.push(
            PanelWin {
                kind,
                state: WinState::Floating,
                tile_w,
                tile_h: rows_of(h, row_px),
                place: Place { x, y, w, h },
            },
        );
        assert(out@ =~= all.take(i + 1));
        y = y + h + GUTTER;
        i = i + 1;
    }
    assert(all.take(i as int) =~= all);
    out
}

/// Panels of a column never touch: each begins a gutter below the end of the one above it.
pub proof fn stacked_panels_stay_apart<K>(
    x: u32,
    w: u32,
    tile_w: u8,
    panels: Seq<(K, u32)>,
    row_px: int,
    i: int,
    j: int,
)
    requires
        0 <= i < j < panels.len(),
        top_of(panels, panels.len() as int) <= u32::MAX,
    ensures
        ({
            let wins = stacked(x, w, tile_w, panels, row_px);
            wins[j].place.y >= wins[i].place.y + wins[i].place.h + GUTTER
        }),
{
    lemma_tops_grow(panels, i + 1, j);
    lemma_tops_grow(panels, i, j);
    lemma_tops_grow(panels, j, panels.len() as int);
}

/// A panel that stands in a column fits in the rows that it takes when tiled, as far as a
/// span can say.
pub proof fn spans_hold_the_height(h: int, row_px: int)
    requires
        h >= 0,
        row_px > 0,
    ensures
        tile_rows(h, row_px) < 255 ==> h <= tile_rows(h, row_px) * row_px < h + row_px,
{
    let n = (h + row_px - 1) / row_px;
    vstd::arithmetic::div_mod::lemma_fundamental_div_mod(h + row_px - 1, row_px);
    vstd::arithmetic::div_mod::lemma_mod_bound(h + row_px - 1, row_px);
    assert(row_px * n == n * row_px) by (nonlinear_arith);
}

/// The panels of the left column: browse and curate.
pub open spec fn browse_panels() -> Seq<(Panel, u32)> {
    seq![
        (Panel::Experiments, 460u32),
        (Panel::Templates, 320u32),
        (Panel::Campaigns, 260u32),
        (Panel::RuntimeProfiles, 260u32),
        (Panel::ReportCurator, 520u32),
        (Panel::Reports, 260u32),
    ]
}

/// The panels of the right column: the selected experiment.
pub open spec fn selection_panels() -> Seq<(Panel, u32)> {
    seq![
        (Panel::ExperimentDetail, 200u32),
        (Panel::ExperimentMetrics, 560u32),
        (Panel::ExperimentManifest, 360u32),
        (Panel::Benchmarks, 320u32),
        (Panel::Research, 640u32),
    ]
}

/// The default layout of the research workspace.
pub open spec fn research_layout(row_px: int) -> Seq<PanelWin<Panel, Place>> {
    stacked(16, 640, 2, browse_panels(), row_px) + stacked(672, 620, 2, selection_panels(), row_px)
}

/// Two columns: browse/curate on the left, the selected experiment on the right.
pub fn default_layout(row_px: u32) -> (r: Vec<PanelWin<Panel, Place>>)
    requires
        row_px > 0,
    ensures
        r@ == research_layout(row_px as int),
{
    let mut left: Vec<(Panel, u32)> = Vec::new();
    left.push((Panel::Experiments, 460));
    left.push((Panel::Templates, 320));
    left.push((Panel::Campaigns, 260));
    left.push((Panel::RuntimeProfiles, 260));
    left.push((Panel::ReportCurator, 520));
    left.push((Panel::Reports, 260));
    let mut right: Vec<(Panel, u32)> = Vec::new();
    right.push((Panel::ExperimentDetail, 200));
    // Tall by default: this hosts a whole Grafana dashboard, not one chart.
    right.push((Panel::ExperimentMetrics, 560));
    right.push((Panel::ExperimentManifest, 360));
    right.push((Panel::Benchmarks, 320));
    // The drill-down surface is tall: the global level stacks drive
    // cards (with per-stage template tables) above the campaign table.
    right.push((Panel::Research, 640));
    assert(left@ =~= browse_panels());
    assert(right@ =~= selection_panels());
    proof {
        reveal_with_fuel(top_of, 7);
    }
    let mut wins = column(GUTTER, 640, 2, &left, row_px);
    let mut rest = column(GUTTER + 640 + GUTTER, 620, 2, &right, row_px);
    wins.append(&mut rest);
    wins
}

/// The default layout of the admin workspace.
pub open spec fn admin_layout_list(row_px: int) -> Seq<PanelWin<AdminPanel, Place>> {
    stacked(16, 900, 3, seq![(AdminPanel::GpuPools, 560u32)], row_px) + stacked(
        932,
        440,
        1,
        seq![(AdminPanel::NodePower, 260u32), (AdminPanel::Inference, 284u32)],
        row_px,
    )
}

/// Two columns: the pools on the left, power and inference on the right.
pub fn admin_layout(row_px: u32) -> (r: Vec<PanelWin<AdminPanel, Place>>)
    requires
        row_px > 0,
    ensures
        r@ == admin_layout_list(row_px as int),
{
    let mut left: Vec<(AdminPanel, u32)> = Vec::new();
    left.push((AdminPanel::GpuPools, 560));
    let mut right: Vec<(AdminPanel, u32)> = Vec::new();
    right.push((AdminPanel::NodePower, 260));
    right.push((AdminPanel::Inference, 284));
    assert(left@ =~= seq![(AdminPanel::GpuPools, 560u32)]);
    assert(right@ =~= seq![(AdminPanel::NodePower, 260u32), (AdminPanel::Inference, 284u32)]);
    proof {
        reveal_with_fuel(top_of, 4);
    }
    let mut wins = column(GUTTER, 900, 3, &left, row_px);
    let mut rest = column(GUTTER + 900 + GUTTER, 440, 1, &right, row_px);
    wins.append(&mut rest);
    wins
}

/// Every panel stands in the default layout of its workspace.
pub proof fn every_panel_has_a_place(p: Panel, a: AdminPanel, row_px: int)
    ensures
        exists|i: int|
            0 <= i < research_layout(row_px).len() && (#[trigger] research_layout(row_px)[i]).kind
                == p,
        exists|i: int|
            0 <= i < admin_layout_list(row_px).len() && (#[trigger] admin_layout_list(row_px)[i]).kind
                == a,
{
    let k: int = match p {
        Panel::Experiments => 0,
        Panel::Templates => 1,
        Panel::Campaigns => 2,
        Panel::RuntimeProfiles => 3,
        Panel::ReportCurator => 4,
        Panel::Reports => 5,
        Panel::ExperimentDetail => 6,
        Panel::ExperimentMetrics => 7,
        Panel::ExperimentManifest => 8,
        Panel::Benchmarks => 9,
        Panel::Research => 10,
    };
    assert(research_layout(row_px)[k].kind == p);
    let m: int = match a {
        AdminPanel::GpuPools => 0,
        AdminPanel::NodePower => 1,
        AdminPanel::Inference => 2,
    };
    assert(admin_layout_list(row_px)[m].kind == a);
}

// ---------------------------------------------------------------------------
// Named views
// ---------------------------------------------------------------------------

/// What a preset is: its name, its mode, and its panels with their spans.
pub open spec fn is_view(
    p: ViewPreset<Panel>,
    name: Seq<char>,
    panels: Seq<(Panel, u8, u8)>,
) -> bool {
    &&& p.name@ == name
    &&& p.mode == Mode::Tiling
    &&& p.panels@ == panels
}

/// The named views over the research workspace.
pub open spec fn are_research_views(s: ViewsSpec<Panel>) -> bool {
    &&& s.base@ == "athena_console_web_v4"@
    &&& s.presets@.len() == 5
    &&& is_view(
        s.presets@[0],
        "Research"@,
        seq![
            (Panel::Research, 2u8, 4u8),
            (Panel::ExperimentMetrics, 2u8, 4u8),
            (Panel::ExperimentDetail, 4u8, 1u8),
        ],
    )
    &&& is_view(
        s.presets@[1],
        "Experiments"@,
        seq![
            (Panel::Experiments, 2u8, 4u8),
            (Panel::ExperimentMetrics, 2u8, 4u8),
            (Panel::ExperimentDetail, 2u8, 2u8),
            (Panel::ExperimentManifest, 2u8, 2u8),
        ],
    )
    &&& is_view(
        s.presets@[2],
        "Campaigns"@,
        seq![
            (Panel::Campaigns, 2u8, 4u8),
            (Panel::ExperimentMetrics, 2u8, 4u8),
            (Panel::ExperimentDetail, 4u8, 1u8),
        ],
    )
    &&& is_view(
        s.presets@[3],
        "Reports"@,
        seq![(Panel::Reports, 2u8, 4u8), (Panel::ReportCurator, 2u8, 4u8)],
    )
    &&& is_view(
        s.presets@[4],
        "Catalog"@,
        seq![
            (Panel::Templates, 2u8, 3u8),
            (Panel::Benchmarks, 2u8, 3u8),
            (Panel::RuntimeProfiles, 4u8, 2u8),
        ],
    )
}

/// Named views over the research workspace: which panels are visible, their
/// tile spans (4-column grid, row-major shelves), and mode. Every other panel
/// is minimized to the dock. Spans are relative: tiles stretch to fill the
/// viewport, so shelf heights set proportions, not pixels.
pub fn research_views() -> (r: ViewsSpec<Panel>)
    ensures
        are_research_views(r),
{
    let mut research: Vec<(Panel, u8, u8)> = Vec::new();
    research.push((Panel::Research, 2, 4));
    research.push((Panel::ExperimentMetrics, 2, 4));
    research.push((Panel::ExperimentDetail, 4, 1));
    let mut experiments: Vec<(Panel, u8, u8)> = Vec::new();
    experiments.push((Panel::Experiments, 2, 4));
    experiments.push((Panel::ExperimentMetrics, 2, 4));
    experiments.push((Panel::ExperimentDetail, 2, 2));
    experiments.push((Panel::ExperimentManifest, 2, 2));
    let mut campaigns: Vec<(Panel, u8, u8)> = Vec::new();
    campaigns.push((Panel::Campaigns, 2, 4));
    campaigns.push((Panel::ExperimentMetrics, 2, 4));
    campaigns.push((Panel::ExperimentDetail, 4, 1));
    let mut reports: Vec<(Panel, u8, u8)> = Vec::new();
    reports.push((Panel::Reports, 2, 4));
    reports.push((Panel::ReportCurator, 2, 4));
    let mut catalog: Vec<(Panel, u8, u8)> = Vec::new();
    catalog.push((Panel::Templates, 2, 3));
    catalog.push((Panel::Benchmarks, 2, 3));
    catalog.push((Panel::RuntimeProfiles, 4, 2));
    assert(research@ =~= seq![
        (Panel::Research, 2u8, 4u8),
        (Panel::ExperimentMetrics, 2u8, 4u8),
        (Panel::ExperimentDetail, 4u8, 1u8),
    ]);
    assert(experiments@ =~= seq![
        (Panel::Experiments, 2u8, 4u8),
        (Panel::ExperimentMetrics, 2u8, 4u8),
        (Panel::ExperimentDetail, 2u8, 2u8),
        (Panel::ExperimentManifest, 2u8, 2u8),
    ]);
    assert(campaigns@ =~= seq![
        (Panel::Campaigns, 2u8, 4u8),
        (Panel::ExperimentMetrics, 2u8, 4u8),
        (Panel::ExperimentDetail, 4u8, 1u8),
    ]);
    assert(reports@ =~= seq![(Panel::Reports, 2u8, 4u8), (Panel::ReportCurator, 2u8, 4u8)]);
    assert(catalog@ =~= seq![
        (Panel::Templates, 2u8, 3u8),
        (Panel::Benchmarks, 2u8, 3u8),
        (Panel::RuntimeProfiles, 4u8, 2u8),
    ]);
    let mut presets: Vec<ViewPreset<Panel>> = Vec::new();
    presets.push(ViewPreset { name: "Research", mode: Mode::Tiling, panels: research });
    presets.push(ViewPreset { name: "Experiments", mode: Mode::Tiling, panels: experiments });
    presets.push(ViewPreset { name: "Campaigns", mode: Mode::Tiling, panels: campaigns });
    presets.push(ViewPreset { name: "Reports", mode: Mode::Tiling, panels: reports });
    presets.push(ViewPreset { name: "Catalog", mode: Mode::Tiling, panels: catalog });
    ViewsSpec { base: "athena_console_web_v4", presets }
}

/// The panels that show the selected resource.
pub open spec fn detail_panel_list() -> Seq<Panel> {
    seq![Panel::ExperimentDetail, Panel::ExperimentMetrics, Panel::ExperimentManifest]
}

/// The panels that a selection brings back from the dock.
pub fn restore_detail_panels() -> (r: Vec<Panel>)
    ensures
        r@ == detail_panel_list(),
{
    let mut v: Vec<Panel> = Vec::new();
    v.push(Panel::ExperimentDetail);
    v.push(Panel::ExperimentMetrics);
    v.push(Panel::ExperimentManifest);
    assert(v@ =~= detail_panel_list());
    v
}

/// A panel is called by its own name, and no two are called alike.
pub proof fn a_panel_goes_by_its_name(x: Panel)
    ensures
        x.named() == "Experiments"@ <==> x is Experiments,
        x.named() == "Experiment Detail"@ <==> x is ExperimentDetail,
        x.named() == "Experiment Metrics"@ <==> x is ExperimentMetrics,
        x.named() == "Experiment Manifest"@ <==> x is ExperimentManifest,
        x.named() == "Campaigns"@ <==> x is Campaigns,
        x.named() == "Templates"@ <==> x is Templates,
        x.named() == "Runtime Profiles"@ <==> x is RuntimeProfiles,
        x.named() == "Benchmarks"@ <==> x is Benchmarks,
        x.named() == "Report Curator"@ <==> x is ReportCurator,
        x.named() == "Reports"@ <==> x is Reports,
        x.named() == "Research"@ <==> x is Research,
{
    reveal_strlit("Experiments");
    reveal_strlit("Experiment Detail");
    reveal_strlit("Experiment Metrics");
    reveal_strlit("Experiment Manifest");
    reveal_strlit("Campaigns");
    reveal_strlit("Templates");
    reveal_strlit("Runtime Profiles");
    reveal_strlit("Benchmarks");
    reveal_strlit("Report Curator");
    reveal_strlit("Reports");
    reveal_strlit("Research");
    assert("Experiments"@.len() != "Experiment Detail"@.len());
    assert("Experiments"@.len() != "Experiment Metrics"@.len());
    assert("Experiments"@.len() != "Experiment Manifest"@.len());
    assert("Experiments"@.len() != "Campaigns"@.len());
    assert("Experiments"@.len() != "Templates"@.len());
    assert("Experiments"@.len() != "Runtime Profiles"@.len());
    assert("Experiments"@.len() != "Benchmarks"@.len());
    assert("Experiments"@.len() != "Report Curator"@.len());
    assert("Experiments"@.len() != "Reports"@.len());
    assert("Experiments"@.len() != "Research"@.len());
    assert("Experiment Detail"@.len() != "Experiment Metrics"@.len());
    assert("Experiment Detail"@.len() != "Experiment Manifest"@.len());
    assert("Experiment Detail"@.len() != "Campaigns"@.len());
    assert("Experiment Detail"@.len() != "Templates"@.len());
    assert("Experiment Detail"@.len() != "Runtime Profiles"@.len());
    assert("Experiment Detail"@.len() != "Benchmarks"@.len());
    assert("Experiment Detail"@.len() != "Report Curator"@.len());
    assert("Experiment Detail"@.len() != "Reports"@.len());
    assert("Experiment Detail"@.len() != "Research"@.len());
    assert("Experiment Metrics"@.len() != "Experiment Manifest"@.len());
    assert("Experiment Metrics"@.len() != "Campaigns"@.len());
    assert("Experiment Metrics"@.len() != "Templates"@.len());
    assert("Experiment Metrics"@.len() != "Runtime Profiles"@.len());
    assert("Experiment Metrics"@.len() != "Benchmarks"@.len());
    assert("Experiment Metrics"@.len() != "Report Curator"@.len());
    assert("Experiment Metrics"@.len() != "Reports"@.len());
    assert("Experiment Metrics"@.len() != "Research"@.len());
    assert("Experiment Manifest"@.len() != "Campaigns"@.len());
    assert("Experiment Manifest"@.len() != "Templates"@.len());
    assert("Experiment Manifest"@.len() != "Runtime Profiles"@.len());
    assert("Experiment Manifest"@.len() != "Benchmarks"@.len());
    assert("Experiment Manifest"@.len() != "Report Curator"@.len());
    assert("Experiment Manifest"@.len() != "Reports"@.len());
    assert("Experiment Manifest"@.len() != "Research"@.len());
    assert("Campaigns"@[0] != "Templates"@[0]);
    assert("Campaigns"@.len() != "Runtime Profiles"@.len());
    assert("Campaigns"@.len() != "Benchmarks"@.len());
    assert("Campaigns"@.len() != "Report Curator"@.len());
    assert("Campaigns"@.len() != "Reports"@.len());
    assert("Campaigns"@.len() != "Research"@.len());
    assert("Templates"@.len() != "Runtime Profiles"@.len());
    assert("Templates"@.len() != "Benchmarks"@.len());
    assert("Templates"@.len() != "Report Curator"@.len());
    assert("Templates"@.len() != "Reports"@.len());
    assert("Templates"@.len() != "Research"@.len());
    assert("Runtime Profiles"@.len() != "Benchmarks"@.len());
    assert("Runtime Profiles"@.len() != "Report Curator"@.len());
    assert("Runtime Profiles"@.len() != "Reports"@.len());
    assert("Runtime Profiles"@.len() != "Research"@.len());
    assert("Benchmarks"@.len() != "Report Curator"@.len());
    assert("Benchmarks"@.len() != "Reports"@.len());
    assert("Benchmarks"@.len() != "Research"@.len());
    assert("Report Curator"@.len() != "Reports"@.len());
    assert("Report Curator"@.len() != "Research"@.len());
    assert("Reports"@.len() != "Research"@.len());
}

/// A panel of the admin page is called by its own name, and no two are called alike.
pub proof fn an_admin_panel_goes_by_its_name(x: AdminPanel)
    ensures
        x.named() == "GPU Pools & Queues"@ <==> x is GpuPools,
        x.named() == "Node Power · Hephaestus"@ <==> x is NodePower,
        x.named() == "Inference Backends"@ <==> x is Inference,
{
    reveal_strlit("GPU Pools & Queues");
    reveal_strlit("Node Power · Hephaestus");
    reveal_strlit("Inference Backends");
    assert("GPU Pools & Queues"@.len() != "Node Power · Hephaestus"@.len());
    assert("GPU Pools & Queues"@[0] != "Inference Backends"@[0]);
    assert("Node Power · Hephaestus"@.len() != "Inference Backends"@.len());
}

/// Every view is tiled and shows the panel that it is named after first, the experiments and the
/// campaigns with the metrics beside it.
pub proof fn a_view_shows_what_it_is_named_after(s: ViewsSpec<Panel>)
    requires
        are_research_views(s),
    ensures
        s.presets@.len() == 5,
        forall|i: int| 0 <= i < 5 ==> (#[trigger] s.presets@[i]).mode == Mode::Tiling,
        s.presets@[0].name@ == "Research"@ && s.presets@[0].panels@[0].0 is Research,
        s.presets@[1].name@ == "Experiments"@ && s.presets@[1].panels@[0].0 is Experiments,
        s.presets@[2].name@ == "Campaigns"@ && s.presets@[2].panels@[0].0 is Campaigns,
        s.presets@[3].name@ == "Reports"@ && s.presets@[3].panels@[0].0 is Reports,
        s.presets@[1].panels@[1].0 is ExperimentMetrics,
        s.presets@[2].panels@[1].0 is ExperimentMetrics,
{
}

} // verus!

//! Shared column sets for the console's resource tables.
//!
//! Every experiment list and every campaign list shows the same universal
//! columns — fields that exist for any Athena experiment (robot training,
//! LLM sweeps, citation audits) rather than domain parameters. Views differ
//! only in which columns start visible; users can toggle the rest from the
//! table's columns menu, and the choice persists per table.

use vstd::prelude::*;
use crate::calendar::ms_text;
use crate::models::ResourceSummary;
use crate::number::Real;
use crate::numeral::{decimal, decimal_of, padded, padded_of, signed, signed_of};
use crate::snapshot::{copy_real, copy_text};
use crate::text::same;

pub use crate::calendar::fmt_ms;

verus! {

broadcast use vstd::seq_lib::group_seq_properties;

// ---------------------------------------------------------------------------
// Formats
// ---------------------------------------------------------------------------

/// How a duration reads.
pub open spec fn duration_text(secs: Option<i64>) -> Seq<char> {
    match secs {
        None => "—"@,
        Some(s) => if s < 60 {
            signed(s as int) + "s"@
        } else if s < 3600 {
            signed(s as int / 60) + "m "@ + padded(s as int % 60, 2) + "s"@
        } else {
            signed(s as int / 3600) + "h "@ + padded((s as int % 3600) / 60, 2) + "m"@
        },
    }
}

/// `3725` → `1h 02m`; under a minute → `45s`.
pub fn fmt_duration(secs: Option<i64>) -> (r: String)
    ensures
        r@ == duration_text(secs),
{
    match secs {
        None => "—".to_owned(),
        Some(s) => if s < 60 {
            let mut t = signed_of(s);
            t.append("s");
            t
        } else if s < 3600 {
            let mut t = signed_of(s / 60);
            t.append("m ");
            t.append(padded_of(s % 60, 2).as_str());
            t.append("s");
            t
        } else {
            let mut t = signed_of(s / 3600);
            t.append("h ");
            t.append(padded_of((s % 3600) / 60, 2).as_str());
            t.append("m");
            t
        },
    }
}

/// The arrow of the goal.
pub open spec fn goal_arrow(goal: Option<String>) -> Seq<char> {
    if goal matches Some(g) && g@ == "maximize"@ {
        " ↑"@
    } else if goal matches Some(g) && g@ == "minimize"@ {
        " ↓"@
    } else {
        ""@
    }
}

/// How an objective value reads: large values with one digit after the point, others with
/// four, and the arrow of the goal behind.
pub open spec fn objective_text(value: Option<Real>, goal: Option<String>) -> Seq<char> {
    match value {
        None => "—"@,
        Some(v) => if v.reaches_thousand() {
            v.fixed1@ + goal_arrow(goal)
        } else {
            v.fixed4@ + goal_arrow(goal)
        },
    }
}

/// Objective value with goal arrow, e.g. `0.8300 ↑`.
pub fn fmt_objective(value: &Option<Real>, goal: &Option<String>) -> (r: String)
    ensures
        r@ == objective_text(*value, *goal),
{
    let v = match value {
        Some(v) => v,
        None => {
            return "—".to_owned();
        },
    };
    let arrow = match goal {
        Some(g) => if same(g.as_str(), "maximize") {
            " ↑"
        } else if same(g.as_str(), "minimize") {
            " ↓"
        } else {
            ""
        },
        None => "",
    };
    let mut t = if v.is_thousand_or_more() {
        v.fixed1.clone()
    } else {
        v.fixed4.clone()
    };
    t.append(arrow);
    t
}

// ---------------------------------------------------------------------------
// Columns and cells
// ---------------------------------------------------------------------------

/// One column of a resource table.
#[derive(Debug, Clone, Copy, PartialEq)]
pub struct DataColumnSpec {
    /// What the table remembers the column by.
    pub id: &'static str,
    pub title: &'static str,
    /// The column cannot be hidden.
    pub pinned: bool,
    /// The column starts hidden.
    pub hidden: bool,
    /// Clicking the header sorts by the column.
    pub sortable: bool,
}

impl DataColumnSpec {
    /// A column that starts visible.
    pub fn new(id: &'static str, title: &'static str) -> (r: Self)
        ensures
            r == (DataColumnSpec { id, title, pinned: false, hidden: false, sortable: true }),
    {
        DataColumnSpec { id, title, pinned: false, hidden: false, sortable: true }
    }

    /// The column, so that it cannot be hidden.
    pub fn pinned(self) -> (r: Self)
        ensures
            r == (DataColumnSpec { pinned: true, ..self }),
    {
        let mut c = self;
        c.pinned = true;
        c
    }

    /// The column, so that it starts hidden.
    pub fn hidden(self) -> (r: Self)
        ensures
            r == (DataColumnSpec { hidden: true, ..self }),
    {
        let mut c = self;
        c.hidden = true;
        c
    }

    /// The column, so that no click sorts by it.
    pub fn unsorted(self) -> (r: Self)
        ensures
            r == (DataColumnSpec { sortable: false, ..self }),
    {
        let mut c = self;
        c.sortable = false;
        c
    }
}

/// A number that a cell sorts by.
#[derive(Debug, Clone, PartialEq)]
pub enum Amount {
    Measured(Option<Real>),
    Whole(Option<i64>),
}

/// One cell of a resource table; `E` is what the caller draws.
#[derive(Debug, Clone)]
pub enum DataCell<E> {
    /// Drawn by the caller, sorted by one text and searched by another.
    Custom(E, String, String),
    /// Drawn by the caller, sorted by whether it is on and not searched.
    Toggle(E, bool),
    /// Drawn by the caller, neither sorted nor searched.
    Action(E),
    /// A count, sorted by and not searched.
    Count(i128, String),
    /// A text, shown, sorted and searched.
    Text(String),
    /// The same with a style class.
    Styled(String, &'static str),
    /// A number and how it reads.
    Number(Amount, String),
    /// How an epoch-millis string reads, and the string, which it sorts by.
    Date(String, Option<String>),
    /// A dash for what is missing; it sorts last.
    Dash,
}

/// What a cell is.
pub ghost enum CellView<E> {
    Custom(E, Seq<char>, Seq<char>),
    Toggle(E, bool),
    Action(E),
    Count(i128, Seq<char>),
    Text(Seq<char>),
    Styled(Seq<char>, Seq<char>),
    Number(Amount, Seq<char>),
    Date(Seq<char>, Option<Seq<char>>),
    Dash,
}

impl<E> View for DataCell<E> {
    type V = CellView<E>;

    open spec fn view(&self) -> CellView<E> {
        match *self {
            DataCell::Custom(e, key, search) => CellView::Custom(e, key@, search@),
            DataCell::Toggle(e, on) => CellView::Toggle(e, on),
            DataCell::Action(e) => CellView::Action(e),
            DataCell::Count(n, s) => CellView::Count(n, s@),
            DataCell::Text(s) => CellView::Text(s@),
            DataCell::Styled(s, class) => CellView::Styled(s@, class@),
            DataCell::Number(n, s) => CellView::Number(n, s@),
            DataCell::Date(s, ms) => CellView::Date(s@, ms.deep_view()),
            DataCell::Dash => CellView::Dash,
        }
    }
}

/// One row of a resource table.
#[derive(Debug, Clone)]
pub struct DataRow<E> {
    /// Stable identity (resource name).
    pub key: String,
    pub cells: Vec<DataCell<E>>,
    /// The row is highlighted.
    pub selected: bool,
}

impl<E> DataRow<E> {
    /// What the cells of the row are.
    pub open spec fn drawn(&self) -> Seq<CellView<E>> {
        self.cells@.map_values(|c: DataCell<E>| c@)
    }

    /// A row without cells.
    pub fn new(key: &str) -> (r: Self)
        ensures
            r.key@ == key@,
            r.drawn() == Seq::<CellView<E>>::empty(),
            !r.selected,
    {
        let r = DataRow { key: key.to_owned(), cells: Vec::new(), selected: false };
        assert(r.drawn() =~= Seq::empty());
        r
    }

    fn with(self, c: DataCell<E>) -> (r: Self)
        ensures
            r.key@ == self.key@,
            r.drawn() == self.drawn().push(c@),
            r.selected == self.selected,
    {
        let mut row = self;
        row.cells.push(c);
        assert(row.drawn() =~= self.drawn().push(c@));
        row
    }

    /// Custom cell with an explicit sort key and search text.
    pub fn cell(self, element: E, key: &str, search: &str) -> (r: Self)
        ensures
            r.key@ == self.key@,
            r.drawn() == self.drawn().push(CellView::Custom(element, key@, search@)),
            r.selected == self.selected,
    {
        self.with(DataCell::Custom(element, key.to_owned(), search.to_owned()))
    }

    /// Custom cell that is on or off.
    pub fn toggle(self, element: E, on: bool) -> (r: Self)
        ensures
            r.key@ == self.key@,
            r.drawn() == self.drawn().push(CellView::Toggle(element, on)),
            r.selected == self.selected,
    {
        self.with(DataCell::Toggle(element, on))
    }

    /// Custom cell that is neither sorted nor searched.
    pub fn action(self, element: E) -> (r: Self)
        ensures
            r.key@ == self.key@,
            r.drawn() == self.drawn().push(CellView::Action(element)),
            r.selected == self.selected,
    {
        self.with(DataCell::Action(element))
    }

    /// Count cell.
    pub fn count(self, n: u64) -> (r: Self)
        ensures
            r.key@ == self.key@,
            r.drawn() == self.drawn().push(count_of(n)),
            r.selected == self.selected,
    {
        self.with(DataCell::Count(n as i128, decimal_of(n)))
    }

    /// Count cell of a number that may be negative.
    pub fn whole(self, n: i64) -> (r: Self)
        ensures
            r.key@ == self.key@,
            r.drawn() == self.drawn().push(whole_of(n)),
            r.selected == self.selected,
    {
        self.with(DataCell::Count(n as i128, signed_of(n)))
    }

    /// The row, highlighted or not.
    pub fn selected(self, on: bool) -> (r: Self)
        ensures
            r.key@ == self.key@,
            r.drawn() == self.drawn(),
            r.selected == on,
    {
        let mut row = self;
        row.selected = on;
        assert(row.drawn() =~= self.drawn());
        row
    }

    /// Plain text cell.
    pub fn text(self, s: &str) -> (r: Self)
        ensures
            r.key@ == self.key@,
            r.drawn() == self.drawn().push(CellView::Text(s@)),
            r.selected == self.selected,
    {
        self.with(DataCell::Text(s.to_owned()))
    }

    /// Text cell with a style class.
    pub fn text_class(self, s: &str, class: &'static str) -> (r: Self)
        ensures
            r.key@ == self.key@,
            r.drawn() == self.drawn().push(CellView::Styled(s@, class@)),
            r.selected == self.selected,
    {
        self.with(DataCell::Styled(s.to_owned(), class))
    }

    /// Number cell.
    pub fn num(self, n: Amount, shown: String) -> (r: Self)
        ensures
            r.key@ == self.key@,
            r.drawn() == self.drawn().push(CellView::Number(n, shown@)),
            r.selected == self.selected,
    {
        self.with(DataCell::Number(n, shown))
    }
}

/// Row helpers shared by every console table.
pub trait RowExt: Sized {
    /// Date cell from an epoch-millis string.
    fn date(self, ms: &Option<String>) -> Self;

    /// Text cell, or a dash for what is missing.
    fn opt_text(self, value: &Option<String>) -> Self;
}

impl<E> RowExt for DataRow<E> {
    fn date(self, ms: &Option<String>) -> (r: Self)
        ensures
            r.key@ == self.key@,
            r.drawn() == self.drawn().push(date_cell(*ms)),
            r.selected == self.selected,
    {
        self.with(DataCell::Date(fmt_ms(ms), copy_text(ms)))
    }

    fn opt_text(self, value: &Option<String>) -> (r: Self)
        ensures
            r.key@ == self.key@,
            r.drawn() == self.drawn().push(text_cell(*value)),
            r.selected == self.selected,
    {
        match value {
            Some(v) => self.text(v.as_str()),
            None => self.with(DataCell::Dash),
        }
    }
}

/// A count that is not searched.
pub open spec fn count_of<E>(n: u64) -> CellView<E> {
    CellView::Count(n as i128, decimal(n as nat))
}

/// A number that may be negative and is not searched.
pub open spec fn whole_of<E>(n: i64) -> CellView<E> {
    CellView::Count(n as i128, signed(n as int))
}

/// A date cell.
pub open spec fn date_cell<E>(ms: Option<String>) -> CellView<E> {
    CellView::Date(ms_text(ms), ms.deep_view())
}

/// A text cell, or a dash.
pub open spec fn text_cell<E>(value: Option<String>) -> CellView<E> {
    match value {
        Some(v) => CellView::Text(v@),
        None => CellView::Dash,
    }
}

/// A text cell with a style class, empty where there is no text.
pub open spec fn styled_cell<E>(value: Option<String>, class: Seq<char>) -> CellView<E> {
    CellView::Styled(
        match value {
            Some(v) => v@,
            None => Seq::empty(),
        },
        class,
    )
}

/// A count cell.
pub open spec fn count_cell<E>(n: Option<u32>) -> CellView<E> {
    match n {
        Some(v) => CellView::Number(Amount::Whole(Some(v as i64)), decimal(v as nat)),
        None => CellView::Number(Amount::Whole(None), "—"@),
    }
}

/// The objective cell of a row.
pub open spec fn objective_cell<E>(e: ResourceSummary) -> CellView<E> {
    CellView::Number(
        Amount::Measured(e.objective_value),
        objective_text(e.objective_value, e.objective_goal),
    )
}

/// A count, and how it reads.
pub fn count(n: Option<u32>) -> (r: (Amount, String))
    ensures
        CellView::<()>::Number(r.0, r.1@) == count_cell::<()>(n),
        r.0 == Amount::Whole(
            match n {
                Some(v) => Some(v as i64),
                None => None,
            },
        ),
        r.1@ == (match n {
            Some(v) => decimal(v as nat),
            None => "—"@,
        }),
{
    match n {
        Some(v) => (Amount::Whole(Some(v as i64)), decimal_of(v as u64)),
        None => (Amount::Whole(None), "—".to_owned()),
    }
}

fn or_blank(o: &Option<String>) -> (r: String)
    ensures
        r@ == (match *o {
            Some(v) => v@,
            None => Seq::empty(),
        }),
{
    match o {
        Some(v) => v.clone(),
        None => String::new(),
    }
}

/// Which way a table is sorted.
#[derive(Debug, Clone, Copy, PartialEq, Eq, Structural)]
pub enum SortDir {
    Asc,
    Desc,
}

/// One table of a page. What a row's own cells stand for is the place of its resource in the
/// listing that the page was given.
#[derive(Debug, Clone)]
pub struct Table {
    pub columns: Vec<DataColumnSpec>,
    pub rows: Vec<DataRow<usize>>,
    /// How the table is sorted at first.
    pub order: Option<(&'static str, SortDir)>,
    /// Where the table remembers its columns and its order.
    pub storage_key: Option<String>,
    /// What stands in a table without rows.
    pub empty: Option<&'static str>,
    /// What stands in an empty filter.
    pub placeholder: Option<&'static str>,
}

impl Table {
    /// How the table is set up, whatever its rows.
    pub open spec fn is_set_up(
        &self,
        columns: Seq<DataColumnSpec>,
        order: Option<(&'static str, SortDir)>,
        storage_key: Option<Seq<char>>,
        empty: Option<&'static str>,
        placeholder: Option<&'static str>,
    ) -> bool {
        &&& self.columns@ == columns
        &&& self.order == order
        &&& self.storage_key.deep_view() == storage_key
        &&& self.empty == empty
        &&& self.placeholder == placeholder
    }
}

/// The row has the key and the cells, and is highlighted or not.
pub open spec fn is_row(
    row: DataRow<usize>,
    key: Seq<char>,
    cells: Seq<CellView<usize>>,
    selected: bool,
) -> bool {
    &&& row.key@ == key
    &&& row.drawn() == cells
    &&& row.selected == selected
}

// ---------------------------------------------------------------------------
// Experiments
// ---------------------------------------------------------------------------

/// A column that starts visible.
pub open spec fn column(id: &'static str, title: &'static str) -> DataColumnSpec {
    DataColumnSpec { id, title, pinned: false, hidden: false, sortable: true }
}

/// A column that starts hidden.
pub open spec fn hidden_column(id: &'static str, title: &'static str) -> DataColumnSpec {
    DataColumnSpec { id, title, pinned: false, hidden: true, sortable: true }
}

/// A column that cannot be hidden and that no click sorts by.
pub open spec fn fixed_column(id: &'static str, title: &'static str) -> DataColumnSpec {
    DataColumnSpec { id, title, pinned: true, hidden: false, sortable: false }
}

/// A column that cannot be hidden.
pub open spec fn pinned_column(id: &'static str, title: &'static str) -> DataColumnSpec {
    DataColumnSpec { id, title, pinned: true, hidden: false, sortable: true }
}

/// The universal experiment columns.
pub open spec fn experiment_column_list(with_campaign: bool) -> Seq<DataColumnSpec> {
    seq![pinned_column("name", "Experiment")] + (if with_campaign {
        seq![column("campaign", "Campaign")]
    } else {
        Seq::empty()
    }) + seq![
        column("template", "Template"),
        column("phase", "Phase"),
        column("decision", "Decision"),
        column("objective", "Objective"),
        hidden_column("metric", "Metric"),
        column("parent", "Parent"),
        column("gen", "Gen"),
        column("runtime", "Runtime"),
        hidden_column("gpu_hours", "GPU-h"),
        column("created", "Created"),
        hidden_column("hypothesis", "Hypothesis"),
        hidden_column("workspace", "Workspace"),
    ]
}

/// Universal experiment columns. `with_campaign` adds the Campaign column for
/// lists that span campaigns.
pub fn experiment_columns(with_campaign: bool) -> (r: Vec<DataColumnSpec>)
    ensures
        r@ == experiment_column_list(with_campaign),
{
    let mut cols: Vec<DataColumnSpec> = Vec::new();
    cols.push(DataColumnSpec::new("name", "Experiment").pinned());
    if with_campaign {
        cols.push(DataColumnSpec::new("campaign", "Campaign"));
    }
    cols.push(DataColumnSpec::new("template", "Template"));
    cols.push(DataColumnSpec::new("phase", "Phase"));
    cols.push(DataColumnSpec::new("decision", "Decision"));
    cols.push(DataColumnSpec::new("objective", "Objective"));
    cols.push(DataColumnSpec::new("metric", "Metric").hidden());
    cols.push(DataColumnSpec::new("parent", "Parent"));
    cols.push(DataColumnSpec::new("gen", "Gen"));
    cols.push(DataColumnSpec::new("runtime", "Runtime"));
    cols.push(DataColumnSpec::new("gpu_hours", "GPU-h").hidden());
    cols.push(DataColumnSpec::new("created", "Created"));
    cols.push(DataColumnSpec::new("hypothesis", "Hypothesis").hidden());
    cols.push(DataColumnSpec::new("workspace", "Workspace").hidden());
    assert(cols@ =~= experiment_column_list(with_campaign));
    cols
}

/// The cells of an experiment row behind those of `lead`.
pub open spec fn experiment_cell_list<E>(
    e: ResourceSummary,
    name_cell: E,
    with_campaign: bool,
) -> Seq<CellView<E>> {
    seq![CellView::Custom(name_cell, e.name@, e.name@)] + (if with_campaign {
        seq![text_cell(e.campaign)]
    } else {
        Seq::empty()
    }) + seq![
        text_cell(e.template),
        CellView::Styled(e.phase@, "phase"@),
        text_cell(e.decision),
        objective_cell(e),
        text_cell(e.objective),
        text_cell(e.parent),
        count_cell(e.generation),
        CellView::Number(Amount::Whole(e.runtime_seconds), duration_text(e.runtime_seconds)),
        CellView::Number(
            Amount::Measured(e.gpu_hours),
            match e.gpu_hours {
                Some(h) => h.fixed2@,
                None => "—"@,
            },
        ),
        date_cell(e.created_at),
        styled_cell(e.hypothesis, "muted"@),
        styled_cell(e.workspace_path, "muted"@),
    ]
}

/// The cells of one experiment behind those of `lead`; `name_cell` is the caller's (usually
/// clickable) first cell.
pub fn experiment_cells<E>(
    lead: DataRow<E>,
    e: &ResourceSummary,
    name_cell: E,
    with_campaign: bool,
) -> (r: DataRow<E>)
    ensures
        r.key@ == lead.key@,
        r.drawn() == lead.drawn() + experiment_cell_list(*e, name_cell, with_campaign),
        r.selected == lead.selected,
{
    let mut row = lead.cell(name_cell, e.name.as_str(), e.name.as_str());
    if with_campaign {
        row = row.opt_text(&e.campaign);
    }
    let (generation, generation_text) = count(e.generation);
    let hours = match &e.gpu_hours {
        Some(h) => h.fixed2.clone(),
        None => "—".to_owned(),
    };
    let r = row.opt_text(&e.template).text_class(e.phase.as_str(), "phase").opt_text(
        &e.decision,
    ).num(
        Amount::Measured(copy_real(&e.objective_value)),
        fmt_objective(&e.objective_value, &e.objective_goal),
    ).opt_text(&e.objective).opt_text(&e.parent).num(generation, generation_text).num(
        Amount::Whole(e.runtime_seconds),
        fmt_duration(e.runtime_seconds),
    ).num(Amount::Measured(copy_real(&e.gpu_hours)), hours).date(&e.created_at).text_class(
        or_blank(&e.hypothesis).as_str(),
        "muted",
    ).text_class(or_blank(&e.workspace_path).as_str(), "muted");
    assert(r.drawn() =~= lead.drawn() + experiment_cell_list(*e, name_cell, with_campaign));
    r
}

/// One experiment row; `name_cell` is the caller's (usually clickable) first
/// cell.
pub fn experiment_row<E>(e: &ResourceSummary, name_cell: E, with_campaign: bool) -> (r: DataRow<E>)
    ensures
        r.key@ == e.name@,
        r.drawn() == experiment_cell_list(*e, name_cell, with_campaign),
        !r.selected,
{
    let r = experiment_cells(DataRow::new(e.name.as_str()), e, name_cell, with_campaign);
    assert(r.drawn() =~= experiment_cell_list(*e, name_cell, with_campaign));
    r
}

// ---------------------------------------------------------------------------
// Campaigns
// ---------------------------------------------------------------------------

/// The universal campaign columns.
pub open spec fn campaign_column_list() -> Seq<DataColumnSpec> {
    seq![
        pinned_column("name", "Campaign"),
        column("drive", "Drive"),
        column("template", "Template"),
        column("strategy", "Strategy"),
        column("phase", "Phase"),
        column("best", "Best experiment"),
        column("objective", "Best objective"),
        hidden_column("metric", "Metric"),
        column("succeeded", "OK"),
        column("failed", "Failed"),
        hidden_column("running", "Running"),
        column("created", "Created"),
    ]
}

/// Universal campaign columns.
pub fn campaign_columns() -> (r: Vec<DataColumnSpec>)
    ensures
        r@ == campaign_column_list(),
{
    let mut cols: Vec<DataColumnSpec> = Vec::new();
    cols.push(DataColumnSpec::new("name", "Campaign").pinned());
    cols.push(DataColumnSpec::new("drive", "Drive"));
    cols.push(DataColumnSpec::new("template", "Template"));
    cols.push(DataColumnSpec::new("strategy", "Strategy"));
    cols.push(DataColumnSpec::new("phase", "Phase"));
    cols.push(DataColumnSpec::new("best", "Best experiment"));
    cols.push(DataColumnSpec::new("objective", "Best objective"));
    cols.push(DataColumnSpec::new("metric", "Metric").hidden());
    cols.push(DataColumnSpec::new("succeeded", "OK"));
    cols.push(DataColumnSpec::new("failed", "Failed"));
    cols.push(DataColumnSpec::new("running", "Running").hidden());
    cols.push(DataColumnSpec::new("created", "Created"));
    assert(cols@ =~= campaign_column_list());
    cols
}

/// The cells of a campaign row.
pub open spec fn campaign_cell_list<E>(c: ResourceSummary, name_cell: E, label: Seq<char>) -> Seq<
    CellView<E>,
> {
    seq![
        CellView::Custom(name_cell, label + " "@ + c.name@, label + " "@ + c.name@),
        text_cell(c.drive),
        text_cell(c.template),
        text_cell(c.strategy),
        CellView::Styled(c.phase@, "phase"@),
        text_cell(c.best_experiment),
        objective_cell(c),
        text_cell(c.objective),
        count_cell(c.succeeded),
        count_cell(c.failed),
        count_cell(c.running),
        date_cell(c.created_at),
    ]
}

/// One campaign row; `name_cell` renders the (clickable) display name,
/// sorted and searched by both `label` and the full CR name.
pub fn campaign_row<E>(c: &ResourceSummary, name_cell: E, label: &str) -> (r: DataRow<E>)
    ensures
        r.key@ == c.name@,
        r.drawn() == campaign_cell_list(*c, name_cell, label@),
        !r.selected,
{
    let (ok, ok_text) = count(c.succeeded);
    let (bad, bad_text) = count(c.failed);
    let (run, run_text) = count(c.running);
    let mut both = label.to_owned();
    both.append(" ");
    both.append(c.name.as_str());
    let r = DataRow::new(c.name.as_str()).cell(name_cell, both.as_str(), both.as_str()).opt_text(
        &c.drive,
    ).opt_text(&c.template).opt_text(&c.strategy).text_class(c.phase.as_str(), "phase").opt_text(
        &c.best_experiment,
    ).num(
        Amount::Measured(copy_real(&c.objective_value)),
        fmt_objective(&c.objective_value, &c.objective_goal),
    ).opt_text(&c.objective).num(ok, ok_text).num(bad, bad_text).num(run, run_text).date(
        &c.created_at,
    );
    assert(r.drawn() =~= campaign_cell_list(*c, name_cell, label@));
    r
}

/// Every row has one cell for each declared column.
pub proof fn row_cells_match_declared_columns<E>(
    e: ResourceSummary,
    name_cell: E,
    with_campaign: bool,
    label: Seq<char>,
)
    ensures
        experiment_cell_list(e, name_cell, with_campaign).len() == experiment_column_list(
            with_campaign,
        ).len(),
        campaign_cell_list(e, name_cell, label).len() == campaign_column_list().len(),
{
}

// ---------------------------------------------------------------------------
// What the tables say
// ---------------------------------------------------------------------------

/// A span of minutes reads as its minutes and the seconds beyond them, one of hours as its hours
/// and the minutes beyond them, and a short one in seconds; no time reads as a dash.
pub proof fn a_duration_reads_by_its_two_largest_units(h: int, m: int, s: int, secs: i64)
    requires
        0 <= m < 60,
        0 <= s < 60,
        0 <= h,
        secs == 3600 * h + 60 * m + s,
    ensures
        h > 0 ==> duration_text(Some(secs)) == signed(h) + seq!['h', ' '] + padded(m, 2) + seq!['m'],
        h == 0 && m > 0 ==> duration_text(Some(secs)) == signed(m) + seq!['m', ' '] + padded(s, 2)
            + seq!['s'],
        h == 0 && m == 0 ==> duration_text(Some(secs)) == signed(s) + seq!['s'],
        duration_text(None) == seq!['\u{2014}'],
{
    reveal_strlit("—");
    reveal_strlit("h ");
    reveal_strlit("m ");
    reveal_strlit("m");
    reveal_strlit("s");
    assert("—"@ =~= seq!['\u{2014}']);
    assert("h "@ =~= seq!['h', ' ']);
    assert("m "@ =~= seq!['m', ' ']);
    assert("m"@ =~= seq!['m']);
    assert("s"@ =~= seq!['s']);
}

/// An objective reads with an arrow up exactly where more is better and down exactly where less
/// is, with no arrow where the goal is neither, and as a dash where there is no value; a value of
/// a thousand and more has one digit behind the point, any other four.
pub proof fn an_objective_points_where_it_should_go(v: Real, goal: Option<String>)
    ensures
        ({
            let digits = if v.reaches_thousand() {
                v.fixed1@
            } else {
                v.fixed4@
            };
            let t = objective_text(Some(v), goal);
            &&& digits.is_prefix_of(t)
            &&& t == digits + seq![' ', '\u{2191}'] <==> (goal matches Some(g) && g@ == seq![
                'm',
                'a',
                'x',
                'i',
                'm',
                'i',
                'z',
                'e',
            ])
            &&& t == digits + seq![' ', '\u{2193}'] <==> (goal matches Some(g) && g@ == seq![
                'm',
                'i',
                'n',
                'i',
                'm',
                'i',
                'z',
                'e',
            ])
            &&& goal is None ==> t == digits
        }),
        objective_text(None, goal) == seq!['\u{2014}'],
{
    reveal_strlit("—");
    reveal_strlit(" ↑");
    reveal_strlit(" ↓");
    reveal_strlit("");
    reveal_strlit("maximize");
    reveal_strlit("minimize");
    assert("—"@ =~= seq!['\u{2014}']);
    assert(" ↑"@ =~= seq![' ', '\u{2191}']);
    assert(" ↓"@ =~= seq![' ', '\u{2193}']);
    assert("maximize"@ =~= seq!['m', 'a', 'x', 'i', 'm', 'i', 'z', 'e']);
    assert("minimize"@ =~= seq!['m', 'i', 'n', 'i', 'm', 'i', 'z', 'e']);
    assert("maximize"@[1] != "minimize"@[1]);
    let digits = if v.reaches_thousand() {
        v.fixed1@
    } else {
        v.fixed4@
    };
    let t = objective_text(Some(v), goal);
    let n = digits.len() as int;
    assert(t.take(n) =~= digits);
    let up = digits + seq![' ', '\u{2191}'];
    let down = digits + seq![' ', '\u{2193}'];
    assert(up[n + 1] != down[n + 1]);
    assert(digits + ""@ =~= digits);
    assert(digits.len() != up.len());
}

/// Under each column of the campaigns stands what the column names.
pub proof fn a_campaign_row_goes_by_its_columns<E>(c: ResourceSummary, name_cell: E, label: Seq<char>, i: int)
    requires
        0 <= i < campaign_column_list().len(),
    ensures
        campaign_cell_list(c, name_cell, label).len() == campaign_column_list().len(),
        campaign_column_list()[i].id@ == "name"@ ==> campaign_cell_list(c, name_cell, label)[i] == CellView::<E>::Custom(name_cell, label + " "@ + c.name@, label + " "@ + c.name@),
        campaign_column_list()[i].id@ == "drive"@ ==> campaign_cell_list(c, name_cell, label)[i] == (match c.drive {
            Some(v) => CellView::<E>::Text(v@),
            None => CellView::<E>::Dash,
        }),
        campaign_column_list()[i].id@ == "template"@ ==> campaign_cell_list(c, name_cell, label)[i] == (match c.template {
            Some(v) => CellView::<E>::Text(v@),
            None => CellView::<E>::Dash,
        }),
        campaign_column_list()[i].id@ == "strategy"@ ==> campaign_cell_list(c, name_cell, label)[i] == (match c.strategy {
            Some(v) => CellView::<E>::Text(v@),
            None => CellView::<E>::Dash,
        }),
        campaign_column_list()[i].id@ == "phase"@ ==> campaign_cell_list(c, name_cell, label)[i] == CellView::<E>::Styled(c.phase@, "phase"@),
        campaign_column_list()[i].id@ == "best"@ ==> campaign_cell_list(c, name_cell, label)[i] == (match c.best_experiment {
            Some(v) => CellView::<E>::Text(v@),
            None => CellView::<E>::Dash,
        }),
        campaign_column_list()[i].id@ == "objective"@ ==> campaign_cell_list(c, name_cell, label)[i] == CellView::<E>::Number(
            Amount::Measured(c.objective_value),
            objective_text(c.objective_value, c.objective_goal),
        ),
        campaign_column_list()[i].id@ == "metric"@ ==> campaign_cell_list(c, name_cell, label)[i] == (match c.objective {
            Some(v) => CellView::<E>::Text(v@),
            None => CellView::<E>::Dash,
        }),
        campaign_column_list()[i].id@ == "succeeded"@ ==> campaign_cell_list(c, name_cell, label)[i] == CellView::<E>::Number(
            Amount::Whole(
                match c.succeeded {
                    Some(n) => Some(n as i64),
                    None => None,
                },
            ),
            match c.succeeded {
                Some(n) => decimal(n as nat),
                None => seq!['\u{2014}'],
            },
        ),
        campaign_column_list()[i].id@ == "failed"@ ==> campaign_cell_list(c, name_cell, label)[i] == CellView::<E>::Number(
            Amount::Whole(
                match c.failed {
                    Some(n) => Some(n as i64),
                    None => None,
                },
            ),
            match c.failed {
                Some(n) => decimal(n as nat),
                None => seq!['\u{2014}'],
            },
        ),
        campaign_column_list()[i].id@ == "running"@ ==> campaign_cell_list(c, name_cell, label)[i] == CellView::<E>::Number(
            Amount::Whole(
                match c.running {
                    Some(n) => Some(n as i64),
                    None => None,
                },
            ),
            match c.running {
                Some(n) => decimal(n as nat),
                None => seq!['\u{2014}'],
            },
        ),
        campaign_column_list()[i].id@ == "created"@ ==> campaign_cell_list(c, name_cell, label)[i] == CellView::<E>::Date(ms_text(c.created_at), c.created_at.deep_view()),
{
    lemma_a_campaign_row_goes_by_its_columns();
    let cols = campaign_column_list();
    let cells = campaign_cell_list(c, name_cell, label);
    assert(cells.len() == cols.len());
    reveal_strlit("—");
    assert("—"@ =~= seq!['\u{2014}']);
}

proof fn lemma_a_campaign_row_goes_by_its_columns()
    ensures
        "name"@ != "drive"@,
        "name"@ != "template"@,
        "name"@ != "strategy"@,
        "name"@ != "phase"@,
        "name"@ != "best"@,
        "name"@ != "objective"@,
        "name"@ != "metric"@,
        "name"@ != "succeeded"@,
        "name"@ != "failed"@,
        "name"@ != "running"@,
        "name"@ != "created"@,
        "drive"@ != "template"@,
        "drive"@ != "strategy"@,
        "drive"@ != "phase"@,
        "drive"@ != "best"@,
        "drive"@ != "objective"@,
        "drive"@ != "metric"@,
        "drive"@ != "succeeded"@,
        "drive"@ != "failed"@,
        "drive"@ != "running"@,
        "drive"@ != "created"@,
        "template"@ != "strategy"@,
        "template"@ != "phase"@,
        "template"@ != "best"@,
        "template"@ != "objective"@,
        "template"@ != "metric"@,
        "template"@ != "succeeded"@,
        "template"@ != "failed"@,
        "template"@ != "running"@,
        "template"@ != "created"@,
        "strategy"@ != "phase"@,
        "strategy"@ != "best"@,
        "strategy"@ != "objective"@,
        "strategy"@ != "metric"@,
        "strategy"@ != "succeeded"@,
        "strategy"@ != "failed"@,
        "strategy"@ != "running"@,
        "strategy"@ != "created"@,
        "phase"@ != "best"@,
        "phase"@ != "objective"@,
        "phase"@ != "metric"@,
        "phase"@ != "succeeded"@,
        "phase"@ != "failed"@,
        "phase"@ != "running"@,
        "phase"@ != "created"@,
        "best"@ != "objective"@,
        "best"@ != "metric"@,
        "best"@ != "succeeded"@,
        "best"@ != "failed"@,
        "best"@ != "running"@,
        "best"@ != "created"@,
        "objective"@ != "metric"@,
        "objective"@ != "succeeded"@,
        "objective"@ != "failed"@,
        "objective"@ != "running"@,
        "objective"@ != "created"@,
        "metric"@ != "succeeded"@,
        "metric"@ != "failed"@,
        "metric"@ != "running"@,
        "metric"@ != "created"@,
        "succeeded"@ != "failed"@,
        "succeeded"@ != "running"@,
        "succeeded"@ != "created"@,
        "failed"@ != "running"@,
        "failed"@ != "created"@,
        "running"@ != "created"@,
{
    reveal_strlit("name");
    reveal_strlit("drive");
    reveal_strlit("template");
    reveal_strlit("strategy");
    reveal_strlit("phase");
    reveal_strlit("best");
    reveal_strlit("objective");
    reveal_strlit("metric");
    reveal_strlit("succeeded");
    reveal_strlit("failed");
    reveal_strlit("running");
    reveal_strlit("created");
    assert("name"@.len() != "drive"@.len());
    assert("name"@.len() != "template"@.len());
    assert("name"@.len() != "strategy"@.len());
    assert("name"@.len() != "phase"@.len());
    assert("name"@[0] != "best"@[0]);
    assert("name"@.len() != "objective"@.len());
    assert("name"@.len() != "metric"@.len());
    assert("name"@.len() != "succeeded"@.len());
    assert("name"@.len() != "failed"@.len());
    assert("name"@.len() != "running"@.len());
    assert("name"@.len() != "created"@.len());
    assert("drive"@.len() != "template"@.len());
    assert("drive"@.len() != "strategy"@.len());
    assert("drive"@[0] != "phase"@[0]);
    assert("drive"@.len() != "best"@.len());
    assert("drive"@.len() != "objective"@.len());
    assert("drive"@.len() != "metric"@.len());
    assert("drive"@.len() != "succeeded"@.len());
    assert("drive"@.len() != "failed"@.len());
    assert("drive"@.len() != "running"@.len());
    assert("drive"@.len() != "created"@.len());
    assert("template"@[0] != "strategy"@[0]);
    assert("template"@.len() != "phase"@.len());
    assert("template"@.len() != "best"@.len());
    assert("template"@.len() != "objective"@.len());
    assert("template"@.len() != "metric"@.len());
    assert("template"@.len() != "succeeded"@.len());
    assert("template"@.len() != "failed"@.len());
    assert("template"@.len() != "running"@.len());
    assert("template"@.len() != "created"@.len());
    assert("strategy"@.len() != "phase"@.len());
    assert("strategy"@.len() != "best"@.len());
    assert("strategy"@.len() != "objective"@.len());
    assert("strategy"@.len() != "metric"@.len());
    assert("strategy"@.len() != "succeeded"@.len());
    assert("strategy"@.len() != "failed"@.len());
    assert("strategy"@.len() != "running"@.len());
    assert("strategy"@.len() != "created"@.len());
    assert("phase"@.len() != "best"@.len());
    assert("phase"@.len() != "objective"@.len());
    assert("phase"@.len() != "metric"@.len());
    assert("phase"@.len() != "succeeded"@.len());
    assert("phase"@.len() != "failed"@.len());
    assert("phase"@.len() != "running"@.len());
    assert("phase"@.len() != "created"@.len());
    assert("best"@.len() != "objective"@.len());
    assert("best"@.len() != "metric"@.len());
    assert("best"@.len() != "succeeded"@.len());
    assert("best"@.len() != "failed"@.len());
    assert("best"@.len() != "running"@.len());
    assert("best"@.len() != "created"@.len());
    assert("objective"@.len() != "metric"@.len());
    assert("objective"@[0] != "succeeded"@[0]);
    assert("objective"@.len() != "failed"@.len());
    assert("objective"@.len() != "running"@.len());
    assert("objective"@.len() != "created"@.len());
    assert("metric"@.len() != "succeeded"@.len());
    assert("metric"@[0] != "failed"@[0]);
    assert("metric"@.len() != "running"@.len());
    assert("metric"@.len() != "created"@.len());
    assert("succeeded"@.len() != "failed"@.len());
    assert("succeeded"@.len() != "running"@.len());
    assert("succeeded"@.len() != "created"@.len());
    assert("failed"@.len() != "running"@.len());
    assert("failed"@.len() != "created"@.len());
    assert("running"@[0] != "created"@[0]);
}

/// Under each column of the experiments stands what the column names.
pub proof fn an_experiment_row_goes_by_its_columns<E>(e: ResourceSummary, name_cell: E, with_campaign: bool, i: int)
    requires
        0 <= i < experiment_column_list(with_campaign).len(),
    ensures
        experiment_cell_list(e, name_cell, with_campaign).len() == experiment_column_list(with_campaign).len(),
        experiment_column_list(with_campaign)[i].id@ == "name"@ ==> experiment_cell_list(e, name_cell, with_campaign)[i] == CellView::<E>::Custom(name_cell, e.name@, e.name@),
        experiment_column_list(with_campaign)[i].id@ == "campaign"@ ==> experiment_cell_list(e, name_cell, with_campaign)[i] == (match e.campaign {
            Some(v) => CellView::<E>::Text(v@),
            None => CellView::<E>::Dash,
        }),
        experiment_column_list(with_campaign)[i].id@ == "template"@ ==> experiment_cell_list(e, name_cell, with_campaign)[i] == (match e.template {
            Some(v) => CellView::<E>::Text(v@),
            None => CellView::<E>::Dash,
        }),
        experiment_column_list(with_campaign)[i].id@ == "phase"@ ==> experiment_cell_list(e, name_cell, with_campaign)[i] == CellView::<E>::Styled(e.phase@, "phase"@),
        experiment_column_list(with_campaign)[i].id@ == "decision"@ ==> experiment_cell_list(e, name_cell, with_campaign)[i] == (match e.decision {
            Some(v) => CellView::<E>::Text(v@),
            None => CellView::<E>::Dash,
        }),
        experiment_column_list(with_campaign)[i].id@ == "objective"@ ==> experiment_cell_list(e, name_cell, with_campaign)[i] == CellView::<E>::Number(
            Amount::Measured(e.objective_value),
            objective_text(e.objective_value, e.objective_goal),
        ),
        experiment_column_list(with_campaign)[i].id@ == "metric"@ ==> experiment_cell_list(e, name_cell, with_campaign)[i] == (match e.objective {
            Some(v) => CellView::<E>::Text(v@),
            None => CellView::<E>::Dash,
        }),
        experiment_column_list(with_campaign)[i].id@ == "parent"@ ==> experiment_cell_list(e, name_cell, with_campaign)[i] == (match e.parent {
            Some(v) => CellView::<E>::Text(v@),
            None => CellView::<E>::Dash,
        }),
        experiment_column_list(with_campaign)[i].id@ == "gen"@ ==> experiment_cell_list(e, name_cell, with_campaign)[i] == CellView::<E>::Number(
            Amount::Whole(
                match e.generation {
                    Some(n) => Some(n as i64),
                    None => None,
                },
            ),
            match e.generation {
                Some(n) => decimal(n as nat),
                None => seq!['\u{2014}'],
            },
        ),
        experiment_column_list(with_campaign)[i].id@ == "runtime"@ ==> experiment_cell_list(e, name_cell, with_campaign)[i] == CellView::<E>::Number(Amount::Whole(e.runtime_seconds), duration_text(e.runtime_seconds)),
        experiment_column_list(with_campaign)[i].id@ == "gpu_hours"@ ==> experiment_cell_list(e, name_cell, with_campaign)[i] == CellView::<E>::Number(
            Amount::Measured(e.gpu_hours),
            match e.gpu_hours {
                Some(h) => h.fixed2@,
                None => seq!['\u{2014}'],
            },
        ),
        experiment_column_list(with_campaign)[i].id@ == "created"@ ==> experiment_cell_list(e, name_cell, with_campaign)[i] == CellView::<E>::Date(ms_text(e.created_at), e.created_at.deep_view()),
        experiment_column_list(with_campaign)[i].id@ == "hypothesis"@ ==> experiment_cell_list(e, name_cell, with_campaign)[i] == CellView::<E>::Styled(
            match e.hypothesis {
                Some(v) => v@,
                None => Seq::empty(),
            },
            "muted"@,
        ),
        experiment_column_list(with_campaign)[i].id@ == "workspace"@ ==> experiment_cell_list(e, name_cell, with_campaign)[i] == CellView::<E>::Styled(
            match e.workspace_path {
                Some(v) => v@,
                None => Seq::empty(),
            },
            "muted"@,
        ),
{
    lemma_an_experiment_row_goes_by_its_columns();
    let cols = experiment_column_list(with_campaign);
    let cells = experiment_cell_list(e, name_cell, with_campaign);
    assert(cells.len() == cols.len());
    reveal_strlit("—");
    assert("—"@ =~= seq!['\u{2014}']);
}

proof fn lemma_an_experiment_row_goes_by_its_columns()
    ensures
        "name"@ != "campaign"@,
        "name"@ != "template"@,
        "name"@ != "phase"@,
        "name"@ != "decision"@,
        "name"@ != "objective"@,
        "name"@ != "metric"@,
        "name"@ != "parent"@,
        "name"@ != "gen"@,
        "name"@ != "runtime"@,
        "name"@ != "gpu_hours"@,
        "name"@ != "created"@,
        "name"@ != "hypothesis"@,
        "name"@ != "workspace"@,
        "campaign"@ != "template"@,
        "campaign"@ != "phase"@,
        "campaign"@ != "decision"@,
        "campaign"@ != "objective"@,
        "campaign"@ != "metric"@,
        "campaign"@ != "parent"@,
        "campaign"@ != "gen"@,
        "campaign"@ != "runtime"@,
        "campaign"@ != "gpu_hours"@,
        "campaign"@ != "created"@,
        "campaign"@ != "hypothesis"@,
        "campaign"@ != "workspace"@,
        "template"@ != "phase"@,
        "template"@ != "decision"@,
        "template"@ != "objective"@,
        "template"@ != "metric"@,
        "template"@ != "parent"@,
        "template"@ != "gen"@,
        "template"@ != "runtime"@,
        "template"@ != "gpu_hours"@,
        "template"@ != "created"@,
        "template"@ != "hypothesis"@,
        "template"@ != "workspace"@,
        "phase"@ != "decision"@,
        "phase"@ != "objective"@,
        "phase"@ != "metric"@,
        "phase"@ != "parent"@,
        "phase"@ != "gen"@,
        "phase"@ != "runtime"@,
        "phase"@ != "gpu_hours"@,
        "phase"@ != "created"@,
        "phase"@ != "hypothesis"@,
        "phase"@ != "workspace"@,
        "decision"@ != "objective"@,
        "decision"@ != "metric"@,
        "decision"@ != "parent"@,
        "decision"@ != "gen"@,
        "decision"@ != "runtime"@,
        "decision"@ != "gpu_hours"@,
        "decision"@ != "created"@,
        "decision"@ != "hypothesis"@,
        "decision"@ != "workspace"@,
        "objective"@ != "metric"@,
        "objective"@ != "parent"@,
        "objective"@ != "gen"@,
        "objective"@ != "runtime"@,
        "objective"@ != "gpu_hours"@,
        "objective"@ != "created"@,
        "objective"@ != "hypothesis"@,
        "objective"@ != "workspace"@,
        "metric"@ != "parent"@,
        "metric"@ != "gen"@,
        "metric"@ != "runtime"@,
        "metric"@ != "gpu_hours"@,
        "metric"@ != "created"@,
        "metric"@ != "hypothesis"@,
        "metric"@ != "workspace"@,
        "parent"@ != "gen"@,
        "parent"@ != "runtime"@,
        "parent"@ != "gpu_hours"@,
        "parent"@ != "created"@,
        "parent"@ != "hypothesis"@,
        "parent"@ != "workspace"@,
        "gen"@ != "runtime"@,
        "gen"@ != "gpu_hours"@,
        "gen"@ != "created"@,
        "gen"@ != "hypothesis"@,
        "gen"@ != "workspace"@,
        "runtime"@ != "gpu_hours"@,
        "runtime"@ != "created"@,
        "runtime"@ != "hypothesis"@,
        "runtime"@ != "workspace"@,
        "gpu_hours"@ != "created"@,
        "gpu_hours"@ != "hypothesis"@,
        "gpu_hours"@ != "workspace"@,
        "created"@ != "hypothesis"@,
        "created"@ != "workspace"@,
        "hypothesis"@ != "workspace"@,
{
    reveal_strlit("name");
    reveal_strlit("campaign");
    reveal_strlit("template");
    reveal_strlit("phase");
    reveal_strlit("decision");
    reveal_strlit("objective");
    reveal_strlit("metric");
    reveal_strlit("parent");
    reveal_strlit("gen");
    reveal_strlit("runtime");
    reveal_strlit("gpu_hours");
    reveal_strlit("created");
    reveal_strlit("hypothesis");
    reveal_strlit("workspace");
    assert("name"@.len() != "campaign"@.len());
    assert("name"@.len() != "template"@.len());
    assert("name"@.len() != "phase"@.len());
    assert("name"@.len() != "decision"@.len());
    assert("name"@.len() != "objective"@.len());
    assert("name"@.len() != "metric"@.len());
    assert("name"@.len() != "parent"@.len());
    assert("name"@.len() != "gen"@.len());
    assert("name"@.len() != "runtime"@.len());
    assert("name"@.len() != "gpu_hours"@.len());
    assert("name"@.len() != "created"@.len());
    assert("name"@.len() != "hypothesis"@.len());
    assert("name"@.len() != "workspace"@.len());
    assert("campaign"@[0] != "template"@[0]);
    assert("campaign"@.len() != "phase"@.len());
    assert("campaign"@[0] != "decision"@[0]);
    assert("campaign"@.len() != "objective"@.len());
    assert("campaign"@.len() != "metric"@.len());
    assert("campaign"@.len() != "parent"@.len());
    assert("campaign"@.len() != "gen"@.len());
    assert("campaign"@.len() != "runtime"@.len());
    assert("campaign"@.len() != "gpu_hours"@.len());
    assert("campaign"@.len() != "created"@.len());
    assert("campaign"@.len() != "hypothesis"@.len());
    assert("campaign"@.len() != "workspace"@.len());
    assert("template"@.len() != "phase"@.len());
    assert("template"@[0] != "decision"@[0]);
    assert("template"@.len() != "objective"@.len());
    assert("template"@.len() != "metric"@.len());
    assert("template"@.len() != "parent"@.len());
    assert("template"@.len() != "gen"@.len());
    assert("template"@.len() != "runtime"@.len());
    assert("template"@.len() != "gpu_hours"@.len());
    assert("template"@.len() != "created"@.len());
    assert("template"@.len() != "hypothesis"@.len());
    assert("template"@.len() != "workspace"@.len());
    assert("phase"@.len() != "decision"@.len());
    assert("phase"@.len() != "objective"@.len());
    assert("phase"@.len() != "metric"@.len());
    assert("phase"@.len() != "parent"@.len());
    assert("phase"@.len() != "gen"@.len());
    assert("phase"@.len() != "runtime"@.len());
    assert("phase"@.len() != "gpu_hours"@.len());
    assert("phase"@.len() != "created"@.len());
    assert("phase"@.len() != "hypothesis"@.len());
    assert("phase"@.len() != "workspace"@.len());
    assert("decision"@.len() != "objective"@.len());
    assert("decision"@.len() != "metric"@.len());
    assert("decision"@.len() != "parent"@.len());
    assert("decision"@.len() != "gen"@.len());
    assert("decision"@.len() != "runtime"@.len());
    assert("decision"@.len() != "gpu_hours"@.len());
    assert("decision"@.len() != "created"@.len());
    assert("decision"@.len() != "hypothesis"@.len());
    assert("decision"@.len() != "workspace"@.len());
    assert("objective"@.len() != "metric"@.len());
    assert("objective"@.len() != "parent"@.len());
    assert("objective"@.len() != "gen"@.len());
    assert("objective"@.len() != "runtime"@.len());
    assert("objective"@[0] != "gpu_hours"@[0]);
    assert("objective"@.len() != "created"@.len());
    assert("objective"@.len() != "hypothesis"@.len());
    assert("objective"@[0] != "workspace"@[0]);
    assert("metric"@[0] != "parent"@[0]);
    assert("metric"@.len() != "gen"@.len());
    assert("metric"@.len() != "runtime"@.len());
    assert("metric"@.len() != "gpu_hours"@.len());
    assert("metric"@.len() != "created"@.len());
    assert("metric"@.len() != "hypothesis"@.len());
    assert("metric"@.len() != "workspace"@.len());
    assert("parent"@.len() != "gen"@.len());
    assert("parent"@.len() != "runtime"@.len());
    assert("parent"@.len() != "gpu_hours"@.len());
    assert("parent"@.len() != "created"@.len());
    assert("parent"@.len() != "hypothesis"@.len());
    assert("parent"@.len() != "workspace"@.len());
    assert("gen"@.len() != "runtime"@.len());
    assert("gen"@.len() != "gpu_hours"@.len());
    assert("gen"@.len() != "created"@.len());
    assert("gen"@.len() != "hypothesis"@.len());
    assert("gen"@.len() != "workspace"@.len());
    assert("runtime"@.len() != "gpu_hours"@.len());
    assert("runtime"@[0] != "created"@[0]);
    assert("runtime"@.len() != "hypothesis"@.len());
    assert("runtime"@.len() != "workspace"@.len());
    assert("gpu_hours"@.len() != "created"@.len());
    assert("gpu_hours"@.len() != "hypothesis"@.len());
    assert("gpu_hours"@[0] != "workspace"@[0]);
    assert("created"@.len() != "hypothesis"@.len());
    assert("created"@.len() != "workspace"@.len());
    assert("hypothesis"@.len() != "workspace"@.len());
}

/// What a reader rarely needs starts hidden: the metric, the GPU hours, the hypothesis and the
/// workspace of an experiment, the metric and the running ones of a campaign; only the name cannot
/// be hidden, and every column of data can be sorted by.
pub proof fn what_is_rarely_needed_starts_hidden(with_campaign: bool, i: int)
    ensures
        0 <= i < experiment_column_list(with_campaign).len() ==> {
            let c = experiment_column_list(with_campaign)[i];
            &&& c.hidden <==> c.id@ == "metric"@ || c.id@ == "gpu_hours"@ || c.id@ == "hypothesis"@
                || c.id@ == "workspace"@
            &&& c.pinned <==> c.id@ == "name"@
            &&& c.sortable
        },
        0 <= i < campaign_column_list().len() ==> {
            let c = campaign_column_list()[i];
            &&& c.hidden <==> c.id@ == "metric"@ || c.id@ == "running"@
            &&& c.pinned <==> c.id@ == "name"@
            &&& c.sortable
        },
{
    lemma_an_experiment_row_goes_by_its_columns();
    lemma_a_campaign_row_goes_by_its_columns();
}

/// The campaign of an experiment has a column exactly where the list is of several campaigns.
pub proof fn the_campaign_has_a_column_where_it_varies(i: int)
    ensures
        experiment_column_list(true).len() == experiment_column_list(false).len() + 1,
        experiment_column_list(true)[1].id@ == "campaign"@,
        0 <= i < experiment_column_list(false).len() ==> experiment_column_list(false)[i].id@
            != "campaign"@,
{
    lemma_an_experiment_row_goes_by_its_columns();
}

} // verus!

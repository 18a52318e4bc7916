//! The report form: compose a campaign's experiments into a research-paper dataset.

use vstd::prelude::*;
use crate::calendar::{fmt_ms, ms_text};
use crate::curator::{filled_lines, nonblank_lines, texts};
use crate::dossier::parts::{or_text, text_or};
use crate::json::Json;
use crate::models::{ClusterSnapshot, ReportSpecDto, ReportSummary, ResourceSummary};
use crate::numeral::{parse_i64, parsed};
use crate::order::{sorted, sorting_orders, stable_sort, Ordered};
use crate::tables::{
    column, date_cell, fixed_column, is_row, pinned_column, text_cell, CellView, DataColumnSpec,
    DataRow, RowExt, SortDir, Table,
};
use crate::text::{lines_of, trim, trimmed};
use crate::textmap::TextMap;
use crate::textset::TextSet;
use crate::web::labels::{campaign_label, label_of};
use crate::web::research::{members, members_name_the_campaign, members_of};

verus! {

broadcast use vstd::seq_lib::group_seq_properties;

// ---------------------------------------------------------------------------
// The campaign picker
// ---------------------------------------------------------------------------

/// When a campaign was created, and its place in the listing.
#[derive(Debug, Clone, Copy)]
pub struct Newest {
    pub created: i64,
    pub place: usize,
}

/// What is newer comes first.
impl Ordered for Newest {
    open spec fn before(self, other: Self) -> bool {
        self.created > other.created
    }

    proof fn asymmetric(a: Self, b: Self) {
    }

    proof fn split(a: Self, b: Self, c: Self) {
    }

    fn precedes(&self, other: &Self) -> (r: bool) {
        self.created > other.created
    }
}

/// When the campaign was created; what does not say so counts as oldest.
pub open spec fn created_of(c: ResourceSummary) -> i64 {
    match c.created_at {
        Some(s) => match parsed(s@) {
            Some(n) => n as i64,
            None => i64::MIN,
        },
        None => i64::MIN,
    }
}

/// The times of the campaigns, in order.
pub open spec fn creation_times(campaigns: Seq<ResourceSummary>) -> Seq<Newest> {
    Seq::new(
        campaigns.len(),
        |i: int| Newest { created: created_of(campaigns[i]), place: i as usize },
    )
}

/// One entry of the picker.
#[derive(Debug, Clone)]
pub struct PickerItem {
    pub value: String,
    pub label: String,
    pub group: String,
}

/// The entry stands for the campaign.
pub open spec fn is_item_of(c: ResourceSummary, i: PickerItem) -> bool {
    &&& i.value@ == c.name@
    &&& i.label@ == label_of(c) + " · "@ + ms_text(c.created_at)
    &&& i.group@ == text_or(c.drive, "standalone"@)
}

/// The entries of the campaigns, newest first; what was created at one time stays in order.
pub open spec fn are_items_of(campaigns: Seq<ResourceSummary>, items: Seq<PickerItem>) -> bool {
    let order = sorted(creation_times(campaigns));
    &&& items.len() == order.len()
    &&& forall|k: int|
        0 <= k < items.len() ==> is_item_of(
            campaigns[order[k].place as int],
            #[trigger] items[k],
        )
}

proof fn lemma_times(campaigns: Seq<ResourceSummary>)
    requires
        campaigns.len() <= usize::MAX,
    ensures
        sorted(creation_times(campaigns)).len() == campaigns.len(),
        forall|k: int|
            0 <= k < campaigns.len() ==> (#[trigger] sorted(creation_times(campaigns))[k]).place
                < campaigns.len(),
{
    broadcast use vstd::seq_lib::group_to_multiset_ensures;

    let times = creation_times(campaigns);
    let order = sorted(times);
    sorting_orders(times);
    assert(order.to_multiset().len() == times.to_multiset().len());
    assert forall|k: int| 0 <= k < order.len() implies (#[trigger] order[k]).place
        < campaigns.len() by {
        assert(order.contains(order[k]));
        assert(times.to_multiset().count(order[k]) > 0);
        assert(times.contains(order[k]));
        let i = times.index_of(order[k]);
        assert(times[i].place == i as usize);
    }
}

/// Searchable campaign picker, newest first, grouped by owning drive, each
/// label carrying its creation date.
pub fn campaign_picker(campaigns: &Vec<ResourceSummary>) -> (r: Vec<PickerItem>)
    ensures
        are_items_of(campaigns@, r@),
{
    let ghost all = creation_times(campaigns@);
    let mut times: Vec<Newest> = Vec::new();
    let mut i: usize = 0;
    while i < campaigns.len()
        invariant
            i <= campaigns.len(),
            all == creation_times(campaigns@),
            times@ == all.take(i as int),
        decreases campaigns.len() - i,
    {
        let created: i64 = match &campaigns[i].created_at {
            Some(s) => match parse_i64(s.as_str()) {
                Some(n) => n,
                None => i64::MIN,
            },
            None => i64::MIN,
        };
        times.push(Newest { created, place: i });
        assert(times@ =~= all.take(i + 1));
        i = i + 1;
    }
    assert(all.take(i as int) =~= all);
    let order = stable_sort(times);
    proof {
        lemma_times(campaigns@);
    }
    let mut out: Vec<PickerItem> = Vec::new();
    let mut k: usize = 0;
    while k < order.len()
        invariant
            k <= order.len(),
            order@ == sorted(creation_times(campaigns@)),
            order@.len() == campaigns@.len(),
            forall|j: int| 0 <= j < order@.len() ==> (#[trigger] order@[j]).place < campaigns@.len(),
            out@.len() == k,
            forall|j: int|
                0 <= j < k ==> is_item_of(
                    campaigns@[order@[j].place as int],
                    #[trigger] out@[j],
                ),
        decreases order.len() - k,
    {
        let c = &campaigns[order[k].place];
        let mut label = campaign_label(c);
        label.append(" · ");
        label.append(fmt_ms(&c.created_at).as_str());
        out.push(
            PickerItem {
                value: c.name.clone(),
                label,
                group: or_text(&c.drive, "standalone").to_owned(),
            },
        );
        k = k + 1;
    }
    out
}

/// The picker never lists a campaign in front of a newer one.
pub proof fn the_picker_is_newest_first(campaigns: Seq<ResourceSummary>, a: int, b: int)
    requires
        campaigns.len() <= usize::MAX,
        0 <= a < b < campaigns.len(),
    ensures
        ({
            let order = sorted(creation_times(campaigns));
            created_of(campaigns[order[a].place as int]) >= created_of(
                campaigns[order[b].place as int],
            )
        }),
{
    broadcast use vstd::seq_lib::group_to_multiset_ensures;

    let times = creation_times(campaigns);
    let order = sorted(times);
    sorting_orders(times);
    lemma_times(campaigns);
    assert(!order[b].before(order[a]));
    assert forall|k: int| 0 <= k < order.len() implies (#[trigger] order[k]).created
        == created_of(campaigns[order[k].place as int]) by {
        assert(order.contains(order[k]));
        assert(times.to_multiset().count(order[k]) > 0);
        assert(times.contains(order[k]));
        let i = times.index_of(order[k]);
        assert(times[i] == order[k]);
    }
}

// ---------------------------------------------------------------------------
// The form
// ---------------------------------------------------------------------------

/// What the form holds.
#[derive(Debug)]
pub struct ReportForm {
    pub campaign: Option<ResourceSummary>,
    pub name: String,
    pub title: String,
    pub excluded: TextSet,
    pub sec_abstract: String,
    pub sec_related_work: String,
    pub sec_discussion: String,
    pub sec_limitations: String,
    pub seeds_text: String,
    pub preview_doc: String,
    pub save_status: String,
}

/// The sections with a text, without the white space around it.
pub open spec fn form_sections(f: ReportForm) -> Map<Seq<char>, Seq<char>> {
    let m = Map::<Seq<char>, Seq<char>>::empty();
    let m = if trimmed(f.sec_abstract@).len() > 0 {
        m.insert("Abstract"@, trimmed(f.sec_abstract@))
    } else {
        m
    };
    let m = if trimmed(f.sec_related_work@).len() > 0 {
        m.insert("Related Work"@, trimmed(f.sec_related_work@))
    } else {
        m
    };
    let m = if trimmed(f.sec_discussion@).len() > 0 {
        m.insert("Discussion"@, trimmed(f.sec_discussion@))
    } else {
        m
    };
    if trimmed(f.sec_limitations@).len() > 0 {
        m.insert("Limitations"@, trimmed(f.sec_limitations@))
    } else {
        m
    }
}

/// The payload holds what the form holds.
pub open spec fn is_form_payload(f: ReportForm, campaign: ResourceSummary, r: ReportSpecDto) -> bool {
    &&& r.namespace@ == campaign.namespace@
    &&& r.name@ == trimmed(f.name@)
    &&& r.campaign_ref@ == campaign.name@
    &&& r.title.deep_view() == (if trimmed(f.title@).len() == 0 {
        None
    } else {
        Some(trimmed(f.title@))
    })
    &&& r.included_experiments@.len() == 0
    &&& r.excluded_experiments.deep_view() == f.excluded.elements()
    &&& texts(r.sections@) == form_sections(f)
    &&& r.seeded_hypotheses.deep_view() == filled_lines(lines_of(f.seeds_text@))
    &&& r.references is Null
    &&& r.about is Null
    &&& r.resource_version is None
}

fn add_section(m: &mut TextMap<String>, key: &str, text: &str)
    ensures
        texts(final(m)@) == if trimmed(text@).len() > 0 {
            texts(old(m)@).insert(key@, trimmed(text@))
        } else {
            texts(old(m)@)
        },
{
    let v = trim(text);
    if !v.as_str().is_empty() {
        let ghost before = m@;
        let ghost gv = v@;
        m.insert(key.to_owned(), v);
        assert(texts(m@) =~= texts(before).insert(key@, gv));
    }
}

/// Build a [`ReportSpecDto`] from the form. Shared by preview and save.
pub fn build_report_spec(campaign: &ResourceSummary, form: &ReportForm) -> (r: ReportSpecDto)
    ensures
        is_form_payload(*form, *campaign, r),
{
    let mut sections: TextMap<String> = TextMap::new();
    assert(texts(sections@) =~= Map::empty());
    add_section(&mut sections, "Abstract", form.sec_abstract.as_str());
    add_section(&mut sections, "Related Work", form.sec_related_work.as_str());
    add_section(&mut sections, "Discussion", form.sec_discussion.as_str());
    add_section(&mut sections, "Limitations", form.sec_limitations.as_str());
    let title = trim(form.title.as_str());
    ReportSpecDto {
        namespace: campaign.namespace.clone(),
        name: trim(form.name.as_str()),
        campaign_ref: campaign.name.clone(),
        title: if title.as_str().is_empty() {
            None
        } else {
            Some(title)
        },
        included_experiments: Vec::new(),
        excluded_experiments: form.excluded.to_vec(),
        sections,
        seeded_hypotheses: nonblank_lines(form.seeds_text.as_str()),
        references: Json::Null,
        about: Json::Null,
        resource_version: None,
    }
}

/// What the form lacks before it can be previewed or saved.
pub open spec fn lack_of(f: ReportForm) -> Option<Seq<char>> {
    if f.campaign is None {
        Some("Select a campaign first."@)
    } else if trimmed(f.name@).len() == 0 {
        Some("Enter a report name."@)
    } else {
        None
    }
}

/// The fields that only the user edits are the same.
pub open spec fn same_entries(a: ReportForm, b: ReportForm) -> bool {
    &&& a.sec_abstract == b.sec_abstract
    &&& a.sec_related_work == b.sec_related_work
    &&& a.sec_discussion == b.sec_discussion
    &&& a.sec_limitations == b.sec_limitations
    &&& a.seeds_text == b.seeds_text
}

/// Nothing is entered into the form, and nothing came of it.
pub open spec fn is_blank_form(f: ReportForm) -> bool {
    &&& f.campaign is None
    &&& f.name@.len() == 0
    &&& f.title@.len() == 0
    &&& f.excluded@ == Set::<Seq<char>>::empty()
    &&& f.sec_abstract@.len() == 0
    &&& f.sec_related_work@.len() == 0
    &&& f.sec_discussion@.len() == 0
    &&& f.sec_limitations@.len() == 0
    &&& f.seeds_text@.len() == 0
    &&& f.preview_doc@.len() == 0
    &&& f.save_status@.len() == 0
}

impl Default for ReportForm {
    fn default() -> (r: Self)
        ensures
            is_blank_form(r),
    {
        ReportForm {
            campaign: None,
            name: String::new(),
            title: String::new(),
            excluded: TextSet::new(),
            sec_abstract: String::new(),
            sec_related_work: String::new(),
            sec_discussion: String::new(),
            sec_limitations: String::new(),
            seeds_text: String::new(),
            preview_doc: String::new(),
            save_status: String::new(),
        }
    }
}

impl ReportForm {
    /// The payload, or what the form lacks.
    pub fn request(&self) -> (r: Result<ReportSpecDto, String>)
        ensures
            match r {
                Ok(dto) => lack_of(*self) is None && is_form_payload(*self, self.campaign->0, dto),
                Err(e) => lack_of(*self) == Some(e@),
            },
    {
        match &self.campaign {
            None => Err("Select a campaign first.".to_owned()),
            Some(c) => if trim(self.name.as_str()).as_str().is_empty() {
                Err("Enter a report name.".to_owned())
            } else {
                Ok(build_report_spec(c, self))
            },
        }
    }

    /// Work on the picked campaign; what was excluded belonged to the one before.
    pub fn pick(&mut self, found: Option<ResourceSummary>)
        ensures
            final(self).campaign == found,
            final(self).excluded@ == Set::<Seq<char>>::empty(),
            final(self).name == old(self).name,
            final(self).title == old(self).title,
            same_entries(*final(self), *old(self)),
            final(self).preview_doc == old(self).preview_doc,
            final(self).save_status == old(self).save_status,
    {
        self.campaign = found;
        self.excluded = TextSet::new();
    }

    /// Exclude the experiment, or include it again.
    pub fn toggle(&mut self, name: &str)
        ensures
            final(self).excluded@ == (if old(self).excluded@.contains(name@) {
                old(self).excluded@.remove(name@)
            } else {
                old(self).excluded@.insert(name@)
            }),
            final(self).campaign == old(self).campaign,
            final(self).name == old(self).name,
            final(self).title == old(self).title,
            same_entries(*final(self), *old(self)),
            final(self).preview_doc == old(self).preview_doc,
            final(self).save_status == old(self).save_status,
    {
        let mut set = self.excluded.clone();
        if !set.remove(name) {
            set.insert(name.to_owned());
        }
        self.excluded = set;
    }

    /// Open a published report: its name and its title, and its campaign where the snapshot
    /// has it.
    pub fn load(&mut self, report: &ReportSummary, campaign: Option<ResourceSummary>)
        ensures
            final(self).campaign == (if campaign is Some {
                campaign
            } else {
                old(self).campaign
            }),
            final(self).name@ == report.name@,
            final(self).title@ == report.title@,
            final(self).excluded == old(self).excluded,
            same_entries(*final(self), *old(self)),
            final(self).preview_doc == old(self).preview_doc,
            final(self).save_status == old(self).save_status,
    {
        if campaign.is_some() {
            self.campaign = campaign;
        }
        self.name = report.name.clone();
        self.title = report.title.clone();
    }

    /// Ask for a preview; where something is lacking, say so instead.
    pub fn preview(&mut self) -> (r: Option<ReportSpecDto>)
        ensures
            match lack_of(*old(self)) {
                Some(e) => r is None && final(self).preview_doc@ == e,
                None => (r matches Some(dto) && is_form_payload(
                    *old(self),
                    old(self).campaign->0,
                    dto,
                )) && final(self).preview_doc == old(self).preview_doc,
            },
            final(self).campaign == old(self).campaign,
            final(self).name == old(self).name,
            final(self).title == old(self).title,
            final(self).excluded == old(self).excluded,
            same_entries(*final(self), *old(self)),
            final(self).save_status == old(self).save_status,
    {
        match self.request() {
            Ok(dto) => Some(dto),
            Err(e) => {
                self.preview_doc = e;
                None
            },
        }
    }

    /// Show the composed dossier, or why there is none.
    pub fn previewed(&mut self, result: Result<String, String>)
        ensures
            final(self).preview_doc@ == (match result {
                Ok(md) => md@,
                Err(e) => "Preview error: "@ + e@,
            }),
            final(self).campaign == old(self).campaign,
            final(self).name == old(self).name,
            final(self).title == old(self).title,
            final(self).excluded == old(self).excluded,
            same_entries(*final(self), *old(self)),
            final(self).save_status == old(self).save_status,
    {
        self.preview_doc = match result {
            Ok(md) => md,
            Err(e) => {
                let mut s = "Preview error: ".to_owned();
                s.append(e.as_str());
                s
            },
        };
    }

    /// Ask for a save; where something is lacking, say so instead.
    pub fn save(&mut self) -> (r: Option<ReportSpecDto>)
        ensures
            match lack_of(*old(self)) {
                Some(e) => r is None && final(self).save_status@ == e,
                None => (r matches Some(dto) && is_form_payload(
                    *old(self),
                    old(self).campaign->0,
                    dto,
                )) && final(self).save_status == old(self).save_status,
            },
            final(self).campaign == old(self).campaign,
            final(self).name == old(self).name,
            final(self).title == old(self).title,
            final(self).excluded == old(self).excluded,
            same_entries(*final(self), *old(self)),
            final(self).preview_doc == old(self).preview_doc,
    {
        match self.request() {
            Ok(dto) => Some(dto),
            Err(e) => {
                self.save_status = e;
                None
            },
        }
    }

    /// Say that the report was saved, or why it was not.
    pub fn saved(&mut self, result: Result<ReportSummary, String>)
        ensures
            final(self).save_status@ == (match result {
                Ok(s) => "Saved: "@ + s.name@ + " ("@ + s.phase@ + ")"@,
                Err(e) => "Save error: "@ + e@,
            }),
            final(self).campaign == old(self).campaign,
            final(self).name == old(self).name,
            final(self).title == old(self).title,
            final(self).excluded == old(self).excluded,
            same_entries(*final(self), *old(self)),
            final(self).preview_doc == old(self).preview_doc,
    {
        self.save_status = match result {
            Ok(s) => {
                let mut t = "Saved: ".to_owned();
                t.append(s.name.as_str());
                t.append(" (");
                t.append(s.phase.as_str());
                t.append(")");
                t
            },
            Err(e) => {
                let mut t = "Save error: ".to_owned();
                t.append(e.as_str());
                t
            },
        };
    }
}

// ---------------------------------------------------------------------------
// The page
// ---------------------------------------------------------------------------

/// The cells of an experiment row of the form.
pub open spec fn form_cells(e: ResourceSummary, i: usize) -> Seq<CellView<usize>> {
    seq![
        CellView::Action(i),
        CellView::Text(e.name@),
        CellView::Styled(e.phase@, "phase"@),
        text_cell(e.decision),
        date_cell(e.created_at),
        CellView::Styled(e.detail@, "muted"@),
    ]
}

/// The columns of the form's experiment table.
pub open spec fn form_columns() -> Seq<DataColumnSpec> {
    seq![
        fixed_column("include", "Include"),
        pinned_column("name", "Experiment"),
        column("phase", "Phase"),
        column("decision", "Decision"),
        column("created", "Created"),
        column("detail", "Detail"),
    ]
}

/// The experiments of the campaign, one row each, with whether they are included.
#[derive(Debug, Clone)]
pub struct FormTable {
    pub table: Table,
    pub included: Vec<bool>,
}

/// The experiments at the places, one row each; those that are not excluded are included.
pub open spec fn form_rows(
    exps: Seq<ResourceSummary>,
    places: Seq<int>,
    excluded: Set<Seq<char>>,
    rows: Seq<DataRow<usize>>,
    included: Seq<bool>,
) -> bool {
    &&& rows.len() == places.len()
    &&& included.len() == places.len()
    &&& forall|k: int|
        0 <= k < places.len() ==> is_row(
            #[trigger] rows[k],
            exps[places[k]].name@,
            form_cells(exps[places[k]], places[k] as usize),
            false,
        )
    &&& forall|k: int|
        0 <= k < places.len() ==> #[trigger] included[k] == !excluded.contains(
            exps[places[k]].name@,
        )
}

/// The report form.
#[derive(Debug, Clone)]
pub struct FormPage {
    pub title: &'static str,
    pub note: &'static str,
    pub campaigns: Vec<PickerItem>,
    /// The name of the picked campaign, or nothing.
    pub picked: String,
    /// Missing where no campaign is picked: the form asks for one.
    pub experiments: Option<FormTable>,
}

/// The name of the picked campaign, or nothing.
pub open spec fn picked_name(f: ReportForm) -> Seq<char> {
    match f.campaign {
        Some(c) => c.name@,
        None => Seq::empty(),
    }
}

/// The page shows the form.
pub open spec fn is_form_page(snap: ClusterSnapshot, f: ReportForm, p: FormPage) -> bool {
    &&& p.title@ == "Report Curator"@
    &&& p.note@
        == "Compose a campaign's experiments into a research-paper dataset (ResearchReport)."@
    &&& are_items_of(snap.campaigns@, p.campaigns@)
    &&& p.picked@ == picked_name(f)
    &&& p.experiments is None <==> picked_name(f).len() == 0
    &&& p.experiments matches Some(t) ==> {
        &&& t.table.is_set_up(
            form_columns(),
            Some(("created", SortDir::Desc)),
            Some("athena.table.curator"@),
            Some("No experiments in this campaign."),
            Some("filter experiments…"),
        )
        &&& form_rows(
            snap.experiments@,
            members(snap.experiments@, picked_name(f)),
            f.excluded@,
            t.table.rows@,
            t.included@,
        )
    }
}

fn form_table(exps: &Vec<ResourceSummary>, campaign: &str, excluded: &TextSet) -> (r: FormTable)
    ensures
        r.table.is_set_up(
            form_columns(),
            Some(("created", SortDir::Desc)),
            Some("athena.table.curator"@),
            Some("No experiments in this campaign."),
            Some("filter experiments…"),
        ),
        form_rows(
            exps@,
            members(exps@, campaign@),
            excluded@,
            r.table.rows@,
            r.included@,
        ),
{
    let places = members_of(exps, campaign);
    let ghost m = members(exps@, campaign@);
    proof {
        members_name_the_campaign(exps@, campaign@);
    }
    let mut rows: Vec<DataRow<usize>> = Vec::new();
    let mut included: Vec<bool> = Vec::new();
    let mut k: usize = 0;
    while k < places.len()
        invariant
            k <= places.len(),
            m == places@.map_values(|i: usize| i as int),
            forall|j: int| 0 <= j < m.len() ==> 0 <= #[trigger] m[j] < exps.len(),
            form_rows(exps@, m.take(k as int), excluded@, rows@, included@),
        decreases places.len() - k,
    {
        assert(m[k as int] == places@[k as int] as int);
        let e = &exps[places[k]];
        let row = DataRow::new(e.name.as_str()).action(places[k]).text(e.name.as_str()).text_class(
            e.phase.as_str(),
            "phase",
        ).opt_text(&e.decision).date(&e.created_at).text_class(e.detail.as_str(), "muted");
        assert(row.drawn() =~= form_cells(*e, places@[k as int]));
        rows.push(row);
        included.push(!excluded.contains(e.name.as_str()));
        assert(m.take(k + 1)[k as int] == m[k as int]);
        assert(forall|j: int| 0 <= j < k ==> m.take(k + 1)[j] == m.take(k as int)[j]);
        k = k + 1;
    }
    assert(m.take(k as int) =~= m);
    let mut columns: Vec<DataColumnSpec> = Vec::new();
    columns.push(DataColumnSpec::new("include", "Include").pinned().unsorted());
    columns.push(DataColumnSpec::new("name", "Experiment").pinned());
    columns.push(DataColumnSpec::new("phase", "Phase"));
    columns.push(DataColumnSpec::new("decision", "Decision"));
    columns.push(DataColumnSpec::new("created", "Created"));
    columns.push(DataColumnSpec::new("detail", "Detail"));
    assert(columns@ =~= form_columns());
    FormTable {
        table: Table {
            columns,
            rows,
            order: Some(("created", SortDir::Desc)),
            storage_key: Some("athena.table.curator".to_owned()),
            empty: Some("No experiments in this campaign."),
            placeholder: Some("filter experiments…"),
        },
        included,
    }
}

/// The report form.
pub fn report_curator_view(snap: &ClusterSnapshot, form: &ReportForm) -> (r: FormPage)
    ensures
        is_form_page(*snap, *form, r),
{
    let picked = match &form.campaign {
        Some(c) => c.name.clone(),
        None => String::new(),
    };
    let experiments = if picked.as_str().is_empty() {
        None
    } else {
        Some(form_table(&snap.experiments, picked.as_str(), &form.excluded))
    };
    FormPage {
        title: "Report Curator",
        note: "Compose a campaign's experiments into a research-paper dataset (ResearchReport).",
        campaigns: campaign_picker(&snap.campaigns),
        picked,
        experiments,
    }
}

/// Under each column of the curated experiments stands what the column names.
pub proof fn a_curator_row_goes_by_its_columns(snap: ClusterSnapshot, f: ReportForm, p: FormPage, t: FormTable, i: int, j: int)
    requires
        is_form_page(snap, f, p),
        p.experiments == Some(t),

        0 <= i < members(snap.experiments@, picked_name(f)).len(),
        0 <= j < t.table.columns@.len(),
    ensures
        t.table.rows@.len() == members(snap.experiments@, picked_name(f)).len(),
        ({
            let cols = t.table.columns@;
            let row = t.table.rows@[i];
            &&& row.drawn().len() == cols.len()
            &&& row.key@ == snap.experiments@[members(snap.experiments@, picked_name(f))[i]].name@
            &&& row.selected == false
            &&& cols[j].id@ == "include"@ ==> cols[j].title@ == "Include"@ && row.drawn()[j] == CellView::<usize>::Action(members(snap.experiments@, picked_name(f))[i] as usize)
            &&& cols[j].id@ == "name"@ ==> cols[j].title@ == "Experiment"@ && row.drawn()[j] == CellView::<usize>::Text(snap.experiments@[members(snap.experiments@, picked_name(f))[i]].name@)
            &&& cols[j].id@ == "phase"@ ==> cols[j].title@ == "Phase"@ && row.drawn()[j] == CellView::<usize>::Styled(snap.experiments@[members(snap.experiments@, picked_name(f))[i]].phase@, "phase"@)
            &&& cols[j].id@ == "decision"@ ==> cols[j].title@ == "Decision"@ && row.drawn()[j] == (match snap.experiments@[members(snap.experiments@, picked_name(f))[i]].decision {
                Some(v) => CellView::<usize>::Text(v@),
                None => CellView::<usize>::Dash,
            })
            &&& cols[j].id@ == "created"@ ==> cols[j].title@ == "Created"@ && row.drawn()[j] == CellView::<usize>::Date(ms_text(snap.experiments@[members(snap.experiments@, picked_name(f))[i]].created_at), snap.experiments@[members(snap.experiments@, picked_name(f))[i]].created_at.deep_view())
            &&& cols[j].id@ == "detail"@ ==> cols[j].title@ == "Detail"@ && row.drawn()[j] == CellView::<usize>::Styled(snap.experiments@[members(snap.experiments@, picked_name(f))[i]].detail@, "muted"@)
        }),
{
    lemma_a_curator_row_goes_by_its_columns();
    let n = members(snap.experiments@, picked_name(f))[i];
    assert(is_row(t.table.rows@[i], snap.experiments@[n].name@, form_cells(snap.experiments@[n], n as usize), false));
}

proof fn lemma_a_curator_row_goes_by_its_columns()
    ensures
        "include"@ != "name"@,
        "include"@ != "phase"@,
        "include"@ != "decision"@,
        "include"@ != "created"@,
        "include"@ != "detail"@,
        "name"@ != "phase"@,
        "name"@ != "decision"@,
        "name"@ != "created"@,
        "name"@ != "detail"@,
        "phase"@ != "decision"@,
        "phase"@ != "created"@,
        "phase"@ != "detail"@,
        "decision"@ != "created"@,
        "decision"@ != "detail"@,
        "created"@ != "detail"@,
{
    reveal_strlit("include");
    reveal_strlit("name");
    reveal_strlit("phase");
    reveal_strlit("decision");
    reveal_strlit("created");
    reveal_strlit("detail");
    assert("include"@.len() != "name"@.len());
    assert("include"@.len() != "phase"@.len());
    assert("include"@.len() != "decision"@.len());
    assert("include"@[0] != "created"@[0]);
    assert("include"@.len() != "detail"@.len());
    assert("name"@.len() != "phase"@.len());
    assert("name"@.len() != "decision"@.len());
    assert("name"@.len() != "created"@.len());
    assert("name"@.len() != "detail"@.len());
    assert("phase"@.len() != "decision"@.len());
    assert("phase"@.len() != "created"@.len());
    assert("phase"@.len() != "detail"@.len());
    assert("decision"@.len() != "created"@.len());
    assert("decision"@.len() != "detail"@.len());
    assert("created"@.len() != "detail"@.len());
}

// ---------------------------------------------------------------------------
// What is sent
// ---------------------------------------------------------------------------

/// An experiment is ticked exactly when it is not excluded.
pub proof fn an_experiment_is_ticked_unless_excluded(
    snap: ClusterSnapshot,
    f: ReportForm,
    p: FormPage,
    t: FormTable,
    i: int,
)
    requires
        is_form_page(snap, f, p),
        p.experiments == Some(t),
        0 <= i < t.table.rows@.len(),
    ensures
        t.included@.len() == t.table.rows@.len(),
        t.included@[i] <==> !f.excluded@.contains(t.table.rows@[i].key@),
{
    let n = members(snap.experiments@, picked_name(f))[i];
    assert(is_row(
        t.table.rows@[i],
        snap.experiments@[n].name@,
        form_cells(snap.experiments@[n], n as usize),
        false,
    ));
    assert(t.included@[i] == !f.excluded@.contains(snap.experiments@[n].name@));
}

/// What is sent is what was entered: the name and the title trimmed, no title where nothing was
/// entered, every section under its own heading and only those with something in them.
pub proof fn what_is_sent_is_what_was_entered(
    f: ReportForm,
    campaign: ResourceSummary,
    r: ReportSpecDto,
)
    requires
        is_form_payload(f, campaign, r),
    ensures
        r.namespace@ == campaign.namespace@,
        r.campaign_ref@ == campaign.name@,
        r.name@ == trimmed(f.name@),
        r.title is Some <==> trimmed(f.title@).len() > 0,
        r.title matches Some(t) ==> t@ == trimmed(f.title@),
        r.excluded_experiments.deep_view() == f.excluded.elements(),
        r.included_experiments@.len() == 0,
        r.resource_version is None,
        ({
            let m = texts(r.sections@);
            &&& m.contains_key("Abstract"@) <==> trimmed(f.sec_abstract@).len() > 0
            &&& m.contains_key("Related Work"@) <==> trimmed(f.sec_related_work@).len() > 0
            &&& m.contains_key("Discussion"@) <==> trimmed(f.sec_discussion@).len() > 0
            &&& m.contains_key("Limitations"@) <==> trimmed(f.sec_limitations@).len() > 0
            &&& m.contains_key("Abstract"@) ==> m["Abstract"@] == trimmed(f.sec_abstract@)
            &&& m.contains_key("Related Work"@) ==> m["Related Work"@] == trimmed(
                f.sec_related_work@,
            )
            &&& m.contains_key("Discussion"@) ==> m["Discussion"@] == trimmed(f.sec_discussion@)
            &&& m.contains_key("Limitations"@) ==> m["Limitations"@] == trimmed(f.sec_limitations@)
            &&& forall|k: Seq<char>| #[trigger]
                m.contains_key(k) ==> k == "Abstract"@ || k == "Related Work"@ || k
                    == "Discussion"@ || k == "Limitations"@
        }),
{
    reveal_strlit("Abstract");
    reveal_strlit("Related Work");
    reveal_strlit("Discussion");
    reveal_strlit("Limitations");
    assert("Abstract"@.len() == 8);
    assert("Related Work"@.len() == 12);
    assert("Discussion"@.len() == 10);
    assert("Limitations"@.len() == 11);
}

/// A form lacks a campaign first and a name second, and lacks nothing where it has both.
pub proof fn a_form_says_what_it_lacks(f: ReportForm)
    ensures
        lack_of(f) is None <==> f.campaign is Some && trimmed(f.name@).len() > 0,
        f.campaign is None ==> lack_of(f) == Some("Select a campaign first."@),
        f.campaign is Some && trimmed(f.name@).len() == 0 ==> lack_of(f) == Some(
            "Enter a report name."@,
        ),
{
}

/// The picker offers every campaign once, by its name, under its drive or among the standalone
/// ones.
pub proof fn the_picker_offers_campaigns(
    campaigns: Seq<ResourceSummary>,
    items: Seq<PickerItem>,
    k: int,
)
    requires
        are_items_of(campaigns, items),
        0 <= k < items.len(),
    ensures
        ({
            let c = campaigns[sorted(creation_times(campaigns))[k].place as int];
            &&& items[k].value@ == c.name@
            &&& c.drive matches Some(d) ==> items[k].group@ == d@
            &&& c.drive is None ==> items[k].group@ == "standalone"@
            &&& items[k].label@ == label_of(c) + " · "@ + ms_text(c.created_at)
        }),
{
    assert(is_item_of(campaigns[sorted(creation_times(campaigns))[k].place as int], items[k]));
}

/// Toggling an experiment takes it in or out and touches no other one; picking a campaign takes
/// everything in again.
pub proof fn toggling_in_the_form_touches_one_experiment(
    f: &mut ReportForm,
    name: &str,
    other: Seq<char>,
    g: &mut ReportForm,
    found: Option<ResourceSummary>,
)
    requires
        call_ensures(ReportForm::toggle, (f, name), ()),
        call_ensures(ReportForm::pick, (g, found), ()),
    ensures
        final(f).excluded@.contains(name@) <==> !old(f).excluded@.contains(name@),
        other != name@ ==> (final(f).excluded@.contains(other) <==> old(f).excluded@.contains(
            other,
        )),
        final(f).name == old(f).name && final(f).campaign == old(f).campaign,
        final(g).campaign == found,
        !final(g).excluded@.contains(other),
        final(g).name == old(g).name && final(g).title == old(g).title,
{
}

/// A preview or a save is asked for exactly when nothing is lacking, and what is lacking is said
/// where the answer would have stood.
pub proof fn a_form_asks_only_when_complete(
    f: &mut ReportForm,
    p: Option<ReportSpecDto>,
    g: &mut ReportForm,
    s: Option<ReportSpecDto>,
)
    requires
        call_ensures(ReportForm::preview, (f,), p),
        call_ensures(ReportForm::save, (g,), s),
    ensures
        p is Some <==> old(f).campaign is Some && trimmed(old(f).name@).len() > 0,
        p matches Some(d) ==> d.name@ == trimmed(old(f).name@) && d.campaign_ref@
            == old(f).campaign->0.name@,
        old(f).campaign is None ==> final(f).preview_doc@ == "Select a campaign first."@,
        final(f).save_status == old(f).save_status,
        s is Some <==> old(g).campaign is Some && trimmed(old(g).name@).len() > 0,
        s matches Some(d) ==> d.name@ == trimmed(old(g).name@) && d.campaign_ref@
            == old(g).campaign->0.name@,
        old(g).campaign is None ==> final(g).save_status@ == "Select a campaign first."@,
        final(g).preview_doc == old(g).preview_doc,
{
}

/// What came back is shown: the dossier, or why there is none; that the report was saved, or why it
/// was not.
pub proof fn what_came_back_is_shown(
    f: &mut ReportForm,
    md: String,
    g: &mut ReportForm,
    e: String,
    h: &mut ReportForm,
    r: ReportSummary,
    k: &mut ReportForm,
)
    requires
        call_ensures(ReportForm::previewed, (f, Ok(md)), ()),
        call_ensures(ReportForm::previewed, (g, Err(e)), ()),
        call_ensures(ReportForm::saved, (h, Ok(r)), ()),
        call_ensures(ReportForm::saved, (k, Err(e)), ()),
    ensures
        final(f).preview_doc@ == md@,
        final(g).preview_doc@ == "Preview error: "@ + e@,
        final(h).save_status@ == "Saved: "@ + r.name@ + " ("@ + r.phase@ + ")"@,
        final(k).save_status@ == "Save error: "@ + e@,
        final(f).save_status == old(f).save_status,
        final(h).preview_doc == old(h).preview_doc,
{
}

/// A published report is opened by its name and its title, with its campaign where that is known.
pub proof fn a_report_is_opened_in_the_form(
    f: &mut ReportForm,
    report: &ReportSummary,
    campaign: Option<ResourceSummary>,
)
    requires
        call_ensures(ReportForm::load, (f, report, campaign), ()),
    ensures
        final(f).name@ == report.name@,
        final(f).title@ == report.title@,
        campaign is Some ==> final(f).campaign == campaign,
        campaign is None ==> final(f).campaign == old(f).campaign,
        final(f).excluded == old(f).excluded,
{
}

} // verus!

//! Report Curator: review, edit, and create `ResearchReport`s.
//!
//! User stories it serves, in the order a scientist meets them:
//!
//! 1. **Find the report for what I'm looking at.** The curator follows the
//!    global selection (the campaign selected in Research/Campaigns, or the
//!    selected experiment's campaign) and lists that campaign's reports.
//!    "Change" opens a campaign table to pick another one explicitly.
//! 2. **Review it.** Opening a report loads its full spec and the
//!    controller-observed status (phase, included count, dataset URI,
//!    conditions with messages).
//! 3. **Edit without losing anything.** Every section key the report has —
//!    including the drive's auto-authored Findings / Method / Footguns — is
//!    editable, sections can be added and removed, and fields the curator does
//!    not edit (references, `about`) pass through unchanged. Saves replace the
//!    spec against the loaded `resourceVersion`, so a concurrent change is a
//!    conflict, never a silent overwrite.
//! 4. **Curate the dataset.** The campaign's experiments with the universal
//!    columns and an include toggle, plus bulk actions (include all, exclude
//!    failed, keep only `Keep` decisions) and a live included count.
//! 5. **See the result before saving.** Preview composes the dossier from the
//!    unsaved draft.
//! 6. **Know it worked.** Save is enabled only for a valid, changed draft;
//!    the outcome and the refreshed status show in place.

pub mod edit;
pub mod view;

use vstd::prelude::*;
use crate::dossier::parts::{or_empty, text_or};
use crate::json::{alike, alike_is_an_equivalence, alike_values_are_equal, equal, Json};
use crate::lowercase::{lowered, to_lower};
use crate::models::{ReportDetailDto, ReportSpecDto, ResourceSummary};
use crate::reports::{is_label, valid_name};
use crate::snapshot::{copy_text, copy_texts};
use crate::text::{join, joined, lines, lines_of, same, trim, trimmed};
use crate::textmap::{map_of, TextMap};
use crate::textset::TextSet;

verus! {

broadcast use vstd::seq_lib::group_seq_properties;

/// The pages of the curator.
#[derive(Debug, Clone, Copy, PartialEq, Eq, Structural)]
pub enum Tab {
    Dataset,
    Narrative,
    Hypotheses,
    References,
    Preview,
    Status,
}

impl Default for Tab {
    fn default() -> (r: Self)
        ensures
            r == Tab::Dataset,
    {
        Tab::Dataset
    }
}

impl Tab {
    /// All pages, in the order of their tabs.
    pub fn all() -> (r: Vec<Tab>)
        ensures
            r@ == seq![
                Tab::Dataset,
                Tab::Narrative,
                Tab::Hypotheses,
                Tab::References,
                Tab::Preview,
                Tab::Status,
            ],
    {
        let mut v: Vec<Tab> = Vec::new();
        v.push(Tab::Dataset);
        v.push(Tab::Narrative);
        v.push(Tab::Hypotheses);
        v.push(Tab::References);
        v.push(Tab::Preview);
        v.push(Tab::Status);
        assert(v@ =~= seq![
            Tab::Dataset,
            Tab::Narrative,
            Tab::Hypotheses,
            Tab::References,
            Tab::Preview,
            Tab::Status,
        ]);
        v
    }

    /// What the tab says.
    pub open spec fn named(&self) -> Seq<char> {
        match *self {
            Tab::Dataset => "Dataset"@,
            Tab::Narrative => "Narrative"@,
            Tab::Hypotheses => "Hypotheses"@,
            Tab::References => "References"@,
            Tab::Preview => "Preview"@,
            Tab::Status => "Status"@,
        }
    }

    /// What the tab says.
    pub fn label(self) -> (r: &'static str)
        ensures
            r@ == self.named(),
    {
        match self {
            Tab::Dataset => "Dataset",
            Tab::Narrative => "Narrative",
            Tab::Hypotheses => "Hypotheses",
            Tab::References => "References",
            Tab::Preview => "Preview",
            Tab::Status => "Status",
        }
    }
}

// ---------------------------------------------------------------------------
// Drafts
// ---------------------------------------------------------------------------

/// Editable report content. Compared against the loaded base for dirtiness.
#[derive(Debug)]
pub struct Draft {
    pub name: String,
    pub title: String,
    /// Ordered for editing; persisted as a map.
    pub sections: Vec<(String, String)>,
    pub seeded: String,
    pub excluded: TextSet,
    pub included: Vec<String>,
    pub references: Json,
    pub about: Json,
}

/// Headings and texts.
pub open spec fn section_texts(s: Seq<(String, String)>) -> Seq<(Seq<char>, Seq<char>)> {
    s.map_values(|e: (String, String)| (e.0@, e.1@))
}

/// The two drafts hold the same.
pub open spec fn drafts_alike(a: Draft, b: Draft) -> bool {
    &&& a.name@ == b.name@
    &&& a.title@ == b.title@
    &&& section_texts(a.sections@) == section_texts(b.sections@)
    &&& a.seeded@ == b.seeded@
    &&& a.excluded.elements() == b.excluded.elements()
    &&& a.included.deep_view() == b.included.deep_view()
    &&& alike(a.references, b.references)
    &&& alike(a.about, b.about)
}

/// The two drafts are equal.
pub open spec fn drafts_equal(a: Draft, b: Draft) -> bool {
    &&& a.name@ == b.name@
    &&& a.title@ == b.title@
    &&& section_texts(a.sections@) == section_texts(b.sections@)
    &&& a.seeded@ == b.seeded@
    &&& a.excluded.elements() == b.excluded.elements()
    &&& a.included.deep_view() == b.included.deep_view()
    &&& equal(a.references, b.references)
    &&& equal(a.about, b.about)
}

/// The draft of nothing.
pub open spec fn is_blank(d: Draft) -> bool {
    &&& d.name@.len() == 0
    &&& d.title@.len() == 0
    &&& d.sections@.len() == 0
    &&& d.seeded@.len() == 0
    &&& d.excluded.elements().len() == 0
    &&& d.included@.len() == 0
    &&& d.references is Null
    &&& d.about is Null
}

fn copy_sections(v: &Vec<(String, String)>) -> (r: Vec<(String, String)>)
    ensures
        section_texts(r@) == section_texts(v@),
{
    let mut out: Vec<(String, String)> = Vec::new();
    let mut i: usize = 0;
    while i < v.len()
        invariant
            i <= v.len(),
            out@.len() == i,
            forall|k: int|
                0 <= k < i ==> (#[trigger] out@[k]).0@ == v@[k].0@ && out@[k].1@ == v@[k].1@,
        decreases v.len() - i,
    {
        out.push((v[i].0.clone(), v[i].1.clone()));
        i = i + 1;
    }
    assert(section_texts(out@) =~= section_texts(v@));
    out
}

fn same_sections(a: &Vec<(String, String)>, b: &Vec<(String, String)>) -> (r: bool)
    ensures
        r == (section_texts(a@) == section_texts(b@)),
{
    let ghost x = section_texts(a@);
    let ghost y = section_texts(b@);
    if a.len() != b.len() {
        assert(x.len() != y.len());
        return false;
    }
    let mut i: usize = 0;
    while i < a.len()
        invariant
            i <= a.len(),
            a.len() == b.len(),
            x == section_texts(a@),
            y == section_texts(b@),
            forall|k: int| 0 <= k < i ==> #[trigger] x[k] == y[k],
        decreases a.len() - i,
    {
        if !same(a[i].0.as_str(), b[i].0.as_str()) || !same(a[i].1.as_str(), b[i].1.as_str()) {
            assert(x[i as int] != y[i as int]);
            return false;
        }
        i = i + 1;
    }
    assert(x =~= y);
    true
}

fn same_texts(a: &Vec<String>, b: &Vec<String>) -> (r: bool)
    ensures
        r == (a.deep_view() == b.deep_view()),
{
    let ghost x = a.deep_view();
    let ghost y = b.deep_view();
    if a.len() != b.len() {
        assert(x.len() != y.len());
        return false;
    }
    let mut i: usize = 0;
    while i < a.len()
        invariant
            i <= a.len(),
            a.len() == b.len(),
            x == a.deep_view(),
            y == b.deep_view(),
            forall|k: int| 0 <= k < i ==> #[trigger] x[k] == y[k],
        decreases a.len() - i,
    {
        if !same(a[i].as_str(), b[i].as_str()) {
            assert(x[i as int] != y[i as int]);
            return false;
        }
        i = i + 1;
    }
    assert(x =~= y);
    true
}

fn same_sets(a: &TextSet, b: &TextSet) -> (r: bool)
    ensures
        r == (a.elements() == b.elements()),
{
    same_texts(&a.to_vec(), &b.to_vec())
}

impl Clone for Draft {
    fn clone(&self) -> (r: Self)
        ensures
            drafts_alike(*self, r),
    {
        let included = copy_texts(&self.included);
        assert(included.deep_view() =~= self.included.deep_view());
        Draft {
            name: self.name.clone(),
            title: self.title.clone(),
            sections: copy_sections(&self.sections),
            seeded: self.seeded.clone(),
            excluded: self.excluded.clone(),
            included,
            references: self.references.clone(),
            about: self.about.clone(),
        }
    }
}

impl Default for Draft {
    fn default() -> (r: Self)
        ensures
            is_blank(r),
    {
        Draft {
            name: String::new(),
            title: String::new(),
            sections: Vec::new(),
            seeded: String::new(),
            excluded: TextSet::new(),
            included: Vec::new(),
            references: Json::Null,
            about: Json::Null,
        }
    }
}

/// The draft holds what the report holds.
pub open spec fn is_draft_of(d: ReportDetailDto, r: Draft) -> bool {
    &&& r.name@ == d.spec.name@
    &&& r.title@ == text_or(d.spec.title, Seq::empty())
    &&& section_texts(r.sections@) == d.spec.sections.entries().map_values(
        |e: (Seq<char>, String)| (e.0, e.1@),
    )
    &&& r.seeded@ == joined(d.spec.seeded_hypotheses.deep_view(), "\n"@)
    &&& r.excluded@ == d.spec.excluded_experiments.deep_view().to_set()
    &&& r.included.deep_view() == d.spec.included_experiments.deep_view()
    &&& alike(d.spec.references, r.references)
    &&& alike(d.spec.about, r.about)
}

/// The sections that are saved: those with a heading and a text, without the white space
/// around them.
pub open spec fn saved_sections(s: Seq<(String, String)>) -> Seq<(Seq<char>, Seq<char>)>
    decreases s.len(),
{
    if s.len() == 0 {
        Seq::empty()
    } else {
        let rest = saved_sections(s.drop_last());
        let k = trimmed(s.last().0@);
        let v = trimmed(s.last().1@);
        if k.len() > 0 && v.len() > 0 {
            rest.push((k, v))
        } else {
            rest
        }
    }
}

/// The lines that are not blank, without the white space around them.
pub open spec fn filled_lines(ls: Seq<Seq<char>>) -> Seq<Seq<char>>
    decreases ls.len(),
{
    if ls.len() == 0 {
        Seq::empty()
    } else {
        let rest = filled_lines(ls.drop_last());
        let t = trimmed(ls.last());
        if t.len() > 0 {
            rest.push(t)
        } else {
            rest
        }
    }
}

/// The map with its values as texts.
pub open spec fn texts(m: Map<Seq<char>, String>) -> Map<Seq<char>, Seq<char>> {
    m.map_values(|s: String| s@)
}

/// The payload holds what the draft holds.
pub open spec fn is_payload(
    d: Draft,
    namespace: Seq<char>,
    campaign: Seq<char>,
    rv: Option<String>,
    r: ReportSpecDto,
) -> bool {
    &&& r.namespace@ == namespace
    &&& r.name@ == trimmed(d.name@)
    &&& r.campaign_ref@ == campaign
    &&& r.title.deep_view() == (if trimmed(d.title@).len() == 0 {
        None
    } else {
        Some(trimmed(d.title@))
    })
    &&& r.included_experiments.deep_view() == d.included.deep_view()
    &&& r.excluded_experiments.deep_view() == d.excluded.elements()
    &&& texts(r.sections@) == map_of(saved_sections(d.sections@))
    &&& r.seeded_hypotheses.deep_view() == filled_lines(lines_of(d.seeded@))
    &&& alike(d.references, r.references)
    &&& alike(d.about, r.about)
    &&& r.resource_version == rv
}

/// What is wrong with the sections from `i` on, given the headings in front of them: a text
/// without a heading, or a heading that occurs twice, whatever the case.
pub open spec fn section_problem(
    sections: Seq<(String, String)>,
    i: int,
    seen: Set<Seq<char>>,
) -> Option<Seq<char>>
    decreases sections.len() - i,
{
    if i < 0 || i >= sections.len() {
        None
    } else {
        let k = trimmed(sections[i].0@);
        let v = trimmed(sections[i].1@);
        if k.len() == 0 && v.len() > 0 {
            Some("a section with text needs a heading"@)
        } else if k.len() > 0 && seen.contains(lowered(k)) {
            Some("duplicate section heading '"@ + k + "'"@)
        } else if k.len() > 0 {
            section_problem(sections, i + 1, seen.insert(lowered(k)))
        } else {
            section_problem(sections, i + 1, seen)
        }
    }
}

/// The first problem that blocks saving.
pub open spec fn problem_of(d: Draft, is_new: bool) -> Option<Seq<char>> {
    if is_new && !is_label(trimmed(d.name@)) {
        Some("name: lowercase letters, digits and '-', 1–63 chars, no leading/trailing '-'"@)
    } else {
        section_problem(d.sections@, 0, Set::empty())
    }
}

fn blank(s: &str) -> (r: bool)
    ensures
        r == (trimmed(s@).len() == 0),
{
    trim(s).as_str().is_empty()
}

/// The lines of the text that are not blank, without the white space around them.
pub fn nonblank_lines(s: &str) -> (r: Vec<String>)
    ensures
        r.deep_view() == filled_lines(lines_of(s@)),
{
    let ls = lines(s);
    let ghost all = ls.deep_view();
    let mut out: Vec<String> = Vec::new();
    let mut i: usize = 0;
    assert(out.deep_view() =~= filled_lines(all.take(0)));
    while i < ls.len()
        invariant
            i <= ls.len(),
            all == ls.deep_view(),
            out.deep_view() == filled_lines(all.take(i as int)),
        decreases ls.len() - i,
    {
        assert(all.take(i + 1).drop_last() =~= all.take(i as int));
        assert(all.take(i + 1).last() == ls@[i as int]@);
        let ghost before = out.deep_view();
        let t = trim(ls[i].as_str());
        if !t.as_str().is_empty() {
            out.push(t);
            assert(out.deep_view() =~= before.push(t@));
        }
        i = i + 1;
    }
    assert(all.take(i as int) =~= all);
    out
}

impl Draft {
    /// The draft of a loaded report.
    pub fn from_detail(d: &ReportDetailDto) -> (r: Self)
        ensures
            is_draft_of(*d, r),
    {
        let m = &d.spec.sections;
        let ghost all = m.entries().map_values(|e: (Seq<char>, String)| (e.0, e.1@));
        let n: usize = m.len();
        let mut sections: Vec<(String, String)> = Vec::new();
        let mut i: usize = 0;
        while i < n
            invariant
                i <= n,
                n == m.entries().len(),
                all == m.entries().map_values(|e: (Seq<char>, String)| (e.0, e.1@)),
                section_texts(sections@) == all.take(i as int),
            decreases n - i,
        {
            let ghost before = sections@;
            let k = m.key_at(i).clone();
            let v = m.value_at(i).clone();
            sections.push((k, v));
            assert(section_texts(sections@) =~= section_texts(before).push((k@, v@)));
            assert(all[i as int] == (k@, v@));
            assert(section_texts(before).push((k@, v@)) =~= all.take(i + 1));
            i = i + 1;
        }
        assert(all.take(i as int) =~= all);
        let included = copy_texts(&d.spec.included_experiments);
        assert(included.deep_view() =~= d.spec.included_experiments.deep_view());
        Draft {
            name: d.spec.name.clone(),
            title: or_empty(&d.spec.title),
            sections,
            seeded: join(&d.spec.seeded_hypotheses, "\n"),
            excluded: TextSet::of(&d.spec.excluded_experiments),
            included,
            references: d.spec.references.clone(),
            about: d.spec.about.clone(),
        }
    }

    /// The payload that saves or previews the draft.
    pub fn to_dto(&self, namespace: &str, campaign: &str, rv: Option<String>) -> (r: ReportSpecDto)
        ensures
            is_payload(*self, namespace@, campaign@, rv, r),
    {
        let title = trim(self.title.as_str());
        let mut sections: TextMap<String> = TextMap::new();
        let mut i: usize = 0;
        assert(texts(sections@) =~= map_of(saved_sections(self.sections@.take(0))));
        while i < self.sections.len()
            invariant
                i <= self.sections.len(),
                texts(sections@) == map_of(saved_sections(self.sections@.take(i as int))),
            decreases self.sections.len() - i,
        {
            assert(self.sections@.take(i + 1).drop_last() =~= self.sections@.take(i as int));
            let ghost saved = saved_sections(self.sections@.take(i as int));
            let ghost before = sections@;
            let k = trim(self.sections[i].0.as_str());
            let v = trim(self.sections[i].1.as_str());
            if !k.as_str().is_empty() && !v.as_str().is_empty() {
                let ghost (gk, gv) = (k@, v@);
                sections.insert(k, v);
                proof {
                    assert(saved.push((gk, gv)).drop_last() =~= saved);
                    assert(texts(sections@) =~= texts(before).insert(gk, gv));
                }
            }
            i = i + 1;
        }
        assert(self.sections@.take(i as int) =~= self.sections@);
        let included_experiments = copy_texts(&self.included);
        assert(included_experiments.deep_view() =~= self.included.deep_view());
        ReportSpecDto {
            namespace: namespace.to_owned(),
            name: trim(self.name.as_str()),
            campaign_ref: campaign.to_owned(),
            title: if title.as_str().is_empty() {
                None
            } else {
                Some(title)
            },
            included_experiments,
            excluded_experiments: self.excluded.to_vec(),
            sections,
            seeded_hypotheses: nonblank_lines(self.seeded.as_str()),
            references: self.references.clone(),
            about: self.about.clone(),
            resource_version: rv,
        }
    }

    /// First problem that blocks saving, if any.
    pub fn problem(&self, is_new: bool) -> (r: Option<String>)
        ensures
            r.deep_view() == problem_of(*self, is_new),
    {
        if is_new && !valid_name(trim(self.name.as_str()).as_str()) {
            return Some(
                "name: lowercase letters, digits and '-', 1–63 chars, no leading/trailing '-'".to_owned(),
            );
        }
        let mut seen = TextSet::new();
        let mut i: usize = 0;
        while i < self.sections.len()
            invariant
                i <= self.sections.len(),
                !(is_new && !is_label(trimmed(self.name@))),
                section_problem(self.sections@, 0, Set::empty()) == section_problem(
                    self.sections@,
                    i as int,
                    seen@,
                ),
            decreases self.sections.len() - i,
        {
            let k = trim(self.sections[i].0.as_str());
            if k.as_str().is_empty() {
                if !blank(self.sections[i].1.as_str()) {
                    return Some("a section with text needs a heading".to_owned());
                }
            } else {
                let ghost held = seen@;
                if !seen.insert(to_lower(k.as_str())) {
                    let mut s = "duplicate section heading '".to_owned();
                    s.append(k.as_str());
                    s.append("'");
                    return Some(s);
                }
            }
            i = i + 1;
        }
        None
    }
}

// ---------------------------------------------------------------------------
// What drafts keep
// ---------------------------------------------------------------------------

/// A report that is loaded and saved keeps what the curator does not edit: its references, its
/// subject, its version, and the experiments that it includes.
pub proof fn saving_keeps_what_is_not_edited(
    d: ReportDetailDto,
    draft: Draft,
    namespace: Seq<char>,
    campaign: Seq<char>,
    r: ReportSpecDto,
)
    requires
        is_draft_of(d, draft),
        is_payload(draft, namespace, campaign, d.spec.resource_version, r),
    ensures
        alike(d.spec.references, r.references),
        alike(d.spec.about, r.about),
        r.resource_version == d.spec.resource_version,
        r.included_experiments.deep_view() == d.spec.included_experiments.deep_view(),
        r.excluded_experiments.deep_view().to_set()
            == d.spec.excluded_experiments.deep_view().to_set(),
{
    alike_is_an_equivalence(d.spec.references, draft.references, r.references);
    alike_is_an_equivalence(d.spec.about, draft.about, r.about);
}

/// A section with a heading and a text, neither of which has white space around it, and whose
/// heading no later section has, is saved as it is.
pub proof fn a_written_section_is_saved(sections: Seq<(String, String)>, i: int)
    requires
        0 <= i < sections.len(),
        trimmed(sections[i].0@).len() > 0,
        trimmed(sections[i].1@).len() > 0,
        forall|j: int|
            i < j < sections.len() ==> trimmed((#[trigger] sections[j]).0@) != trimmed(
                sections[i].0@,
            ),
    ensures
        map_of(saved_sections(sections)).contains_key(trimmed(sections[i].0@)),
        map_of(saved_sections(sections))[trimmed(sections[i].0@)] == trimmed(sections[i].1@),
    decreases sections.len(),
{
    let t = sections.drop_last();
    let s = saved_sections(sections);
    if i < t.len() {
        assert(t[i] == sections[i]);
        assert forall|j: int| i < j < t.len() implies trimmed((#[trigger] t[j]).0@) != trimmed(
            t[i].0@,
        ) by {
            assert(t[j] == sections[j]);
        }
        a_written_section_is_saved(t, i);
        let last = sections[sections.len() - 1];
        assert(trimmed(last.0@) != trimmed(sections[i].0@));
        if trimmed(last.0@).len() > 0 && trimmed(last.1@).len() > 0 {
            assert(s.drop_last() =~= saved_sections(t));
        }
    } else {
        assert(s.drop_last() =~= saved_sections(t));
    }
}

/// A section without a heading or without a text is never saved.
pub proof fn blank_sections_are_dropped(sections: Seq<(String, String)>, k: int)
    requires
        0 <= k < saved_sections(sections).len(),
    ensures
        saved_sections(sections)[k].0.len() > 0,
        saved_sections(sections)[k].1.len() > 0,
    decreases sections.len(),
{
    let t = sections.drop_last();
    if k < saved_sections(t).len() {
        blank_sections_are_dropped(t, k);
    }
}

// ---------------------------------------------------------------------------
// State
// ---------------------------------------------------------------------------

/// What became of the last save.
#[derive(Debug)]
pub enum SaveState {
    Idle,
    Busy(&'static str),
    Done(String),
    Failed(String),
}

impl Default for SaveState {
    fn default() -> (r: Self)
        ensures
            r is Idle,
    {
        SaveState::Idle
    }
}

/// All curator state.
#[derive(Debug)]
pub struct CuratorState {
    /// Explicit campaign pick; `None` follows the global selection.
    pub pinned_campaign: Option<String>,
    pub picking: bool,
    /// The report being edited; `None` = composing a new one.
    pub loaded: Option<ReportDetailDto>,
    pub base: Draft,
    pub draft: Draft,
    pub tab: Tab,
    pub preview: Option<Result<String, String>>,
    pub save: SaveState,
}

impl Default for CuratorState {
    fn default() -> (r: Self)
        ensures
            r.pinned_campaign is None,
            !r.picking,
            r.composes_anew(),
    {
        CuratorState {
            pinned_campaign: None,
            picking: false,
            loaded: None,
            base: Draft::default(),
            draft: Draft::default(),
            tab: Tab::Dataset,
            preview: None,
            save: SaveState::Idle,
        }
    }
}

impl CuratorState {
    /// The draft differs from what was loaded.
    pub open spec fn is_dirty(&self) -> bool {
        !drafts_equal(self.draft, self.base)
    }

    /// The curator starts on a new report.
    pub open spec fn composes_anew(&self) -> bool {
        &&& self.loaded is None
        &&& is_blank(self.base)
        &&& is_blank(self.draft)
        &&& self.preview is None
        &&& self.save is Idle
        &&& self.tab == Tab::Dataset
    }

    /// The curator shows the report as it was loaded.
    pub open spec fn shows(&self, detail: ReportDetailDto) -> bool {
        &&& self.pinned_campaign.deep_view() == Some(detail.spec.campaign_ref@)
        &&& self.loaded == Some(detail)
        &&& is_draft_of(detail, self.base)
        &&& drafts_alike(self.base, self.draft)
        &&& self.preview is None
        &&& self.save is Idle
    }

    /// Whether the draft differs from what was loaded.
    pub fn dirty(&self) -> (r: bool)
        ensures
            r == self.is_dirty(),
    {
        let a = &self.draft;
        let b = &self.base;
        !(same(a.name.as_str(), b.name.as_str()) && same(a.title.as_str(), b.title.as_str())
            && same_sections(&a.sections, &b.sections) && same(a.seeded.as_str(), b.seeded.as_str())
            && same_sets(&a.excluded, &b.excluded) && same_texts(&a.included, &b.included)
            && a.references.is_equal(&b.references) && a.about.is_equal(&b.about))
    }

    /// Compose a new report.
    pub fn start_new(&mut self)
        ensures
            final(self).composes_anew(),
            final(self).pinned_campaign == old(self).pinned_campaign,
            final(self).picking == old(self).picking,
    {
        self.loaded = None;
        self.base = Draft::default();
        self.draft = Draft::default();
        self.preview = None;
        self.save = SaveState::Idle;
        self.tab = Tab::Dataset;
    }

    /// Edit a loaded report.
    pub fn open(&mut self, detail: ReportDetailDto)
        ensures
            final(self).shows(detail),
            final(self).tab == old(self).tab,
            final(self).picking == old(self).picking,
    {
        self.pinned_campaign = Some(detail.spec.campaign_ref.clone());
        self.base = Draft::from_detail(&detail);
        self.draft = self.base.clone();
        self.loaded = Some(detail);
        self.preview = None;
        self.save = SaveState::Idle;
    }

    /// Give the edits up.
    pub fn revert(&mut self)
        ensures
            drafts_alike(old(self).base, final(self).draft),
            final(self).base == old(self).base,
            final(self).loaded == old(self).loaded,
            final(self).pinned_campaign == old(self).pinned_campaign,
            final(self).picking == old(self).picking,
            final(self).tab == old(self).tab,
            final(self).preview == old(self).preview,
            final(self).save == old(self).save,
    {
        self.draft = self.base.clone();
    }
}

/// Drafts that hold the same are equal.
proof fn lemma_alike_drafts_are_equal(a: Draft, b: Draft)
    requires
        drafts_alike(a, b),
    ensures
        drafts_equal(b, a),
{
    alike_values_are_equal(a.references, b.references);
    alike_values_are_equal(a.about, b.about);
}

/// A report is clean when it is opened, a new report is clean when it is started, and a draft
/// is clean when its edits are given up.
pub proof fn opening_a_report_is_clean(s: CuratorState, detail: ReportDetailDto)
    ensures
        s.shows(detail) ==> !s.is_dirty(),
        s.composes_anew() ==> !s.is_dirty(),
        drafts_alike(s.base, s.draft) ==> !s.is_dirty(),
{
    if drafts_alike(s.base, s.draft) {
        lemma_alike_drafts_are_equal(s.base, s.draft);
    }
    if s.composes_anew() {
        assert(s.draft.name@ =~= s.base.name@);
        assert(s.draft.title@ =~= s.base.title@);
        assert(section_texts(s.draft.sections@) =~= section_texts(s.base.sections@));
        assert(s.draft.seeded@ =~= s.base.seeded@);
        assert(s.draft.excluded.elements() =~= s.base.excluded.elements());
        assert(s.draft.included.deep_view() =~= s.base.included.deep_view());
        assert(s.draft.references == s.base.references);
        assert(s.draft.about == s.base.about);
        alike_is_an_equivalence(s.draft.references, s.base.references, s.base.references);
        alike_is_an_equivalence(s.draft.about, s.base.about, s.base.about);
        lemma_alike_drafts_are_equal(s.base, s.draft);
    }
}

/// Whether an experiment is excluded is an edit: a change of the excluded set makes the draft
/// dirty.
pub proof fn excluding_makes_dirty(s: CuratorState, name: Seq<char>)
    requires
        s.draft.excluded@.contains(name) != s.base.excluded@.contains(name),
    ensures
        s.is_dirty(),
{
}

/// The campaign that the curator is working on: the loaded report's campaign, else an
/// explicit pick, else the global selection.
pub open spec fn working_campaign(
    s: CuratorState,
    selected: Option<ResourceSummary>,
    nav_campaign: Option<Seq<char>>,
) -> Option<Seq<char>> {
    if let Some(r) = s.loaded {
        Some(r.spec.campaign_ref@)
    } else if let Some(c) = s.pinned_campaign {
        Some(c@)
    } else if selected matches Some(x) && x.kind@ == "researchcampaign"@ {
        Some(selected->0.name@)
    } else if selected matches Some(x) && x.campaign is Some {
        selected->0.campaign.deep_view()
    } else {
        nav_campaign
    }
}

/// Campaign the curator is working on: the loaded report's campaign, else an
/// explicit pick, else the global selection.
pub fn effective_campaign(
    state: &CuratorState,
    selected: &Option<ResourceSummary>,
    nav_campaign: &Option<String>,
) -> (r: Option<String>)
    ensures
        r.deep_view() == working_campaign(*state, *selected, nav_campaign.deep_view()),
{
    if let Some(r) = &state.loaded {
        return Some(r.spec.campaign_ref.clone());
    }
    if let Some(c) = &state.pinned_campaign {
        return Some(c.clone());
    }
    if let Some(s) = selected {
        if same(s.kind.as_str(), "researchcampaign") {
            return Some(s.name.clone());
        }
        if s.campaign.is_some() {
            return copy_text(&s.campaign);
        }
    }
    copy_text(nav_campaign)
}

/// A tab is called by its own name, and no two are called alike.
pub proof fn a_tab_goes_by_its_name(x: Tab)
    ensures
        x.named() == "Dataset"@ <==> x is Dataset,
        x.named() == "Narrative"@ <==> x is Narrative,
        x.named() == "Hypotheses"@ <==> x is Hypotheses,
        x.named() == "References"@ <==> x is References,
        x.named() == "Preview"@ <==> x is Preview,
        x.named() == "Status"@ <==> x is Status,
{
    reveal_strlit("Dataset");
    reveal_strlit("Narrative");
    reveal_strlit("Hypotheses");
    reveal_strlit("References");
    reveal_strlit("Preview");
    reveal_strlit("Status");
    assert("Dataset"@.len() != "Narrative"@.len());
    assert("Dataset"@.len() != "Hypotheses"@.len());
    assert("Dataset"@.len() != "References"@.len());
    assert("Dataset"@[0] != "Preview"@[0]);
    assert("Dataset"@.len() != "Status"@.len());
    assert("Narrative"@.len() != "Hypotheses"@.len());
    assert("Narrative"@.len() != "References"@.len());
    assert("Narrative"@.len() != "Preview"@.len());
    assert("Narrative"@.len() != "Status"@.len());
    assert("Hypotheses"@[0] != "References"@[0]);
    assert("Hypotheses"@.len() != "Preview"@.len());
    assert("Hypotheses"@.len() != "Status"@.len());
    assert("References"@.len() != "Preview"@.len());
    assert("References"@.len() != "Status"@.len());
    assert("Preview"@.len() != "Status"@.len());
}

/// A draft is dirty as soon as anything in it differs from where it started, and only then.
pub proof fn any_change_makes_dirty(s: CuratorState)
    ensures
        s.draft.name@ != s.base.name@ ==> s.is_dirty(),
        s.draft.title@ != s.base.title@ ==> s.is_dirty(),
        section_texts(s.draft.sections@) != section_texts(s.base.sections@) ==> s.is_dirty(),
        s.draft.seeded@ != s.base.seeded@ ==> s.is_dirty(),
        s.draft.excluded.elements() != s.base.excluded.elements() ==> s.is_dirty(),
        s.draft.included.deep_view() != s.base.included.deep_view() ==> s.is_dirty(),
        !equal(s.draft.references, s.base.references) ==> s.is_dirty(),
        !equal(s.draft.about, s.base.about) ==> s.is_dirty(),
        s.is_dirty() ==> s.draft.name@ != s.base.name@ || s.draft.title@ != s.base.title@
            || section_texts(s.draft.sections@) != section_texts(s.base.sections@)
            || s.draft.seeded@ != s.base.seeded@ || s.draft.excluded.elements()
            != s.base.excluded.elements() || s.draft.included.deep_view()
            != s.base.included.deep_view() || !equal(s.draft.references, s.base.references)
            || !equal(s.draft.about, s.base.about),
{
}

/// A draft is of the report that was loaded: what was included stays apart from what was excluded,
/// and every hypothesis has a line of its own.
pub proof fn a_draft_is_of_its_report(d: ReportDetailDto, r: Draft, i: int)
    requires
        is_draft_of(d, r),
    ensures
        r.name@ == d.spec.name@,
        d.spec.title matches Some(t) ==> r.title@ == t@,
        d.spec.title is None ==> r.title@.len() == 0,
        0 <= i < d.spec.excluded_experiments@.len() ==> r.excluded@.contains(
            d.spec.excluded_experiments@[i]@,
        ),
        r.included.deep_view() == d.spec.included_experiments.deep_view(),
        r.sections@.len() == d.spec.sections.entries().len(),
        0 <= i < r.sections@.len() ==> r.sections@[i].0@ == d.spec.sections.entries()[i].0
            && r.sections@[i].1@ == d.spec.sections.entries()[i].1@,
        d.spec.seeded_hypotheses@.len() == 1 ==> r.seeded@ == d.spec.seeded_hypotheses@[0]@,
{
    let all = section_texts(r.sections@);
    assert(all.len() == r.sections@.len());
    if 0 <= i < r.sections@.len() {
        assert(all[i] == (r.sections@[i].0@, r.sections@[i].1@));
        assert(all[i] == (
            d.spec.sections.entries()[i].0,
            d.spec.sections.entries()[i].1@,
        ));
    }
    let ex = d.spec.excluded_experiments.deep_view();
    if 0 <= i < d.spec.excluded_experiments@.len() {
        assert(ex[i] == d.spec.excluded_experiments@[i]@);
        assert(ex.contains(ex[i]));
    }
    let seeds = d.spec.seeded_hypotheses.deep_view();
    if d.spec.seeded_hypotheses@.len() == 1 {
        assert(seeds.len() == 1 && seeds[0] == d.spec.seeded_hypotheses@[0]@);
    }
}

/// What is sent of a draft is the draft: its name and title trimmed, no title where it is blank, what
/// is included apart from what is excluded, for the given campaign and version.
pub proof fn what_is_sent_is_the_draft(
    d: Draft,
    namespace: Seq<char>,
    campaign: Seq<char>,
    rv: Option<String>,
    r: ReportSpecDto,
)
    requires
        is_payload(d, namespace, campaign, rv, r),
    ensures
        r.namespace@ == namespace,
        r.campaign_ref@ == campaign,
        r.name@ == trimmed(d.name@),
        r.title is Some <==> trimmed(d.title@).len() > 0,
        r.title matches Some(t) ==> t@ == trimmed(d.title@),
        r.included_experiments.deep_view() == d.included.deep_view(),
        r.excluded_experiments.deep_view() == d.excluded.elements(),
        r.resource_version == rv,
{
}

/// Of the lines just those with something in them are taken, trimmed and in their order.
pub proof fn blank_lines_are_dropped(ls: Seq<Seq<char>>, l: Seq<char>)
    ensures
        trimmed(l).len() > 0 ==> filled_lines(ls.push(l)) == filled_lines(ls).push(trimmed(l)),
        trimmed(l).len() == 0 ==> filled_lines(ls.push(l)) == filled_lines(ls),
        filled_lines(Seq::empty()).len() == 0,
{
    assert(ls.push(l).drop_last() =~= ls);
}

/// Sections are in order exactly when every one with a text has a heading and no two headings are
/// the same but for case.
pub proof fn sections_are_in_order_when_headed_apart(d: Draft)
    ensures
        problem_of(d, false) is None <==> {
            &&& forall|i: int|
                0 <= i < d.sections@.len() && trimmed((#[trigger] d.sections@[i]).1@).len() > 0
                    ==> trimmed(d.sections@[i].0@).len() > 0
            &&& forall|i: int, j: int|
                0 <= i < j < d.sections@.len() && trimmed((#[trigger] d.sections@[i]).0@).len() > 0
                    && trimmed((#[trigger] d.sections@[j]).0@).len() > 0 ==> lowered(
                    trimmed(d.sections@[i].0@),
                ) != lowered(trimmed(d.sections@[j].0@))
        },
        problem_of(d, true) is None <==> problem_of(d, false) is None && is_label(trimmed(d.name@)),
{
    lemma_section_problem(d.sections@, 0, Set::empty());
}

spec fn headed(sections: Seq<(String, String)>, from: int) -> bool {
    forall|i: int|
        from <= i < sections.len() && trimmed((#[trigger] sections[i]).1@).len() > 0 ==> trimmed(
            sections[i].0@,
        ).len() > 0
}

spec fn apart(sections: Seq<(String, String)>, from: int) -> bool {
    forall|i: int, j: int|
        from <= i < j < sections.len() && trimmed((#[trigger] sections[i]).0@).len() > 0 && trimmed(
            (#[trigger] sections[j]).0@,
        ).len() > 0 ==> lowered(trimmed(sections[i].0@)) != lowered(trimmed(sections[j].0@))
}

spec fn unseen(sections: Seq<(String, String)>, from: int, seen: Set<Seq<char>>) -> bool {
    forall|i: int|
        from <= i < sections.len() && trimmed((#[trigger] sections[i]).0@).len() > 0
            ==> !seen.contains(lowered(trimmed(sections[i].0@)))
}

proof fn lemma_section_problem(sections: Seq<(String, String)>, from: int, seen: Set<Seq<char>>)
    requires
        0 <= from,
    ensures
        section_problem(sections, from, seen) is None <==> headed(sections, from) && apart(
            sections,
            from,
        ) && unseen(sections, from, seen),
    decreases sections.len() - from,
{
    if from < sections.len() {
        let k = trimmed(sections[from].0@);
        let v = trimmed(sections[from].1@);
        let next = if k.len() > 0 {
            seen.insert(lowered(k))
        } else {
            seen
        };
        lemma_section_problem(sections, from + 1, next);
        if section_problem(sections, from, seen) is None {
            assert(headed(sections, from + 1) && apart(sections, from + 1) && unseen(
                sections,
                from + 1,
                next,
            ));
            assert forall|i: int|
                from <= i < sections.len() && trimmed((#[trigger] sections[i]).0@).len()
                    > 0 implies !seen.contains(lowered(trimmed(sections[i].0@))) by {
                if i > from {
                    assert(!next.contains(lowered(trimmed(sections[i].0@))));
                }
            }
            assert forall|i: int, j: int|
                from <= i < j < sections.len() && trimmed((#[trigger] sections[i]).0@).len() > 0
                    && trimmed((#[trigger] sections[j]).0@).len() > 0 implies lowered(
                trimmed(sections[i].0@),
            ) != lowered(trimmed(sections[j].0@)) by {
                if i == from {
                    assert(!next.contains(lowered(trimmed(sections[j].0@))));
                }
            }
        }
        if headed(sections, from) && apart(sections, from) && unseen(sections, from, seen) {
            assert(k.len() == 0 ==> v.len() == 0);
            assert(k.len() > 0 ==> !seen.contains(lowered(k)));
            assert forall|i: int|
                from + 1 <= i < sections.len() && trimmed((#[trigger] sections[i]).0@).len()
                    > 0 implies !next.contains(lowered(trimmed(sections[i].0@))) by {
                if k.len() > 0 {
                    assert(lowered(trimmed(sections[from].0@)) != lowered(
                        trimmed(sections[i].0@),
                    ));
                }
            }
        }
    }
}

/// The curator works on the campaign of the report that it has loaded; without one on what was
/// picked; else on the selected campaign, or on that of the selected experiment; else on where the
/// reader is.
pub proof fn the_curator_works_on_what_was_loaded_or_picked(
    s: CuratorState,
    selected: Option<ResourceSummary>,
    nav: Option<Seq<char>>,
)
    ensures
        s.loaded matches Some(r) ==> working_campaign(s, selected, nav) == Some(
            r.spec.campaign_ref@,
        ),
        s.loaded is None && s.pinned_campaign is Some ==> working_campaign(s, selected, nav)
            == Some(s.pinned_campaign->0@),
        s.loaded is None && s.pinned_campaign is None && selected is Some
            && selected->0.kind@ == "researchcampaign"@ ==> working_campaign(s, selected, nav)
            == Some(selected->0.name@),
        s.loaded is None && s.pinned_campaign is None && selected is Some
            && selected->0.kind@ != "researchcampaign"@ && selected->0.campaign is Some
            ==> working_campaign(s, selected, nav) == Some(selected->0.campaign->0@),
        s.loaded is None && s.pinned_campaign is None && (selected is None || selected->0.kind@
            != "researchcampaign"@ && selected->0.campaign is None) ==> working_campaign(
            s,
            selected,
            nav,
        ) == nav,
{
}

} // verus!

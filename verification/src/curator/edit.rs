//! What the controls of the curator do.

use vstd::prelude::*;
use crate::curator::{drafts_alike, section_texts, CuratorState, Draft, SaveState, Tab};
use crate::models::ReportDetailDto;
use crate::textset::TextSet;

verus! {

broadcast use vstd::seq_lib::group_seq_properties;

/// Two states differ at most in what the draft excludes.
pub open spec fn same_but_excluded(a: CuratorState, b: CuratorState) -> bool {
    a == (CuratorState { draft: Draft { excluded: a.draft.excluded, ..b.draft }, ..b })
}

/// Two states differ at most in the draft's sections.
pub open spec fn same_but_sections(a: CuratorState, b: CuratorState) -> bool {
    a == (CuratorState { draft: Draft { sections: a.draft.sections, ..b.draft }, ..b })
}

impl CuratorState {
    /// Open the campaign table, or close it.
    pub fn toggle_picking(&mut self)
        ensures
            *final(self) == (CuratorState { picking: !old(self).picking, ..*old(self) }),
    {
        self.picking = !self.picking;
    }

    /// Work on the picked campaign, on a new report.
    pub fn pick_campaign(&mut self, name: String)
        ensures
            final(self).pinned_campaign == Some(name),
            !final(self).picking,
            final(self).composes_anew(),
    {
        self.pinned_campaign = Some(name);
        self.picking = false;
        self.start_new();
    }

    /// Follow the campaign selected elsewhere, on a new report.
    pub fn follow_selection(&mut self)
        ensures
            final(self).pinned_campaign is None,
            final(self).picking == old(self).picking,
            final(self).composes_anew(),
    {
        self.pinned_campaign = None;
        self.start_new();
    }

    /// Open a tab.
    pub fn show(&mut self, tab: Tab)
        ensures
            *final(self) == (CuratorState { tab, ..*old(self) }),
    {
        self.tab = tab;
    }

    // -----------------------------------------------------------------------
    // The dataset
    // -----------------------------------------------------------------------

    /// Exclude the experiment, or include it again.
    pub fn toggle_experiment(&mut self, name: &str)
        ensures
            final(self).draft.excluded@ == (if old(self).draft.excluded@.contains(name@) {
                old(self).draft.excluded@.remove(name@)
            } else {
                old(self).draft.excluded@.insert(name@)
            }),
            same_but_excluded(*final(self), *old(self)),
    {
        let mut set = self.draft.excluded.clone();
        if !set.remove(name) {
            set.insert(name.to_owned());
        }
        self.draft.excluded = set;
    }

    /// Exclude nothing.
    pub fn include_all(&mut self)
        ensures
            final(self).draft.excluded@ == Set::<Seq<char>>::empty(),
            same_but_excluded(*final(self), *old(self)),
    {
        self.draft.excluded = TextSet::new();
    }

    /// Exclude these too.
    pub fn exclude(&mut self, names: &Vec<String>)
        ensures
            final(self).draft.excluded@ == old(self).draft.excluded@.union(
                names.deep_view().to_set(),
            ),
            same_but_excluded(*final(self), *old(self)),
    {
        let ghost before = self.draft.excluded@;
        let ghost all = names.deep_view();
        let mut set = self.draft.excluded.clone();
        let mut i: usize = 0;
        assert(before.union(all.take(0).to_set()) =~= before);
        while i < names.len()
            invariant
                i <= names.len(),
                all == names.deep_view(),
                set@ == before.union(all.take(i as int).to_set()),
            decreases names.len() - i,
        {
            set.insert(names[i].clone());
            assert(all.take(i + 1) =~= all.take(i as int).push(all[i as int]));
            assert(all.take(i as int).push(all[i as int]).to_set() =~= all.take(
                i as int,
            ).to_set().insert(all[i as int]));
            assert(set@ =~= before.union(all.take(i + 1).to_set()));
            i = i + 1;
        }
        assert(all.take(i as int) =~= all);
        self.draft.excluded = set;
    }

    // -----------------------------------------------------------------------
    // The narrative
    // -----------------------------------------------------------------------

    /// Give the section another heading.
    pub fn set_heading(&mut self, i: usize, heading: String)
        ensures
            section_texts(final(self).draft.sections@) == (if i < old(self).draft.sections@.len() {
                section_texts(old(self).draft.sections@).update(
                    i as int,
                    (heading@, old(self).draft.sections@[i as int].1@),
                )
            } else {
                section_texts(old(self).draft.sections@)
            }),
            same_but_sections(*final(self), *old(self)),
    {
        let ghost before = section_texts(self.draft.sections@);
        if i < self.draft.sections.len() {
            let text = self.draft.sections[i].1.clone();
            let ghost h = heading@;
            self.draft.sections.set(i, (heading, text));
            assert(section_texts(self.draft.sections@) =~= before.update(i as int, (h, text@)));
        }
    }

    /// Give the section another text.
    pub fn set_text(&mut self, i: usize, text: String)
        ensures
            section_texts(final(self).draft.sections@) == (if i < old(self).draft.sections@.len() {
                section_texts(old(self).draft.sections@).update(
                    i as int,
                    (old(self).draft.sections@[i as int].0@, text@),
                )
            } else {
                section_texts(old(self).draft.sections@)
            }),
            same_but_sections(*final(self), *old(self)),
    {
        let ghost before = section_texts(self.draft.sections@);
        if i < self.draft.sections.len() {
            let heading = self.draft.sections[i].0.clone();
            let ghost t = text@;
            self.draft.sections.set(i, (heading, text));
            assert(section_texts(self.draft.sections@) =~= before.update(i as int, (heading@, t)));
        }
    }

    /// Take the section out.
    pub fn remove_section(&mut self, i: usize)
        ensures
            section_texts(final(self).draft.sections@) == (if i < old(self).draft.sections@.len() {
                section_texts(old(self).draft.sections@).remove(i as int)
            } else {
                section_texts(old(self).draft.sections@)
            }),
            same_but_sections(*final(self), *old(self)),
    {
        let ghost before = section_texts(self.draft.sections@);
        if i < self.draft.sections.len() {
            self.draft.sections.remove(i);
            assert(section_texts(self.draft.sections@) =~= before.remove(i as int));
        }
    }

    /// Add an empty section with the heading.
    pub fn add_section(&mut self, heading: &str)
        ensures
            section_texts(final(self).draft.sections@) == section_texts(
                old(self).draft.sections@,
            ).push((heading@, Seq::empty())),
            same_but_sections(*final(self), *old(self)),
    {
        let ghost before = section_texts(self.draft.sections@);
        self.draft.sections.push((heading.to_owned(), String::new()));
        assert(section_texts(self.draft.sections@) =~= before.push((heading@, Seq::empty())));
    }

    // -----------------------------------------------------------------------
    // Preview, load and save
    // -----------------------------------------------------------------------

    /// A preview is on its way.
    pub fn preview_started(&mut self)
        ensures
            *final(self) == (CuratorState { preview: None, ..*old(self) }),
    {
        self.preview = None;
    }

    /// A preview came back.
    pub fn previewed(&mut self, result: Result<String, String>)
        ensures
            *final(self) == (CuratorState { preview: Some(result), ..*old(self) }),
    {
        self.preview = Some(result);
    }

    /// A report is being loaded.
    pub fn loading(&mut self)
        ensures
            final(self).save matches SaveState::Busy(m) && m@ == "loading…"@,
            *final(self) == (CuratorState { save: final(self).save, ..*old(self) }),
    {
        self.save = SaveState::Busy("loading…");
    }

    /// The report came back, or why it did not; the draft survives a failure.
    pub fn report_loaded(&mut self, result: Result<ReportDetailDto, String>)
        ensures
            match result {
                Ok(detail) => {
                    &&& final(self).shows(detail)
                    &&& final(self).tab == old(self).tab
                    &&& final(self).picking == old(self).picking
                },
                Err(e) => {
                    &&& final(self).save matches SaveState::Failed(m) && m@ == "load failed: "@ + e@
                    &&& *final(self) == (CuratorState { save: final(self).save, ..*old(self) })
                },
            },
    {
        match result {
            Ok(detail) => {
                self.open(detail);
            },
            Err(e) => {
                let mut s = "load failed: ".to_owned();
                s.append(e.as_str());
                self.save = SaveState::Failed(s);
            },
        }
    }

    /// A save is on its way.
    pub fn saving(&mut self)
        ensures
            final(self).save matches SaveState::Busy(m) && m@ == "saving…"@,
            *final(self) == (CuratorState { save: final(self).save, ..*old(self) }),
    {
        self.save = SaveState::Busy("saving…");
    }

    /// The save came back: the report as it is now, or why it was not saved. The draft
    /// survives a failure.
    pub fn report_saved(&mut self, result: Result<ReportDetailDto, String>)
        ensures
            match result {
                Ok(detail) => {
                    &&& final(self).loaded == Some(detail)
                    &&& drafts_alike(final(self).base, final(self).draft)
                    &&& final(self).save matches SaveState::Done(m) && m@ == "saved "@
                        + detail.spec.name@
                    &&& (CuratorState { save: SaveState::Idle, ..*final(self) }).shows(detail)
                    &&& final(self).tab == old(self).tab
                    &&& final(self).picking == old(self).picking
                },
                Err(e) => *final(self) == (CuratorState { save: SaveState::Failed(e), ..*old(self) }),
            },
    {
        match result {
            Ok(detail) => {
                let mut s = "saved ".to_owned();
                s.append(detail.spec.name.as_str());
                self.open(detail);
                self.save = SaveState::Done(s);
            },
            Err(e) => {
                self.save = SaveState::Failed(e);
            },
        }
    }
}

/// Toggling an experiment twice changes nothing of what is excluded.
pub proof fn toggling_twice_is_no_edit(excluded: Set<Seq<char>>, name: Seq<char>)
    ensures
        ({
            let once = if excluded.contains(name) {
                excluded.remove(name)
            } else {
                excluded.insert(name)
            };
            let twice = if once.contains(name) {
                once.remove(name)
            } else {
                once.insert(name)
            };
            twice == excluded
        }),
{
    let once = if excluded.contains(name) {
        excluded.remove(name)
    } else {
        excluded.insert(name)
    };
    let twice = if once.contains(name) {
        once.remove(name)
    } else {
        once.insert(name)
    };
    assert(twice =~= excluded);
}

/// Toggling an experiment takes it in or out and touches no other one, nor anything else of the
/// draft.
pub proof fn toggling_touches_one_experiment(s: &mut CuratorState, name: &str, other: Seq<char>)
    requires
        call_ensures(CuratorState::toggle_experiment, (s, name), ()),
    ensures
        final(s).draft.excluded@.contains(name@) <==> !old(s).draft.excluded@.contains(name@),
        other != name@ ==> (final(s).draft.excluded@.contains(other)
            <==> old(s).draft.excluded@.contains(other)),
        final(s).draft.included == old(s).draft.included,
        final(s).draft.sections == old(s).draft.sections,
        final(s).draft.name == old(s).draft.name,
        final(s).base == old(s).base,
        final(s).loaded == old(s).loaded,
{
}

/// Excluding some takes just these out besides what was out, and including all takes everything in.
pub proof fn excluding_adds_to_what_is_out(
    s: &mut CuratorState,
    t: &mut CuratorState,
    names: &Vec<String>,
    other: Seq<char>,
    i: int,
)
    requires
        call_ensures(CuratorState::exclude, (s, names), ()),
        call_ensures(CuratorState::include_all, (t,), ()),
    ensures
        0 <= i < names@.len() ==> final(s).draft.excluded@.contains(names@[i]@),
        old(s).draft.excluded@.contains(other) ==> final(s).draft.excluded@.contains(other),
        !old(s).draft.excluded@.contains(other) && (forall|k: int|
            0 <= k < names@.len() ==> (#[trigger] names@[k])@ != other)
            ==> !final(s).draft.excluded@.contains(other),
        !final(t).draft.excluded@.contains(other),
        final(s).draft.sections == old(s).draft.sections,
        final(t).draft.sections == old(t).draft.sections,
{
    let all = names.deep_view();
    assert(all.len() == names@.len());
    if 0 <= i < names@.len() {
        assert(all[i] == names@[i]@);
        assert(all.contains(names@[i]@));
    }
    if all.contains(other) {
        let k = all.index_of(other);
        assert(all[k] == names@[k]@);
    }
}

/// A section keeps its text under another heading and its heading over another text, and no other
/// section changes.
pub proof fn editing_a_section_keeps_the_others(
    s: &mut CuratorState,
    t: &mut CuratorState,
    i: usize,
    text: String,
    k: int,
)
    requires
        call_ensures(CuratorState::set_heading, (s, i, text), ()),
        call_ensures(CuratorState::set_text, (t, i, text), ()),
    ensures
        final(s).draft.sections@.len() == old(s).draft.sections@.len(),
        final(t).draft.sections@.len() == old(t).draft.sections@.len(),
        i < old(s).draft.sections@.len() ==> final(s).draft.sections@[i as int].0@ == text@
            && final(s).draft.sections@[i as int].1@ == old(s).draft.sections@[i as int].1@,
        i < old(t).draft.sections@.len() ==> final(t).draft.sections@[i as int].1@ == text@
            && final(t).draft.sections@[i as int].0@ == old(t).draft.sections@[i as int].0@,
        0 <= k < old(s).draft.sections@.len() && k != i ==> final(s).draft.sections@[k].0@
            == old(s).draft.sections@[k].0@ && final(s).draft.sections@[k].1@
            == old(s).draft.sections@[k].1@,
        0 <= k < old(t).draft.sections@.len() && k != i ==> final(t).draft.sections@[k].0@
            == old(t).draft.sections@[k].0@ && final(t).draft.sections@[k].1@
            == old(t).draft.sections@[k].1@,
        final(s).draft.excluded == old(s).draft.excluded,
        final(t).draft.excluded == old(t).draft.excluded,
{
    let a = section_texts(old(s).draft.sections@);
    let b = section_texts(final(s).draft.sections@);
    let c = section_texts(old(t).draft.sections@);
    let d = section_texts(final(t).draft.sections@);
    assert(a.len() == old(s).draft.sections@.len());
    assert(b.len() == final(s).draft.sections@.len());
    assert(c.len() == old(t).draft.sections@.len());
    assert(d.len() == final(t).draft.sections@.len());
    if i < a.len() {
        assert(b[i as int].0 == text@);
        assert(b[i as int].1 == old(s).draft.sections@[i as int].1@);
    }
    if i < c.len() {
        assert(d[i as int].1 == text@);
        assert(d[i as int].0 == old(t).draft.sections@[i as int].0@);
    }
    if 0 <= k < a.len() && k != i {
        assert(b[k] == a[k]);
    }
    if 0 <= k < c.len() && k != i {
        assert(d[k] == c[k]);
    }
}

/// A section is added empty at the end, and a removed one leaves the others in their order.
pub proof fn sections_are_added_at_the_end(
    s: &mut CuratorState,
    t: &mut CuratorState,
    heading: &str,
    i: usize,
    k: int,
)
    requires
        call_ensures(CuratorState::add_section, (s, heading), ()),
        call_ensures(CuratorState::remove_section, (t, i), ()),
    ensures
        final(s).draft.sections@.len() == old(s).draft.sections@.len() + 1,
        final(s).draft.sections@.last().0@ == heading@,
        final(s).draft.sections@.last().1@.len() == 0,
        0 <= k < old(s).draft.sections@.len() ==> final(s).draft.sections@[k].0@
            == old(s).draft.sections@[k].0@ && final(s).draft.sections@[k].1@
            == old(s).draft.sections@[k].1@,
        i < old(t).draft.sections@.len() ==> final(t).draft.sections@.len()
            == old(t).draft.sections@.len() - 1,
        0 <= k < i < old(t).draft.sections@.len() ==> final(t).draft.sections@[k].0@
            == old(t).draft.sections@[k].0@,
        i < k < old(t).draft.sections@.len() ==> final(t).draft.sections@[k - 1].0@
            == old(t).draft.sections@[k].0@,
{
    let a = section_texts(old(s).draft.sections@);
    let b = section_texts(final(s).draft.sections@);
    let c = section_texts(old(t).draft.sections@);
    let d = section_texts(final(t).draft.sections@);
    assert(a.len() == old(s).draft.sections@.len());
    assert(b.len() == final(s).draft.sections@.len());
    assert(c.len() == old(t).draft.sections@.len());
    assert(d.len() == final(t).draft.sections@.len());
    assert(b[b.len() - 1] == (heading@, Seq::<char>::empty()));
    if 0 <= k < a.len() {
        assert(b[k] == a[k]);
    }
    if 0 <= k < i < c.len() {
        assert(d[k] == c[k]);
    }
    if i < k < c.len() {
        assert(d[k - 1] == c[k]);
    }
}

/// A failure is said and loses nothing of the draft; a report that was saved is shown as it now is.
pub proof fn a_failure_keeps_the_draft(
    s: &mut CuratorState,
    t: &mut CuratorState,
    e: String,
    u: &mut CuratorState,
    detail: ReportDetailDto,
)
    requires
        call_ensures(CuratorState::report_loaded, (s, Err(e)), ()),
        call_ensures(CuratorState::report_saved, (t, Err(e)), ()),
        call_ensures(CuratorState::report_saved, (u, Ok(detail)), ()),
    ensures
        final(s).draft == old(s).draft && final(s).base == old(s).base && final(s).loaded
            == old(s).loaded,
        final(s).save matches SaveState::Failed(m) && m@ == "load failed: "@ + e@,
        final(t).draft == old(t).draft && final(t).base == old(t).base && final(t).loaded
            == old(t).loaded,
        final(t).save matches SaveState::Failed(m) && m@ == e@,
        final(u).loaded == Some(detail),
        final(u).save matches SaveState::Done(m) && m@ == "saved "@ + detail.spec.name@,
        final(u).draft.name@ == detail.spec.name@,
{
}

/// Picking a campaign works on that one and on nothing loaded, and following the selection lets go
/// of it.
pub proof fn picking_starts_anew(
    s: &mut CuratorState,
    name: String,
    t: &mut CuratorState,
    u: &mut CuratorState,
)
    requires
        call_ensures(CuratorState::pick_campaign, (s, name), ()),
        call_ensures(CuratorState::follow_selection, (t,), ()),
        call_ensures(CuratorState::toggle_picking, (u,), ()),
    ensures
        final(s).pinned_campaign == Some(name),
        final(s).loaded is None && !final(s).picking,
        final(s).draft.name@.len() == 0,
        final(t).pinned_campaign is None && final(t).loaded is None,
        final(u).picking <==> !old(u).picking,
        final(u).draft == old(u).draft,
{
}

} // verus!

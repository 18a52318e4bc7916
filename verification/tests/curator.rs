use athena::curator::view::{
    curator_view, footer, narrative_tab, preview_tab, references_tab, save_request, status_tab,
    tab_badge, Content, SaveKind, TabBody,
};
use athena::curator::{effective_campaign, CuratorState, Draft, SaveState, Tab};
use athena::json::Json;
use athena::models::{
    ClusterSnapshot, ConditionMessageDto, ReportDetailDto, ReportSummary, ResourceSummary,
};
use athena::reports::{new_report, plan_create, plan_replace, replace_found};
use athena::textmap::TextMap;

fn object(members: Vec<(&str, &str)>) -> Json {
    Json::Object(TextMap::of(
        members
            .into_iter()
            .map(|(k, v)| (k.to_string(), Json::Text(v.to_string())))
            .collect(),
    ))
}

fn detail() -> ReportDetailDto {
    let mut d = ReportDetailDto::default();
    d.spec.name = "r".into();
    d.spec.sections = TextMap::of(vec![("Findings".to_string(), "x".to_string())]);
    d.spec.references = Json::Array(vec![object(vec![("key", "a"), ("title", "A")])]);
    d.spec.resource_version = Some("7".into());
    d
}

fn resource(name: &str, campaign: Option<&str>, phase: &str, decision: Option<&str>) -> ResourceSummary {
    ResourceSummary {
        namespace: "ns".into(),
        name: name.into(),
        phase: phase.into(),
        campaign: campaign.map(String::from),
        decision: decision.map(String::from),
        ..Default::default()
    }
}

fn snapshot() -> ClusterSnapshot {
    ClusterSnapshot {
        campaigns: vec![resource("camp", None, "Running", None), resource("other", None, "", None)],
        experiments: vec![
            resource("e1", Some("camp"), "Succeeded", Some("Keep")),
            resource("e2", Some("camp"), "Failed", None),
            resource("e3", Some("other"), "Failed", None),
        ],
        reports: vec![ReportSummary {
            namespace: "ns".into(),
            name: "r".into(),
            campaign_ref: "camp".into(),
            phase: "Draft".into(),
            ..Default::default()
        }],
        ..Default::default()
    }
}

#[test]
fn round_trip_preserves_uneditable_fields_and_sections() {
    let d = detail();
    let dto = Draft::from_detail(&d).to_dto("ns", "camp", d.spec.resource_version.clone());
    assert_eq!(dto.sections.get("Findings").map(String::as_str), Some("x"));
    assert_eq!(dto.references, d.spec.references);
    assert_eq!(dto.resource_version.as_deref(), Some("7"));
}

#[test]
fn empty_sections_are_dropped_and_problems_block_saving() {
    let mut draft = Draft::from_detail(&detail());
    draft.sections.push(("Method".into(), "  ".into()));
    assert!(
        !draft
            .to_dto("ns", "c", None)
            .sections
            .contains_key("Method")
    );
    draft.sections.push(("findings".into(), "dup".into()));
    assert!(draft.problem(false).unwrap().contains("duplicate"));
    let mut new = Draft::default();
    new.name = "Bad_Name".into();
    assert!(new.problem(true).is_some());
    new.name = "good-name".into();
    assert!(new.problem(true).is_none());
}

#[test]
fn opening_a_report_is_clean_until_edited() {
    let mut st = CuratorState::default();
    st.open(detail());
    assert!(!st.dirty());
    st.draft.excluded.insert("e1".into());
    assert!(st.dirty());
}

#[test]
fn reverting_and_toggling_twice_clean_the_draft() {
    let mut st = CuratorState::default();
    assert!(!st.dirty());
    st.open(detail());
    st.toggle_experiment("e1");
    assert!(st.dirty());
    st.toggle_experiment("e1");
    assert!(!st.dirty());
    st.set_heading(0, "Results".into());
    st.set_text(0, "better".into());
    st.add_section("Method");
    assert!(st.dirty());
    assert_eq!(st.draft.sections[0], ("Results".to_string(), "better".to_string()));
    st.remove_section(1);
    st.revert();
    assert!(!st.dirty());
    assert_eq!(st.draft.sections, vec![("Findings".to_string(), "x".to_string())]);
}

#[test]
fn a_draft_is_trimmed_when_it_is_saved() {
    let mut st = CuratorState::default();
    st.draft.name = " paper ".into();
    st.draft.title = "  ".into();
    st.draft.sections.push((" Findings ".into(), " text ".into()));
    st.draft.sections.push(("".into(), "".into()));
    st.draft.seeded = " one \n\n  \ntwo".into();
    st.draft.excluded.insert("b".into());
    st.draft.excluded.insert("a".into());
    let dto = st.draft.to_dto("ns", "camp", None);
    assert_eq!(dto.name, "paper");
    assert_eq!(dto.title, None);
    assert_eq!(dto.sections.get("Findings").map(String::as_str), Some("text"));
    assert_eq!(dto.sections.len(), 1);
    assert_eq!(dto.seeded_hypotheses, vec!["one".to_string(), "two".to_string()]);
    assert_eq!(dto.excluded_experiments, vec!["a".to_string(), "b".to_string()]);
}

#[test]
fn every_problem_has_its_message() {
    let mut d = Draft::default();
    assert_eq!(
        d.problem(true).as_deref(),
        Some("name: lowercase letters, digits and '-', 1–63 chars, no leading/trailing '-'")
    );
    assert_eq!(d.problem(false), None);
    d.sections.push(("".into(), "text".into()));
    assert_eq!(d.problem(false).as_deref(), Some("a section with text needs a heading"));
    d.sections[0].0 = "É".into();
    d.sections.push((" é ".into(), "".into()));
    assert_eq!(d.problem(false).as_deref(), Some("duplicate section heading 'é'"));
}

#[test]
fn the_curator_follows_the_selection_until_told_otherwise() {
    let mut st = CuratorState::default();
    let none = None;
    let nav = Some("nav".to_string());
    assert_eq!(effective_campaign(&st, &none, &None), None);
    assert_eq!(effective_campaign(&st, &none, &nav).as_deref(), Some("nav"));
    let exp = Some(resource("e1", Some("camp"), "", None));
    assert_eq!(effective_campaign(&st, &exp, &nav).as_deref(), Some("camp"));
    let mut c = resource("picked", None, "", None);
    c.kind = "researchcampaign".into();
    assert_eq!(effective_campaign(&st, &Some(c), &nav).as_deref(), Some("picked"));
    st.pick_campaign("pinned".into());
    assert_eq!(effective_campaign(&st, &exp, &nav).as_deref(), Some("pinned"));
    let mut d = detail();
    d.spec.campaign_ref = "loaded".into();
    st.open(d);
    assert_eq!(effective_campaign(&st, &exp, &nav).as_deref(), Some("loaded"));
    st.follow_selection();
    assert_eq!(effective_campaign(&st, &exp, &nav).as_deref(), Some("camp"));
}

#[test]
fn the_page_lists_the_campaigns_experiments_and_reports() {
    let mut st = CuratorState::default();
    let snap = snapshot();
    let nav = Some("camp".to_string());
    let page = curator_view(&snap, &st, &None, &nav);
    assert!(page.subject.following);
    match page.content {
        Content::Editing(e) => {
            assert_eq!(e.reports.len(), 1);
            assert_eq!(e.reports[0].label, "r");
            assert_eq!(e.reports[0].tip, "r · Draft");
            assert!(e.new_active);
            match e.body {
                TabBody::Dataset(d) => {
                    assert_eq!(d.count, "2 / 2 included");
                    assert_eq!(d.failed, vec!["e2".to_string()]);
                    assert_eq!(d.not_kept, vec!["e2".to_string()]);
                    assert_eq!(d.table.rows.len(), 2);
                    assert_eq!(d.table.rows[0].cells.len(), d.table.columns.len());
                }
                other => panic!("{other:?}"),
            }
        }
        other => panic!("{other:?}"),
    }
    st.exclude(&vec!["e2".to_string()]);
    match curator_view(&snap, &st, &None, &nav).content {
        Content::Editing(e) => match e.body {
            TabBody::Dataset(d) => assert_eq!(d.count, "1 / 2 included"),
            other => panic!("{other:?}"),
        },
        other => panic!("{other:?}"),
    }
    st.include_all();
    st.toggle_picking();
    let page = curator_view(&snap, &st, &None, &nav);
    assert_eq!(page.subject.change_text, "close");
    assert!(matches!(page.content, Content::Picking(_)));
    st.toggle_picking();
    let page = curator_view(&snap, &st, &None, &Some("gone".to_string()));
    assert!(matches!(
        page.content,
        Content::NoCampaign("Select a campaign in Research or Campaigns, or use change.")
    ));
}

#[test]
fn badges_count_what_their_tab_holds() {
    let mut st = CuratorState::default();
    st.open(detail());
    st.draft.seeded = "a\n\nb".into();
    assert_eq!(tab_badge(Tab::Dataset, &st), None);
    st.draft.excluded.insert("e".into());
    assert_eq!(tab_badge(Tab::Dataset, &st).as_deref(), Some("−1"));
    assert_eq!(tab_badge(Tab::Narrative, &st).as_deref(), Some("1"));
    assert_eq!(tab_badge(Tab::Hypotheses, &st).as_deref(), Some("2"));
    assert_eq!(tab_badge(Tab::References, &st).as_deref(), Some("1"));
    assert_eq!(tab_badge(Tab::Status, &st), None);
}

#[test]
fn suggestions_leave_out_what_is_there_whatever_its_case() {
    let mut st = CuratorState::default();
    st.add_section(" FINDINGS ");
    st.add_section("method");
    assert_eq!(
        narrative_tab(&st),
        vec!["Footguns", "Limitations", "Discussion", "Related Work"]
    );
}

#[test]
fn references_link_by_url_then_doi() {
    let mut st = CuratorState::default();
    st.draft.references = Json::Array(vec![
        object(vec![("key", "a"), ("title", "A"), ("url", "https://x"), ("doi", "10.1/x")]),
        object(vec![("key", "b"), ("doi", "10.1/y"), ("supports", "claim")]),
    ]);
    let lines = references_tab(&st);
    assert_eq!(lines[0].key, "[@a]");
    assert_eq!(lines[0].link, "https://x");
    assert_eq!(lines[1].link, "10.1/y");
    assert_eq!(lines[1].title, "");
    assert_eq!(lines[1].supports, "claim");
    st.draft.references = Json::Null;
    assert!(references_tab(&st).is_empty());
}

#[test]
fn the_status_shows_dashes_for_what_is_missing() {
    let mut st = CuratorState::default();
    assert!(status_tab(&st).is_none());
    let mut d = detail();
    d.spec.namespace = "ns".into();
    d.included_count = Some(3);
    d.conditions = vec![ConditionMessageDto {
        ctype: "Ready".into(),
        status: "False".into(),
        reason: "Why".into(),
        message: "because".into(),
    }];
    st.open(d);
    let p = status_tab(&st).unwrap();
    assert_eq!(p.name, "ns/r");
    assert_eq!(p.phase, "—");
    assert_eq!(p.included, "3");
    assert_eq!(p.created, "—");
    assert_eq!(p.conditions[0].class, "cond bad");
    assert_eq!(p.conditions[0].message, "because");
}

#[test]
fn saving_goes_against_the_loaded_version() {
    let campaign = resource("camp", None, "", None);
    let mut st = CuratorState::default();
    let (kind, dto) = save_request(&st, &campaign);
    assert_eq!(kind, SaveKind::Create);
    assert_eq!(dto.resource_version, None);
    st.open(detail());
    let (kind, dto) = save_request(&st, &campaign);
    assert_eq!(kind, SaveKind::Update);
    assert_eq!(dto.resource_version.as_deref(), Some("7"));
    assert_eq!(dto.campaign_ref, "camp");
}

#[test]
fn the_footer_says_what_can_be_done() {
    let mut st = CuratorState::default();
    st.open(detail());
    let f = footer(&st);
    assert!(f.save_disabled && f.revert_disabled && !f.is_new);
    assert_eq!(f.save_text, "save");
    st.draft.title = "T".into();
    assert!(!footer(&st).save_disabled);
    st.saving();
    let f = footer(&st);
    assert!(f.save_disabled);
    assert_eq!(f.note, Some(("muted", "saving…".to_string())));
    st.report_saved(Err("conflict".into()));
    assert_eq!(footer(&st).note, Some(("err", "conflict".to_string())));
    assert_eq!(st.draft.title, "T");
    st.add_section("Findings");
    let f = footer(&st);
    assert!(f.save_disabled);
    assert_eq!(f.note, Some(("err", "duplicate section heading 'Findings'".to_string())));
    st.report_saved(Ok(detail()));
    assert_eq!(footer(&st).note, Some(("ok", "saved r".to_string())));
    assert!(!st.dirty());
}

#[test]
fn a_failed_load_keeps_the_draft() {
    let mut st = CuratorState::default();
    st.draft.title = "mine".into();
    st.loading();
    assert!(matches!(st.save, SaveState::Busy("loading…")));
    st.report_loaded(Err("404".into()));
    match &st.save {
        SaveState::Failed(m) => assert_eq!(m, "load failed: 404"),
        other => panic!("{other:?}"),
    }
    assert_eq!(st.draft.title, "mine");
    st.previewed(Err("down".into()));
    assert_eq!(preview_tab(&st), ("err", "Preview failed: down".to_string()));
    st.preview_started();
    assert_eq!(preview_tab(&st), ("muted", "Not composed yet.".to_string()));
    st.previewed(Ok("# md".into()));
    assert_eq!(preview_tab(&st), ("preview", "# md".to_string()));
    st.show(Tab::Status);
    assert_eq!(st.tab, Tab::Status);
}

#[test]
fn what_can_be_saved_can_be_created() {
    let mut st = CuratorState::default();
    st.draft.name = " new-report ".into();
    assert!(!footer(&st).save_disabled);
    let (kind, dto) = save_request(&st, &resource("camp", None, "Running", None));
    assert!(matches!(kind, SaveKind::Create));
    let report = plan_create(&dto, Ok(vec![]), Ok(None)).unwrap();
    assert_eq!(report.metadata.name_any(), "new-report");
    st.draft.name = "New Report".into();
    assert!(footer(&st).save_disabled);
}

#[test]
fn a_changed_report_is_saved_at_its_old_version() {
    let mut st = CuratorState::default();
    st.open(detail());
    st.add_section("Method");
    st.set_text(1, "m".into());
    let (_, dto) = save_request(&st, &resource("camp", None, "Running", None));
    let plan = plan_replace(&dto, Ok(vec![]), Ok(None)).unwrap();
    let mut current = new_report("r", plan.0.clone());
    current.metadata.resource_version = Some("9".into());
    let next = replace_found("ns", "r", Some(current), plan).unwrap();
    assert_eq!(next.metadata.resource_version.as_deref(), Some("7"));
    assert_eq!(next.spec.sections.len(), 2);
}

use athena::models::{
    ClusterSnapshot, ConditionDto, DriveSummary, ReportSummary, ResourceSummary, StageProgressDto,
    TemplateProgressDto, TemplateSummary,
};
use athena::number::Real;
use athena::tables::{DataCell, SortDir};
use athena::textmap::TextMap;
use athena::web::app::{
    admin_body, body, manifest_request, report_request, template_request, AdminBody, App, Body,
};
use athena::web::form::{build_report_spec, campaign_picker, report_curator_view, ReportForm};
use athena::web::labels::{
    campaign_label, cond_badges, cond_class, fmt_rfc3339, has_window, time_range,
};
use athena::web::lists::{
    benchmarks_view, experiment_detail_view, experiment_manifest_view, experiment_metrics_view,
    experiments_view, no_selection, reports_view, resource_table, templates_view, view_bar,
};
use athena::web::panels::{
    admin_layout, default_layout, research_views, restore_detail_panels, AdminPanel, Panel,
};
use athena::web::research::{
    crumbs, follow, members_of, nav_campaign, reports_of, research_view, Level, ResearchNav,
    Target,
};
use athena::workspace::views::SavedViews;

fn resource(name: &str) -> ResourceSummary {
    ResourceSummary {
        namespace: "ns".into(),
        name: name.into(),
        kind: "experiment".into(),
        phase: "Running".into(),
        detail: "d".into(),
        ..Default::default()
    }
}

fn member(name: &str, campaign: &str) -> ResourceSummary {
    ResourceSummary { campaign: Some(campaign.into()), ..resource(name) }
}

fn report(name: &str, campaign: &str) -> ReportSummary {
    ReportSummary {
        namespace: "ns".into(),
        name: name.into(),
        campaign_ref: campaign.into(),
        title: "T".into(),
        phase: "Draft".into(),
        ..Default::default()
    }
}

fn snapshot() -> ClusterSnapshot {
    ClusterSnapshot {
        campaigns: vec![resource("camp"), resource("other")],
        experiments: vec![member("e1", "camp"), member("e2", "other"), member("e3", "camp")],
        reports: vec![report("r1", "other"), report("r2", "camp")],
        ..Default::default()
    }
}

fn at(name: &str, created: Option<&str>, drive: Option<&str>) -> ResourceSummary {
    ResourceSummary {
        created_at: created.map(String::from),
        drive: drive.map(String::from),
        ..resource(name)
    }
}

#[test]
fn labels_drop_the_echo_of_the_drive() {
    assert_eq!(campaign_label(&at("gait-gait-a", None, Some("gait"))), "a");
    assert_eq!(campaign_label(&at("gait-a", None, None)), "gait-a");
    assert_eq!(campaign_label(&at("gait-", None, Some("gait"))), "gait-");
    assert_eq!(campaign_label(&at("gait-gait-", None, Some("gait"))), "gait-");
    assert_eq!(campaign_label(&at("other", None, Some("gait"))), "other");
}

#[test]
fn timestamps_are_cut_to_the_minute_by_bytes() {
    assert_eq!(fmt_rfc3339("2026-09-24T15:08:31Z"), "2026-09-24 15:08");
    assert_eq!(fmt_rfc3339("2026-09-24T15:08"), "2026-09-24 15:08");
    assert_eq!(fmt_rfc3339("2026-09-24T15"), "2026-09-24T15");
    assert_eq!(fmt_rfc3339("2026-09-24T15:0é1"), "2026-09-24T15:0é1");
    assert_eq!(fmt_rfc3339("TTTTTTTTTTTTTTé"), "              é");
}

#[test]
fn the_window_is_widened_by_five_minutes() {
    let mut r = resource("e");
    assert!(has_window(&r));
    assert_eq!(time_range(&r), ("now-6h".to_string(), "now".to_string()));
    r.started_at = Some("1000000".into());
    r.ended_at = Some("2000000".into());
    assert_eq!(time_range(&r), ("700000".to_string(), "2300000".to_string()));
    r.ended_at = Some("soon".into());
    assert_eq!(time_range(&r).1, "now");
    r.ended_at = Some(i64::MAX.to_string());
    assert!(!has_window(&r));
    r.ended_at = None;
    r.started_at = Some(i64::MIN.to_string());
    assert!(!has_window(&r));
}

#[test]
fn badges_are_green_for_true_alone() {
    assert_eq!(cond_class("True"), "cond ok");
    assert_eq!(cond_class("true"), "cond bad");
    let b = cond_badges(&vec![ConditionDto {
        ctype: "Ready".into(),
        status: "False".into(),
        reason: "why".into(),
    }]);
    assert_eq!(b.len(), 1);
    assert_eq!((b[0].class, b[0].label.as_str(), b[0].title.as_str()), ("cond bad", "Ready False", "why"));
}

#[test]
fn panels_are_stacked_with_a_gutter() {
    let wins = default_layout(40);
    assert_eq!(wins.len(), 11);
    assert_eq!(wins[0].kind, Panel::Experiments);
    assert_eq!((wins[0].place.x, wins[0].place.y, wins[0].place.w, wins[0].place.h), (16, 16, 640, 460));
    assert_eq!((wins[0].tile_w, wins[0].tile_h), (2, 12));
    assert_eq!(wins[1].place.y, 16 + 460 + 16);
    assert_eq!(wins[6].kind, Panel::ExperimentDetail);
    assert_eq!((wins[6].place.x, wins[6].place.y, wins[6].tile_h), (672, 16, 5));
    let admin = admin_layout(50);
    assert_eq!(admin.len(), 3);
    assert_eq!((admin[0].place.w, admin[0].tile_w, admin[0].tile_h), (900, 3, 12));
    assert_eq!(admin[2].kind, AdminPanel::Inference);
    assert_eq!(admin[2].place.y, 16 + 260 + 16);
    assert_eq!(
        restore_detail_panels(),
        vec![Panel::ExperimentDetail, Panel::ExperimentMetrics, Panel::ExperimentManifest]
    );
    assert_eq!(Panel::Research.title(), "Research");
    assert_eq!(AdminPanel::GpuPools.title(), "GPU Pools & Queues");
}

#[test]
fn custom_views_can_be_deleted_and_presets_cannot() {
    let spec = research_views();
    let registry = SavedViews {
        views: vec!["Research".into(), "mine".into()],
        active: "mine".into(),
    };
    let tabs = view_bar(&registry, &spec);
    assert_eq!(tabs.len(), 2);
    assert_eq!((tabs[0].active, tabs[0].custom), (false, false));
    assert_eq!((tabs[1].active, tabs[1].custom), (true, true));
}

#[test]
fn lists_mark_the_selection_and_name_their_storage() {
    let snap = snapshot();
    let page = experiments_view(&snap, &Some(resource("e2")));
    assert_eq!(page.title, "Experiments");
    assert_eq!(page.table.storage_key.as_deref(), Some("athena.table.experiments"));
    assert_eq!(page.table.order, Some(("created", SortDir::Desc)));
    let marked: Vec<bool> = page.table.rows.iter().map(|r| r.selected).collect();
    assert_eq!(marked, vec![false, true, false]);
    let t = resource_table(&vec![resource("p")], "RuntimeProfile", "Runtime");
    assert_eq!(t.storage_key.as_deref(), Some("athena.table.runtimeprofile"));
    assert_eq!(t.columns.len(), 4);
    assert_eq!(t.rows[0].cells.len(), 4);
    assert_eq!(benchmarks_view(&snap).suites.rows.len(), 0);
    let r = reports_view(&snap);
    assert_eq!(r.table.rows.len(), 2);
    assert_eq!(r.table.rows[0].cells.len(), r.table.columns.len());
    let with_template = ClusterSnapshot {
        templates: vec![TemplateSummary { name: "t".into(), ..Default::default() }],
        ..Default::default()
    };
    let t = templates_view(&with_template);
    assert_eq!(t.table.order, Some(("name", SortDir::Asc)));
    assert!(matches!(t.table.rows[0].cells[4], DataCell::Action(0)));
}

#[test]
fn the_detail_panels_show_the_selection() {
    assert!(experiment_detail_view(&None).is_none());
    assert_eq!(no_selection(), "Select an experiment from the Experiments panel.");
    let d = experiment_detail_view(&Some(resource("e1"))).unwrap();
    assert_eq!(d.title, "e1");
    assert_eq!(d.note, "ns / experiment · phase Running");
    assert_eq!(d.workspace, "Not reported");
    assert_eq!(d.manifest, "k8s://ns/experiment/e1.yaml");
    assert_eq!(
        experiment_manifest_view(&Some(resource("e1"))).as_deref(),
        Some("k8s://ns/experiment/e1.yaml")
    );
    let m = experiment_metrics_view(&Some(resource("e1"))).unwrap();
    assert_eq!((m.var, m.value.as_str()), ("experiment", "e1"));
    let mut c = resource("camp");
    c.kind = "researchcampaign".into();
    assert_eq!(experiment_metrics_view(&Some(c)).unwrap().var, "campaign");
}

#[test]
fn crumbs_lead_back_along_the_path() {
    let nav = ResearchNav::Experiment { campaign: "camp".into(), exp: member("e1", "camp") };
    let path = crumbs(&nav);
    let words: Vec<&str> = path.iter().map(|c| c.text.as_str()).collect();
    assert_eq!(words, vec!["research", "camp", "e1"]);
    assert!(path[2].target.is_none());
    let back = follow(nav, Target::Campaign);
    assert_eq!(nav_campaign(&back).as_deref(), Some("camp"));
    assert_eq!(crumbs(&back).len(), 2);
    assert!(crumbs(&back)[1].target.is_none());
    let top = follow(back, Target::Global);
    assert_eq!(nav_campaign(&top), None);
    assert_eq!(crumbs(&top).len(), 1);
}

#[test]
fn members_and_reports_are_those_of_the_campaign() {
    let snap = snapshot();
    assert_eq!(members_of(&snap.experiments, "camp"), vec![0, 2]);
    assert_eq!(reports_of(&snap.reports, "camp"), vec![1]);
    let page = research_view(&snap, &ResearchNav::Campaign("camp".into()));
    match page.level {
        Level::Campaign(p) => {
            assert_eq!(p.title, "camp");
            assert!(p.head.is_some());
            assert_eq!(p.experiments.rows.len(), 2);
            assert_eq!(p.reports.unwrap().rows.len(), 1);
        }
        _ => panic!("a campaign page"),
    }
    let page = research_view(&snap, &ResearchNav::Campaign("gone".into()));
    match page.level {
        Level::Campaign(p) => {
            assert_eq!(p.title, "gone");
            assert!(p.head.is_none());
            assert!(p.reports.is_none());
        }
        _ => panic!("a campaign page"),
    }
}

#[test]
fn the_fleet_shows_its_curriculum() {
    let real = Real { fixed3: "0.125".into(), ..Default::default() };
    let snap = ClusterSnapshot {
        drives: vec![DriveSummary {
            name: "gait".into(),
            phase: "Active".into(),
            stage: Some("walk".into()),
            stagnation: 2,
            created_at: Some("0".into()),
            stages: vec![StageProgressDto {
                name: "stand".into(),
                promoted_at: Some("2026-09-24T15:08:31Z".into()),
                templates: vec![
                    TemplateProgressDto {
                        template_ref: "t".into(),
                        best_objective: Some(real),
                        succeeded: 4,
                        passed: true,
                    },
                    TemplateProgressDto::default(),
                ],
            }],
            ..Default::default()
        }],
        ..Default::default()
    };
    match research_view(&snap, &ResearchNav::Global).level {
        Level::Fleet(p) => {
            assert_eq!(p.drives.len(), 1);
            let d = &p.drives[0];
            assert_eq!(d.created, " created 1970-01-01 00:00");
            assert_eq!(d.stage.as_deref(), Some("stage: walk"));
            assert_eq!(d.stagnation, " stagnation 2");
            assert_eq!(d.stages[0].title, "stand — promoted 2026-09-24 15:08");
            assert_eq!(d.stages[0].lines[0].best, "0.125");
            assert_eq!(d.stages[0].lines[0].succeeded, "4");
            assert!(d.stages[0].lines[0].passed);
            assert_eq!(d.stages[0].lines[1].best, "—");
        }
        _ => panic!("the fleet"),
    }
}

#[test]
fn leaves_show_the_experiment_or_the_report() {
    let mut e = member("e1", "camp");
    e.decision = Some("Keep".into());
    e.parent = Some("e0".into());
    let page = research_view(
        &snapshot(),
        &ResearchNav::Experiment { campaign: "camp".into(), exp: e },
    );
    match page.level {
        Level::Experiment(p) => {
            assert_eq!(p.chips, vec!["Keep".to_string(), "parent: e0".to_string()]);
            assert_eq!(p.times, " created — · started — · ended —");
            assert_eq!(
                p.filmstrip,
                "https://spot.casazza.io/api/v1/experiments/e1/figures/eval_filmstrip.png"
            );
        }
        _ => panic!("an experiment page"),
    }
    let mut r = report("r2", "camp");
    r.title = "".into();
    r.sections = TextMap::of(vec![("B".to_string(), "b".to_string()), ("A".to_string(), "a".to_string())]);
    let page =
        research_view(&snapshot(), &ResearchNav::Report { campaign: "camp".into(), report: r });
    match page.level {
        Level::Report(p) => {
            assert_eq!(p.title, "r2");
            assert_eq!(p.name, " r2");
            assert_eq!(p.sections[0], ("A".to_string(), "a".to_string()));
        }
        _ => panic!("a report page"),
    }
}

#[test]
fn the_picker_is_newest_first_and_keeps_ties_in_order() {
    let items = campaign_picker(&vec![
        at("a", Some("5"), None),
        at("b", None, Some("gait")),
        at("c", Some("60000"), None),
        at("d", Some("5"), Some("gait")),
    ]);
    let values: Vec<&str> = items.iter().map(|i| i.value.as_str()).collect();
    assert_eq!(values, vec!["c", "a", "d", "b"]);
    assert_eq!(items[0].label, "c · 1970-01-01 00:01");
    assert_eq!(items[0].group, "standalone");
    assert_eq!(items[3].label, "b · —");
    assert_eq!(items[3].group, "gait");
}

#[test]
fn the_form_is_trimmed_and_asks_for_what_is_missing() {
    let mut form = ReportForm::default();
    assert_eq!(form.request(), Err("Select a campaign first.".to_string()));
    assert!(form.preview().is_none());
    assert_eq!(form.preview_doc, "Select a campaign first.");
    form.pick(Some(resource("camp")));
    form.name = "  ".into();
    assert!(form.save().is_none());
    assert_eq!(form.save_status, "Enter a report name.");
    form.name = " r ".into();
    form.title = " ".into();
    form.sec_abstract = " a ".into();
    form.seeds_text = "one\n\n  two \n".into();
    form.toggle("e1");
    let d = form.request().unwrap();
    assert_eq!((d.namespace.as_str(), d.name.as_str(), d.campaign_ref.as_str()), ("ns", "r", "camp"));
    assert_eq!(d.title, None);
    assert_eq!(d.sections.len(), 1);
    assert_eq!(d.sections.get("Abstract").unwrap(), "a");
    assert_eq!(d.seeded_hypotheses, vec!["one".to_string(), "two".to_string()]);
    assert_eq!(d.excluded_experiments, vec!["e1".to_string()]);
    assert_eq!(build_report_spec(&resource("camp"), &form), d);
    form.toggle("e1");
    assert!(form.request().unwrap().excluded_experiments.is_empty());
    form.toggle("e1");
    form.pick(Some(resource("other")));
    assert!(form.request().unwrap().excluded_experiments.is_empty());
    form.previewed(Err("no".into()));
    assert_eq!(form.preview_doc, "Preview error: no");
    form.saved(Ok(report("r", "other")));
    assert_eq!(form.save_status, "Saved: r (Draft)");
    form.saved(Err("no".into()));
    assert_eq!(form.save_status, "Save error: no");
}

#[test]
fn the_form_lists_the_experiments_of_its_campaign() {
    let mut form = ReportForm::default();
    assert!(report_curator_view(&snapshot(), &form).experiments.is_none());
    form.pick(Some(resource("camp")));
    form.toggle("e3");
    let page = report_curator_view(&snapshot(), &form);
    assert_eq!(page.picked, "camp");
    assert_eq!(page.campaigns.len(), 2);
    let t = page.experiments.unwrap();
    assert_eq!(t.table.rows.len(), 2);
    assert_eq!(t.included, vec![true, false]);
}

#[test]
fn selecting_a_resource_opens_its_panels() {
    let mut app = App::new();
    assert_eq!(app.manifest_doc, "# Select an experiment to load its manifest.\n");
    let s = app.select_resource(resource("e1"));
    assert_eq!(s.restore, restore_detail_panels());
    assert_eq!(s.fetch, manifest_request(&resource("e1")));
    assert_eq!(s.fetch, "/api/manifest/ns/experiment/e1");
    app.manifest_loaded(Ok("kind: X".into()));
    assert_eq!(app.manifest_doc, "kind: X");
    app.manifest_loaded(Err("no".into()));
    assert_eq!(app.manifest_doc, "# failed to load manifest: no\n");
    app.template_loaded(Err("no".into()));
    assert_eq!(app.template_doc, "# failed to load template: no\n");
    let t = TemplateSummary { namespace: "ns".into(), name: "t".into(), ..Default::default() };
    assert_eq!(template_request(&t), "/api/template/ns/t");
    assert_eq!(report_request("ns", "r"), "/api/reports/ns/r");
    let p = app.load_report(&report("r2", "camp"), Some(resource("camp")));
    assert_eq!(p, Panel::ReportCurator);
    assert_eq!(app.form.name, "r2");
    app.load_report(&report("r9", "gone"), None);
    assert_eq!(app.form.campaign.as_ref().unwrap().name, "camp");
}

#[test]
fn panels_wait_for_their_snapshot() {
    let app = App::new();
    let mut endless = resource("e");
    endless.ended_at = Some(i64::MAX.to_string());
    endless.started_at = Some("0".into());
    let mut picked = App::new();
    picked.select_resource(endless);
    assert!(matches!(body(&picked, Panel::ExperimentMetrics, &None), Body::Waiting(_)));
    assert!(matches!(
        body(&picked, Panel::ExperimentDetail, &Some(Ok(snapshot()))),
        Body::ExperimentDetail(Some(_))
    ));
    match body(&app, Panel::Experiments, &None) {
        Body::Waiting(n) => assert_eq!((n.class, n.text.as_str()), ("muted", "Loading Athena resources…")),
        _ => panic!("a notice"),
    }
    match body(&app, Panel::Experiments, &Some(Err("x".into()))) {
        Body::Waiting(n) => assert_eq!((n.class, n.text.as_str()), ("err", "Failed to load snapshot: x")),
        _ => panic!("a notice"),
    }
    assert!(matches!(body(&app, Panel::Reports, &Some(Ok(snapshot()))), Body::Reports(_)));
    assert!(matches!(
        body(&app, Panel::ExperimentDetail, &Some(Ok(snapshot()))),
        Body::ExperimentDetail(None)
    ));
    match admin_body(AdminPanel::NodePower, &Some(Err("x".into()))) {
        AdminBody::Waiting(n) => assert_eq!(n.text, "Failed to load scheduling: x"),
        _ => panic!("a notice"),
    }
}

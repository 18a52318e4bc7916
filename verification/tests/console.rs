use athena::console::commands::{check_url, configured_editor, grafana_url, open_workspace, WorkspaceStep};
use athena::console::icon::athena_window_icon;
use athena::console::pages::{table_width, workspace_action_path, Body, Press, TableColumn};
use athena::console::records::{
    ClusterSnapshot, MetricPanelSummary, ResourceManifestRef, ResourceSummary,
};
use athena::console::state::{
    Action, AthenaConsole, ConsoleView, EditorDocument, EditorKind, Message, PhaseFilter,
};
use athena::kubectl::{kubectl_outcome, kubectl_yaml, manifest_args, KubectlResult};

fn experiment_summary(
    name: &str,
    workspace_path: Option<&str>,
    detail: &str,
) -> ResourceSummary {
    ResourceSummary {
        namespace: "athena".to_string(),
        name: name.to_string(),
        kind: "experiment".to_string(),
        phase: "Running".to_string(),
        detail: detail.to_string(),
        workspace_path: workspace_path.map(ToString::to_string),
        logs_link: Some("https://logs.example.test".to_string()),
        metrics_link: Some("https://metrics.example.test".to_string()),
        metric_panels: vec![MetricPanelSummary {
            title: "Objective".to_string(),
            source: format!("athena/experiment/{name}"),
            objective: "reward maximize".to_string(),
            latest: "0.42".to_string(),
            best: "0.42".to_string(),
            series: "1 series / 1 points".to_string(),
            status: "Running".to_string(),
            metrics_link: Some("https://metrics.example.test".to_string()),
        }],
    }
}

fn console_with_snapshot(snapshot: ClusterSnapshot) -> AthenaConsole {
    AthenaConsole {
        active_view: ConsoleView::Experiments,
        phase_filter: PhaseFilter::All,
        snapshot,
        template_editor: EditorDocument::new("Template YAML", "test"),
        manifest_editor: EditorDocument::new("Manifest IDE", "test"),
        selected_resource: None,
        loading: false,
        error: None,
        action_status: None,
    }
}

fn send(console: &mut AthenaConsole, message: Message<u8>) -> Action<u8> {
    console.update(message)
}

#[test]
fn experiment_ide_manifest_path_formats_kind_namespace_and_name() {
    let resource = experiment_summary("train-canary", None, "canary");

    assert_eq!(
        resource.manifest_ref().manifest_path(),
        "k8s://athena/experiment/train-canary.yaml"
    );
}

#[test]
fn console_e2e_selecting_experiment_opens_resource_detail_view() {
    let resource = experiment_summary("canary-run-03", Some("/workspace/canary-run-03"), "ok");
    let resource_ref = resource.manifest_ref();
    let snapshot = ClusterSnapshot {
        experiments: vec![resource],
        ..Default::default()
    };
    let mut console = console_with_snapshot(snapshot);

    let _ = send(&mut console, Message::ResourceSelected(resource_ref.clone()));
    let page = console.window();
    assert!(matches!(page.body, Body::Resource(_)));

    assert_eq!(console.active_view, ConsoleView::Experiments);
    assert_eq!(console.selected_resource, Some(resource_ref));
    assert!(
        console
            .find_resource(console.selected_resource.as_ref().unwrap())
            .is_some()
    );
}

#[test]
fn console_e2e_status_detail_is_not_treated_as_workspace_action() {
    let resource = experiment_summary("canary-run-03", None, "PVC not found");
    let resource_ref = resource.manifest_ref();
    let snapshot = ClusterSnapshot {
        experiments: vec![resource],
        ..Default::default()
    };
    let mut console = console_with_snapshot(snapshot);

    let _ = send(&mut console, Message::ResourceSelected(resource_ref.clone()));
    let selected = console.find_resource(&resource_ref).unwrap();

    assert_eq!(selected.detail, "PVC not found");
    assert_eq!(workspace_action_path(selected), None);
}

#[test]
fn a_refresh_ends_with_what_came_back() {
    let mut console = AthenaConsole::start();
    assert!(matches!(console.body(), Body::Loading(_)));
    assert!(matches!(send(&mut console, Message::Loaded(Err("down".into()))), Action::Rest));
    match console.body() {
        Body::Failed(s) => assert_eq!(s, "Failed to load cluster resources: down"),
        other => panic!("{other:?}"),
    }
    assert!(matches!(send(&mut console, Message::Refresh), Action::LoadSnapshot));
    assert!(console.loading && console.error.is_none());
    let snapshot = ClusterSnapshot {
        experiments: vec![experiment_summary("a", None, "")],
        ..Default::default()
    };
    send(&mut console, Message::Loaded(Ok(snapshot)));
    assert!(!console.loading);
    assert_eq!(console.window().nav[0].label, "EXPERIMENTS  [1]");
    assert_eq!(console.window().nav[2].label, "BENCHMARKS  [0]");
}

#[test]
fn manifests_and_templates_land_in_their_editors() {
    let mut console = AthenaConsole::start();
    let resource = ResourceManifestRef {
        namespace: "ns".into(),
        name: "suite".into(),
        kind: "benchmarksuite".into(),
    };
    match send(&mut console, Message::OpenResourceManifest(resource.clone())) {
        Action::LoadManifest(m) => assert_eq!(m, resource),
        other => panic!("{other:?}"),
    }
    assert_eq!(console.active_view, ConsoleView::Benchmarks);
    match send(&mut console, Message::ResourceManifestLoaded(Ok((resource, "a: 1".into())))) {
        Action::SetText(EditorKind::Manifest, yaml) => assert_eq!(yaml, "a: 1"),
        other => panic!("{other:?}"),
    }
    assert_eq!(console.editor(EditorKind::Manifest).title, "benchmarksuite manifest");
    assert_eq!(
        console.editor(EditorKind::Manifest).source,
        "k8s://ns/benchmarksuite/suite.yaml"
    );
    send(
        &mut console,
        Message::TemplateYamlLoaded(Ok(("ns".into(), "t".into(), "y".into()))),
    );
    assert_eq!(
        console.editor(EditorKind::Template).source,
        "k8s://ns/experimenttemplate/t.yaml"
    );
    send(&mut console, Message::TemplateYamlLoaded(Err("no".into())));
    assert_eq!(
        console.action_status.as_deref(),
        Some("Failed to load template YAML: no")
    );
}

#[test]
fn the_clipboard_is_reported_in_the_status_line() {
    let mut console = AthenaConsole::start();
    assert!(matches!(
        send(&mut console, Message::CopyDocument(EditorKind::Template)),
        Action::CopyEditor(EditorKind::Template)
    ));
    assert_eq!(console.action_status.as_deref(), Some("Copied template YAML"));
    send(&mut console, Message::ClipboardRead(EditorKind::Manifest, None));
    assert_eq!(
        console.action_status.as_deref(),
        Some("Clipboard is empty or unavailable")
    );
    match send(&mut console, Message::ClipboardRead(EditorKind::Manifest, Some("x".into()))) {
        Action::Paste(EditorKind::Manifest, s) => assert_eq!(s, "x"),
        other => panic!("{other:?}"),
    }
    assert_eq!(
        console.action_status.as_deref(),
        Some("Pasted clipboard into manifest draft")
    );
    match send(&mut console, Message::EditDocument(EditorKind::Manifest, 7)) {
        Action::Edit(EditorKind::Manifest, 7) => {}
        other => panic!("{other:?}"),
    }
}

#[test]
fn the_filter_hides_other_phases() {
    let mut done = experiment_summary("b", None, "");
    done.phase = "Succeeded".into();
    let mut console = console_with_snapshot(ClusterSnapshot {
        experiments: vec![
            done.clone(),
            experiment_summary("a", Some("/w"), ""),
            done,
        ],
        ..Default::default()
    });
    let options: Vec<String> = console.phase_options().iter().map(|f| f.to_text()).collect();
    assert_eq!(options, vec!["All phases", "Running", "Succeeded"]);
    send(&mut console, Message::PhaseSelected(PhaseFilter::Phase("Running".into())));
    let lines = console.experiments_view();
    assert_eq!(lines.len(), 1);
    assert_eq!(lines[0].select.name, "a");
    let labels: Vec<&str> = lines[0].actions.iter().map(|b| b.label).collect();
    assert_eq!(labels, vec!["Manifest IDE", "Workspace", "Copy", "Logs", "Metrics"]);
    match &lines[0].actions[1].press {
        Press::Workspace(p) => assert_eq!(p, "/w"),
        other => panic!("{other:?}"),
    }
    assert_eq!(console.metric_panels().len(), 3);
    assert_eq!(console.metrics_debugging_panel().len(), 3);
}

#[test]
fn a_resource_that_is_gone_says_so() {
    let mut console = console_with_snapshot(ClusterSnapshot::default());
    let gone = ResourceManifestRef {
        namespace: "ns".into(),
        name: "x".into(),
        kind: "runtimeprofile".into(),
    };
    send(&mut console, Message::ResourceSelected(gone));
    match console.body() {
        Body::Gone(s) => assert_eq!(
            s,
            "runtimeprofile ns/x is no longer present in the loaded snapshot."
        ),
        other => panic!("{other:?}"),
    }
    send(&mut console, Message::BackToResourceList);
    assert_eq!(console.active_view, ConsoleView::Runtime);
    assert!(matches!(console.body(), Body::Runtime(_)));
}

#[test]
fn tables_are_as_wide_as_their_columns_and_gaps() {
    let columns = vec![
        TableColumn::portion("A", 2),
        TableColumn::portion("B", 1),
        TableColumn::portion("C", 4),
    ];
    assert_eq!(table_width(&columns), 7 * 170 + 2 * 16);
    assert_eq!(table_width(&vec![]), 0);
}

#[test]
fn commands_refuse_what_is_blank() {
    assert_eq!(check_url("  "), Err("URL is empty".to_string()));
    assert_eq!(check_url("https://x"), Ok(()));
    assert!(matches!(open_workspace(" ", true), WorkspaceStep::Refuse(_)));
    match open_workspace("/w", false) {
        WorkspaceStep::Report(s) => {
            assert_eq!(s, "Workspace path is cluster-only, not mounted locally: /w")
        }
        other => panic!("{other:?}"),
    }
    assert!(matches!(open_workspace("/w", true), WorkspaceStep::Open));
    assert_eq!(configured_editor(None, None, None), "lapce");
    assert_eq!(configured_editor(None, Some("vi".into()), Some("ed".into())), "vi");
    assert_eq!(grafana_url(Some("http://g".into())), "http://g");
}

#[test]
fn kubectl_answers_become_manifests_or_errors() {
    assert_eq!(
        manifest_args("ns", "experiment", "e"),
        vec!["-n", "ns", "get", "experiment", "e", "-o", "yaml"]
    );
    assert_eq!(kubectl_outcome(KubectlResult::Wrote("y".into())), Ok("y".to_string()));
    assert_eq!(
        kubectl_outcome(KubectlResult::Failed(" not found \n".into())),
        Err("not found".to_string())
    );
    assert_eq!(
        kubectl_yaml(KubectlResult::NotRun("nope".into())),
        (500, "failed to run kubectl: nope".to_string())
    );
    assert_eq!(kubectl_yaml(KubectlResult::Failed("x".into())), (502, "x".to_string()));
    assert_eq!(
        kubectl_outcome(KubectlResult::Garbled("bad byte".into())),
        Err("kubectl returned invalid UTF-8: bad byte".to_string())
    );
}

#[test]
fn the_icon_has_a_frame_and_a_letter() {
    let icon = athena_window_icon();
    assert_eq!(icon.len(), 64 * 64 * 4);
    assert_eq!(&icon[0..4], &[228, 228, 231, 255]);
    let at = |x: usize, y: usize| icon[(y * 64 + x) * 4..(y * 64 + x) * 4 + 4].to_vec();
    assert_eq!(at(30, 32), vec![244, 114, 182, 255]);
    assert_eq!(at(14, 16), vec![147, 197, 253, 255]);
    assert_eq!(at(32, 20), vec![0, 0, 0, 255]);
}

use athena::web::panels::{default_layout, research_views, Panel};
use athena::workspace::state::{
    delete_view, enforce_tile_minimums, initial_registry, initial_store_key, reset_view,
    save_view_as, switch_view, tile_floors, workspace_area_class, Effect,
};
use athena::workspace::views::{
    Mode, PanelKind, PanelWin, SavedViews, ViewPreset, ViewsSpec, WinState,
};

#[derive(Clone, Copy, PartialEq, Eq, Debug)]
enum P {
    A,
    B,
    C,
}

impl PanelKind for P {
    fn is(&self, other: &Self) -> bool {
        self == other
    }
}

fn spec() -> ViewsSpec<P> {
    ViewsSpec {
        base: "t",
        presets: vec![
            ViewPreset {
                name: "One",
                mode: Mode::Tiling,
                panels: vec![(P::B, 3, 4), (P::A, 1, 2)],
            },
            ViewPreset {
                name: "Two",
                mode: Mode::Floating,
                panels: vec![(P::C, 4, 4)],
            },
        ],
    }
}

fn defaults() -> Vec<PanelWin<P, (i32, i32)>> {
    [P::A, P::B, P::C]
        .into_iter()
        .map(|kind| PanelWin {
            kind,
            state: WinState::Floating,
            tile_w: 1,
            tile_h: 1,
            place: (0, 0),
        })
        .collect()
}

fn registry(views: &[&str], active: &str) -> SavedViews {
    SavedViews {
        views: views.iter().map(|v| v.to_string()).collect(),
        active: active.to_string(),
    }
}

#[test]
fn preset_orders_visible_panels_and_minimizes_the_rest() {
    let (panels, mode) = spec().panels_for("One", &defaults());
    assert_eq!(mode, Mode::Tiling);
    let order: Vec<(P, WinState, u8, u8)> = panels
        .iter()
        .map(|p| (p.kind, p.state, p.tile_w, p.tile_h))
        .collect();
    assert_eq!(order[0], (P::B, WinState::Floating, 3, 4));
    assert_eq!(order[1], (P::A, WinState::Floating, 1, 2));
    assert_eq!((order[2].0, order[2].1), (P::C, WinState::Minimized));
}

#[test]
fn custom_view_falls_back_to_first_preset() {
    let (panels, _) = spec().panels_for("mine", &defaults());
    assert_eq!(panels[0].kind, P::B);
}

#[test]
fn sanitize_readds_presets_and_keeps_custom_views() {
    let stored = SavedViews {
        views: vec!["mine".into()],
        active: "mine".into(),
    };
    let r = spec().sanitize(stored);
    assert!(r.views.iter().any(|v| v == "One"));
    assert!(r.views.iter().any(|v| v == "Two"));
    assert!(r.views.iter().any(|v| v == "mine"));
    assert_eq!(r.active, "mine");
}

#[test]
fn a_workspace_starts_from_its_registry() {
    let s = spec();
    let fresh = initial_registry(Some(&s), None);
    assert_eq!(fresh, registry(&["One", "Two"], "One"));
    let stored = initial_registry(Some(&s), Some(registry(&["mine"], "mine")));
    assert_eq!(stored, registry(&["mine", "One", "Two"], "mine"));
    assert_eq!(initial_registry::<P>(None, None), registry(&["Main"], "Main"));
    assert_eq!(initial_store_key(Some(&s), "One", "key"), "t:view:One");
    assert_eq!(initial_store_key::<P>(None, "One", "key"), "key");
    assert_eq!(s.registry_key(), "t:views");
}

#[test]
fn switching_stores_the_view_that_is_left() {
    let now = registry(&["One", "Two"], "One");
    let next = registry(&["One", "Two"], "Two");
    assert_eq!(
        switch_view(&now, "Two", Some(&next)),
        vec![
            Effect::StoreView("One".into()),
            Effect::SaveRegistry,
            Effect::Load("Two".into()),
            Effect::SetRegistry,
        ]
    );
    assert_eq!(switch_view(&now, "One", Some(&now)), vec![]);
    assert_eq!(switch_view(&now, "Nine", None), vec![]);
    assert_eq!(
        reset_view(&now),
        vec![
            Effect::ForgetLayout("One".into()),
            Effect::ShowPreset("One".into()),
        ]
    );
}

#[test]
fn presets_are_permanent_and_custom_views_are_not() {
    let s = spec();
    let now = registry(&["One", "Two", "mine"], "mine");
    let next = registry(&["One", "Two"], "One");
    assert_eq!(delete_view(&s, &now, "One", Some(&next)), vec![]);
    assert_eq!(
        delete_view(&s, &now, "mine", Some(&next)),
        vec![
            Effect::ForgetLayout("mine".into()),
            Effect::SaveRegistry,
            Effect::Load("One".into()),
            Effect::SetRegistry,
        ]
    );
    let (name, stored) = save_view_as(&next, &now);
    assert_eq!(name, "mine");
    assert_eq!(
        stored,
        vec![Effect::StoreView("One".into()), Effect::StoreView("mine".into())]
    );
}

#[test]
fn floors_raise_low_tiles_only() {
    let mut panels = defaults();
    panels[1].tile_h = 9;
    let floors = vec![(P::A, 3), (P::B, 3)];
    enforce_tile_minimums(&mut panels, &floors);
    let heights: Vec<u8> = panels.iter().map(|p| p.tile_h).collect();
    assert_eq!(heights, vec![3, 9, 1]);
    assert!(tile_floors(true, &panels).is_empty());
    assert_eq!(tile_floors(false, &panels).len(), 3);
    assert_eq!(workspace_area_class(true, Mode::Tiling), "ws maxed");
    assert_eq!(workspace_area_class(false, Mode::Tiling), "ws tiling");
    assert_eq!(workspace_area_class(false, Mode::Floating), "ws floating");
}

#[test]
fn the_research_layout_holds_every_panel_once() {
    let wins = default_layout(40);
    assert_eq!(wins.len(), 11);
    assert_eq!(wins[0].place.y, 16);
    assert_eq!(wins[1].place.y, 16 + 460 + 16);
    assert_eq!(wins[6].kind, Panel::ExperimentDetail);
    assert_eq!((wins[6].place.x, wins[6].place.w), (672, 620));
    assert_eq!(wins[0].tile_h, 12);
    let (panels, mode) = research_views().panels_for("Reports", &wins);
    assert_eq!(mode, Mode::Tiling);
    assert_eq!(panels.len(), 11);
    assert_eq!(panels[0].kind, Panel::Reports);
    assert_eq!(panels[2].state, WinState::Minimized);
}

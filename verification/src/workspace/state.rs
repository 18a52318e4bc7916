//! What a workspace does when its views are switched, saved, reset and deleted, and the
//! rules on its tiles.
//!
//! The browser's storage and the registry of views belong to the host: it performs the
//! effects that are decided here, in their order.

use vstd::prelude::*;
use crate::text::{cat, same};
use crate::workspace::views::{
    absent, minimized_panels, preset_names, visible_panels, Mode, PanelKind, PanelWin, SavedViews, ViewsSpec,
};

verus! {

broadcast use vstd::seq_lib::group_seq_properties;

/// One thing that the host does.
#[derive(Debug, PartialEq)]
pub enum Effect {
    /// Store the current snapshot as the layout of the view.
    StoreView(String),
    /// Forget the stored layout of the view.
    ForgetLayout(String),
    /// Show the layout of the view, stored or preset.
    Load(String),
    /// Show the preset of the view, and keep the viewport.
    ShowPreset(String),
    /// Persist layouts under the key from now on.
    SetStoreKey(String),
    /// Store the new registry.
    SaveRegistry,
    /// Take the new registry over.
    SetRegistry,
}

/// What an effect is.
pub ghost enum EffectView {
    StoreView(Seq<char>),
    ForgetLayout(Seq<char>),
    Load(Seq<char>),
    ShowPreset(Seq<char>),
    SetStoreKey(Seq<char>),
    SaveRegistry,
    SetRegistry,
}

impl View for Effect {
    type V = EffectView;

    open spec fn view(&self) -> EffectView {
        match *self {
            Effect::StoreView(v) => EffectView::StoreView(v@),
            Effect::ForgetLayout(v) => EffectView::ForgetLayout(v@),
            Effect::Load(v) => EffectView::Load(v@),
            Effect::ShowPreset(v) => EffectView::ShowPreset(v@),
            Effect::SetStoreKey(v) => EffectView::SetStoreKey(v@),
            Effect::SaveRegistry => EffectView::SaveRegistry,
            Effect::SetRegistry => EffectView::SetRegistry,
        }
    }
}

/// What the effects are, in their order.
pub open spec fn effects(v: Seq<Effect>) -> Seq<EffectView> {
    v.map_values(|e: Effect| e@)
}

/// Persist the current snapshot as the active view, then load `name`. `activated` is the
/// registry with the view active, if the registry takes it.
pub fn switch_view(registry: &SavedViews, name: &str, activated: Option<&SavedViews>) -> (r: Vec<
    Effect,
>)
    ensures
        effects(r@) == (if registry.active@ == name@ || activated is None {
            Seq::empty()
        } else {
            seq![
                EffectView::StoreView(registry.active@),
                EffectView::SaveRegistry,
                EffectView::Load(activated->0.active@),
                EffectView::SetRegistry,
            ]
        }),
{
    let mut out: Vec<Effect> = Vec::new();
    if !same(registry.active.as_str(), name) {
        if let Some(next) = activated {
            out.push(Effect::StoreView(registry.active.clone()));
            out.push(Effect::SaveRegistry);
            out.push(Effect::Load(next.active.clone()));
            out.push(Effect::SetRegistry);
            assert(effects(out@) =~= seq![
                EffectView::StoreView(registry.active@),
                EffectView::SaveRegistry,
                EffectView::Load(next.active@),
                EffectView::SetRegistry,
            ]);
            return out;
        }
    }
    assert(effects(out@) =~= Seq::empty());
    out
}

/// Restore the active view to its preset and forget its stored layout.
pub fn reset_view(registry: &SavedViews) -> (r: Vec<Effect>)
    ensures
        effects(r@) == seq![
            EffectView::ForgetLayout(registry.active@),
            EffectView::ShowPreset(registry.active@),
        ],
{
    let mut out: Vec<Effect> = Vec::new();
    out.push(Effect::ForgetLayout(registry.active.clone()));
    out.push(Effect::ShowPreset(registry.active.clone()));
    assert(effects(out@) =~= seq![
        EffectView::ForgetLayout(registry.active@),
        EffectView::ShowPreset(registry.active@),
    ]);
    out
}

/// The name that the registry gave the last view.
pub open spec fn last_view(r: SavedViews) -> Seq<char> {
    if r.views@.len() == 0 {
        Seq::empty()
    } else {
        r.views@.last()@
    }
}

/// The first half of creating a custom view from the current snapshot: `added` is the registry
/// with the new view. Gives the name of the view, and what is stored before it is activated.
pub fn save_view_as(registry: &SavedViews, added: &SavedViews) -> (r: (String, Vec<Effect>))
    ensures
        r.0@ == last_view(*added),
        effects(r.1@) == seq![
            EffectView::StoreView(registry.active@),
            EffectView::StoreView(last_view(*added)),
        ],
{
    let name = if added.views.len() == 0 {
        String::new()
    } else {
        added.views[added.views.len() - 1].clone()
    };
    let mut out: Vec<Effect> = Vec::new();
    out.push(Effect::StoreView(registry.active.clone()));
    out.push(Effect::StoreView(name.clone()));
    assert(effects(out@) =~= seq![
        EffectView::StoreView(registry.active@),
        EffectView::StoreView(last_view(*added)),
    ]);
    (name, out)
}

/// The second half of creating a custom view, once the registry has activated it.
pub fn activate_saved_view<K: PanelKind>(spec: &ViewsSpec<K>, name: &str) -> (r: Vec<Effect>)
    ensures
        effects(r@) == seq![
            EffectView::SaveRegistry,
            EffectView::SetStoreKey(spec.base@ + ":view:"@ + name@),
            EffectView::SetRegistry,
        ],
{
    let mut out: Vec<Effect> = Vec::new();
    out.push(Effect::SaveRegistry);
    out.push(Effect::SetStoreKey(spec.layout_key(name)));
    out.push(Effect::SetRegistry);
    assert(effects(out@) =~= seq![
        EffectView::SaveRegistry,
        EffectView::SetStoreKey(spec.base@ + ":view:"@ + name@),
        EffectView::SetRegistry,
    ]);
    out
}

/// Delete a custom view (presets are permanent). `removed` is the registry without the view,
/// if the registry lets it go.
pub fn delete_view<K: PanelKind>(
    spec: &ViewsSpec<K>,
    registry: &SavedViews,
    name: &str,
    removed: Option<&SavedViews>,
) -> (r: Vec<Effect>)
    ensures
        effects(r@) == (if preset_names(spec.presets@).contains(name@) || removed is None {
            Seq::empty()
        } else if registry.active@ == name@ {
            seq![
                EffectView::ForgetLayout(name@),
                EffectView::SaveRegistry,
                EffectView::Load(removed->0.active@),
                EffectView::SetRegistry,
            ]
        } else {
            seq![EffectView::ForgetLayout(name@), EffectView::SaveRegistry, EffectView::SetRegistry]
        }),
{
    let mut out: Vec<Effect> = Vec::new();
    if !spec.is_preset(name) {
        if let Some(next) = removed {
            out.push(Effect::ForgetLayout(name.to_owned()));
            out.push(Effect::SaveRegistry);
            if same(registry.active.as_str(), name) {
                out.push(Effect::Load(next.active.clone()));
                out.push(Effect::SetRegistry);
                assert(effects(out@) =~= seq![
                    EffectView::ForgetLayout(name@),
                    EffectView::SaveRegistry,
                    EffectView::Load(next.active@),
                    EffectView::SetRegistry,
                ]);
            } else {
                out.push(Effect::SetRegistry);
                assert(effects(out@) =~= seq![
                    EffectView::ForgetLayout(name@),
                    EffectView::SaveRegistry,
                    EffectView::SetRegistry,
                ]);
            }
            return out;
        }
    }
    assert(effects(out@) =~= Seq::empty());
    out
}

// ---------------------------------------------------------------------------
// How a workspace starts
// ---------------------------------------------------------------------------

/// The registry that a workspace starts with: the stored one with every preset in it, else a
/// fresh one; a workspace without views has its one layout.
pub fn initial_registry<K: PanelKind>(
    views: Option<&ViewsSpec<K>>,
    stored: Option<SavedViews>,
) -> (r: SavedViews)
    requires
        views matches Some(spec) ==> spec.presets@.len() > 0,
    ensures
        match (views, stored) {
            (Some(spec), Some(s)) => r.active == s.active && r.views.deep_view()
                == s.views.deep_view() + absent(
                preset_names(spec.presets@),
                s.views.deep_view(),
            ),
            (Some(spec), None) => r.active@ == spec.presets@[0].name@ && r.views.deep_view()
                == preset_names(spec.presets@),
            (None, _) => r.active@ == "Main"@ && r.views.deep_view() == seq!["Main"@],
        },
{
    match (views, stored) {
        (Some(spec), Some(s)) => spec.sanitize(s),
        (Some(spec), None) => spec.fresh_registry(),
        (None, _) => {
            let mut names: Vec<String> = Vec::new();
            names.push("Main".to_owned());
            assert(names.deep_view() =~= seq!["Main"@]);
            SavedViews { views: names, active: "Main".to_owned() }
        },
    }
}

/// Where a workspace persists its layout: that of the active view, else its own key.
pub fn initial_store_key<K: PanelKind>(
    views: Option<&ViewsSpec<K>>,
    active: &str,
    storage_key: &str,
) -> (r: String)
    ensures
        r@ == (match views {
            Some(spec) => spec.base@ + ":view:"@ + active@,
            None => storage_key@,
        }),
{
    match views {
        Some(spec) => spec.layout_key(active),
        None => storage_key.to_owned(),
    }
}

// ---------------------------------------------------------------------------
// Layouts
// ---------------------------------------------------------------------------

/// The panels that `view` starts with: those of its preset, or the plain defaults where the
/// workspace has no views.
pub fn view_defaults<K: PanelKind, G: Copy>(
    views: Option<&ViewsSpec<K>>,
    view: &str,
    panels: &[PanelWin<K, G>],
) -> (r: (Vec<PanelWin<K, G>>, Mode))
    requires
        views matches Some(spec) ==> spec.presets@.len() > 0,
    ensures
        match views {
            Some(spec) => r.0@ == visible_panels(spec.chosen(view@).panels@, panels@)
                + minimized_panels(spec.chosen(view@).panels@, panels@) && r.1 == spec.chosen(
                view@,
            ).mode,
            None => r.0@ == panels@ && r.1 == Mode::Floating,
        },
{
    match views {
        Some(spec) => spec.panels_for(view, panels),
        None => {
            let mut out: Vec<PanelWin<K, G>> = Vec::new();
            let mut i: usize = 0;
            while i < panels.len()
                invariant
                    i <= panels.len(),
                    out@ == panels@.take(i as int),
                decreases panels.len() - i,
            {
                out.push(panels[i]);
                assert(out@ =~= panels@.take(i + 1));
                i = i + 1;
            }
            assert(panels@.take(i as int) =~= panels@);
            (out, Mode::Floating)
        },
    }
}

/// The authored heights of the panels. They become tile-row floors for a workspace without
/// views; presets own their spans, so views get no floors.
pub fn tile_floors<K: PanelKind, G: Copy>(with_views: bool, panels: &[PanelWin<K, G>]) -> (r: Vec<
    (K, u8),
>)
    ensures
        r@ == (if with_views {
            Seq::empty()
        } else {
            panels@.map_values(|p: PanelWin<K, G>| (p.kind, p.tile_h))
        }),
{
    let ghost all = panels@.map_values(|p: PanelWin<K, G>| (p.kind, p.tile_h));
    let mut out: Vec<(K, u8)> = Vec::new();
    if !with_views {
        let mut i: usize = 0;
        while i < panels.len()
            invariant
                i <= panels.len(),
                all == panels@.map_values(|p: PanelWin<K, G>| (p.kind, p.tile_h)),
                out@ == all.take(i as int),
            decreases panels.len() - i,
        {
            out.push((panels[i].kind, panels[i].tile_h));
            assert(out@ =~= all.take(i + 1));
            i = i + 1;
        }
        assert(all.take(i as int) =~= all);
    }
    out
}

/// The floor of the panel: that of the first entry for it, or none.
pub open spec fn floor_of<K>(minimums: Seq<(K, u8)>, kind: K) -> u8
    decreases minimums.len(),
{
    if minimums.len() == 0 {
        0
    } else if minimums[0].0 == kind {
        minimums[0].1
    } else {
        floor_of(minimums.drop_first(), kind)
    }
}

/// The panel, no lower than its floor.
pub open spec fn raised<K, G>(p: PanelWin<K, G>, minimums: Seq<(K, u8)>) -> PanelWin<K, G> {
    if p.tile_h < floor_of(minimums, p.kind) {
        PanelWin { tile_h: floor_of(minimums, p.kind), ..p }
    } else {
        p
    }
}

fn find_floor<K: PanelKind>(minimums: &[(K, u8)], kind: K) -> (r: u8)
    ensures
        r == floor_of(minimums@, kind),
{
    let mut i: usize = 0;
    assert(minimums@.skip(0) =~= minimums@);
    while i < minimums.len()
        invariant
            i <= minimums.len(),
            floor_of(minimums@, kind) == floor_of(minimums@.skip(i as int), kind),
        decreases minimums.len() - i,
    {
        assert(minimums@.skip(i as int)[0] == minimums@[i as int]);
        assert(minimums@.skip(i as int).drop_first() =~= minimums@.skip(i + 1));
        if minimums[i].0.is(&kind) {
            return minimums[i].1;
        }
        i = i + 1;
    }
    0
}

/// Keep authored tile-height floors after restoring old layouts or resizing.
pub fn enforce_tile_minimums<K: PanelKind, G: Copy>(
    panels: &mut Vec<PanelWin<K, G>>,
    minimums: &[(K, u8)],
)
    ensures
        final(panels)@ == old(panels)@.map_values(|p: PanelWin<K, G>| raised(p, minimums@)),
{
    let ghost before = panels@;
    let mut i: usize = 0;
    while i < panels.len()
        invariant
            i <= panels.len(),
            panels.len() == before.len(),
            forall|k: int| 0 <= k < i ==> #[trigger] panels@[k] == raised(before[k], minimums@),
            forall|k: int| i <= k < panels.len() ==> #[trigger] panels@[k] == before[k],
        decreases panels.len() - i,
    {
        let p = panels[i];
        let floor: u8 = find_floor(minimums, p.kind);
        if p.tile_h < floor {
            panels.set(
                i,
                PanelWin {
                    kind: p.kind,
                    state: p.state,
                    tile_w: p.tile_w,
                    tile_h: floor,
                    place: p.place,
                },
            );
        }
        i = i + 1;
    }
    assert(panels@ =~= before.map_values(|p: PanelWin<K, G>| raised(p, minimums@)));
}

/// After the floors are enforced no panel is lower than its floor, and enforcing them again
/// changes nothing.
pub proof fn floors_hold<K, G>(panels: Seq<PanelWin<K, G>>, minimums: Seq<(K, u8)>, i: int)
    requires
        0 <= i < panels.len(),
    ensures
        raised(panels[i], minimums).tile_h >= floor_of(minimums, panels[i].kind),
        raised(raised(panels[i], minimums), minimums) == raised(panels[i], minimums),
        raised(panels[i], minimums).kind == panels[i].kind,
{
}

/// What stands in a workspace that has no room for its panels.
pub fn frame_notice(too_small: bool) -> (r: Option<&'static str>)
    ensures
        r is Some <==> too_small,
        r matches Some(s) ==> s@ == "The viewport is too small for the panel workspace."@,
{
    if too_small {
        Some("The viewport is too small for the panel workspace.")
    } else {
        None
    }
}

/// CSS class of the panel with the slug.
pub fn panel_class(slug: &str) -> (r: String)
    ensures
        r@ == "panel-"@ + slug@,
{
    cat("panel-", slug)
}

/// CSS class for the `.ws` area that contains projected panels.
pub fn workspace_area_class(any_maximized: bool, mode: Mode) -> (r: &'static str)
    ensures
        r@ == (if any_maximized {
            "ws maxed"@
        } else if mode == Mode::Tiling {
            "ws tiling"@
        } else {
            "ws floating"@
        }),
{
    if any_maximized {
        "ws maxed"
    } else if mode == Mode::Tiling {
        "ws tiling"
    } else {
        "ws floating"
    }
}

/// A tile is raised to the least height of its kind, and left alone where it is that high or its
/// kind has none.
pub proof fn a_tile_is_raised_to_its_floor<K, G>(
    p: PanelWin<K, G>,
    minimums: Seq<(K, u8)>,
    j: int,
)
    requires
        0 <= j < minimums.len(),
        minimums[j].0 == p.kind,
        forall|k: int| 0 <= k < j ==> (#[trigger] minimums[k]).0 != p.kind,
    ensures
        raised(p, minimums).tile_h == (if p.tile_h < minimums[j].1 {
            minimums[j].1
        } else {
            p.tile_h
        }),
        raised(p, minimums).tile_w == p.tile_w,
        raised(p, minimums).state == p.state,
        raised(p, minimums).place == p.place,
{
    lemma_floor(minimums, p.kind, j);
}

proof fn lemma_floor<K>(minimums: Seq<(K, u8)>, kind: K, j: int)
    requires
        0 <= j < minimums.len(),
        minimums[j].0 == kind,
        forall|k: int| 0 <= k < j ==> (#[trigger] minimums[k]).0 != kind,
    ensures
        floor_of(minimums, kind) == minimums[j].1,
    decreases minimums.len(),
{
    if j > 0 {
        assert(minimums[0].0 != kind);
        let rest = minimums.drop_first();
        assert forall|k: int| 0 <= k < j - 1 implies (#[trigger] rest[k]).0 != kind by {
            assert(rest[k] == minimums[k + 1]);
        }
        lemma_floor(rest, kind, j - 1);
    }
}

/// The last view is the one that was added last.
pub proof fn the_last_view_was_added_last(r: SavedViews)
    ensures
        r.views@.len() > 0 ==> last_view(r) == r.views@[r.views@.len() - 1]@,
        r.views@.len() == 0 ==> last_view(r).len() == 0,
{
}

/// Switching to the view that is shown does nothing; switching to another one stores what is shown
/// first and then loads that one.
pub proof fn switching_stores_before_it_loads(
    registry: &SavedViews,
    name: &str,
    activated: Option<&SavedViews>,
    r: Vec<Effect>,
)
    requires
        call_ensures(switch_view, (registry, name, activated), r),
    ensures
        registry.active@ == name@ ==> r@.len() == 0,
        activated is None ==> r@.len() == 0,
        registry.active@ != name@ && activated is Some ==> r@.len() == 4 && r@[0]@
            == EffectView::StoreView(registry.active@) && r@[1]@ == EffectView::SaveRegistry
            && r@[2]@ == EffectView::Load(activated->0.active@) && r@[3]@
            == EffectView::SetRegistry,
{
    let all = effects(r@);
    assert(all.len() == r@.len());
    if registry.active@ != name@ && activated is Some {
        assert(all[0] == r@[0]@);
        assert(all[1] == r@[1]@);
        assert(all[2] == r@[2]@);
        assert(all[3] == r@[3]@);
    }
}

/// A preset is never deleted; a view of one's own loses its layout, and what is shown instead is
/// loaded only where it was the one that was shown.
pub proof fn a_preset_is_never_deleted<K: PanelKind>(
    spec: &ViewsSpec<K>,
    registry: &SavedViews,
    name: &str,
    removed: Option<&SavedViews>,
    r: Vec<Effect>,
    i: int,
)
    requires
        call_ensures(delete_view::<K>, (spec, registry, name, removed), r),
    ensures
        0 <= i < spec.presets@.len() && spec.presets@[i].name@ == name@ ==> r@.len() == 0,
        removed is None ==> r@.len() == 0,
        removed is Some && (forall|k: int|
            0 <= k < spec.presets@.len() ==> (#[trigger] spec.presets@[k]).name@ != name@)
            ==> r@.len() > 0 && r@[0]@ == EffectView::ForgetLayout(name@) && (registry.active@
            == name@ ==> r@.len() == 4 && r@[2]@ == EffectView::Load(removed->0.active@)),
{
    let names = preset_names(spec.presets@);
    assert(names.len() == spec.presets@.len());
    if 0 <= i < spec.presets@.len() && spec.presets@[i].name@ == name@ {
        assert(names[i] == name@);
        assert(names.contains(name@));
    }
    if names.contains(name@) {
        let k = names.index_of(name@);
        assert(spec.presets@[k].name@ == name@);
    }
    let all = effects(r@);
    assert(all.len() == r@.len());
    if r@.len() > 0 {
        assert(all[0] == r@[0]@);
    }
    if r@.len() > 2 {
        assert(all[2] == r@[2]@);
    }
}

/// Resetting a view forgets its layout before it shows the preset; a view is saved under a new name
/// after the one that is shown was stored.
pub proof fn resetting_forgets_before_it_shows(
    registry: &SavedViews,
    r: Vec<Effect>,
    added: &SavedViews,
    s: (String, Vec<Effect>),
)
    requires
        call_ensures(reset_view, (registry,), r),
        call_ensures(save_view_as, (registry, added), s),
    ensures
        r@.len() == 2,
        r@[0]@ == EffectView::ForgetLayout(registry.active@),
        r@[1]@ == EffectView::ShowPreset(registry.active@),
        s.1@.len() == 2,
        s.1@[0]@ == EffectView::StoreView(registry.active@),
        s.1@[1]@ == EffectView::StoreView(s.0@),
        added.views@.len() > 0 ==> s.0@ == added.views@.last()@,
{
    let a = effects(r@);
    let b = effects(s.1@);
    assert(a.len() == r@.len() && b.len() == s.1@.len());
    assert(a[0] == r@[0]@ && a[1] == r@[1]@);
    assert(b[0] == s.1@[0]@ && b[1] == s.1@[1]@);
}

} // verus!

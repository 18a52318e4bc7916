//! Named views: preset panel combinations + layout + mode, one stored layout
//! per view, switched from the top bar.
//!
//! The registry lives at `{base}:views`, each view's layout at
//! `{base}:view:{name}`. Presets are code-defined (which panels are visible, their
//! tile spans and order); any user edit persists into the active view, and "Reset"
//! returns it to its preset. Custom views start from the current snapshot.

use vstd::prelude::*;
use crate::text::same;

verus! {

broadcast use vstd::seq_lib::group_seq_properties;

/// What tells the panels of one workspace apart.
pub trait PanelKind: Copy + Sized {
    /// Whether the two are one panel.
    fn is(&self, other: &Self) -> (r: bool)
        ensures
            r == (*self == *other),
    ;
}

/// How a workspace lays its panels out.
#[derive(Debug, Clone, Copy, PartialEq, Eq, Structural)]
pub enum Mode {
    Floating,
    Tiling,
}

/// What a panel is doing.
#[derive(Debug, Clone, Copy, PartialEq, Eq, Structural)]
pub enum WinState {
    Floating,
    Minimized,
    Maximized,
}

/// One panel of a layout; `G` is where it floats.
#[derive(Debug, Clone, Copy)]
pub struct PanelWin<K, G> {
    pub kind: K,
    pub state: WinState,
    /// How many columns the panel takes when tiled.
    pub tile_w: u8,
    /// How many rows the panel takes when tiled.
    pub tile_h: u8,
    pub place: G,
}

/// The views that a user has, and the one that is shown.
#[derive(Debug, PartialEq)]
pub struct SavedViews {
    pub views: Vec<String>,
    pub active: String,
}

/// One code-defined view: visible panels in tiling order with their spans.
pub struct ViewPreset<K> {
    pub name: &'static str,
    pub mode: Mode,
    /// (panel, tile_w, tile_h). Every panel not listed is minimized.
    pub panels: Vec<(K, u8, u8)>,
}

/// Views configuration for one workspace.
pub struct ViewsSpec<K> {
    pub base: &'static str,
    pub presets: Vec<ViewPreset<K>>,
}

/// The names of the presets, in order.
pub open spec fn preset_names<K>(presets: Seq<ViewPreset<K>>) -> Seq<Seq<char>> {
    presets.map_values(|p: ViewPreset<K>| p.name@)
}

/// The first preset with the name.
pub open spec fn preset_at<K>(presets: Seq<ViewPreset<K>>, name: Seq<char>) -> Option<int>
    decreases presets.len(),
{
    if presets.len() == 0 {
        None
    } else {
        match preset_at(presets.drop_last(), name) {
            Some(i) => Some(i),
            None => if presets.last().name@ == name {
                Some(presets.len() - 1)
            } else {
                None
            },
        }
    }
}

proof fn lemma_preset_at<K>(presets: Seq<ViewPreset<K>>, name: Seq<char>)
    ensures
        preset_at(presets, name) matches Some(i) ==> 0 <= i < presets.len() && presets[i].name@
            == name,
        preset_at(presets, name) is Some <==> preset_names(presets).contains(name),
    decreases presets.len(),
{
    let names = preset_names(presets);
    if presets.len() > 0 {
        let shorter = presets.drop_last();
        lemma_preset_at(shorter, name);
        if preset_names(shorter).contains(name) {
            let k = preset_names(shorter).index_of(name);
            assert(names[k] == name);
        }
        if presets.last().name@ == name {
            assert(names[names.len() - 1] == name);
        }
        if names.contains(name) {
            let k = names.index_of(name);
            if k < shorter.len() {
                assert(preset_names(shorter)[k] == name);
            }
        }
    }
}

/// The names that are missing from the views, each once, in order.
pub open spec fn absent(names: Seq<Seq<char>>, views: Seq<Seq<char>>) -> Seq<Seq<char>>
    decreases names.len(),
{
    if names.len() == 0 {
        Seq::empty()
    } else {
        let rest = absent(names.drop_last(), views);
        if views.contains(names.last()) || rest.contains(names.last()) {
            rest
        } else {
            rest.push(names.last())
        }
    }
}

/// The preset lists the panel.
pub open spec fn lists_panel<K>(panels: Seq<(K, u8, u8)>, kind: K) -> bool {
    exists|i: int| 0 <= i < panels.len() && (#[trigger] panels[i]).0 == kind
}

/// The first panel of the kind among the defaults.
pub open spec fn default_of<K, G>(defaults: Seq<PanelWin<K, G>>, kind: K) -> Option<PanelWin<K, G>>
    decreases defaults.len(),
{
    if defaults.len() == 0 {
        None
    } else {
        match default_of(defaults.drop_last(), kind) {
            Some(d) => Some(d),
            None => if defaults.last().kind == kind {
                Some(defaults.last())
            } else {
                None
            },
        }
    }
}

/// The panels that the preset lists, with its spans, in its order.
pub open spec fn visible_panels<K, G>(
    panels: Seq<(K, u8, u8)>,
    defaults: Seq<PanelWin<K, G>>,
) -> Seq<PanelWin<K, G>>
    decreases panels.len(),
{
    if panels.len() == 0 {
        Seq::empty()
    } else {
        let rest = visible_panels(panels.drop_last(), defaults);
        match default_of(defaults, panels.last().0) {
            Some(d) => rest.push(
                PanelWin {
                    tile_w: panels.last().1,
                    tile_h: panels.last().2,
                    state: WinState::Floating,
                    ..d
                },
            ),
            None => rest,
        }
    }
}

/// The defaults that the preset does not list, minimized.
pub open spec fn minimized_panels<K, G>(
    panels: Seq<(K, u8, u8)>,
    defaults: Seq<PanelWin<K, G>>,
) -> Seq<PanelWin<K, G>>
    decreases defaults.len(),
{
    if defaults.len() == 0 {
        Seq::empty()
    } else {
        let rest = minimized_panels(panels, defaults.drop_last());
        if lists_panel(panels, defaults.last().kind) {
            rest
        } else {
            rest.push(PanelWin { state: WinState::Minimized, ..defaults.last() })
        }
    }
}

impl<K: PanelKind> ViewsSpec<K> {
    /// The preset that lays out the view: its own, or the first for a custom view.
    pub open spec fn chosen(&self, view: Seq<char>) -> ViewPreset<K> {
        match preset_at(self.presets@, view) {
            Some(i) => self.presets@[i],
            None => self.presets@[0],
        }
    }

    /// The preset with the name, if there is one.
    pub fn preset(&self, name: &str) -> (r: Option<&ViewPreset<K>>)
        ensures
            match preset_at(self.presets@, name@) {
                Some(i) => r == Some(&self.presets@[i]),
                None => r is None,
            },
            r is Some <==> preset_names(self.presets@).contains(name@),
    {
        proof {
            lemma_preset_at(self.presets@, name@);
        }
        let mut i: usize = 0;
        while i < self.presets.len()
            invariant
                i <= self.presets.len(),
                preset_at(self.presets@.take(i as int), name@) is None,
                preset_at(self.presets@, name@) is Some <==> preset_names(
                    self.presets@,
                ).contains(name@),
            decreases self.presets.len() - i,
        {
            assert(self.presets@.take(i + 1).drop_last() =~= self.presets@.take(i as int));
            if same(self.presets[i].name, name) {
                proof {
                    lemma_preset_prefix(self.presets@, name@, i + 1);
                }
                return Some(&self.presets[i]);
            }
            i = i + 1;
        }
        assert(self.presets@.take(i as int) =~= self.presets@);
        None
    }

    /// Whether the view is a preset.
    pub fn is_preset(&self, name: &str) -> (r: bool)
        ensures
            r == preset_names(self.presets@).contains(name@),
    {
        self.preset(name).is_some()
    }

    /// Initial registry: all presets, first active.
    pub fn fresh_registry(&self) -> (r: SavedViews)
        requires
            self.presets@.len() > 0,
        ensures
            r.views.deep_view() == preset_names(self.presets@),
            r.active@ == self.presets@[0].name@,
    {
        let ghost names = preset_names(self.presets@);
        let mut views: Vec<String> = Vec::new();
        let mut i: usize = 0;
        while i < self.presets.len()
            invariant
                i <= self.presets.len(),
                names == preset_names(self.presets@),
                views.deep_view() == names.take(i as int),
            decreases self.presets.len() - i,
        {
            let ghost before = views.deep_view();
            let name = self.presets[i].name.to_owned();
            views.push(name);
            assert(views.deep_view() =~= before.push(name@));
            assert(names[i as int] == name@);
            assert(before.push(name@) =~= names.take(i + 1));
            i = i + 1;
        }
        assert(names.take(i as int) =~= names);
        SavedViews { views, active: self.presets[0].name.to_owned() }
    }

    /// Re-add any preset missing from a stored registry, keeping custom views.
    pub fn sanitize(&self, registry: SavedViews) -> (r: SavedViews)
        ensures
            r.views.deep_view() == registry.views.deep_view() + absent(
                preset_names(self.presets@),
                registry.views.deep_view(),
            ),
            r.active == registry.active,
    {
        let ghost names = preset_names(self.presets@);
        let ghost held = registry.views.deep_view();
        let mut out = registry;
        let mut i: usize = 0;
        assert(names.take(0) =~= Seq::empty());
        assert(held + Seq::<Seq<char>>::empty() =~= held);
        while i < self.presets.len()
            invariant
                i <= self.presets.len(),
                names == preset_names(self.presets@),
                out.views.deep_view() == held + absent(names.take(i as int), held),
                out.active == registry.active,
            decreases self.presets.len() - i,
        {
            let ghost before = out.views.deep_view();
            let ghost added = absent(names.take(i as int), held);
            assert(names.take(i + 1).drop_last() =~= names.take(i as int));
            let name = self.presets[i].name;
            assert(names[i as int] == name@);
            if !has_view(&out.views, name) {
                let owned = name.to_owned();
                out.views.push(owned);
                assert(out.views.deep_view() =~= before.push(owned@));
                assert(before.push(owned@) =~= held + added.push(owned@));
            }
            proof {
                if before.contains(name@) {
                    let k = before.index_of(name@);
                    if k < held.len() {
                        assert(held[k] == name@);
                    } else {
                        assert(added[k - held.len()] == name@);
                    }
                }
                if held.contains(name@) {
                    let k = held.index_of(name@);
                    assert(before[k] == name@);
                }
                if added.contains(name@) {
                    let k = added.index_of(name@);
                    assert(before[held.len() + k] == name@);
                }
            }
            i = i + 1;
        }
        assert(names.take(i as int) =~= names);
        out
    }

    /// Where the layout of a view is stored.
    pub fn layout_key(&self, view: &str) -> (r: String)
        ensures
            r@ == self.base@ + ":view:"@ + view@,
    {
        let mut s = self.base.to_owned();
        s.append(":view:");
        s.append(view);
        s
    }

    /// Where the registry of the views is stored.
    pub fn registry_key(&self) -> (r: String)
        ensures
            r@ == self.base@ + ":views"@,
    {
        let mut s = self.base.to_owned();
        s.append(":views");
        s
    }

    /// Panels for `view`: the preset's panels first (tiling order), then every
    /// other default panel minimized. Custom/unknown views use the first preset.
    pub fn panels_for<G: Copy>(&self, view: &str, defaults: &[PanelWin<K, G>]) -> (r: (
        Vec<PanelWin<K, G>>,
        Mode,
    ))
        requires
            self.presets@.len() > 0,
        ensures
            r.0@ == visible_panels(self.chosen(view@).panels@, defaults@) + minimized_panels(
                self.chosen(view@).panels@,
                defaults@,
            ),
            r.1 == self.chosen(view@).mode,
    {
        let preset = match self.preset(view) {
            Some(p) => p,
            None => &self.presets[0],
        };
        let ghost panels = preset.panels@;
        let mut out: Vec<PanelWin<K, G>> = Vec::new();
        let mut i: usize = 0;
        while i < preset.panels.len()
            invariant
                i <= preset.panels.len(),
                panels == preset.panels@,
                out@ == visible_panels(panels.take(i as int), defaults@),
            decreases preset.panels.len() - i,
        {
            assert(panels.take(i + 1).drop_last() =~= panels.take(i as int));
            let (kind, w, h) = preset.panels[i];
            if let Some(d) = find_default(defaults, kind) {
                out.push(
                    PanelWin {
                        kind: d.kind,
                        state: WinState::Floating,
                        tile_w: w,
                        tile_h: h,
                        place: d.place,
                    },
                );
            }
            i = i + 1;
        }
        assert(panels.take(i as int) =~= panels);
        let ghost shown = out@;
        let mut j: usize = 0;
        assert(shown + minimized_panels(panels, defaults@.take(0)) =~= shown);
        while j < defaults.len()
            invariant
                j <= defaults.len(),
                panels == preset.panels@,
                out@ == shown + minimized_panels(panels, defaults@.take(j as int)),
            decreases defaults.len() - j,
        {
            assert(defaults@.take(j + 1).drop_last() =~= defaults@.take(j as int));
            let ghost before = out@;
            let d = defaults[j];
            if !is_in_preset(&preset.panels, d.kind) {
                let win = PanelWin {
                    kind: d.kind,
                    state: WinState::Minimized,
                    tile_w: d.tile_w,
                    tile_h: d.tile_h,
                    place: d.place,
                };
                out.push(win);
                assert(before.push(win) =~= shown + minimized_panels(
                    panels,
                    defaults@.take(j as int),
                ).push(win));
            }
            j = j + 1;
        }
        assert(defaults@.take(j as int) =~= defaults@);
        (out, preset.mode)
    }
}

proof fn lemma_preset_prefix<K>(presets: Seq<ViewPreset<K>>, name: Seq<char>, n: int)
    requires
        0 <= n <= presets.len(),
        preset_at(presets.take(n), name) is Some,
    ensures
        preset_at(presets, name) == preset_at(presets.take(n), name),
    decreases presets.len() - n,
{
    if n < presets.len() {
        assert(presets.take(n + 1).drop_last() =~= presets.take(n));
        lemma_preset_prefix(presets, name, n + 1);
    } else {
        assert(presets.take(n) =~= presets);
    }
}

fn has_view(views: &Vec<String>, name: &str) -> (r: bool)
    ensures
        r == views.deep_view().contains(name@),
{
    let mut i: usize = 0;
    while i < views.len()
        invariant
            i <= views.len(),
            forall|k: int| 0 <= k < i ==> #[trigger] views.deep_view()[k] != name@,
        decreases views.len() - i,
    {
        assert(views.deep_view()[i as int] == views@[i as int]@);
        if same(views[i].as_str(), name) {
            assert(views.deep_view().contains(views.deep_view()[i as int]));
            return true;
        }
        i = i + 1;
    }
    proof {
        if views.deep_view().contains(name@) {
            let k = views.deep_view().index_of(name@);
            assert(views.deep_view()[k] == name@);
        }
    }
    false
}

fn find_default<K: PanelKind, G: Copy>(defaults: &[PanelWin<K, G>], kind: K) -> (r: Option<
    PanelWin<K, G>,
>)
    ensures
        r == default_of(defaults@, kind),
{
    let mut i: usize = 0;
    while i < defaults.len()
        invariant
            i <= defaults.len(),
            default_of(defaults@.take(i as int), kind) is None,
        decreases defaults.len() - i,
    {
        assert(defaults@.take(i + 1).drop_last() =~= defaults@.take(i as int));
        if defaults[i].kind.is(&kind) {
            proof {
                lemma_default_prefix(defaults@, kind, i + 1);
            }
            return Some(defaults[i]);
        }
        i = i + 1;
    }
    assert(defaults@.take(i as int) =~= defaults@);
    None
}

proof fn lemma_default_prefix<K, G>(defaults: Seq<PanelWin<K, G>>, kind: K, n: int)
    requires
        0 <= n <= defaults.len(),
        default_of(defaults.take(n), kind) is Some,
    ensures
        default_of(defaults, kind) == default_of(defaults.take(n), kind),
    decreases defaults.len() - n,
{
    if n < defaults.len() {
        assert(defaults.take(n + 1).drop_last() =~= defaults.take(n));
        lemma_default_prefix(defaults, kind, n + 1);
    } else {
        assert(defaults.take(n) =~= defaults);
    }
}

fn is_in_preset<K: PanelKind>(panels: &Vec<(K, u8, u8)>, kind: K) -> (r: bool)
    ensures
        r == lists_panel(panels@, kind),
{
    let mut i: usize = 0;
    while i < panels.len()
        invariant
            i <= panels.len(),
            forall|k: int| 0 <= k < i ==> (#[trigger] panels@[k]).0 != kind,
        decreases panels.len() - i,
    {
        if panels[i].0.is(&kind) {
            assert(panels@[i as int].0 == kind);
            return true;
        }
        i = i + 1;
    }
    false
}

// ---------------------------------------------------------------------------
// What the views keep
// ---------------------------------------------------------------------------

/// A sanitized registry holds every preset and every view that it held before.
pub proof fn sanitizing_loses_nothing(names: Seq<Seq<char>>, views: Seq<Seq<char>>, v: Seq<char>)
    ensures
        views.contains(v) ==> (views + absent(names, views)).contains(v),
        names.contains(v) ==> (views + absent(names, views)).contains(v),
        absent(names, views).contains(v) ==> names.contains(v) && !views.contains(v),
        absent(names, views).no_duplicates(),
    decreases names.len(),
{
    let a = absent(names, views);
    let all = views + a;
    if views.contains(v) {
        let k = views.index_of(v);
        assert(all[k] == v);
    }
    if names.len() > 0 {
        let shorter = names.drop_last();
        sanitizing_loses_nothing(shorter, views, v);
        let b = absent(shorter, views);
        if a.contains(v) {
            let k = a.index_of(v);
            if k < b.len() {
                assert(b[k] == v);
                let m = shorter.index_of(v);
                assert(names[m] == v);
            } else {
                assert(names[names.len() - 1] == v);
            }
        }
        if names.contains(v) && !views.contains(v) {
            let m = names.index_of(v);
            if m < shorter.len() {
                assert(shorter[m] == v);
                assert((views + b).contains(v));
                let k = (views + b).index_of(v);
                if k < views.len() {
                    assert(views[k] == v);
                }
                assert(b[k - views.len()] == v);
                assert(a[k - views.len()] == v);
            }
            assert(a.contains(v)) by {
                if m == shorter.len() {
                    if b.contains(v) {
                        let k = b.index_of(v);
                        assert(a[k] == v);
                    } else {
                        assert(a[a.len() - 1] == v);
                    }
                }
            }
            let k = a.index_of(v);
            assert(all[views.len() + k] == v);
        }
    }
}

/// A sanitized registry stays as it is when it is sanitized again.
pub proof fn sanitizing_twice_is_sanitizing_once(names: Seq<Seq<char>>, views: Seq<Seq<char>>)
    ensures
        absent(names, views + absent(names, views)) == Seq::<Seq<char>>::empty(),
{
    let all = views + absent(names, views);
    assert forall|v: Seq<char>| names.contains(v) implies all.contains(v) by {
        sanitizing_loses_nothing(names, views, v);
    }
    lemma_nothing_absent(names, all);
}

proof fn lemma_nothing_absent(names: Seq<Seq<char>>, views: Seq<Seq<char>>)
    requires
        forall|v: Seq<char>| names.contains(v) ==> views.contains(v),
    ensures
        absent(names, views) == Seq::<Seq<char>>::empty(),
    decreases names.len(),
{
    if names.len() > 0 {
        let shorter = names.drop_last();
        assert forall|v: Seq<char>| shorter.contains(v) implies views.contains(v) by {
            let k = shorter.index_of(v);
            assert(names[k] == v);
        }
        lemma_nothing_absent(shorter, views);
        assert(names.contains(names[names.len() - 1]));
    }
}

/// A preset hides no default panel: each stands in the layout, visible if the preset lists it
/// and minimized if not.
pub proof fn every_default_panel_is_laid_out<K, G>(
    panels: Seq<(K, u8, u8)>,
    defaults: Seq<PanelWin<K, G>>,
    i: int,
)
    requires
        0 <= i < defaults.len(),
    ensures
        exists|j: int|
            #![trigger (visible_panels(panels, defaults) + minimized_panels(panels, defaults))[j]]
            0 <= j < (visible_panels(panels, defaults) + minimized_panels(panels, defaults)).len()
                && (visible_panels(panels, defaults) + minimized_panels(panels, defaults))[j].kind
                == defaults[i].kind && (lists_panel(panels, defaults[i].kind) <==> (visible_panels(
                panels,
                defaults,
            ) + minimized_panels(panels, defaults))[j].state == WinState::Floating),
{
    let kind = defaults[i].kind;
    let v = visible_panels(panels, defaults);
    let m = minimized_panels(panels, defaults);
    if lists_panel(panels, kind) {
        lemma_default_exists(defaults, i);
        let k = choose|k: int| 0 <= k < panels.len() && (#[trigger] panels[k]).0 == kind;
        let j = lemma_visible(panels, defaults, k);
        assert((v + m)[j].kind == kind);
    } else {
        let j = lemma_minimized(panels, defaults, i);
        assert((v + m)[v.len() + j] == m[j]);
    }
}

proof fn lemma_default_exists<K, G>(defaults: Seq<PanelWin<K, G>>, i: int)
    requires
        0 <= i < defaults.len(),
    ensures
        default_of(defaults, defaults[i].kind) matches Some(d) && d.kind == defaults[i].kind,
    decreases defaults.len(),
{
    let kind = defaults[i].kind;
    let t = defaults.drop_last();
    if i < t.len() {
        lemma_default_exists(t, i);
    } else {
        lemma_default_kind(t, kind);
    }
}

proof fn lemma_default_kind<K, G>(defaults: Seq<PanelWin<K, G>>, kind: K)
    ensures
        default_of(defaults, kind) matches Some(d) ==> d.kind == kind,
    decreases defaults.len(),
{
    if defaults.len() > 0 {
        lemma_default_kind(defaults.drop_last(), kind);
    }
}

proof fn lemma_visible<K, G>(panels: Seq<(K, u8, u8)>, defaults: Seq<PanelWin<K, G>>, k: int) -> (j:
    int)
    requires
        0 <= k < panels.len(),
        default_of(defaults, panels[k].0) is Some,
    ensures
        0 <= j < visible_panels(panels, defaults).len(),
        visible_panels(panels, defaults)[j].kind == panels[k].0,
        visible_panels(panels, defaults)[j].state == WinState::Floating,
    decreases panels.len(),
{
    lemma_default_kind(defaults, panels[k].0);
    if k < panels.len() - 1 {
        lemma_visible(panels.drop_last(), defaults, k)
    } else {
        visible_panels(panels.drop_last(), defaults).len() as int
    }
}

proof fn lemma_minimized<K, G>(panels: Seq<(K, u8, u8)>, defaults: Seq<PanelWin<K, G>>, i: int) -> (
    j: int)
    requires
        0 <= i < defaults.len(),
        !lists_panel(panels, defaults[i].kind),
    ensures
        0 <= j < minimized_panels(panels, defaults).len(),
        minimized_panels(panels, defaults)[j].kind == defaults[i].kind,
        minimized_panels(panels, defaults)[j].state == WinState::Minimized,
    decreases defaults.len(),
{
    let t = defaults.drop_last();
    if i < t.len() {
        assert(t[i] == defaults[i]);
        lemma_minimized(panels, t, i)
    } else {
        minimized_panels(panels, t).len() as int
    }
}

/// A view is laid out by the first preset of its name, and by the first of all where none has it.
pub proof fn a_view_is_laid_out_by_its_preset<K>(presets: Seq<ViewPreset<K>>, name: Seq<char>)
    ensures
        preset_at(presets, name) matches Some(i) ==> 0 <= i < presets.len() && presets[i].name@
            == name && forall|k: int| 0 <= k < i ==> (#[trigger] presets[k]).name@ != name,
        preset_at(presets, name) is None ==> forall|k: int|
            0 <= k < presets.len() ==> (#[trigger] presets[k]).name@ != name,
    decreases presets.len(),
{
    if presets.len() > 0 {
        let t = presets.drop_last();
        a_view_is_laid_out_by_its_preset(t, name);
        match preset_at(t, name) {
            Some(i) => {
                assert(t[i] == presets[i]);
                assert forall|k: int| 0 <= k < i implies (#[trigger] presets[k]).name@ != name by {
                    assert(t[k].name@ != name);
                }
            },
            None => {
                assert forall|k: int| 0 <= k < t.len() implies (#[trigger] presets[k]).name@
                    != name by {
                    assert(t[k].name@ != name);
                }
            },
        }
    }
}

/// A listed panel is shown with the spans that the view gives it, where its kind has a default
/// place; a panel that the view does not list stands by.
pub proof fn a_listed_panel_has_its_spans<K, G>(
    panels: Seq<(K, u8, u8)>,
    p: (K, u8, u8),
    defaults: Seq<PanelWin<K, G>>,
    d: PanelWin<K, G>,
)
    ensures
        default_of(defaults, p.0) matches Some(x) ==> {
            let shown = visible_panels(panels.push(p), defaults);
            &&& shown.len() == visible_panels(panels, defaults).len() + 1
            &&& shown.last().kind == x.kind && shown.last().place == x.place
            &&& shown.last().tile_w == p.1 && shown.last().tile_h == p.2
            &&& shown.last().state is Floating
        },
        default_of(defaults, p.0) is None ==> visible_panels(panels.push(p), defaults)
            == visible_panels(panels, defaults),
        !lists_panel(panels, d.kind) ==> {
            let away = minimized_panels(panels, defaults.push(d));
            &&& away.len() == minimized_panels(panels, defaults).len() + 1
            &&& away.last().kind == d.kind && away.last().state is Minimized
            &&& away.last().place == d.place && away.last().tile_w == d.tile_w
                && away.last().tile_h == d.tile_h
        },
        lists_panel(panels, d.kind) ==> minimized_panels(panels, defaults.push(d))
            == minimized_panels(panels, defaults),
{
    assert(panels.push(p).drop_last() =~= panels);
    assert(defaults.push(d).drop_last() =~= defaults);
}

} // verus!

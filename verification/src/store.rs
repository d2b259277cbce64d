//! The configuration/resource state store.
//!
//! [`FullState`] is one immutable snapshot of the whole configuration
//! graph.  It is never mutated in place once published: the universal
//! update idiom is clone the current snapshot, mutate exactly the
//! categories affected, and publish the clone, so a concurrent reader
//! holding the prior snapshot observes no change.  The loaders here are the
//! computing half of each category's reload: the caller reads and parses
//! the backing files and hands the results in as plain values, bundled
//! entries before user entries, so a user resource overrides a bundled one
//! of the same identity.

use vstd::prelude::*;
use crate::domain::{
    AppConfig, AppConfigView, FileRead, Settings, SettingsView, StateError, Theme, ThemeView,
    Placeholder, PlaceholderView, Layout, LayoutView, WegItems, VirtualDesktopStrategy,
    apps_view,
};
use crate::idmap::{IdMap, DeepClone, spec_merge};
use crate::paths::{clone_path, is_path_prefix, path_eq, path_join, path_starts_with};

verus! {

/// Immutable snapshot of the whole configuration/resource graph.
pub struct FullState {
    /// The user-writable data directory.
    pub data_dir: Vec<String>,
    /// The read-only bundled-resources directory.
    pub resources_dir: Vec<String>,
    pub settings: Settings,
    /// Per-app overrides, bundled entries first, so later entries override
    /// earlier ones for the same match.
    pub settings_by_app: Vec<AppConfig>,
    pub themes: IdMap<Theme>,
    pub placeholders: IdMap<Placeholder>,
    pub layouts: IdMap<Layout>,
    pub weg_items: WegItems,
    pub history: String,
}

/// Mathematical value of a [`FullState`].
pub struct FullStateView {
    pub data_dir: Seq<Seq<char>>,
    pub resources_dir: Seq<Seq<char>>,
    pub settings: SettingsView,
    pub settings_by_app: Seq<AppConfigView>,
    pub themes: Map<Seq<char>, ThemeView>,
    pub placeholders: Map<Seq<char>, PlaceholderView>,
    pub layouts: Map<Seq<char>, LayoutView>,
    pub weg_items: Seq<char>,
    pub history: Seq<char>,
}

impl View for FullState {
    type V = FullStateView;

    open spec fn view(&self) -> FullStateView {
        FullStateView {
            data_dir: self.data_dir.deep_view(),
            resources_dir: self.resources_dir.deep_view(),
            settings: self.settings@,
            settings_by_app: apps_view(self.settings_by_app@),
            themes: self.themes@,
            placeholders: self.placeholders@,
            layouts: self.layouts@,
            weg_items: self.weg_items@,
            history: self.history@,
        }
    }
}

/// The given snapshot with the themes category replaced.
pub open spec fn v_with_themes(v: FullStateView, m: Map<Seq<char>, ThemeView>) -> FullStateView {
    FullStateView { themes: m, ..v }
}

/// The given snapshot with the placeholders category replaced and the
/// selected placeholder revalidated.
pub open spec fn v_with_placeholders(
    v: FullStateView,
    m: Map<Seq<char>, PlaceholderView>,
    selected: Seq<char>,
) -> FullStateView {
    FullStateView {
        placeholders: m,
        settings: SettingsView { placeholder: selected, ..v.settings },
        ..v
    }
}

/// The given snapshot with the layouts category replaced and the selected
/// layout revalidated.
pub open spec fn v_with_layouts(
    v: FullStateView,
    m: Map<Seq<char>, LayoutView>,
    selected: Seq<char>,
) -> FullStateView {
    FullStateView {
        layouts: m,
        settings: SettingsView { default_layout: selected, ..v.settings },
        ..v
    }
}

/// The given snapshot with the taskbar pinned-item structure replaced.
pub open spec fn v_with_weg(v: FullStateView, w: Seq<char>) -> FullStateView {
    FullStateView { weg_items: w, ..v }
}

/// The given snapshot with the history mapping replaced.
pub open spec fn v_with_history(v: FullStateView, h: Seq<char>) -> FullStateView {
    FullStateView { history: h, ..v }
}

/// The given snapshot with the settings replaced.
pub open spec fn v_with_settings(v: FullStateView, s: SettingsView) -> FullStateView {
    FullStateView { settings: s, ..v }
}

/// The given snapshot with the per-app overrides replaced.
pub open spec fn v_with_apps(v: FullStateView, a: Seq<AppConfigView>) -> FullStateView {
    FullStateView { settings_by_app: a, ..v }
}

/// Settings after the virtual-desktop check: where the native backend is
/// not supported, the shell's own implementation is forced.
pub open spec fn override_strategy(s: SettingsView, vd_supported: bool) -> SettingsView {
    if vd_supported {
        s
    } else {
        SettingsView { virtual_desktop_strategy: VirtualDesktopStrategy::Seelen, ..s }
    }
}

impl FullState {
    /// The identity-keyed categories are well formed.
    pub open spec fn wf(self) -> bool {
        self.themes.wf() && self.placeholders.wf() && self.layouts.wf()
    }

    /// A fresh snapshot over the two roots, before any category is loaded:
    /// default settings, everything else empty.
    pub fn new(data_dir: Vec<String>, resources_dir: Vec<String>) -> (r: Self)
        ensures
            r.wf(),
            r@.data_dir == data_dir.deep_view(),
            r@.resources_dir == resources_dir.deep_view(),
            r@.settings == crate::domain::spec_default_settings(),
            r@.settings_by_app == Seq::<AppConfigView>::empty(),
            r@.themes == Map::<Seq<char>, ThemeView>::empty(),
            r@.placeholders == Map::<Seq<char>, PlaceholderView>::empty(),
            r@.layouts == Map::<Seq<char>, LayoutView>::empty(),
            r@.weg_items == Seq::<char>::empty(),
            r@.history == Seq::<char>::empty(),
    {
        let r = FullState {
            data_dir,
            resources_dir,
            settings: Settings::default(),
            settings_by_app: Vec::new(),
            themes: IdMap::new(),
            placeholders: IdMap::new(),
            layouts: IdMap::new(),
            weg_items: WegItems::default(),
            history: String::new(),
        };
        proof {
            assert(apps_view(r.settings_by_app@) =~= Seq::<AppConfigView>::empty());
        }
        r
    }

    /// A copy of the snapshot with the same mathematical value: the first
    /// half of the clone-mutate-publish idiom.
    pub fn cloned(&self) -> (r: Self)
        ensures
            r@ == self@,
            self.wf() ==> r.wf(),
    {
        let mut settings_by_app: Vec<AppConfig> = Vec::new();
        let mut i: usize = 0;
        while i < self.settings_by_app.len()
            invariant
                i <= self.settings_by_app@.len(),
                settings_by_app@.len() == i,
                forall|k: int|
                    0 <= k < i ==> (#[trigger] settings_by_app@[k])@ == self.settings_by_app@[k]@,
            decreases self.settings_by_app@.len() - i,
        {
            settings_by_app.push(self.settings_by_app[i].deep_clone());
            i += 1;
        }
        let r = FullState {
            data_dir: clone_path(&self.data_dir),
            resources_dir: clone_path(&self.resources_dir),
            settings: self.settings.deep_clone(),
            settings_by_app,
            themes: self.themes.duplicate(),
            placeholders: self.placeholders.duplicate(),
            layouts: self.layouts.duplicate(),
            weg_items: self.weg_items.deep_clone(),
            history: self.history.clone(),
        };
        proof {
            assert(apps_view(r.settings_by_app@) =~= apps_view(self.settings_by_app@));
        }
        r
    }

    /// Path of the settings file under the data directory.
    pub fn settings_path(&self) -> (r: Vec<String>)
        ensures
            r.deep_view() == self@.data_dir.push(("settings.json")@),
    {
        crate::paths::path_join(&self.data_dir, "settings.json")
    }

    /// Loads the taskbar pinned-item structure.  A missing file keeps the
    /// current value and asks the caller to persist it as the generated
    /// default; a bad file changes nothing and is reported.
    pub fn load_weg_items(&mut self, read: FileRead<WegItems>) -> (r: Result<bool, StateError>)
        requires
            old(self).wf(),
        ensures
            final(self).wf(),
            match read {
                FileRead::Missing => r == Ok::<bool, StateError>(true) && final(self)@ == old(
                    self,
                )@,
                FileRead::Good(w) => r == Ok::<bool, StateError>(false) && final(self)@
                    == v_with_weg(old(self)@, w@),
                FileRead::Bad(e) => r == Err::<bool, StateError>(e) && final(self)@ == old(self)@,
            },
    {
        match read {
            FileRead::Missing => Ok(true),
            FileRead::Good(w) => {
                self.weg_items = w;
                Ok(false)
            },
            FileRead::Bad(e) => Err(e),
        }
    }

    /// Loads the launcher history.  A missing file keeps the current value
    /// and asks the caller to persist it; a bad file changes nothing and is
    /// reported.
    pub fn load_history(&mut self, read: FileRead<String>) -> (r: Result<bool, StateError>)
        requires
            old(self).wf(),
        ensures
            final(self).wf(),
            match read {
                FileRead::Missing => r == Ok::<bool, StateError>(true) && final(self)@ == old(
                    self,
                )@,
                FileRead::Good(h) => r == Ok::<bool, StateError>(false) && final(self)@
                    == v_with_history(old(self)@, h@),
                FileRead::Bad(e) => r == Err::<bool, StateError>(e) && final(self)@ == old(self)@,
            },
    {
        match read {
            FileRead::Missing => Ok(true),
            FileRead::Good(h) => {
                self.history = h;
                Ok(false)
            },
            FileRead::Bad(e) => Err(e),
        }
    }

    /// Loads the settings.  A missing file keeps the current settings and
    /// asks the caller to persist them as the generated default; a bad file
    /// changes nothing and is reported.  Either way, where the native
    /// virtual-desktop backend is unsupported the strategy is forced to the
    /// shell's own implementation.
    pub fn load_settings(&mut self, read: FileRead<Settings>, vd_supported: bool) -> (r: Result<
        bool,
        StateError,
    >)
        requires
            old(self).wf(),
        ensures
            final(self).wf(),
            match read {
                FileRead::Missing => r == Ok::<bool, StateError>(true) && final(self)@
                    == v_with_settings(
                    old(self)@,
                    override_strategy(old(self)@.settings, vd_supported),
                ),
                FileRead::Good(s) => r == Ok::<bool, StateError>(false) && final(self)@
                    == v_with_settings(old(self)@, override_strategy(s@, vd_supported)),
                FileRead::Bad(e) => r == Err::<bool, StateError>(e) && final(self)@ == old(self)@,
            },
    {
        let missing: bool = match read {
            FileRead::Missing => true,
            FileRead::Good(s) => {
                self.settings = s;
                false
            },
            FileRead::Bad(e) => {
                return Err(e);
            },
        };
        if !vd_supported {
            self.settings.virtual_desktop_strategy = VirtualDesktopStrategy::Seelen;
        }
        Ok(missing)
    }
}

/// One directory entry handed to a category loader: the identity (file
/// name) and the parse result — `None` for a file that was skipped as
/// malformed or wrongly named.
pub struct ThemeEntry {
    pub filename: String,
    pub parsed: Option<Theme>,
}

pub struct PlaceholderEntry {
    pub filename: String,
    pub parsed: Option<Placeholder>,
}

pub struct LayoutEntry {
    pub filename: String,
    pub parsed: Option<Layout>,
}

/// The (identity, value) pair an entry contributes: a parsed resource is
/// re-stamped with the identity it is filed under.
pub open spec fn theme_entry_view(e: ThemeEntry) -> (Seq<char>, Option<ThemeView>) {
    (
        e.filename@,
        match e.parsed {
            Some(t) => Some(ThemeView { filename: e.filename@, ..t@ }),
            None => None,
        },
    )
}

pub open spec fn theme_entries_view(s: Seq<ThemeEntry>) -> Seq<(Seq<char>, Option<ThemeView>)> {
    s.map_values(|e: ThemeEntry| theme_entry_view(e))
}

pub open spec fn placeholder_entry_view(e: PlaceholderEntry) -> (
    Seq<char>,
    Option<PlaceholderView>,
) {
    (
        e.filename@,
        match e.parsed {
            Some(p) => Some(PlaceholderView { filename: e.filename@, ..p@ }),
            None => None,
        },
    )
}

pub open spec fn placeholder_entries_view(s: Seq<PlaceholderEntry>) -> Seq<
    (Seq<char>, Option<PlaceholderView>),
> {
    s.map_values(|e: PlaceholderEntry| placeholder_entry_view(e))
}

pub open spec fn layout_entry_view(e: LayoutEntry) -> (Seq<char>, Option<LayoutView>) {
    (
        e.filename@,
        match e.parsed {
            Some(l) => Some(LayoutView { filename: e.filename@, ..l@ }),
            None => None,
        },
    )
}

pub open spec fn layout_entries_view(s: Seq<LayoutEntry>) -> Seq<(Seq<char>, Option<LayoutView>)> {
    s.map_values(|e: LayoutEntry| layout_entry_view(e))
}

impl FullState {
    /// Merges a run of theme entries into the themes category, in order, so
    /// a user entry overrides a bundled entry of the same identity.
    /// Entries that failed to parse are skipped; they never abort the load.
    pub fn load_themes(&mut self, entries: &Vec<ThemeEntry>)
        requires
            old(self).wf(),
        ensures
            final(self).wf(),
            final(self)@ == v_with_themes(
                old(self)@,
                spec_merge(old(self)@.themes, theme_entries_view(entries@)),
            ),
    {
        let ghost v0 = old(self)@;
        let ghost es = theme_entries_view(entries@);
        let mut i: usize = 0;
        proof {
            assert(es.take(0) =~= Seq::<(Seq<char>, Option<ThemeView>)>::empty());
            assert(self@ =~= v_with_themes(v0, spec_merge(v0.themes, es.take(0))));
        }
        while i < entries.len()
            invariant
                i <= entries@.len(),
                es == theme_entries_view(entries@),
                self.wf(),
                self@ == v_with_themes(v0, spec_merge(v0.themes, es.take(i as int))),
            decreases entries@.len() - i,
        {
            proof {
                assert(es.take(i + 1).drop_last() =~= es.take(i as int));
                assert(es.take(i + 1).last() == theme_entry_view(entries@[i as int]));
            }
            let e = &entries[i];
            match &e.parsed {
                Some(t) => {
                    let mut stamped = t.deep_clone();
                    stamped.info.filename = e.filename.clone();
                    self.themes.insert(e.filename.clone(), stamped);
                },
                None => {},
            }
            i += 1;
        }
        proof {
            assert(es.take(entries@.len() as int) =~= es);
        }
    }

    /// Merges a run of placeholder entries into the placeholders category,
    /// then revalidates the selected placeholder: where the selected
    /// identity no longer exists the selection falls back to the default.
    pub fn load_placeholders(&mut self, entries: &Vec<PlaceholderEntry>)
        requires
            old(self).wf(),
        ensures
            final(self).wf(),
            final(self)@ == v_with_placeholders(
                old(self)@,
                spec_merge(old(self)@.placeholders, placeholder_entries_view(entries@)),
                if spec_merge(old(self)@.placeholders, placeholder_entries_view(entries@))
                    .contains_key(old(self)@.settings.placeholder) {
                    old(self)@.settings.placeholder
                } else {
                    ("default.yml")@
                },
            ),
    {
        let ghost v0 = old(self)@;
        let ghost es = placeholder_entries_view(entries@);
        let mut i: usize = 0;
        proof {
            assert(es.take(0) =~= Seq::<(Seq<char>, Option<PlaceholderView>)>::empty());
            assert(self@ =~= v_with_placeholders(
                v0,
                spec_merge(v0.placeholders, es.take(0)),
                v0.settings.placeholder,
            ));
        }
        while i < entries.len()
            invariant
                i <= entries@.len(),
                es == placeholder_entries_view(entries@),
                self.wf(),
                self@ == v_with_placeholders(
                    v0,
                    spec_merge(v0.placeholders, es.take(i as int)),
                    v0.settings.placeholder,
                ),
            decreases entries@.len() - i,
        {
            proof {
                assert(es.take(i + 1).drop_last() =~= es.take(i as int));
                assert(es.take(i + 1).last() == placeholder_entry_view(entries@[i as int]));
            }
            let e = &entries[i];
            match &e.parsed {
                Some(p) => {
                    let mut stamped = p.deep_clone();
                    stamped.info.filename = e.filename.clone();
                    self.placeholders.insert(e.filename.clone(), stamped);
                },
                None => {},
            }
            i += 1;
        }
        proof {
            assert(es.take(entries@.len() as int) =~= es);
        }
        if !self.placeholders.contains_key(&self.settings.fancy_toolbar.placeholder) {
            self.settings.fancy_toolbar.placeholder = String::from_str("default.yml");
        }
    }

    /// Merges a run of layout entries into the layouts category, then
    /// revalidates the selected layout: where the selected identity no
    /// longer exists the selection falls back to the default.
    pub fn load_layouts(&mut self, entries: &Vec<LayoutEntry>)
        requires
            old(self).wf(),
        ensures
            final(self).wf(),
            final(self)@ == v_with_layouts(
                old(self)@,
                spec_merge(old(self)@.layouts, layout_entries_view(entries@)),
                if spec_merge(old(self)@.layouts, layout_entries_view(entries@)).contains_key(
                    old(self)@.settings.default_layout,
                ) {
                    old(self)@.settings.default_layout
                } else {
                    ("BSP.json")@
                },
            ),
    {
        let ghost v0 = old(self)@;
        let ghost es = layout_entries_view(entries@);
        let mut i: usize = 0;
        proof {
            assert(es.take(0) =~= Seq::<(Seq<char>, Option<LayoutView>)>::empty());
            assert(self@ =~= v_with_layouts(
                v0,
                spec_merge(v0.layouts, es.take(0)),
                v0.settings.default_layout,
            ));
        }
        while i < entries.len()
            invariant
                i <= entries@.len(),
                es == layout_entries_view(entries@),
                self.wf(),
                self@ == v_with_layouts(
                    v0,
                    spec_merge(v0.layouts, es.take(i as int)),
                    v0.settings.default_layout,
                ),
            decreases entries@.len() - i,
        {
            proof {
                assert(es.take(i + 1).drop_last() =~= es.take(i as int));
                assert(es.take(i + 1).last() == layout_entry_view(entries@[i as int]));
            }
            let e = &entries[i];
            match &e.parsed {
                Some(l) => {
                    let mut stamped = l.deep_clone();
                    stamped.info.filename = e.filename.clone();
                    self.layouts.insert(e.filename.clone(), stamped);
                },
                None => {},
            }
            i += 1;
        }
        proof {
            assert(es.take(entries@.len() as int) =~= es);
        }
        if !self.layouts.contains_key(&self.settings.window_manager.default_layout) {
            self.settings.window_manager.default_layout = String::from_str("BSP.json");
        }
    }
}


/// Bundled template entries are marked as such when loaded.
pub open spec fn stamp_bundled(s: Seq<AppConfigView>) -> Seq<AppConfigView> {
    s.map_values(|a: AppConfigView| AppConfigView { is_bundled: true, ..a })
}

/// The per-app overrides contributed by the first `k` template files, in
/// order, each entry marked bundled.
pub open spec fn bundled_flat(
    groups: Seq<Result<Vec<AppConfig>, StateError>>,
    k: int,
) -> Seq<AppConfigView>
    decreases k,
{
    if k <= 0 {
        Seq::empty()
    } else {
        bundled_flat(groups, k - 1) + (match groups[k - 1] {
            Ok(g) => stamp_bundled(apps_view(g@)),
            Err(_) => Seq::empty(),
        })
    }
}

/// The non-bundled entries, in order: what the user's own file holds.
pub open spec fn spec_user_apps(s: Seq<AppConfigView>) -> Seq<AppConfigView>
    decreases s.len(),
{
    if s.len() == 0 {
        Seq::empty()
    } else {
        spec_user_apps(s.drop_last()) + (if !s.last().is_bundled {
            seq![s.last()]
        } else {
            Seq::empty()
        })
    }
}

impl FullState {
    /// Rebuilds the per-app overrides: the list is cleared, every bundled
    /// template file contributes its entries marked bundled, then the
    /// user's file contributes its entries unchanged, so user entries
    /// override bundled ones for the same match.  A template or user file
    /// that could not be used is skipped — one bad file never aborts the
    /// category load; the caller logs it.  A missing user file asks the
    /// caller to persist the generated default.
    #[verifier::loop_isolation(false)]
    pub fn load_settings_by_app(
        &mut self,
        bundled: &Vec<Result<Vec<AppConfig>, StateError>>,
        user: &FileRead<Vec<AppConfig>>,
    ) -> (save_default: bool)
        requires
            old(self).wf(),
        ensures
            final(self).wf(),
            save_default == (user is Missing),
            final(self)@ == v_with_apps(
                old(self)@,
                bundled_flat(bundled@, bundled@.len() as int) + (match user {
                    FileRead::Good(u) => apps_view(u@),
                    _ => Seq::empty(),
                }),
            ),
    {
        let ghost v0 = old(self)@;
        self.settings_by_app.clear();
        let save_default: bool = match user {
            FileRead::Missing => true,
            _ => false,
        };
        proof {
            assert(apps_view(self.settings_by_app@) =~= bundled_flat(bundled@, 0));
        }
        let mut k: usize = 0;
        while k < bundled.len()
            invariant
                k <= bundled@.len(),
                self.wf(),
                self@ == v_with_apps(v0, bundled_flat(bundled@, k as int)),
            decreases bundled@.len() - k,
        {
            match &bundled[k] {
                Ok(g) => {
                    self.extend_bundled(g);
                    proof {
                        assert(self@ == v_with_apps(v0, bundled_flat(bundled@, k as int + 1)));
                    }
                },
                Err(_) => {
                    proof {
                        assert(bundled_flat(bundled@, k as int + 1) =~= bundled_flat(
                            bundled@,
                            k as int,
                        ) + Seq::<AppConfigView>::empty());
                        assert(self@ == v_with_apps(v0, bundled_flat(bundled@, k as int + 1)));
                    }
                },
            }
            k += 1;
        }
        let ghost all_bundled = bundled_flat(bundled@, bundled@.len() as int);
        match user {
            FileRead::Good(u) => {
                self.extend_user(u);
            },
            _ => {
                proof {
                    assert(all_bundled + Seq::<AppConfigView>::empty() =~= all_bundled);
                }
            },
        }
        save_default
    }

    /// The entries to persist to the user's own file: exactly the
    /// non-bundled ones, in order.
    pub fn user_apps_to_save(&self) -> (r: Vec<AppConfig>)
        ensures
            apps_view(r@) == spec_user_apps(self@.settings_by_app),
    {
        let mut r: Vec<AppConfig> = Vec::new();
        let ghost all = apps_view(self.settings_by_app@);
        proof {
            assert(all.take(0) =~= Seq::<AppConfigView>::empty());
            assert(apps_view(r@) =~= spec_user_apps(all.take(0)));
        }
        let mut i: usize = 0;
        while i < self.settings_by_app.len()
            invariant
                i <= self.settings_by_app@.len(),
                all == apps_view(self.settings_by_app@),
                apps_view(r@) == spec_user_apps(all.take(i as int)),
            decreases self.settings_by_app@.len() - i,
        {
            proof {
                assert(all.take(i + 1).drop_last() =~= all.take(i as int));
                assert(all.take(i + 1).last() == self.settings_by_app@[i as int]@);
            }
            if !self.settings_by_app[i].is_bundled {
                r.push(self.settings_by_app[i].deep_clone());
                proof {
                    assert(apps_view(r@) =~= spec_user_apps(all.take(i + 1)));
                }
            } else {
                proof {
                    assert(spec_user_apps(all.take(i + 1)) =~= spec_user_apps(
                        all.take(i as int),
                    ) + Seq::<AppConfigView>::empty());
                    assert(spec_user_apps(all.take(i + 1)) =~= apps_view(r@));
                }
            }
            i += 1;
        }
        proof {
            assert(all.take(all.len() as int) =~= all);
        }
        r
    }
}

/// A theme loaded from a directory: the manifest's theme with each present
/// per-facet style file overriding the corresponding style sheet.
pub fn merged_dir_theme(
    base: Theme,
    weg: Option<String>,
    toolbar: Option<String>,
    wm: Option<String>,
    launcher: Option<String>,
    wall: Option<String>,
) -> (r: Theme)
    ensures
        r@ == (ThemeView {
            filename: base@.filename,
            weg: match weg {
                Some(s) => s@,
                None => base@.weg,
            },
            toolbar: match toolbar {
                Some(s) => s@,
                None => base@.toolbar,
            },
            wm: match wm {
                Some(s) => s@,
                None => base@.wm,
            },
            launcher: match launcher {
                Some(s) => s@,
                None => base@.launcher,
            },
            wall: match wall {
                Some(s) => s@,
                None => base@.wall,
            },
        }),
{
    let mut t = base;
    match weg {
        Some(s) => {
            t.styles.weg = s;
        },
        None => {},
    }
    match toolbar {
        Some(s) => {
            t.styles.toolbar = s;
        },
        None => {},
    }
    match wm {
        Some(s) => {
            t.styles.wm = s;
        },
        None => {},
    }
    match launcher {
        Some(s) => {
            t.styles.launcher = s;
        },
        None => {},
    }
    match wall {
        Some(s) => {
            t.styles.wall = s;
        },
        None => {},
    }
    t
}




impl FullState {
    /// Appends one bundled template file's entries, each marked bundled.
    fn extend_bundled(&mut self, g: &Vec<AppConfig>)
        requires
            old(self).wf(),
        ensures
            final(self).wf(),
            final(self)@ == v_with_apps(
                old(self)@,
                old(self)@.settings_by_app + stamp_bundled(apps_view(g@)),
            ),
    {
        let ghost base = apps_view(self.settings_by_app@);
        let ghost v0 = old(self)@;
        proof {
            assert(apps_view(g@.take(0)) =~= Seq::<AppConfigView>::empty());
            assert(stamp_bundled(apps_view(g@.take(0))) =~= Seq::<AppConfigView>::empty());
            assert(base + stamp_bundled(apps_view(g@.take(0))) =~= base);
            assert(self@ =~= v_with_apps(v0, base + stamp_bundled(apps_view(g@.take(0)))));
        }
        let mut m: usize = 0;
        while m < g.len()
            invariant
                m <= g@.len(),
                base == v0.settings_by_app,
                self@ == v_with_apps(v0, base + stamp_bundled(apps_view(g@.take(m as int)))),
                self.wf(),
            decreases g@.len() - m,
        {
            let a = &g[m];
            let ghost pre_sba = self.settings_by_app@;
            self.settings_by_app.push(
                AppConfig {
                    identifier: a.identifier.clone(),
                    is_bundled: true,
                    content: a.content.clone(),
                },
            );
            proof {
                let sv = AppConfigView { is_bundled: true, ..g@[m as int]@ };
                assert(apps_view(self.settings_by_app@) =~= apps_view(pre_sba).push(sv));
                assert(stamp_bundled(apps_view(g@.take(m + 1))) =~= stamp_bundled(
                    apps_view(g@.take(m as int)),
                ).push(sv));
                assert((base + stamp_bundled(apps_view(g@.take(m as int)))).push(sv) =~= base
                    + stamp_bundled(apps_view(g@.take(m as int))).push(sv));
                assert(apps_view(self.settings_by_app@) =~= base + stamp_bundled(
                    apps_view(g@.take(m + 1)),
                ));
            }
            m += 1;
        }
        proof {
            assert(g@.take(g@.len() as int) =~= g@);
        }
    }

    /// Appends the user file's entries unchanged.
    fn extend_user(&mut self, u: &Vec<AppConfig>)
        requires
            old(self).wf(),
        ensures
            final(self).wf(),
            final(self)@ == v_with_apps(
                old(self)@,
                old(self)@.settings_by_app + apps_view(u@),
            ),
    {
        let ghost base = apps_view(self.settings_by_app@);
        let ghost v0 = old(self)@;
        proof {
            assert(apps_view(u@.take(0)) =~= Seq::<AppConfigView>::empty());
            assert(base + apps_view(u@.take(0)) =~= base);
            assert(self@ =~= v_with_apps(v0, base + apps_view(u@.take(0))));
        }
        let mut m: usize = 0;
        while m < u.len()
            invariant
                m <= u@.len(),
                base == v0.settings_by_app,
                self@ == v_with_apps(v0, base + apps_view(u@.take(m as int))),
                self.wf(),
            decreases u@.len() - m,
        {
            let ghost pre_sba = self.settings_by_app@;
            self.settings_by_app.push(u[m].deep_clone());
            proof {
                let uv = u@[m as int]@;
                assert(apps_view(self.settings_by_app@) =~= apps_view(pre_sba).push(uv));
                assert(apps_view(u@.take(m + 1)) =~= apps_view(u@.take(m as int)).push(uv));
                assert((base + apps_view(u@.take(m as int))).push(uv) =~= base + apps_view(
                    u@.take(m as int),
                ).push(uv));
                assert(apps_view(self.settings_by_app@) =~= base + apps_view(u@.take(m + 1)));
            }
            m += 1;
        }
        proof {
            assert(u@.take(u@.len() as int) =~= u@);
        }
    }
}

/// One independently reloadable slice of the configuration graph.
#[derive(Clone, Copy, PartialEq, Eq, Structural, Debug)]
pub enum Category {
    Settings,
    WegItems,
    History,
    Themes,
    Placeholders,
    Layouts,
    SettingsByApp,
}

pub open spec fn sp_settings_path(v: FullStateView) -> Seq<Seq<char>> {
    v.data_dir.push(("settings.json")@)
}

pub open spec fn sp_weg_items_path(v: FullStateView) -> Seq<Seq<char>> {
    v.data_dir.push(("seelenweg_items.yaml")@)
}

pub open spec fn sp_history_path(v: FullStateView) -> Seq<Seq<char>> {
    v.data_dir.push(("history")@)
}

pub open spec fn sp_user_themes_dir(v: FullStateView) -> Seq<Seq<char>> {
    v.data_dir.push(("themes")@)
}

pub open spec fn sp_bundled_themes_dir(v: FullStateView) -> Seq<Seq<char>> {
    v.resources_dir.push(("static")@).push(("themes")@)
}

pub open spec fn sp_user_placeholders_dir(v: FullStateView) -> Seq<Seq<char>> {
    v.data_dir.push(("placeholders")@)
}

pub open spec fn sp_bundled_placeholders_dir(v: FullStateView) -> Seq<Seq<char>> {
    v.resources_dir.push(("static")@).push(("placeholders")@)
}

pub open spec fn sp_user_layouts_dir(v: FullStateView) -> Seq<Seq<char>> {
    v.data_dir.push(("layouts")@)
}

pub open spec fn sp_bundled_layouts_dir(v: FullStateView) -> Seq<Seq<char>> {
    v.resources_dir.push(("static")@).push(("layouts")@)
}

pub open spec fn sp_user_apps_path(v: FullStateView) -> Seq<Seq<char>> {
    v.data_dir.push(("applications.yml")@)
}

pub open spec fn sp_bundled_apps_dir(v: FullStateView) -> Seq<Seq<char>> {
    v.resources_dir.push(("static")@).push(("apps_templates")@)
}

/// Whether a batch of changed paths touches a category: the single-file
/// categories by equality with their backing file, the directory-backed
/// categories by lying under the user or the bundled root.
pub open spec fn spec_touches(v: FullStateView, paths: Seq<Seq<Seq<char>>>, c: Category) -> bool {
    match c {
        Category::Settings => exists|i: int|
            0 <= i < paths.len() && #[trigger] paths[i] == sp_settings_path(v),
        Category::WegItems => exists|i: int|
            0 <= i < paths.len() && #[trigger] paths[i] == sp_weg_items_path(v),
        Category::History => exists|i: int|
            0 <= i < paths.len() && #[trigger] paths[i] == sp_history_path(v),
        Category::Themes => exists|i: int|
            0 <= i < paths.len() && (is_path_prefix(sp_user_themes_dir(v), #[trigger] paths[i])
                || is_path_prefix(sp_bundled_themes_dir(v), paths[i])),
        Category::Placeholders => exists|i: int|
            0 <= i < paths.len() && (is_path_prefix(
                sp_user_placeholders_dir(v),
                #[trigger] paths[i],
            ) || is_path_prefix(sp_bundled_placeholders_dir(v), paths[i])),
        Category::Layouts => exists|i: int|
            0 <= i < paths.len() && (is_path_prefix(sp_user_layouts_dir(v), #[trigger] paths[i])
                || is_path_prefix(sp_bundled_layouts_dir(v), paths[i])),
        Category::SettingsByApp => exists|i: int|
            0 <= i < paths.len() && (is_path_prefix(sp_user_apps_path(v), #[trigger] paths[i])
                || is_path_prefix(sp_bundled_apps_dir(v), paths[i])),
    }
}

fn any_path_eq(changed: &Vec<Vec<String>>, needle: &Vec<String>) -> (r: bool)
    ensures
        r == (exists|i: int|
            0 <= i < changed.deep_view().len() && #[trigger] changed.deep_view()[i]
                == needle.deep_view()),
{
    let mut i: usize = 0;
    while i < changed.len()
        invariant
            i <= changed@.len(),
            forall|k: int| 0 <= k < i ==> #[trigger] changed.deep_view()[k] != needle.deep_view(),
        decreases changed@.len() - i,
    {
        let hit = path_eq(&changed[i], needle);
        proof {
            assert(changed.deep_view()[i as int] == changed@[i as int].deep_view());
        }
        if hit {
            return true;
        }
        i += 1;
    }
    proof {
        assert(changed.deep_view().len() == changed@.len());
    }
    false
}

fn any_path_under(changed: &Vec<Vec<String>>, a: &Vec<String>, b: &Vec<String>) -> (r: bool)
    ensures
        r == (exists|i: int|
            0 <= i < changed.deep_view().len() && (is_path_prefix(
                a.deep_view(),
                #[trigger] changed.deep_view()[i],
            ) || is_path_prefix(b.deep_view(), changed.deep_view()[i]))),
{
    let mut i: usize = 0;
    while i < changed.len()
        invariant
            i <= changed@.len(),
            forall|k: int|
                0 <= k < i ==> !is_path_prefix(a.deep_view(), #[trigger] changed.deep_view()[k])
                    && !is_path_prefix(b.deep_view(), changed.deep_view()[k]),
        decreases changed@.len() - i,
    {
        let hit_a = path_starts_with(&changed[i], a);
        let hit_b = path_starts_with(&changed[i], b);
        proof {
            assert(changed.deep_view()[i as int] == changed@[i as int].deep_view());
        }
        if hit_a || hit_b {
            return true;
        }
        i += 1;
    }
    proof {
        assert(changed.deep_view().len() == changed@.len());
    }
    false
}

impl FullState {
    fn static_dir(&self, leaf: &str) -> (r: Vec<String>)
        ensures
            r.deep_view() == self@.resources_dir.push(("static")@).push(leaf@),
    {
        let s = path_join(&self.resources_dir, "static");
        path_join(&s, leaf)
    }

    fn user_apps_path(&self) -> (r: Vec<String>)
        ensures
            r.deep_view() == sp_user_apps_path(self@),
    {
        path_join(&self.data_dir, "applications.yml")
    }

    /// Whether a batch of changed paths touches a category.
    pub fn touches(&self, changed: &Vec<Vec<String>>, c: Category) -> (r: bool)
        ensures
            r == spec_touches(self@, changed.deep_view(), c),
    {
        match c {
            Category::Settings => {
                let needle = self.settings_path();
                any_path_eq(changed, &needle)
            },
            Category::WegItems => {
                let needle = path_join(&self.data_dir, "seelenweg_items.yaml");
                any_path_eq(changed, &needle)
            },
            Category::History => {
                let needle = path_join(&self.data_dir, "history");
                any_path_eq(changed, &needle)
            },
            Category::Themes => {
                let user = path_join(&self.data_dir, "themes");
                let bundled = self.static_dir("themes");
                any_path_under(changed, &user, &bundled)
            },
            Category::Placeholders => {
                let user = path_join(&self.data_dir, "placeholders");
                let bundled = self.static_dir("placeholders");
                any_path_under(changed, &user, &bundled)
            },
            Category::Layouts => {
                let user = path_join(&self.data_dir, "layouts");
                let bundled = self.static_dir("layouts");
                any_path_under(changed, &user, &bundled)
            },
            Category::SettingsByApp => {
                let user = self.user_apps_path();
                let bundled = self.static_dir("apps_templates");
                any_path_under(changed, &user, &bundled)
            },
        }
    }

    /// The fixed list of paths the reload pipeline watches: the settings
    /// file and the user data files, then each resource category's user
    /// directory, then the bundled directories.
    pub fn watch_paths(&self) -> (r: Vec<Vec<String>>)
        ensures
            r.deep_view() == seq![
                sp_settings_path(self@),
                sp_weg_items_path(self@),
                sp_user_apps_path(self@),
                sp_history_path(self@),
                sp_user_themes_dir(self@),
                sp_user_placeholders_dir(self@),
                sp_user_layouts_dir(self@),
                sp_bundled_themes_dir(self@),
                sp_bundled_placeholders_dir(self@),
                sp_bundled_layouts_dir(self@),
                sp_bundled_apps_dir(self@),
            ],
    {
        let mut r: Vec<Vec<String>> = Vec::new();
        r.push(self.settings_path());
        r.push(path_join(&self.data_dir, "seelenweg_items.yaml"));
        r.push(self.user_apps_path());
        r.push(path_join(&self.data_dir, "history"));
        r.push(path_join(&self.data_dir, "themes"));
        r.push(path_join(&self.data_dir, "placeholders"));
        r.push(path_join(&self.data_dir, "layouts"));
        r.push(self.static_dir("themes"));
        r.push(self.static_dir("placeholders"));
        r.push(self.static_dir("layouts"));
        r.push(self.static_dir("apps_templates"));
        proof {
            assert(r.deep_view().len() == 11);
            assert forall|i: int| 0 <= i < 11 implies #[trigger] r.deep_view()[i]
                == r@[i].deep_view() by {
            }
            assert(r.deep_view() =~= seq![
                sp_settings_path(self@),
                sp_weg_items_path(self@),
                sp_user_apps_path(self@),
                sp_history_path(self@),
                sp_user_themes_dir(self@),
                sp_user_placeholders_dir(self@),
                sp_user_layouts_dir(self@),
                sp_bundled_themes_dir(self@),
                sp_bundled_placeholders_dir(self@),
                sp_bundled_layouts_dir(self@),
                sp_bundled_apps_dir(self@),
            ]);
        }
        r
    }
}

/// Everything one reload pass may need, read and parsed by the caller.  A
/// `None` category is left untouched even when its paths changed.
pub struct ReloadData {
    pub weg_items: Option<FileRead<WegItems>>,
    pub history: Option<FileRead<String>>,
    pub settings: Option<FileRead<Settings>>,
    /// Whether the native virtual-desktop backend is supported.
    pub vd_supported: bool,
    pub themes: Option<Vec<ThemeEntry>>,
    pub placeholders: Option<Vec<PlaceholderEntry>>,
    pub layouts: Option<Vec<LayoutEntry>>,
    pub app_templates: Option<Vec<Result<Vec<AppConfig>, StateError>>>,
    pub user_apps: Option<FileRead<Vec<AppConfig>>>,
}

/// What one reload pass did: the categories to announce, in order; the
/// categories whose backing file could not be used, each with its error —
/// a failing category keeps its old data and never stops the rest of the
/// pass; and which generated defaults the caller has to persist.
pub struct ProcessOutcome {
    pub emitted: Vec<Category>,
    pub errors: Vec<(Category, StateError)>,
    pub save_settings: bool,
    pub save_weg_items: bool,
    pub save_history: bool,
    pub save_user_apps: bool,
}

/// Ghost record of a reload pass in progress.
pub struct ProcView {
    pub v: FullStateView,
    pub emitted: Seq<Category>,
    pub errors: Seq<(Category, StateError)>,
    pub save_settings: bool,
    pub save_weg_items: bool,
    pub save_history: bool,
    pub save_user_apps: bool,
}

pub open spec fn proc_start(v: FullStateView) -> ProcView {
    ProcView {
        v: v,
        emitted: Seq::empty(),
        errors: Seq::empty(),
        save_settings: false,
        save_weg_items: false,
        save_history: false,
        save_user_apps: false,
    }
}

pub open spec fn step_weg(s: ProcView, active: bool, read: Option<FileRead<WegItems>>) -> ProcView {
    if !active {
        s
    } else {
        match read {
            None => s,
            Some(FileRead::Missing) => ProcView {
                emitted: s.emitted.push(Category::WegItems),
                save_weg_items: true,
                ..s
            },
            Some(FileRead::Good(w)) => ProcView {
                v: v_with_weg(s.v, w@),
                emitted: s.emitted.push(Category::WegItems),
                ..s
            },
            Some(FileRead::Bad(e)) => ProcView {
                errors: s.errors.push((Category::WegItems, e)),
                ..s
            },
        }
    }
}

pub open spec fn step_history(
    s: ProcView,
    active: bool,
    read: Option<FileRead<String>>,
) -> ProcView {
    if !active {
        s
    } else {
        match read {
            None => s,
            Some(FileRead::Missing) => ProcView {
                emitted: s.emitted.push(Category::History),
                save_history: true,
                ..s
            },
            Some(FileRead::Good(h)) => ProcView {
                v: v_with_history(s.v, h@),
                emitted: s.emitted.push(Category::History),
                ..s
            },
            Some(FileRead::Bad(e)) => ProcView {
                errors: s.errors.push((Category::History, e)),
                ..s
            },
        }
    }
}

pub open spec fn step_settings(
    s: ProcView,
    active: bool,
    read: Option<FileRead<Settings>>,
    vd_supported: bool,
) -> ProcView {
    if !active {
        s
    } else {
        match read {
            None => s,
            Some(FileRead::Missing) => ProcView {
                v: v_with_settings(s.v, override_strategy(s.v.settings, vd_supported)),
                emitted: s.emitted.push(Category::Settings),
                save_settings: true,
                ..s
            },
            Some(FileRead::Good(st)) => ProcView {
                v: v_with_settings(s.v, override_strategy(st@, vd_supported)),
                emitted: s.emitted.push(Category::Settings),
                ..s
            },
            Some(FileRead::Bad(e)) => ProcView {
                errors: s.errors.push((Category::Settings, e)),
                ..s
            },
        }
    }
}

pub open spec fn step_themes(
    s: ProcView,
    active: bool,
    entries: Option<Vec<ThemeEntry>>,
) -> ProcView {
    if !active {
        s
    } else {
        match entries {
            None => s,
            Some(es) => ProcView {
                v: v_with_themes(s.v, spec_merge(s.v.themes, theme_entries_view(es@))),
                emitted: s.emitted.push(Category::Themes),
                ..s
            },
        }
    }
}

pub open spec fn step_placeholders(
    s: ProcView,
    active: bool,
    entries: Option<Vec<PlaceholderEntry>>,
) -> ProcView {
    if !active {
        s
    } else {
        match entries {
            None => s,
            Some(es) => {
                let m = spec_merge(s.v.placeholders, placeholder_entries_view(es@));
                ProcView {
                    v: v_with_placeholders(
                        s.v,
                        m,
                        if m.contains_key(s.v.settings.placeholder) {
                            s.v.settings.placeholder
                        } else {
                            ("default.yml")@
                        },
                    ),
                    emitted: s.emitted.push(Category::Placeholders),
                    ..s
                }
            },
        }
    }
}

pub open spec fn step_layouts(
    s: ProcView,
    active: bool,
    entries: Option<Vec<LayoutEntry>>,
) -> ProcView {
    if !active {
        s
    } else {
        match entries {
            None => s,
            Some(es) => {
                let m = spec_merge(s.v.layouts, layout_entries_view(es@));
                ProcView {
                    v: v_with_layouts(
                        s.v,
                        m,
                        if m.contains_key(s.v.settings.default_layout) {
                            s.v.settings.default_layout
                        } else {
                            ("BSP.json")@
                        },
                    ),
                    emitted: s.emitted.push(Category::Layouts),
                    ..s
                }
            },
        }
    }
}

/// The template files that could not be used among the first `k`, in
/// order, each reported against the per-app category.
pub open spec fn apps_errors(
    groups: Seq<Result<Vec<AppConfig>, StateError>>,
    k: int,
) -> Seq<(Category, StateError)>
    decreases k,
{
    if k <= 0 {
        Seq::empty()
    } else {
        apps_errors(groups, k - 1) + (match groups[k - 1] {
            Ok(_) => Seq::empty(),
            Err(e) => seq![(Category::SettingsByApp, e)],
        })
    }
}

pub open spec fn step_apps(
    s: ProcView,
    active: bool,
    templates: Option<Vec<Result<Vec<AppConfig>, StateError>>>,
    user: Option<FileRead<Vec<AppConfig>>>,
) -> ProcView {
    if !active {
        s
    } else {
        match (templates, user) {
            (Some(groups), Some(u)) => ProcView {
                v: v_with_apps(
                    s.v,
                    bundled_flat(groups@, groups@.len() as int) + (match u {
                        FileRead::Good(ua) => apps_view(ua@),
                        _ => Seq::empty(),
                    }),
                ),
                emitted: s.emitted.push(Category::SettingsByApp),
                save_user_apps: u is Missing,
                errors: s.errors + apps_errors(groups@, groups@.len() as int) + (match u {
                    FileRead::Bad(e) => seq![(Category::SettingsByApp, e)],
                    _ => Seq::empty(),
                }),
                ..s
            },
            _ => s,
        }
    }
}

/// A full reload pass over one change batch, category by category in the
/// fixed order.  Categories are independent: a category whose read failed
/// keeps its old data and is reported, and the remaining touched
/// categories are still reloaded and announced.
pub open spec fn spec_process(
    v0: FullStateView,
    paths: Seq<Seq<Seq<char>>>,
    d: ReloadData,
) -> ProcView {
    let s0 = proc_start(v0);
    let s1 = step_weg(s0, spec_touches(v0, paths, Category::WegItems), d.weg_items);
    let s2 = step_history(s1, spec_touches(v0, paths, Category::History), d.history);
    let s3 = step_settings(
        s2,
        spec_touches(v0, paths, Category::Settings),
        d.settings,
        d.vd_supported,
    );
    let s4 = step_themes(s3, spec_touches(v0, paths, Category::Themes), d.themes);
    let s5 = step_placeholders(s4, spec_touches(v0, paths, Category::Placeholders), d.placeholders);
    let s6 = step_layouts(s5, spec_touches(v0, paths, Category::Layouts), d.layouts);
    step_apps(s6, spec_touches(v0, paths, Category::SettingsByApp), d.app_templates, d.user_apps)
}

/// The initial load of every category, in the fixed startup order.  As in
/// a reload pass, a category whose read failed keeps its starting data and
/// is reported; the rest still load.
pub open spec fn spec_load_all(v0: FullStateView, d: ReloadData) -> ProcView {
    let s0 = proc_start(v0);
    let s1 = step_settings(s0, true, d.settings, d.vd_supported);
    let s2 = step_weg(s1, true, d.weg_items);
    let s3 = step_themes(s2, true, d.themes);
    let s4 = step_placeholders(s3, true, d.placeholders);
    let s5 = step_layouts(s4, true, d.layouts);
    let s6 = step_apps(s5, true, d.app_templates, d.user_apps);
    step_history(s6, true, d.history)
}

/// The ghost record a snapshot and an outcome-in-progress stand for.
pub open spec fn pv(v: FullStateView, o: ProcessOutcome) -> ProcView {
    ProcView {
        v: v,
        emitted: o.emitted@,
        errors: o.errors@,
        save_settings: o.save_settings,
        save_weg_items: o.save_weg_items,
        save_history: o.save_history,
        save_user_apps: o.save_user_apps,
    }
}

fn collect_template_errors(groups: &Vec<Result<Vec<AppConfig>, StateError>>) -> (r: Vec<
    (Category, StateError),
>)
    ensures
        r@ == apps_errors(groups@, groups@.len() as int),
{
    let mut r: Vec<(Category, StateError)> = Vec::new();
    proof {
        assert(r@ =~= apps_errors(groups@, 0));
    }
    let mut k: usize = 0;
    while k < groups.len()
        invariant
            k <= groups@.len(),
            r@ == apps_errors(groups@, k as int),
        decreases groups@.len() - k,
    {
        match &groups[k] {
            Ok(_) => {
                proof {
                    assert(apps_errors(groups@, k as int + 1) =~= apps_errors(
                        groups@,
                        k as int,
                    ) + Seq::<(Category, StateError)>::empty());
                    assert(r@ =~= apps_errors(groups@, k as int + 1));
                }
            },
            Err(e) => {
                r.push((Category::SettingsByApp, *e));
                proof {
                    assert(r@ =~= apps_errors(groups@, k as int + 1));
                }
            },
        }
        k += 1;
    }
    r
}

impl FullState {
    fn run_weg_step(&mut self, acc: &mut ProcessOutcome, active: bool, read: Option<
        FileRead<WegItems>,
    >)
        requires
            old(self).wf(),
        ensures
            final(self).wf(),
            pv(final(self)@, *final(acc)) == step_weg(pv(old(self)@, *old(acc)), active, read),
    {
        if active {
            match read {
                Some(rd) => {
                    match self.load_weg_items(rd) {
                        Ok(save) => {
                            if save {
                                acc.save_weg_items = true;
                            }
                            acc.emitted.push(Category::WegItems);
                        },
                        Err(e) => {
                            acc.errors.push((Category::WegItems, e));
                        },
                    }
                },
                None => {},
            }
        }
    }

    fn run_history_step(&mut self, acc: &mut ProcessOutcome, active: bool, read: Option<
        FileRead<String>,
    >)
        requires
            old(self).wf(),
        ensures
            final(self).wf(),
            pv(final(self)@, *final(acc)) == step_history(pv(old(self)@, *old(acc)), active, read),
    {
        if active {
            match read {
                Some(rd) => {
                    match self.load_history(rd) {
                        Ok(save) => {
                            if save {
                                acc.save_history = true;
                            }
                            acc.emitted.push(Category::History);
                        },
                        Err(e) => {
                            acc.errors.push((Category::History, e));
                        },
                    }
                },
                None => {},
            }
        }
    }

    fn run_settings_step(
        &mut self,
        acc: &mut ProcessOutcome,
        active: bool,
        read: Option<FileRead<Settings>>,
        vd_supported: bool,
    )
        requires
            old(self).wf(),
        ensures
            final(self).wf(),
            pv(final(self)@, *final(acc)) == step_settings(
                pv(old(self)@, *old(acc)),
                active,
                read,
                vd_supported,
            ),
    {
        if active {
            match read {
                Some(rd) => {
                    match self.load_settings(rd, vd_supported) {
                        Ok(save) => {
                            if save {
                                acc.save_settings = true;
                            }
                            acc.emitted.push(Category::Settings);
                        },
                        Err(e) => {
                            acc.errors.push((Category::Settings, e));
                        },
                    }
                },
                None => {},
            }
        }
    }

    fn run_themes_step(&mut self, acc: &mut ProcessOutcome, active: bool, entries: Option<
        Vec<ThemeEntry>,
    >)
        requires
            old(self).wf(),
        ensures
            final(self).wf(),
            pv(final(self)@, *final(acc)) == step_themes(pv(old(self)@, *old(acc)), active, entries),
    {
        if active {
            match &entries {
                Some(es) => {
                    self.load_themes(es);
                    acc.emitted.push(Category::Themes);
                },
                None => {},
            }
        }
    }

    fn run_placeholders_step(&mut self, acc: &mut ProcessOutcome, active: bool, entries: Option<
        Vec<PlaceholderEntry>,
    >)
        requires
            old(self).wf(),
        ensures
            final(self).wf(),
            pv(final(self)@, *final(acc)) == step_placeholders(
                pv(old(self)@, *old(acc)),
                active,
                entries,
            ),
    {
        if active {
            match &entries {
                Some(es) => {
                    self.load_placeholders(es);
                    acc.emitted.push(Category::Placeholders);
                },
                None => {},
            }
        }
    }

    fn run_layouts_step(&mut self, acc: &mut ProcessOutcome, active: bool, entries: Option<
        Vec<LayoutEntry>,
    >)
        requires
            old(self).wf(),
        ensures
            final(self).wf(),
            pv(final(self)@, *final(acc)) == step_layouts(
                pv(old(self)@, *old(acc)),
                active,
                entries,
            ),
    {
        if active {
            match &entries {
                Some(es) => {
                    self.load_layouts(es);
                    acc.emitted.push(Category::Layouts);
                },
                None => {},
            }
        }
    }

    #[verifier::rlimit(60)]
    fn run_apps_step(
        &mut self,
        acc: &mut ProcessOutcome,
        active: bool,
        templates: Option<Vec<Result<Vec<AppConfig>, StateError>>>,
        user: Option<FileRead<Vec<AppConfig>>>,
    )
        requires
            old(self).wf(),
        ensures
            final(self).wf(),
            pv(final(self)@, *final(acc)) == step_apps(
                pv(old(self)@, *old(acc)),
                active,
                templates,
                user,
            ),
    {
        if active {
            match (&templates, &user) {
                (Some(groups), Some(u)) => {
                    let ghost errs0 = acc.errors@;
                    let save = self.load_settings_by_app(groups, u);
                    acc.save_user_apps = save;
                    acc.emitted.push(Category::SettingsByApp);
                    let mut errs = collect_template_errors(groups);
                    acc.errors.append(&mut errs);
                    match u {
                        FileRead::Bad(e) => {
                            acc.errors.push((Category::SettingsByApp, *e));
                            proof {
                                assert(acc.errors@ =~= errs0 + apps_errors(
                                    groups@,
                                    groups@.len() as int,
                                ) + seq![(Category::SettingsByApp, *e)]);
                            }
                        },
                        _ => {
                            proof {
                                assert(acc.errors@ =~= errs0 + apps_errors(
                                    groups@,
                                    groups@.len() as int,
                                ) + Seq::<(Category, StateError)>::empty());
                            }
                        },
                    }
                },
                _ => {},
            }
        }
    }

    /// Processes one debounced batch of file changes: decides which
    /// categories the changed paths touch and re-runs exactly those
    /// categories' loads in the fixed order.  The outcome lists the
    /// categories to announce, the categories whose read failed, and the
    /// defaults to persist.  Categories are independent: a batch touching
    /// only themes never reloads settings, and one category's bad file
    /// never stops the remaining touched categories from reloading.
    pub fn process_event(&mut self, changed: &Vec<Vec<String>>, data: ReloadData) -> (out:
        ProcessOutcome)
        requires
            old(self).wf(),
        ensures
            final(self).wf(),
            ({
                let g = spec_process(old(self)@, changed.deep_view(), data);
                final(self)@ == g.v && out.emitted@ == g.emitted && out.errors@ == g.errors
                    && out.save_settings == g.save_settings && out.save_weg_items
                    == g.save_weg_items && out.save_history == g.save_history
                    && out.save_user_apps == g.save_user_apps
            }),
    {
        let t_weg = self.touches(changed, Category::WegItems);
        let t_history = self.touches(changed, Category::History);
        let t_settings = self.touches(changed, Category::Settings);
        let t_themes = self.touches(changed, Category::Themes);
        let t_placeholders = self.touches(changed, Category::Placeholders);
        let t_layouts = self.touches(changed, Category::Layouts);
        let t_apps = self.touches(changed, Category::SettingsByApp);

        let ReloadData {
            weg_items,
            history,
            settings,
            vd_supported,
            themes,
            placeholders,
            layouts,
            app_templates,
            user_apps,
        } = data;

        let mut acc = ProcessOutcome {
            emitted: Vec::new(),
            errors: Vec::new(),
            save_settings: false,
            save_weg_items: false,
            save_history: false,
            save_user_apps: false,
        };
        proof {
            assert(pv(self@, acc) =~= proc_start(old(self)@));
        }
        self.run_weg_step(&mut acc, t_weg, weg_items);
        self.run_history_step(&mut acc, t_history, history);
        self.run_settings_step(&mut acc, t_settings, settings, vd_supported);
        self.run_themes_step(&mut acc, t_themes, themes);
        self.run_placeholders_step(&mut acc, t_placeholders, placeholders);
        self.run_layouts_step(&mut acc, t_layouts, layouts);
        self.run_apps_step(&mut acc, t_apps, app_templates, user_apps);
        acc
    }

    /// The initial load of the whole graph, category by category in the
    /// fixed startup order.  The outcome lists the categories loaded, the
    /// categories whose read failed (they keep their starting data), and
    /// the generated defaults to persist.
    pub fn load_all(&mut self, data: ReloadData) -> (out: ProcessOutcome)
        requires
            old(self).wf(),
        ensures
            final(self).wf(),
            ({
                let g = spec_load_all(old(self)@, data);
                final(self)@ == g.v && out.emitted@ == g.emitted && out.errors@ == g.errors
                    && out.save_settings == g.save_settings && out.save_weg_items
                    == g.save_weg_items && out.save_history == g.save_history
                    && out.save_user_apps == g.save_user_apps
            }),
    {
        let ReloadData {
            weg_items,
            history,
            settings,
            vd_supported,
            themes,
            placeholders,
            layouts,
            app_templates,
            user_apps,
        } = data;

        let mut acc = ProcessOutcome {
            emitted: Vec::new(),
            errors: Vec::new(),
            save_settings: false,
            save_weg_items: false,
            save_history: false,
            save_user_apps: false,
        };
        proof {
            assert(pv(self@, acc) =~= proc_start(old(self)@));
        }
        self.run_settings_step(&mut acc, true, settings, vd_supported);
        self.run_weg_step(&mut acc, true, weg_items);
        self.run_themes_step(&mut acc, true, themes);
        self.run_placeholders_step(&mut acc, true, placeholders);
        self.run_layouts_step(&mut acc, true, layouts);
        self.run_apps_step(&mut acc, true, app_templates, user_apps);
        self.run_history_step(&mut acc, true, history);
        acc
    }
}

fn string_vec_contains(v: &Vec<String>, s: &String) -> (r: bool)
    ensures
        r == v.deep_view().contains(s@),
{
    let mut i: usize = 0;
    while i < v.len()
        invariant
            i <= v@.len(),
            forall|k: int| 0 <= k < i ==> #[trigger] v.deep_view()[k] != s@,
        decreases v@.len() - i,
    {
        let hit = v[i] == *s;
        proof {
            assert(v.deep_view()[i as int] == v@[i as int]@);
        }
        if hit {
            return true;
        }
        i += 1;
    }
    proof {
        assert(v.deep_view().len() == v@.len());
    }
    false
}

impl FullState {
    /// Imports a downloaded resource bundle into the settings: each part
    /// is filed as "<identity>.yml"; an imported theme is appended to the
    /// selected themes unless already selected, an imported placeholder or
    /// layout becomes the selection.  Writing the resource files and
    /// persisting the settings afterwards is the caller's job.
    pub fn load_resource(
        &mut self,
        id: &String,
        has_theme: bool,
        has_placeholder: bool,
        has_layout: bool,
    )
        requires
            old(self).wf(),
        ensures
            final(self).wf(),
            ({
                let f = id@ + (".yml")@;
                final(self)@ == v_with_settings(
                    old(self)@,
                    SettingsView {
                        selected_themes: if has_theme && !old(
                            self,
                        )@.settings.selected_themes.contains(f) {
                            old(self)@.settings.selected_themes.push(f)
                        } else {
                            old(self)@.settings.selected_themes
                        },
                        placeholder: if has_placeholder {
                            f
                        } else {
                            old(self)@.settings.placeholder
                        },
                        default_layout: if has_layout {
                            f
                        } else {
                            old(self)@.settings.default_layout
                        },
                        ..old(self)@.settings
                    },
                )
            }),
    {
        let filename: String = id.clone().concat(".yml");
        if has_theme {
            if !string_vec_contains(&self.settings.selected_themes, &filename) {
                let ghost pre = self.settings.selected_themes.deep_view();
                self.settings.selected_themes.push(filename.clone());
                proof {
                    assert(self.settings.selected_themes.deep_view() =~= pre.push(filename@));
                }
            }
        }
        if has_placeholder {
            self.settings.fancy_toolbar.placeholder = filename.clone();
        }
        if has_layout {
            self.settings.window_manager.default_layout = filename.clone();
        }
    }
}

/// A snapshot built by replacing one category of the prior snapshot —
/// clone, mutate, publish — differs from the prior snapshot only in that
/// category's fields; the prior snapshot itself keeps every field, so a
/// reader holding it observes no change.
pub proof fn lemma_publish_isolation(prior: FullStateView, m: Map<Seq<char>, ThemeView>)
    ensures
        v_with_themes(prior, m).themes == m,
        v_with_themes(prior, m).settings == prior.settings,
        v_with_themes(prior, m).settings_by_app == prior.settings_by_app,
        v_with_themes(prior, m).placeholders == prior.placeholders,
        v_with_themes(prior, m).layouts == prior.layouts,
        v_with_themes(prior, m).weg_items == prior.weg_items,
        v_with_themes(prior, m).history == prior.history,
        v_with_themes(prior, m).data_dir == prior.data_dir,
        v_with_themes(prior, m).resources_dir == prior.resources_dir,
{
}

/// A bundled file and a user file sharing one identity, the user file
/// later in the load order: the loaded mapping binds that identity to the
/// user file's content alone.
pub proof fn lemma_user_overrides_bundled(
    m0: Map<Seq<char>, ThemeView>,
    es: Seq<(Seq<char>, Option<ThemeView>)>,
    b: int,
    u: int,
)
    requires
        0 <= b < u < es.len(),
        es[b].0 == es[u].0,
        es[b].1 is Some,
        es[u].1 is Some,
        forall|l: int| u < l < es.len() ==> es[l].0 != es[u].0,
    ensures
        spec_merge(m0, es).contains_key(es[u].0),
        spec_merge(m0, es)[es[u].0] == es[u].1.unwrap(),
{
    crate::idmap::lemma_merge_last_wins(m0, es, u, es[u].0);
}

} // verus!

use seelen_ui_core::domain::{
    layout_file_format, resource_file_format, settings_file_format, AppConfig, FileFormat,
    FileRead, Placeholder, ResourceInfo, Settings, StateError, Theme, ThemeCss,
    VirtualDesktopStrategy, WegItems,
};
use seelen_ui_core::store::{
    merged_dir_theme, Category, FullState, LayoutEntry, PlaceholderEntry, ReloadData, ThemeEntry,
};

fn dirs() -> (Vec<String>, Vec<String>) {
    (
        vec!["home".to_string(), "data".to_string()],
        vec!["install".to_string(), "resources".to_string()],
    )
}

fn theme(name: &str, toolbar_css: &str) -> Theme {
    Theme {
        info: ResourceInfo { filename: name.to_string() },
        styles: ThemeCss {
            weg: String::new(),
            toolbar: toolbar_css.to_string(),
            wm: String::new(),
            launcher: String::new(),
            wall: String::new(),
        },
    }
}

fn entry(name: &str, toolbar_css: &str) -> ThemeEntry {
    ThemeEntry { filename: name.to_string(), parsed: Some(theme(name, toolbar_css)) }
}

fn empty_reload() -> ReloadData {
    ReloadData {
        weg_items: None,
        history: None,
        settings: None,
        vd_supported: true,
        themes: None,
        placeholders: None,
        layouts: None,
        app_templates: None,
        user_apps: None,
    }
}

#[test]
fn user_theme_overrides_bundled_same_identity() {
    let (data, res) = dirs();
    let mut state = FullState::new(data, res);
    let entries = vec![entry("default.yml", "bundled-css"), entry("default.yml", "user-css")];
    state.load_themes(&entries);
    assert_eq!(state.themes.len(), 1);
    let got = state.themes.get(&"default.yml".to_string()).expect("theme present");
    assert_eq!(got.styles.toolbar, "user-css");
    assert_eq!(got.info.filename, "default.yml");
}

#[test]
fn malformed_theme_skipped_not_fatal() {
    let (data, res) = dirs();
    let mut state = FullState::new(data, res);
    let entries = vec![
        entry("ok.yml", "a"),
        ThemeEntry { filename: "broken.yml".to_string(), parsed: None },
    ];
    state.load_themes(&entries);
    assert_eq!(state.themes.len(), 1);
    assert!(state.themes.get(&"broken.yml".to_string()).is_none());
}

#[test]
fn missing_settings_file_asks_for_default_persist() {
    let (data, res) = dirs();
    let mut state = FullState::new(data, res);
    let save = state.load_settings(FileRead::Missing, true).expect("missing file is not an error");
    assert!(save);
}

#[test]
fn missing_weg_items_and_history_ask_for_persist() {
    let (data, res) = dirs();
    let mut state = FullState::new(data, res);
    assert_eq!(state.load_weg_items(FileRead::Missing), Ok(true));
    assert_eq!(state.load_history(FileRead::Missing), Ok(true));
    assert_eq!(state.load_weg_items(FileRead::Good(WegItems { content: "x".to_string() })), Ok(false));
    assert_eq!(state.weg_items.content, "x");
}

#[test]
fn bad_settings_file_reports_and_keeps_state() {
    let (data, res) = dirs();
    let mut state = FullState::new(data, res);
    let before = state.settings.fancy_toolbar.placeholder.clone();
    let r = state.load_settings(FileRead::Bad(StateError::MalformedFile), true);
    assert_eq!(r, Err(StateError::MalformedFile));
    assert_eq!(state.settings.fancy_toolbar.placeholder, before);
}

#[test]
fn unsupported_virtual_desktop_forces_own_strategy() {
    let (data, res) = dirs();
    let mut state = FullState::new(data, res);
    let s = Settings::default();
    state.load_settings(FileRead::Good(s), false).unwrap();
    assert_eq!(state.settings.virtual_desktop_strategy, VirtualDesktopStrategy::Seelen);
}

#[test]
fn bundled_defaults_present_when_no_user_files() {
    let (data, res) = dirs();
    let mut state = FullState::new(data, res);
    let entries = vec![entry("default.yml", "bundled")];
    state.load_themes(&entries);
    assert!(state.themes.len() > 0);
}

#[test]
fn missing_placeholder_selection_falls_back() {
    let (data, res) = dirs();
    let mut state = FullState::new(data, res);
    state.settings.fancy_toolbar.placeholder = "vanished.yml".to_string();
    let entries = vec![PlaceholderEntry {
        filename: "other.yml".to_string(),
        parsed: Some(Placeholder {
            info: ResourceInfo { filename: "other.yml".to_string() },
            content: "c".to_string(),
        }),
    }];
    state.load_placeholders(&entries);
    assert_eq!(state.settings.fancy_toolbar.placeholder, "default.yml");
}

#[test]
fn missing_layout_selection_falls_back() {
    let (data, res) = dirs();
    let mut state = FullState::new(data, res);
    state.settings.window_manager.default_layout = "vanished.yml".to_string();
    let entries: Vec<LayoutEntry> = Vec::new();
    state.load_layouts(&entries);
    assert_eq!(state.settings.window_manager.default_layout, "BSP.json");
}

#[test]
fn clone_mutate_leaves_prior_snapshot_unchanged() {
    let (data, res) = dirs();
    let mut prior = FullState::new(data, res);
    prior.load_themes(&vec![entry("default.yml", "old-css")]);
    let mut next = prior.cloned();
    next.load_themes(&vec![entry("default.yml", "new-css")]);
    next.history = "h".to_string();

    // the reader's snapshot is untouched
    let old_theme = prior.themes.get(&"default.yml".to_string()).unwrap();
    assert_eq!(old_theme.styles.toolbar, "old-css");
    assert_eq!(prior.history, "");
    // the published snapshot differs in what was mutated
    let new_theme = next.themes.get(&"default.yml".to_string()).unwrap();
    assert_eq!(new_theme.styles.toolbar, "new-css");
    // and agrees elsewhere
    assert_eq!(next.settings.fancy_toolbar.placeholder, prior.settings.fancy_toolbar.placeholder);
    assert_eq!(next.weg_items.content, prior.weg_items.content);
}

#[test]
fn theme_batch_emits_exactly_one_themes_change() {
    let (data, res) = dirs();
    let mut state = FullState::new(data, res);
    let changed = vec![vec![
        "home".to_string(),
        "data".to_string(),
        "themes".to_string(),
        "new.yml".to_string(),
    ]];
    let mut reload = empty_reload();
    reload.themes = Some(vec![entry("new.yml", "fresh")]);
    let out = state.process_event(&changed, reload);
    assert!(out.errors.is_empty());
    assert_eq!(out.emitted.len(), 1);
    assert_eq!(out.emitted[0], Category::Themes);
    assert!(state.themes.get(&"new.yml".to_string()).is_some());
}

#[test]
fn theme_batch_never_reloads_settings() {
    let (data, res) = dirs();
    let mut state = FullState::new(data, res);
    let changed = vec![vec![
        "home".to_string(),
        "data".to_string(),
        "themes".to_string(),
        "new.yml".to_string(),
    ]];
    assert!(state.touches(&changed, Category::Themes));
    assert!(!state.touches(&changed, Category::Settings));
    assert!(!state.touches(&changed, Category::WegItems));
    assert!(!state.touches(&changed, Category::Placeholders));
}

#[test]
fn settings_file_change_is_matched_by_equality() {
    let (data, res) = dirs();
    let state = FullState::new(data, res);
    let exact = vec![vec![
        "home".to_string(),
        "data".to_string(),
        "settings.json".to_string(),
    ]];
    assert!(state.touches(&exact, Category::Settings));
    let deeper = vec![vec![
        "home".to_string(),
        "data".to_string(),
        "settings.json".to_string(),
        "extra".to_string(),
    ]];
    assert!(!state.touches(&deeper, Category::Settings));
}

#[test]
fn watch_list_covers_all_roots() {
    let (data, res) = dirs();
    let state = FullState::new(data, res);
    let paths = state.watch_paths();
    assert_eq!(paths.len(), 11);
    assert_eq!(paths[0], vec!["home", "data", "settings.json"]);
    assert_eq!(paths[7], vec!["install", "resources", "static", "themes"]);
}

#[test]
fn bundled_templates_marked_and_user_entries_kept() {
    let (data, res) = dirs();
    let mut state = FullState::new(data, res);
    let bundled = vec![Ok(vec![AppConfig {
        identifier: "firefox".to_string(),
        is_bundled: false,
        content: "t".to_string(),
    }])];
    let user = FileRead::Good(vec![AppConfig {
        identifier: "emacs".to_string(),
        is_bundled: false,
        content: "u".to_string(),
    }]);
    let save = state.load_settings_by_app(&bundled, &user);
    assert!(!save);
    assert_eq!(state.settings_by_app.len(), 2);
    assert!(state.settings_by_app[0].is_bundled);
    assert_eq!(state.settings_by_app[0].identifier, "firefox");
    assert!(!state.settings_by_app[1].is_bundled);

    let to_save = state.user_apps_to_save();
    assert_eq!(to_save.len(), 1);
    assert_eq!(to_save[0].identifier, "emacs");
}

#[test]
fn missing_user_apps_file_asks_for_default() {
    let (data, res) = dirs();
    let mut state = FullState::new(data, res);
    let bundled: Vec<Result<Vec<AppConfig>, StateError>> = Vec::new();
    let save = state.load_settings_by_app(&bundled, &FileRead::Missing);
    assert!(save);
    assert!(state.settings_by_app.is_empty());
}

#[test]
fn broken_template_skipped_not_fatal() {
    let (data, res) = dirs();
    let mut state = FullState::new(data, res);
    let bundled = vec![
        Ok(vec![AppConfig {
            identifier: "a".to_string(),
            is_bundled: false,
            content: String::new(),
        }]),
        Err(StateError::MalformedFile),
        Ok(vec![AppConfig {
            identifier: "b".to_string(),
            is_bundled: false,
            content: String::new(),
        }]),
    ];
    state.load_settings_by_app(&bundled, &FileRead::Missing);
    assert_eq!(state.settings_by_app.len(), 2);
    assert_eq!(state.settings_by_app[0].identifier, "a");
    assert_eq!(state.settings_by_app[1].identifier, "b");
}

#[test]
fn file_format_classifiers() {
    assert_eq!(settings_file_format(&Some("json".to_string())), Ok(FileFormat::Json));
    assert_eq!(
        settings_file_format(&Some("yaml".to_string())),
        Err(StateError::InvalidFileExtension)
    );
    assert_eq!(resource_file_format(&Some("yml".to_string())), Ok(FileFormat::Yaml));
    assert_eq!(resource_file_format(&Some("yaml".to_string())), Ok(FileFormat::Yaml));
    assert_eq!(
        resource_file_format(&Some("json".to_string())),
        Err(StateError::InvalidFileExtension)
    );
    assert_eq!(layout_file_format(&Some("json".to_string())), Ok(FileFormat::Json));
    assert_eq!(layout_file_format(&Some("yml".to_string())), Ok(FileFormat::Yaml));
    assert_eq!(layout_file_format(&None), Err(StateError::InvalidFileExtension));
}

#[test]
fn dir_theme_styles_override_manifest() {
    let base = theme("dark", "manifest-css");
    let merged = merged_dir_theme(
        base,
        Some("weg-css".to_string()),
        None,
        Some("wm-css".to_string()),
        None,
        None,
    );
    assert_eq!(merged.styles.weg, "weg-css");
    assert_eq!(merged.styles.toolbar, "manifest-css");
    assert_eq!(merged.styles.wm, "wm-css");
}

#[test]
fn resource_import_updates_selections_once() {
    let (data, res) = dirs();
    let mut state = FullState::new(data, res);
    let id = "nord".to_string();
    state.load_resource(&id, true, true, true);
    assert_eq!(state.settings.fancy_toolbar.placeholder, "nord.yml");
    assert_eq!(state.settings.window_manager.default_layout, "nord.yml");
    assert!(state.settings.selected_themes.contains(&"nord.yml".to_string()));
    let count = state.settings.selected_themes.len();
    state.load_resource(&id, true, false, false);
    assert_eq!(state.settings.selected_themes.len(), count);
}

#[test]
fn load_all_runs_every_category_in_order() {
    let (data, res) = dirs();
    let mut state = FullState::new(data, res);
    let mut reload = empty_reload();
    reload.settings = Some(FileRead::Missing);
    reload.weg_items = Some(FileRead::Missing);
    reload.themes = Some(vec![entry("default.yml", "css")]);
    reload.placeholders = Some(Vec::new());
    reload.layouts = Some(Vec::new());
    reload.app_templates = Some(Vec::new());
    reload.user_apps = Some(FileRead::Missing);
    reload.history = Some(FileRead::Missing);
    let out = state.load_all(reload);
    assert!(out.errors.is_empty());
    assert_eq!(
        out.emitted,
        vec![
            Category::Settings,
            Category::WegItems,
            Category::Themes,
            Category::Placeholders,
            Category::Layouts,
            Category::SettingsByApp,
            Category::History,
        ]
    );
    assert!(out.save_settings && out.save_weg_items && out.save_history && out.save_user_apps);
}

#[test]
fn bad_category_does_not_stop_the_rest_of_the_batch() {
    let (data, res) = dirs();
    let mut state = FullState::new(data, res);
    let changed = vec![
        vec!["home".to_string(), "data".to_string(), "seelenweg_items.yaml".to_string()],
        vec!["home".to_string(), "data".to_string(), "history".to_string()],
        vec!["home".to_string(), "data".to_string(), "themes".to_string(), "n.yml".to_string()],
    ];
    let mut reload = empty_reload();
    reload.weg_items = Some(FileRead::Bad(StateError::MalformedFile));
    reload.history = Some(FileRead::Good("h".to_string()));
    reload.themes = Some(vec![entry("n.yml", "css")]);
    let out = state.process_event(&changed, reload);
    // the failing category keeps its data and is reported ...
    assert_eq!(out.errors, vec![(Category::WegItems, StateError::MalformedFile)]);
    assert_eq!(state.weg_items.content, "");
    // ... and the remaining touched categories are still reloaded and announced
    assert_eq!(out.emitted, vec![Category::History, Category::Themes]);
    assert_eq!(state.history, "h");
    assert!(state.themes.get(&"n.yml".to_string()).is_some());
}

#[test]
fn startup_load_continues_past_bad_category() {
    let (data, res) = dirs();
    let mut state = FullState::new(data, res);
    let mut reload = empty_reload();
    reload.settings = Some(FileRead::Bad(StateError::MalformedFile));
    reload.themes = Some(vec![entry("default.yml", "css")]);
    let out = state.load_all(reload);
    assert_eq!(out.errors, vec![(Category::Settings, StateError::MalformedFile)]);
    assert_eq!(out.emitted, vec![Category::Themes]);
    assert!(state.themes.get(&"default.yml".to_string()).is_some());
    // the failed category keeps its starting data
    assert_eq!(state.settings.fancy_toolbar.placeholder, "default.yml");
}

#[test]
fn bad_user_apps_file_keeps_bundled_entries() {
    let (data, res) = dirs();
    let mut state = FullState::new(data, res);
    let bundled = vec![Ok(vec![AppConfig {
        identifier: "firefox".to_string(),
        is_bundled: false,
        content: String::new(),
    }])];
    let save = state.load_settings_by_app(&bundled, &FileRead::Bad(StateError::MalformedFile));
    assert!(!save);
    assert_eq!(state.settings_by_app.len(), 1);
    assert!(state.settings_by_app[0].is_bundled);
}

#[test]
fn settings_path_is_under_data_dir() {
    let (data, res) = dirs();
    let state = FullState::new(data, res);
    assert_eq!(state.settings_path(), vec!["home", "data", "settings.json"]);
}

//! The configuration/resource data model.
//!
//! Plain-value models of everything the state store holds: the settings,
//! the per-app configuration overrides, and the resource categories filed
//! by identity (themes, placeholders, layouts), together with their
//! mathematical values.  File contents that the core only carries through
//! are held as raw text.

use vstd::prelude::*;
use crate::idmap::DeepClone;

verus! {

/// Which virtual-desktop implementation the shell runs against.
#[derive(Clone, Copy, PartialEq, Eq, Structural, Debug)]
pub enum VirtualDesktopStrategy {
    Native,
    Seelen,
}

/// Transient per-resource failure: the file is skipped or the category
/// load aborts, the rest of the state stays usable.
#[derive(Clone, Copy, PartialEq, Eq, Structural, Debug)]
pub enum StateError {
    /// The file's extension is not one the category accepts.
    InvalidFileExtension,
    /// The file's content did not parse.
    MalformedFile,
}

/// Outcome of reading one backing file, as handed in by the caller.
pub enum FileRead<T> {
    /// The file does not exist.
    Missing,
    /// The file exists but could not be used.
    Bad(StateError),
    /// The parsed content.
    Good(T),
}

/// Accepted on-disk encodings.
#[derive(Clone, Copy, PartialEq, Eq, Structural, Debug)]
pub enum FileFormat {
    Json,
    Yaml,
}

/// The settings file must be JSON.
pub open spec fn spec_settings_file_format(ext: Option<Seq<char>>) -> Result<
    FileFormat,
    StateError,
> {
    match ext {
        Some(e) => if e == ("json")@ {
            Ok(FileFormat::Json)
        } else {
            Err(StateError::InvalidFileExtension)
        },
        None => Err(StateError::InvalidFileExtension),
    }
}

/// Themes, placeholders and per-app configurations must be YAML.
pub open spec fn spec_resource_file_format(ext: Option<Seq<char>>) -> Result<
    FileFormat,
    StateError,
> {
    match ext {
        Some(e) => if e == ("yml")@ || e == ("yaml")@ {
            Ok(FileFormat::Yaml)
        } else {
            Err(StateError::InvalidFileExtension)
        },
        None => Err(StateError::InvalidFileExtension),
    }
}

/// Layouts accept YAML or JSON, decided by the extension.
pub open spec fn spec_layout_file_format(ext: Option<Seq<char>>) -> Result<
    FileFormat,
    StateError,
> {
    match ext {
        Some(e) => if e == ("yml")@ || e == ("yaml")@ {
            Ok(FileFormat::Yaml)
        } else if e == ("json")@ {
            Ok(FileFormat::Json)
        } else {
            Err(StateError::InvalidFileExtension)
        },
        None => Err(StateError::InvalidFileExtension),
    }
}

fn ext_eq(ext: &Option<String>, lit: &str) -> (r: bool)
    ensures
        r == match ext {
            Some(e) => e@ == lit@,
            None => false,
        },
{
    match ext {
        Some(e) => {
            let s: String = String::from_str(lit);
            *e == s
        },
        None => false,
    }
}

/// Decides how a settings file is to be parsed from its extension.
pub fn settings_file_format(ext: &Option<String>) -> (r: Result<FileFormat, StateError>)
    ensures
        r == spec_settings_file_format(match ext {
            Some(e) => Some(e@),
            None => None,
        }),
{
    if ext_eq(ext, "json") {
        Ok(FileFormat::Json)
    } else {
        Err(StateError::InvalidFileExtension)
    }
}

/// Decides how a theme, placeholder or per-app configuration file is to be
/// parsed from its extension.
pub fn resource_file_format(ext: &Option<String>) -> (r: Result<FileFormat, StateError>)
    ensures
        r == spec_resource_file_format(match ext {
            Some(e) => Some(e@),
            None => None,
        }),
{
    if ext_eq(ext, "yml") || ext_eq(ext, "yaml") {
        Ok(FileFormat::Yaml)
    } else {
        Err(StateError::InvalidFileExtension)
    }
}

/// Decides how a layout file is to be parsed from its extension.
pub fn layout_file_format(ext: &Option<String>) -> (r: Result<FileFormat, StateError>)
    ensures
        r == spec_layout_file_format(match ext {
            Some(e) => Some(e@),
            None => None,
        }),
{
    if ext_eq(ext, "yml") || ext_eq(ext, "yaml") {
        Ok(FileFormat::Yaml)
    } else if ext_eq(ext, "json") {
        Ok(FileFormat::Json)
    } else {
        Err(StateError::InvalidFileExtension)
    }
}

/// Identity under which a resource is filed.
pub struct ResourceInfo {
    /// The file (or directory) name of the resource.
    pub filename: String,
}

/// Per-facet style sheets of a theme.
pub struct ThemeCss {
    pub weg: String,
    pub toolbar: String,
    pub wm: String,
    pub launcher: String,
    pub wall: String,
}

/// A visual theme: its identity plus one style sheet per facet.
pub struct Theme {
    pub info: ResourceInfo,
    pub styles: ThemeCss,
}

/// Mathematical value of a [`Theme`].
pub struct ThemeView {
    pub filename: Seq<char>,
    pub weg: Seq<char>,
    pub toolbar: Seq<char>,
    pub wm: Seq<char>,
    pub launcher: Seq<char>,
    pub wall: Seq<char>,
}

impl View for Theme {
    type V = ThemeView;

    open spec fn view(&self) -> ThemeView {
        ThemeView {
            filename: self.info.filename@,
            weg: self.styles.weg@,
            toolbar: self.styles.toolbar@,
            wm: self.styles.wm@,
            launcher: self.styles.launcher@,
            wall: self.styles.wall@,
        }
    }
}

impl DeepClone for Theme {
    fn deep_clone(&self) -> (r: Self)
        ensures
            r@ == self@,
    {
        Theme {
            info: ResourceInfo { filename: self.info.filename.clone() },
            styles: ThemeCss {
                weg: self.styles.weg.clone(),
                toolbar: self.styles.toolbar.clone(),
                wm: self.styles.wm.clone(),
                launcher: self.styles.launcher.clone(),
                wall: self.styles.wall.clone(),
            },
        }
    }
}

/// A toolbar placeholder: its identity plus the file's content, carried
/// through verbatim.
pub struct Placeholder {
    pub info: ResourceInfo,
    pub content: String,
}

/// Mathematical value of a [`Placeholder`].
pub struct PlaceholderView {
    pub filename: Seq<char>,
    pub content: Seq<char>,
}

impl View for Placeholder {
    type V = PlaceholderView;

    open spec fn view(&self) -> PlaceholderView {
        PlaceholderView { filename: self.info.filename@, content: self.content@ }
    }
}

impl DeepClone for Placeholder {
    fn deep_clone(&self) -> (r: Self)
        ensures
            r@ == self@,
    {
        Placeholder {
            info: ResourceInfo { filename: self.info.filename.clone() },
            content: self.content.clone(),
        }
    }
}

/// A window-manager layout: its identity plus the file's content, carried
/// through verbatim.
pub struct Layout {
    pub info: ResourceInfo,
    pub content: String,
}

/// Mathematical value of a [`Layout`].
pub struct LayoutView {
    pub filename: Seq<char>,
    pub content: Seq<char>,
}

impl View for Layout {
    type V = LayoutView;

    open spec fn view(&self) -> LayoutView {
        LayoutView { filename: self.info.filename@, content: self.content@ }
    }
}

impl DeepClone for Layout {
    fn deep_clone(&self) -> (r: Self)
        ensures
            r@ == self@,
    {
        Layout {
            info: ResourceInfo { filename: self.info.filename.clone() },
            content: self.content.clone(),
        }
    }
}

/// The taskbar's pinned-item structure, carried through verbatim.
pub struct WegItems {
    pub content: String,
}

impl View for WegItems {
    type V = Seq<char>;

    open spec fn view(&self) -> Seq<char> {
        self.content@
    }
}

impl DeepClone for WegItems {
    fn deep_clone(&self) -> (r: Self)
        ensures
            r@ == self@,
    {
        WegItems { content: self.content.clone() }
    }
}

impl Default for WegItems {
    fn default() -> (r: Self)
        ensures
            r@ == Seq::<char>::empty(),
    {
        WegItems { content: String::new() }
    }
}

/// One per-app configuration override.
pub struct AppConfig {
    /// The match rule's identifier.
    pub identifier: String,
    /// Whether the entry came from the bundled templates rather than the
    /// user's file.
    pub is_bundled: bool,
    /// The entry's full definition, carried through verbatim.
    pub content: String,
}

/// Mathematical value of an [`AppConfig`].
pub struct AppConfigView {
    pub identifier: Seq<char>,
    pub is_bundled: bool,
    pub content: Seq<char>,
}

impl View for AppConfig {
    type V = AppConfigView;

    open spec fn view(&self) -> AppConfigView {
        AppConfigView {
            identifier: self.identifier@,
            is_bundled: self.is_bundled,
            content: self.content@,
        }
    }
}

impl DeepClone for AppConfig {
    fn deep_clone(&self) -> (r: Self)
        ensures
            r@ == self@,
    {
        AppConfig {
            identifier: self.identifier.clone(),
            is_bundled: self.is_bundled,
            content: self.content.clone(),
        }
    }
}

pub open spec fn apps_view(s: Seq<AppConfig>) -> Seq<AppConfigView> {
    s.map_values(|a: AppConfig| a@)
}

/// Settings of the toolbar.
pub struct FancyToolbarSettings {
    pub enabled: bool,
    /// Identity of the selected placeholder.
    pub placeholder: String,
}

/// Settings of the window manager.
pub struct WindowManagerSettings {
    pub enabled: bool,
    /// Identity of the selected layout.
    pub default_layout: String,
}

/// Settings of the taskbar.
pub struct SeelenWegSettings {
    pub enabled: bool,
}

/// The shell's user settings, reduced to what the core reads and rewrites.
pub struct Settings {
    pub virtual_desktop_strategy: VirtualDesktopStrategy,
    /// Identities of the themes in use, in application order.
    pub selected_themes: Vec<String>,
    pub fancy_toolbar: FancyToolbarSettings,
    pub window_manager: WindowManagerSettings,
    pub seelenweg: SeelenWegSettings,
}

/// Mathematical value of a [`Settings`].
pub struct SettingsView {
    pub virtual_desktop_strategy: VirtualDesktopStrategy,
    pub selected_themes: Seq<Seq<char>>,
    pub toolbar_enabled: bool,
    pub placeholder: Seq<char>,
    pub window_manager_enabled: bool,
    pub default_layout: Seq<char>,
    pub weg_enabled: bool,
}

impl View for Settings {
    type V = SettingsView;

    open spec fn view(&self) -> SettingsView {
        SettingsView {
            virtual_desktop_strategy: self.virtual_desktop_strategy,
            selected_themes: self.selected_themes.deep_view(),
            toolbar_enabled: self.fancy_toolbar.enabled,
            placeholder: self.fancy_toolbar.placeholder@,
            window_manager_enabled: self.window_manager.enabled,
            default_layout: self.window_manager.default_layout@,
            weg_enabled: self.seelenweg.enabled,
        }
    }
}

fn clone_string_vec(v: &Vec<String>) -> (r: Vec<String>)
    ensures
        r.deep_view() == v.deep_view(),
{
    let mut r: Vec<String> = Vec::new();
    let mut i: usize = 0;
    while i < v.len()
        invariant
            i <= v@.len(),
            r@.len() == i,
            forall|k: int| 0 <= k < i ==> r.deep_view()[k] == v.deep_view()[k],
        decreases v@.len() - i,
    {
        r.push(v[i].clone());
        proof {
            assert(r.deep_view()[i as int] == r@[i as int]@);
            assert(v.deep_view()[i as int] == v@[i as int]@);
        }
        i += 1;
    }
    proof {
        assert(r.deep_view() =~= v.deep_view());
    }
    r
}

impl DeepClone for Settings {
    fn deep_clone(&self) -> (r: Self)
        ensures
            r@ == self@,
    {
        Settings {
            virtual_desktop_strategy: self.virtual_desktop_strategy,
            selected_themes: clone_string_vec(&self.selected_themes),
            fancy_toolbar: FancyToolbarSettings {
                enabled: self.fancy_toolbar.enabled,
                placeholder: self.fancy_toolbar.placeholder.clone(),
            },
            window_manager: WindowManagerSettings {
                enabled: self.window_manager.enabled,
                default_layout: self.window_manager.default_layout.clone(),
            },
            seelenweg: SeelenWegSettings { enabled: self.seelenweg.enabled },
        }
    }
}

/// The settings the shell starts from before a settings file exists: every
/// module enabled, the default theme, placeholder and layout selected, the
/// native virtual-desktop implementation.
pub open spec fn spec_default_settings() -> SettingsView {
    SettingsView {
        virtual_desktop_strategy: VirtualDesktopStrategy::Native,
        selected_themes: seq![("default.yml")@],
        toolbar_enabled: true,
        placeholder: ("default.yml")@,
        window_manager_enabled: false,
        default_layout: ("BSP.json")@,
        weg_enabled: true,
    }
}

impl Default for Settings {
    fn default() -> (r: Self)
        ensures
            r@ == spec_default_settings(),
    {
        let mut selected_themes: Vec<String> = Vec::new();
        selected_themes.push(String::from_str("default.yml"));
        let r = Settings {
            virtual_desktop_strategy: VirtualDesktopStrategy::Native,
            selected_themes,
            fancy_toolbar: FancyToolbarSettings {
                enabled: true,
                placeholder: String::from_str("default.yml"),
            },
            window_manager: WindowManagerSettings {
                enabled: false,
                default_layout: String::from_str("BSP.json"),
            },
            seelenweg: SeelenWegSettings { enabled: true },
        };
        proof {
            assert(r@.selected_themes =~= seq![("default.yml")@]);
        }
        r
    }
}

impl Settings {
    /// Whether the taskbar module is enabled.
    pub fn is_weg_enabled(&self) -> (r: bool)
        ensures
            r == self@.weg_enabled,
    {
        self.seelenweg.enabled
    }

    /// Whether the window-manager module is enabled.
    pub fn is_window_manager_enabled(&self) -> (r: bool)
        ensures
            r == self@.window_manager_enabled,
    {
        self.window_manager.enabled
    }
}

} // verus!

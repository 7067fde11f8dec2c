//! Persistent application settings: the value types, their defaults, the
//! schema migration applied on load and the fallbacks used when loading fails.

use vstd::prelude::*;
use crate::paths::{config_dir, home_dir, join_path, joined, main_separator, picture_dir};
use crate::text::{concat2, concat3, decimal, decimal_string, opt_chars, opt_str_chars, owned, str_eq};

verus! {

broadcast use vstd::string::group_string_axioms;

/// The newest settings schema this library reads and writes.
pub const SETTINGS_SCHEMA_VERSION: u32 = 5;

/// Light or dark appearance, or whatever the system uses.
#[derive(Clone, Copy, Debug, PartialEq, Eq, Structural)]
pub enum AppearanceMode {
    System,
    Light,
    Dark,
}

/// The stored name of an appearance mode.
pub open spec fn appearance_name(mode: AppearanceMode) -> Seq<char> {
    match mode {
        AppearanceMode::System => "system"@,
        AppearanceMode::Light => "light"@,
        AppearanceMode::Dark => "dark"@,
    }
}

/// The appearance mode a stored name stands for.
pub open spec fn appearance_from_name(value: Seq<char>) -> Option<AppearanceMode> {
    if value == "system"@ {
        Some(AppearanceMode::System)
    } else if value == "light"@ {
        Some(AppearanceMode::Light)
    } else if value == "dark"@ {
        Some(AppearanceMode::Dark)
    } else {
        None
    }
}

impl Default for AppearanceMode {
    fn default() -> (m: Self)
        ensures
            m == AppearanceMode::System,
    {
        AppearanceMode::System
    }
}

impl AppearanceMode {
    /// The stored name of the mode.
    pub fn as_str(self) -> (r: &'static str)
        ensures
            r@ == appearance_name(self),
    {
        match self {
            AppearanceMode::System => "system",
            AppearanceMode::Light => "light",
            AppearanceMode::Dark => "dark",
        }
    }

    /// The mode named `value`, if any.
    pub fn from_value(value: &str) -> (r: Option<Self>)
        ensures
            r == appearance_from_name(value@),
    {
        if str_eq(value, "system") {
            Some(AppearanceMode::System)
        } else if str_eq(value, "light") {
            Some(AppearanceMode::Light)
        } else if str_eq(value, "dark") {
            Some(AppearanceMode::Dark)
        } else {
            None
        }
    }
}

/// The interface language: English, Simplified Chinese, or the system's.
#[derive(Clone, Copy, Debug, PartialEq, Eq, Structural)]
pub enum LanguageMode {
    System,
    English,
    SimplifiedChinese,
}

/// The stored name of a language mode.
pub open spec fn language_name(mode: LanguageMode) -> Seq<char> {
    match mode {
        LanguageMode::System => "system"@,
        LanguageMode::English => "en"@,
        LanguageMode::SimplifiedChinese => "zh-CN"@,
    }
}

/// The language mode a stored name stands for; Simplified Chinese has
/// three accepted spellings.
pub open spec fn language_from_name(value: Seq<char>) -> Option<LanguageMode> {
    if value == "system"@ {
        Some(LanguageMode::System)
    } else if value == "en"@ {
        Some(LanguageMode::English)
    } else if value == "zh-CN"@ || value == "zh_CN"@ || value == "zh"@ {
        Some(LanguageMode::SimplifiedChinese)
    } else {
        None
    }
}

impl Default for LanguageMode {
    fn default() -> (m: Self)
        ensures
            m == LanguageMode::System,
    {
        LanguageMode::System
    }
}

impl LanguageMode {
    /// The stored name of the mode.
    pub fn as_str(self) -> (r: &'static str)
        ensures
            r@ == language_name(self),
    {
        match self {
            LanguageMode::System => "system",
            LanguageMode::English => "en",
            LanguageMode::SimplifiedChinese => "zh-CN",
        }
    }

    /// The mode named `value`, if any.
    pub fn from_value(value: &str) -> (r: Option<Self>)
        ensures
            r == language_from_name(value@),
    {
        if str_eq(value, "system") {
            Some(LanguageMode::System)
        } else if str_eq(value, "en") {
            Some(LanguageMode::English)
        } else if str_eq(value, "zh-CN") || str_eq(value, "zh_CN") || str_eq(value, "zh") {
            Some(LanguageMode::SimplifiedChinese)
        } else {
            None
        }
    }
}

/// Reading a stored name gives back the mode it was written from.
pub proof fn appearance_name_round_trip(mode: AppearanceMode)
    ensures
        appearance_from_name(appearance_name(mode)) == Some(mode),
{
    reveal_strlit("system");
    reveal_strlit("light");
    reveal_strlit("dark");
    assert("light"@.len() != "system"@.len());
    assert("dark"@.len() != "system"@.len());
    assert("dark"@.len() != "light"@.len());
}

/// Reading a stored name gives back the mode it was written from.
pub proof fn language_name_round_trip(mode: LanguageMode)
    ensures
        language_from_name(language_name(mode)) == Some(mode),
{
    reveal_strlit("system");
    reveal_strlit("en");
    reveal_strlit("zh-CN");
    assert("en"@.len() != "system"@.len());
    assert("zh-CN"@.len() != "system"@.len());
    assert("zh-CN"@.len() != "en"@.len());
}

/// The OCR model chosen for each kind of task.
#[derive(Clone, Debug, PartialEq, Eq)]
pub struct OcrSettings {
    /// The single model of older settings, read so that it can be carried over.
    pub active_model_id: Option<String>,
    pub text_model_id: Option<String>,
    pub document_model_id: Option<String>,
    pub table_model_id: Option<String>,
    pub figure_model_id: Option<String>,
}

/// No model chosen for any task.
pub open spec fn ocr_is_default(o: OcrSettings) -> bool {
    &&& o.active_model_id is None
    &&& o.text_model_id is None
    &&& o.document_model_id is None
    &&& o.table_model_id is None
    &&& o.figure_model_id is None
}

impl Default for OcrSettings {
    fn default() -> (o: Self)
        ensures
            ocr_is_default(o),
    {
        OcrSettings {
            active_model_id: None,
            text_model_id: None,
            document_model_id: None,
            table_model_id: None,
            figure_model_id: None,
        }
    }
}

/// A stored shortcut: modifiers and the key's code name.
#[derive(Clone, Debug, PartialEq, Eq)]
pub struct HotkeyBindingSettings {
    pub control: bool,
    pub alt: bool,
    pub shift: bool,
    pub meta: bool,
    pub key: String,
}

/// Print Screen with no modifier.
pub open spec fn binding_is_default(b: HotkeyBindingSettings) -> bool {
    &&& !b.control && !b.alt && !b.shift && !b.meta
    &&& b.key@ == "PrintScreen"@
}

impl Default for HotkeyBindingSettings {
    fn default() -> (b: Self)
        ensures
            binding_is_default(b),
    {
        HotkeyBindingSettings {
            control: false,
            alt: false,
            shift: false,
            meta: false,
            key: owned("PrintScreen"),
        }
    }
}

/// The stored shortcuts.
#[derive(Clone, Debug, PartialEq, Eq)]
pub struct HotkeySettings {
    pub capture: HotkeyBindingSettings,
}

impl Default for HotkeySettings {
    fn default() -> (h: Self)
        ensures
            binding_is_default(h.capture),
    {
        HotkeySettings { capture: HotkeyBindingSettings::default() }
    }
}

/// Where and how captures are exported.
#[derive(Clone, Debug, PartialEq, Eq)]
pub struct ExportSettings {
    pub default_directory: Option<String>,
    pub last_directory: Option<String>,
    pub remember_last_directory: bool,
    pub copy_after_capture: bool,
    pub close_after_copy: bool,
    pub close_after_save: bool,
}

/// No directory chosen, every convenience switched on.
pub open spec fn export_is_default(e: ExportSettings) -> bool {
    &&& e.default_directory is None
    &&& e.last_directory is None
    &&& e.remember_last_directory
    &&& e.copy_after_capture
    &&& e.close_after_copy
    &&& e.close_after_save
}

impl Default for ExportSettings {
    fn default() -> (e: Self)
        ensures
            export_is_default(e),
    {
        ExportSettings {
            default_directory: None,
            last_directory: None,
            remember_last_directory: true,
            copy_after_capture: true,
            close_after_copy: true,
            close_after_save: true,
        }
    }
}

/// The directory a save dialog opens in: the last one used when that is
/// remembered and known, else the default directory.
pub open spec fn dialog_start(e: ExportSettings) -> Option<Seq<char>> {
    if e.remember_last_directory && e.last_directory is Some {
        opt_chars(e.last_directory)
    } else {
        opt_chars(e.default_directory)
    }
}

/// The screenshot folder under the picture directory, else under
/// `~/Pictures`, else under the temporary directory.
pub open spec fn screenshot_folder(
    picture: Option<Seq<char>>,
    home: Option<Seq<char>>,
    temp: Seq<char>,
    sep: char,
) -> Seq<char> {
    let base = match picture {
        Some(p) => p,
        None => match home {
            Some(h) => joined(h, "Pictures"@, sep),
            None => temp,
        },
    };
    joined(base, "Screenshots"@, sep)
}

/// The screenshot folder, given the picture, home and temporary directories
/// and the main path separator.
pub fn screenshot_directory_from(
    picture: Option<String>,
    home: Option<String>,
    temp_dir: &str,
    sep: char,
) -> (r: String)
    ensures
        r@ == screenshot_folder(opt_chars(picture), opt_chars(home), temp_dir@, sep),
{
    let base = match picture {
        Some(p) => p,
        None => match home {
            Some(h) => join_path(h.as_str(), "Pictures", sep),
            None => owned(temp_dir),
        },
    };
    join_path(base.as_str(), "Screenshots", sep)
}

/// The default screenshot folder of this user; `temp_dir` is the
/// temporary directory, used when the user has no picture or home directory.
pub fn default_screenshot_directory(temp_dir: &str) -> (r: String)
    ensures
        exists|picture: Option<Seq<char>>, home: Option<Seq<char>>, sep: char|
            (sep == '/' || sep == '\\') && r@ == screenshot_folder(picture, home, temp_dir@, sep),
{
    let picture = picture_dir();
    let home = home_dir();
    let sep = main_separator();
    let r = screenshot_directory_from(picture, home, temp_dir, sep);
    assert((sep == '/' || sep == '\\') && r@ == screenshot_folder(
        opt_chars(picture),
        opt_chars(home),
        temp_dir@,
        sep,
    ));
    r
}

impl ExportSettings {
    /// The directory a save dialog opens in.
    pub fn dialog_directory(&self) -> (r: Option<&str>)
        ensures
            opt_str_chars(r) == dialog_start(*self),
    {
        if self.remember_last_directory {
            match &self.last_directory {
                Some(last) => return Some(last.as_str()),
                None => {},
            }
        }
        match &self.default_directory {
            Some(d) => Some(d.as_str()),
            None => None,
        }
    }

    /// The directory quick saves go to: the default directory if one is
    /// set, else the user's screenshot folder.
    pub fn quick_save_directory(&self, temp_dir: &str) -> (r: String)
        ensures
            self.default_directory matches Some(d) ==> r@ == d@,
            self.default_directory is None ==> exists|
                picture: Option<Seq<char>>,
                home: Option<Seq<char>>,
                sep: char,
            |
                (sep == '/' || sep == '\\') && r@ == screenshot_folder(
                    picture,
                    home,
                    temp_dir@,
                    sep,
                ),
    {
        match &self.default_directory {
            Some(d) => owned(d.as_str()),
            None => default_screenshot_directory(temp_dir),
        }
    }
}

/// Everything the application remembers between runs.
#[derive(Clone, Debug, PartialEq, Eq)]
pub struct AppSettings {
    pub schema_version: u32,
    pub appearance: AppearanceMode,
    pub language: LanguageMode,
    pub ocr: OcrSettings,
    pub export: ExportSettings,
    pub hotkeys: HotkeySettings,
}

/// The settings of a first run.
pub open spec fn settings_are_default(s: AppSettings) -> bool {
    &&& s.schema_version == SETTINGS_SCHEMA_VERSION
    &&& s.appearance == AppearanceMode::System
    &&& s.language == LanguageMode::System
    &&& ocr_is_default(s.ocr)
    &&& export_is_default(s.export)
    &&& binding_is_default(s.hotkeys.capture)
}

impl Default for AppSettings {
    fn default() -> (s: Self)
        ensures
            settings_are_default(s),
    {
        AppSettings {
            schema_version: SETTINGS_SCHEMA_VERSION,
            appearance: AppearanceMode::System,
            language: LanguageMode::System,
            ocr: OcrSettings::default(),
            export: ExportSettings::default(),
            hotkeys: HotkeySettings::default(),
        }
    }
}

/// Settings as loaded for startup, with the reason when defaults replaced
/// what was stored.
#[derive(Clone, Debug)]
pub struct SettingsLoad {
    pub settings: AppSettings,
    pub warning: Option<String>,
}

/// Why settings could not be read or written.
#[derive(Clone, Debug)]
pub enum SettingsError {
    /// Reading or writing the file failed; the text describes the failure.
    Io(String),
    /// The file is not valid settings; the text describes the problem.
    Parse(String),
    /// The file was written by a newer version, of this schema.
    UnsupportedSchema(u32),
}

/// The message shown for a settings error.
pub open spec fn settings_error_text(e: SettingsError) -> Seq<char> {
    match e {
        SettingsError::Io(detail) => "settings I/O failed: "@ + detail@,
        SettingsError::Parse(detail) => "settings file is invalid: "@ + detail@,
        SettingsError::UnsupportedSchema(version) => "settings schema "@ + decimal(version as nat)
            + " is newer than supported schema "@ + decimal(SETTINGS_SCHEMA_VERSION as nat),
    }
}

impl SettingsError {
    /// The message shown for the error.
    pub fn message(&self) -> (r: String)
        ensures
            r@ == settings_error_text(*self),
    {
        match self {
            SettingsError::Io(detail) => concat2("settings I/O failed: ", detail.as_str()),
            SettingsError::Parse(detail) => concat2("settings file is invalid: ", detail.as_str()),
            SettingsError::UnsupportedSchema(version) => {
                let found = decimal_string(*version as u64);
                let supported = decimal_string(SETTINGS_SCHEMA_VERSION as u64);
                let head = concat3("settings schema ", found.as_str(), " is newer than supported schema ");
                concat2(head.as_str(), supported.as_str())
            },
        }
    }
}

/// Settings read from a file of schema `parsed.schema_version`, brought to
/// the current schema: refused when the schema is newer than this library
/// knows; otherwise the text model inherits the old single model when it
/// has none, and the schema version becomes the current one.
pub open spec fn migrated(parsed: AppSettings) -> Result<AppSettings, SettingsError> {
    if parsed.schema_version > SETTINGS_SCHEMA_VERSION {
        Err(SettingsError::UnsupportedSchema(parsed.schema_version))
    } else {
        Ok(
            AppSettings {
                schema_version: SETTINGS_SCHEMA_VERSION,
                ocr: OcrSettings {
                    text_model_id: if parsed.ocr.text_model_id is None {
                        parsed.ocr.active_model_id
                    } else {
                        parsed.ocr.text_model_id
                    },
                    ..parsed.ocr
                },
                ..parsed
            },
        )
    }
}

/// Where settings are stored.
#[derive(Clone, Debug)]
pub struct SettingsStore {
    path: String,
}

impl View for SettingsStore {
    type V = Seq<char>;

    closed spec fn view(&self) -> Seq<char> {
        self.path@
    }
}

/// The settings file under the configuration directory `config` (the
/// temporary directory when there is none).
pub open spec fn settings_file(config: Option<Seq<char>>, temp: Seq<char>, sep: char) -> Seq<char> {
    let base = match config {
        Some(c) => c,
        None => temp,
    };
    joined(joined(base, "AzusaLens"@, sep), "settings.json"@, sep)
}

impl SettingsStore {
    /// The store at `path`.
    pub fn from_path(path: String) -> (s: Self)
        ensures
            s@ == path@,
    {
        SettingsStore { path }
    }

    /// The store in the user's configuration directory, given that
    /// directory (if the user has one), the temporary directory and the
    /// main path separator.
    pub fn in_directory(config: Option<String>, temp_dir: &str, sep: char) -> (s: Self)
        ensures
            s@ == settings_file(opt_chars(config), temp_dir@, sep),
    {
        let base = match config {
            Some(c) => c,
            None => owned(temp_dir),
        };
        let app = join_path(base.as_str(), "AzusaLens", sep);
        SettingsStore { path: join_path(app.as_str(), "settings.json", sep) }
    }

    /// The store in this user's configuration directory; `temp_dir` is the
    /// temporary directory, used when the user has none.
    pub fn discover(temp_dir: &str) -> (s: Self)
        ensures
            exists|config: Option<Seq<char>>, sep: char|
                (sep == '/' || sep == '\\') && s@ == settings_file(config, temp_dir@, sep),
    {
        let config = config_dir();
        let sep = main_separator();
        let s = SettingsStore::in_directory(config, temp_dir, sep);
        assert((sep == '/' || sep == '\\') && s@ == settings_file(opt_chars(config), temp_dir@, sep));
        s
    }

    /// The path of the settings file.
    pub fn path(&self) -> (r: &str)
        ensures
            r@ == self@,
    {
        self.path.as_str()
    }

    /// Brings settings just read from the file to the current schema.
    pub fn migrate(parsed: AppSettings) -> (r: Result<AppSettings, SettingsError>)
        ensures
            r == migrated(parsed),
    {
        if parsed.schema_version > SETTINGS_SCHEMA_VERSION {
            return Err(SettingsError::UnsupportedSchema(parsed.schema_version));
        }
        let mut settings = parsed;
        if settings.ocr.text_model_id.is_none() {
            settings.ocr.text_model_id = settings.ocr.active_model_id.clone();
        }
        settings.schema_version = SETTINGS_SCHEMA_VERSION;
        Ok(settings)
    }

    /// The settings to start with, given the outcome of loading them: what
    /// was loaded, or the defaults with the error's message as a warning.
    pub fn load_or_default(loaded: Result<AppSettings, SettingsError>) -> (r: SettingsLoad)
        ensures
            loaded matches Ok(s) ==> r.settings == s && r.warning is None,
            loaded matches Err(e) ==> settings_are_default(r.settings) && opt_chars(r.warning)
                == Some(settings_error_text(e)),
    {
        match loaded {
            Ok(settings) => SettingsLoad { settings, warning: None },
            Err(error) => SettingsLoad { settings: AppSettings::default(), warning: Some(error.message()) },
        }
    }

    /// The settings to change, given the outcome of loading them: a file
    /// that cannot be parsed is replaced by the defaults, other errors stand.
    pub fn load_for_update(loaded: Result<AppSettings, SettingsError>) -> (r: Result<
        AppSettings,
        SettingsError,
    >)
        ensures
            loaded is Ok ==> r == loaded,
            loaded matches Err(SettingsError::Parse(_)) ==> r matches Ok(s) && settings_are_default(s),
            (loaded is Err && !(loaded matches Err(SettingsError::Parse(_)))) ==> r == loaded,
    {
        match loaded {
            Ok(settings) => Ok(settings),
            Err(SettingsError::Parse(_)) => Ok(AppSettings::default()),
            Err(error) => Err(error),
        }
    }

    /// The settings as written: always of the current schema.
    pub fn normalized_for_save(settings: AppSettings) -> (r: AppSettings)
        ensures
            r == (AppSettings { schema_version: SETTINGS_SCHEMA_VERSION, ..settings }),
    {
        let mut normalized = settings;
        normalized.schema_version = SETTINGS_SCHEMA_VERSION;
        normalized
    }
}

} // verus!

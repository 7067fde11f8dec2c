use azusa_lens::config::{
    AppSettings, AppearanceMode, ExportSettings, LanguageMode, OcrSettings, SettingsError,
    SettingsStore, SETTINGS_SCHEMA_VERSION,
};
use azusa_lens::hotkey::{
    backend_description, portal_managed, use_wayland_portal, xdg_key_name, HotkeyBinding,
};
use azusa_lens::platform::Platform;
use azusa_lens::shortcut_registration::{
    binding_requested, registration_finished, registration_started, reset_requested,
    retry_requested, startup_binding, PendingRegistration, RegistrationStep, ShortcutRequest,
};
use azusa_lens::shortcut_settings::{
    binding_from_settings, platform_modifier_mapping, previous_binding, slint_key_to_code_name,
    NamedKey,
    write_binding,
};

#[test]
fn backend_description_is_not_empty() {
    for platform in [Platform::Windows, Platform::MacOs, Platform::Linux, Platform::Other] {
        assert!(!backend_description(platform, true).is_empty());
        assert!(!backend_description(platform, false).is_empty());
    }
}

#[test]
fn portal_is_used_only_in_wayland_sessions() {
    assert!(use_wayland_portal(true, None));
    assert!(use_wayland_portal(true, Some("wayland")));
    assert!(!use_wayland_portal(true, Some("x11")));
    assert!(!use_wayland_portal(false, None));
    assert!(portal_managed(Platform::Linux, true));
    assert!(!portal_managed(Platform::Windows, true));
    assert_eq!(backend_description(Platform::Linux, true), "Wayland XDG GlobalShortcuts portal");
}

#[test]
fn default_binding_is_print_screen() {
    let binding = HotkeyBinding::capture_default();
    assert_eq!(binding.code_name(), "PrintScreen");
    assert!(!binding.has_modifier());
    assert!(binding.validate().is_ok());
}

#[test]
fn configurable_binding_round_trips_parts() {
    let binding = HotkeyBinding::from_parts(true, true, false, false, "KeyS").unwrap();
    assert!(binding.control());
    assert!(binding.alt());
    assert!(!binding.shift());
    assert_eq!(binding.code_name(), "KeyS");
    assert!(binding.display_label(Platform::Linux).contains('S'));
}

#[test]
fn ordinary_bare_keys_are_rejected() {
    let error = HotkeyBinding::from_parts(false, false, false, false, "KeyA").unwrap_err();
    assert!(error.message().contains("require"));
}

#[test]
fn bare_function_keys_are_allowed() {
    assert!(HotkeyBinding::from_parts(false, false, false, false, "F8").is_ok());
}

#[test]
fn xdg_trigger_uses_portal_shortcut_syntax() {
    let binding = HotkeyBinding::from_parts(true, true, false, false, "KeyS").unwrap();
    assert_eq!(binding.xdg_trigger().as_deref(), Some("CTRL+ALT+s"));
    assert_eq!(HotkeyBinding::capture_default().xdg_trigger().as_deref(), Some("Print"));
}

#[test]
fn key_names_are_looked_up_and_canonicalised() {
    let error = HotkeyBinding::from_parts(true, false, false, false, "NoSuchKey").unwrap_err();
    assert_eq!(error.message(), "unsupported shortcut key: NoSuchKey");
    let error = HotkeyBinding::from_parts(true, false, false, false, "OSLeft").unwrap_err();
    assert_eq!(error.message(), "a modifier key cannot be used as the shortcut trigger");
    let binding = HotkeyBinding::from_parts(true, false, false, false, "VolumeUp").unwrap();
    assert_eq!(binding.code_name(), "AudioVolumeUp");
}

#[test]
fn labels_follow_the_platform() {
    let binding = HotkeyBinding::from_parts(true, false, true, true, "ArrowUp").unwrap();
    assert_eq!(binding.display_label(Platform::Windows), "Ctrl+Shift+Win+↑");
    assert_eq!(binding.display_label(Platform::Linux), "Ctrl+Shift+Super+↑");
    assert_eq!(binding.display_label(Platform::MacOs), "⌃⇧⌘↑");
    assert_eq!(HotkeyBinding::capture_default().display_label(Platform::Linux), "PrtSc");
    let digit = HotkeyBinding::from_parts(false, true, false, false, "Digit7").unwrap();
    assert_eq!(digit.display_label(Platform::Linux), "Alt+7");
    assert_eq!(xdg_key_name("PageUp"), Some("Prior"));
    assert_eq!(xdg_key_name("Digit0"), Some("0"));
    assert_eq!(xdg_key_name("Numpad1"), None);
    let numpad = HotkeyBinding::from_parts(true, false, false, false, "Numpad1").unwrap();
    assert_eq!(numpad.xdg_trigger(), None);
}

/// The text the interface toolkit reports for Print/SysReq and F8.
// The text the UI toolkit reports for each recordable named key, in the
// library's order of them.
fn toolkit_texts() -> Vec<(NamedKey, String)> {
    let mut texts: Vec<char> = vec![
        '\u{a}', '\u{1b}', '\u{9}', '\u{8}', '\u{7f}', ' ', '\u{f700}', '\u{f701}', '\u{f702}',
        '\u{f703}', '\u{f727}', '\u{f729}', '\u{f72b}', '\u{f72c}', '\u{f72d}', '\u{f731}',
    ];
    for offset in 0..24_u32 {
        texts.push(char::from_u32(0xf704 + offset).unwrap());
    }
    NamedKey::all().into_iter().zip(texts).map(|(key, text)| (key, text.to_string())).collect()
}

#[test]
fn maps_print_screen_and_function_keys() {
    let named = toolkit_texts();
    assert_eq!(slint_key_to_code_name("\u{f731}", &named).as_deref(), Some("PrintScreen"));
    assert_eq!(slint_key_to_code_name("\u{f70b}", &named).as_deref(), Some("F8"));
}

#[test]
fn every_toolkit_named_key_is_recorded_by_its_code() {
    let named = toolkit_texts();
    assert_eq!(named.len(), 40);
    assert_eq!(slint_key_to_code_name("\u{a}", &named).as_deref(), Some("Enter"));
    assert_eq!(slint_key_to_code_name(" ", &named).as_deref(), Some("Space"));
    assert_eq!(slint_key_to_code_name("\u{f700}", &named).as_deref(), Some("ArrowUp"));
    assert_eq!(slint_key_to_code_name("\u{f72d}", &named).as_deref(), Some("PageDown"));
    assert_eq!(slint_key_to_code_name("\u{f704}", &named).as_deref(), Some("F1"));
    assert_eq!(slint_key_to_code_name("\u{f71b}", &named).as_deref(), Some("F24"));
    for (key, text) in &named {
        assert_eq!(slint_key_to_code_name(text, &named).as_deref(), Some(key.code_name()));
    }
}

#[test]
fn every_named_key_has_a_valid_code() {
    let keys = NamedKey::all();
    assert_eq!(keys.len(), 40);
    assert_eq!(keys[0].code_name(), "Enter");
    assert_eq!(keys[6].code_name(), "ArrowUp");
    assert_eq!(keys[39].code_name(), "F24");
    for key in keys {
        assert!(HotkeyBinding::from_parts(true, false, false, false, key.code_name()).is_ok());
    }
}

#[test]
fn maps_printable_keys_to_physical_codes() {
    let named: Vec<(NamedKey, String)> = Vec::new();
    assert_eq!(slint_key_to_code_name("s", &named).as_deref(), Some("KeyS"));
    assert_eq!(slint_key_to_code_name("S", &named).as_deref(), Some("KeyS"));
    assert_eq!(slint_key_to_code_name("1", &named).as_deref(), Some("Digit1"));
    assert_eq!(slint_key_to_code_name("!", &named).as_deref(), Some("Digit1"));
    assert_eq!(slint_key_to_code_name("+", &named).as_deref(), Some("Equal"));
}

#[test]
fn named_keys_are_looked_up_before_characters() {
    let named = vec![(NamedKey::Space, " ".to_owned()), (NamedKey::F1, "\u{f704}".to_owned())];
    assert_eq!(slint_key_to_code_name(" ", &named).as_deref(), Some("Space"));
    assert_eq!(slint_key_to_code_name("\u{f704}", &named).as_deref(), Some("F1"));
    assert_eq!(slint_key_to_code_name("ab", &named), None);
    assert_eq!(slint_key_to_code_name("é", &named), None);
}

#[test]
fn invalid_saved_binding_does_not_match_default_fallback() {
    let mut settings = AppSettings::default();
    settings.hotkeys.capture.key = "DefinitelyInvalid".to_owned();
    let requested = HotkeyBinding::capture_default();

    let (previous, matches_saved) = previous_binding(&settings, &requested);
    assert_eq!(previous, requested);
    assert!(!matches_saved);
}

#[test]
fn stored_bindings_round_trip_through_settings() {
    let mut settings = AppSettings::default();
    let binding = HotkeyBinding::from_parts(false, true, false, false, "F8").unwrap();
    write_binding(&mut settings, &binding);
    assert_eq!(settings.hotkeys.capture.key, "F8");
    assert_eq!(binding_from_settings(&settings).unwrap(), binding);
    let (previous, matches) = previous_binding(&settings, &binding);
    assert_eq!(previous, binding);
    assert!(matches);
    assert_eq!(platform_modifier_mapping(Platform::MacOs, true, false), (false, true));
    assert_eq!(platform_modifier_mapping(Platform::Linux, true, false), (true, false));
}

#[test]
fn dialog_directory_prefers_last_location_when_enabled() {
    let settings = ExportSettings {
        default_directory: Some("default".to_owned()),
        last_directory: Some("last".to_owned()),
        remember_last_directory: true,
        ..ExportSettings::default()
    };
    assert_eq!(settings.dialog_directory(), Some("last"));

    let settings = ExportSettings { remember_last_directory: false, ..settings };
    assert_eq!(settings.dialog_directory(), Some("default"));
}

#[test]
fn modes_round_trip_through_their_names() {
    for mode in [AppearanceMode::System, AppearanceMode::Light, AppearanceMode::Dark] {
        assert_eq!(AppearanceMode::from_value(mode.as_str()), Some(mode));
    }
    for mode in [LanguageMode::System, LanguageMode::English, LanguageMode::SimplifiedChinese] {
        assert_eq!(LanguageMode::from_value(mode.as_str()), Some(mode));
    }
    assert_eq!(LanguageMode::from_value("zh_CN"), Some(LanguageMode::SimplifiedChinese));
    assert_eq!(LanguageMode::from_value("fr"), None);
}

#[test]
fn legacy_single_model_becomes_text_model() {
    let parsed = AppSettings {
        schema_version: 4,
        ocr: OcrSettings { active_model_id: Some("ppocrv6-small-mnn".to_owned()), ..OcrSettings::default() },
        ..AppSettings::default()
    };
    let settings = SettingsStore::migrate(parsed).unwrap();
    assert_eq!(settings.schema_version, SETTINGS_SCHEMA_VERSION);
    assert_eq!(settings.ocr.text_model_id.as_deref(), Some("ppocrv6-small-mnn"));
    assert_eq!(settings.ocr.document_model_id, None);
}

#[test]
fn future_schema_falls_back_instead_of_being_overwritten() {
    let parsed = AppSettings { schema_version: SETTINGS_SCHEMA_VERSION + 1, ..AppSettings::default() };
    let loaded = SettingsStore::migrate(parsed);
    assert!(matches!(loaded, Err(SettingsError::UnsupportedSchema(6))));
    let fallback = SettingsStore::load_or_default(loaded);
    assert_eq!(fallback.settings, AppSettings::default());
    assert_eq!(
        fallback.warning.as_deref(),
        Some("settings schema 6 is newer than supported schema 5")
    );
    assert!(SettingsStore::load_for_update(Err(SettingsError::UnsupportedSchema(6))).is_err());
    assert_eq!(
        SettingsStore::load_for_update(Err(SettingsError::Parse("bad".to_owned()))).unwrap(),
        AppSettings::default()
    );
}

#[test]
fn settings_paths_are_built_from_directories() {
    let store = SettingsStore::in_directory(Some("/home/u/.config".to_owned()), "/tmp", '/');
    assert_eq!(store.path(), "/home/u/.config/AzusaLens/settings.json");
    let store = SettingsStore::in_directory(None, "/tmp/", '/');
    assert_eq!(store.path(), "/tmp/AzusaLens/settings.json");
    let export = ExportSettings { default_directory: Some("/x".to_owned()), ..ExportSettings::default() };
    assert_eq!(export.quick_save_directory("/tmp"), "/x");
}

#[test]
fn effective_label_prefers_the_portal_description() {
    let binding = HotkeyBinding::from_parts(true, false, false, false, "KeyS").unwrap();
    assert_eq!(binding.effective_label(Platform::Linux, Some("Press Print")), "Press Print");
    assert_eq!(binding.effective_label(Platform::Linux, Some("")), "Ctrl+S");
    assert_eq!(binding.effective_label(Platform::Linux, None), "Ctrl+S");
}

fn settings_with_key(key: &str) -> AppSettings {
    let mut settings = AppSettings::default();
    settings.hotkeys.capture.key = key.to_owned();
    settings
}

#[test]
fn startup_falls_back_to_print_screen() {
    let (binding, status) = startup_binding(&AppSettings::default());
    assert_eq!(binding.code_name(), "PrintScreen");
    assert!(status.is_none());
    let (binding, status) = startup_binding(&settings_with_key("DefinitelyInvalid"));
    assert_eq!(binding.code_name(), "PrintScreen");
    assert_eq!(
        status.as_deref(),
        Some(
            "Saved shortcut is invalid · unsupported shortcut key: DefinitelyInvalid · using PrtSc until it is changed"
        )
    );
}

#[test]
fn shortcut_requests_are_checked_before_registering() {
    let settings = AppSettings::default();
    let request =
        binding_requested(true, false, &settings, Platform::Linux, true, false, false, false, Some("KeyS"));
    assert!(matches!(request, ShortcutRequest::Ignored));
    match binding_requested(false, false, &settings, Platform::Linux, true, false, false, false, None) {
        ShortcutRequest::Status(status) => {
            assert_eq!(status, "Unsupported shortcut key · choose another key")
        }
        other => panic!("unexpected {other:?}"),
    }
    match binding_requested(false, false, &settings, Platform::Linux, false, false, false, false, Some("KeyA")) {
        ShortcutRequest::Status(status) => assert!(status.starts_with("Shortcut rejected · ")),
        other => panic!("unexpected {other:?}"),
    }
    match binding_requested(false, true, &settings, Platform::Linux, false, false, false, false, Some("PrintScreen")) {
        ShortcutRequest::Status(status) => assert_eq!(status, "Shortcut is already active"),
        other => panic!("unexpected {other:?}"),
    }
    match binding_requested(false, true, &settings, Platform::Linux, true, false, false, false, Some("KeyS")) {
        ShortcutRequest::Register(pending) => {
            assert_eq!(pending.requested.code_name(), "KeyS");
            assert!(pending.requested.control());
            assert_eq!(pending.previous.unwrap().code_name(), "PrintScreen");
            assert!(pending.persist);
            assert!(!pending.rollback);
        }
        other => panic!("unexpected {other:?}"),
    }
    // On macOS the interface's control is Command.
    match binding_requested(false, false, &settings, Platform::MacOs, true, false, false, false, Some("KeyS")) {
        ShortcutRequest::Register(pending) => {
            assert!(pending.requested.meta());
            assert!(!pending.requested.control());
        }
        other => panic!("unexpected {other:?}"),
    }
}

#[test]
fn reset_and_retry_requests() {
    let settings = AppSettings::default();
    match reset_requested(false, true, &settings) {
        ShortcutRequest::Status(status) => assert_eq!(status, "PrtSc is already the active shortcut"),
        other => panic!("unexpected {other:?}"),
    }
    match reset_requested(false, false, &settings) {
        ShortcutRequest::Register(pending) => {
            assert_eq!(pending.requested.code_name(), "PrintScreen");
            assert!(pending.persist);
        }
        other => panic!("unexpected {other:?}"),
    }
    match retry_requested(false, &settings_with_key("DefinitelyInvalid")) {
        ShortcutRequest::Register(pending) => {
            assert_eq!(pending.requested.code_name(), "PrintScreen");
            assert!(pending.previous.is_none());
            assert!(!pending.persist);
        }
        other => panic!("unexpected {other:?}"),
    }
    assert!(matches!(retry_requested(true, &settings), ShortcutRequest::Ignored));
}

fn pending_ctrl_s(persist: bool, rollback: bool) -> PendingRegistration {
    PendingRegistration {
        requested: HotkeyBinding::from_parts(true, false, false, false, "KeyS").unwrap(),
        previous: Some(HotkeyBinding::capture_default()),
        persist,
        rollback,
    }
}

#[test]
fn finished_registrations_activate_restore_or_fail() {
    let (name, status) = registration_started(&pending_ctrl_s(true, false).requested, false, Platform::Linux);
    assert_eq!(name, "Registering Ctrl+S…");
    assert_eq!(status.as_deref(), Some("Registering screenshot shortcut · Ctrl+S"));
    assert!(registration_started(&pending_ctrl_s(true, true).requested, true, Platform::Linux).1.is_none());

    match registration_finished(&pending_ctrl_s(true, false), Ok(None), Some(Ok(())), Platform::Linux, false) {
        RegistrationStep::Active { configured, effective, status } => {
            assert_eq!(configured, "Ctrl+S");
            assert_eq!(effective, "Ctrl+S");
            assert_eq!(status, "Screenshot shortcut active · Ctrl+S");
        }
        other => panic!("unexpected {other:?}"),
    }
    match registration_finished(
        &pending_ctrl_s(false, false),
        Ok(Some("Print".to_owned())),
        None,
        Platform::Linux,
        true,
    ) {
        RegistrationStep::Active { status, .. } => {
            assert_eq!(status, "Shortcut active · requested Ctrl+S · system assigned Print")
        }
        other => panic!("unexpected {other:?}"),
    }
    match registration_finished(&pending_ctrl_s(false, true), Ok(None), None, Platform::Linux, true) {
        RegistrationStep::Active { status, .. } => {
            assert_eq!(status, "Previous shortcut restored · Ctrl+S")
        }
        other => panic!("unexpected {other:?}"),
    }
    match registration_finished(
        &pending_ctrl_s(true, false),
        Ok(None),
        Some(Err("disk full".to_owned())),
        Platform::Linux,
        false,
    ) {
        RegistrationStep::Restore { status, next } => {
            assert_eq!(status, "Could not save shortcut · disk full · restoring PrtSc");
            assert_eq!(next.requested.code_name(), "PrintScreen");
            assert!(next.rollback && !next.persist && next.previous.is_none());
        }
        other => panic!("unexpected {other:?}"),
    }
    match registration_finished(
        &pending_ctrl_s(true, false),
        Err("taken".to_owned()),
        None,
        Platform::Linux,
        false,
    ) {
        RegistrationStep::Restore { status, .. } => {
            assert_eq!(status, "Shortcut Ctrl+S failed · taken · restoring PrtSc")
        }
        other => panic!("unexpected {other:?}"),
    }
    let mut alone = pending_ctrl_s(false, false);
    alone.previous = None;
    match registration_finished(&alone, Err("taken".to_owned()), None, Platform::Linux, false) {
        RegistrationStep::Failed { name, status } => {
            assert_eq!(name.as_deref(), Some("Ctrl+S unavailable"));
            assert_eq!(
                status,
                "Screenshot shortcut registration failed · taken · click retry to try again"
            );
        }
        other => panic!("unexpected {other:?}"),
    }
}

use note_shell::commands::settings_commands::{
    decode_settings, get_settings_path, load_settings, printed_settings, save_settings,
    select_directory, settings_from_object, settings_object, update_shortcut, update_tray_menu,
    AppSettings, SettingsDir, SettingsFile, ShortcutUpdate,
};
use note_shell::events::Console;
use note_shell::menu::TrayEntry;
use note_shell::recent::RecentFiles;
use note_shell::shortcuts::{finish_registration, RegistrationPlan, ShortcutBindings, Slot};

fn started(update: Result<ShortcutUpdate, String>) -> RegistrationPlan {
    match update {
        Ok(ShortcutUpdate::Register(plan)) => plan,
        other => panic!("expected a registration, found {:?}", other),
    }
}

fn sample() -> AppSettings {
    AppSettings {
        theme: "dark".to_string(),
        language: "de".to_string(),
        default_format: "md".to_string(),
        default_path: Some("/home/u/notes".to_string()),
        new_note_shortcut: "CmdOrCtrl+Shift+N".to_string(),
        close_tab_shortcut: "CmdOrCtrl+Shift+W".to_string(),
        toggle_window_shortcut: "CmdOrCtrl+Shift+H".to_string(),
    }
}

fn defaults() -> AppSettings {
    AppSettings {
        theme: "light".to_string(),
        language: "en".to_string(),
        default_format: "txt".to_string(),
        default_path: None,
        new_note_shortcut: "CmdOrCtrl+Option+T".to_string(),
        close_tab_shortcut: "CmdOrCtrl+Option+Y".to_string(),
        toggle_window_shortcut: "CmdOrCtrl+Option+U".to_string(),
    }
}

#[test]
fn default_record_is_the_documented_one() {
    assert_eq!(AppSettings::default(), defaults());
}

#[test]
fn load_without_a_file_gives_the_defaults() {
    assert_eq!(load_settings(SettingsDir::Ready, SettingsFile::Absent), Ok(defaults()));
}

#[test]
fn load_of_an_unreadable_file_gives_the_defaults() {
    assert_eq!(load_settings(SettingsDir::Ready, SettingsFile::Unreadable), Ok(defaults()));
}

#[test]
fn load_of_malformed_json_gives_the_defaults() {
    let file = SettingsFile::Text("{ \"theme\": \"dark\", ".to_string());
    assert_eq!(load_settings(SettingsDir::Ready, file), Ok(defaults()));
    let file = SettingsFile::Text("".to_string());
    assert_eq!(load_settings(SettingsDir::Ready, file), Ok(defaults()));
    let file = SettingsFile::Text("[1, 2, 3]".to_string());
    assert_eq!(load_settings(SettingsDir::Ready, file), Ok(defaults()));
}

#[test]
fn load_with_a_missing_field_gives_the_defaults() {
    let text = "{\"theme\":\"dark\",\"language\":\"de\",\"default_format\":\"md\",\
                \"new_note_shortcut\":\"A\",\"close_tab_shortcut\":\"B\"}";
    assert_eq!(decode_settings(text), None);
    assert_eq!(
        load_settings(SettingsDir::Ready, SettingsFile::Text(text.to_string())),
        Ok(defaults())
    );
}

#[test]
fn load_with_a_field_of_the_wrong_type_gives_the_defaults() {
    let text = "{\"theme\":1,\"language\":\"de\",\"default_format\":\"md\",\
                \"new_note_shortcut\":\"A\",\"close_tab_shortcut\":\"B\",\
                \"toggle_window_shortcut\":\"C\"}";
    assert_eq!(decode_settings(text), None);
    let text = "{\"theme\":\"dark\",\"language\":\"de\",\"default_format\":\"md\",\
                \"default_path\":[],\"new_note_shortcut\":\"A\",\"close_tab_shortcut\":\"B\",\
                \"toggle_window_shortcut\":\"C\"}";
    assert_eq!(decode_settings(text), None);
    assert_eq!(
        load_settings(SettingsDir::Ready, SettingsFile::Text(text.to_string())),
        Ok(defaults())
    );
}

#[test]
fn load_reads_every_field() {
    let text = "{\"theme\":\"dark\",\"language\":\"de\",\"default_format\":\"md\",\
                \"default_path\":\"/home/u/notes\",\"new_note_shortcut\":\"CmdOrCtrl+Shift+N\",\
                \"close_tab_shortcut\":\"CmdOrCtrl+Shift+W\",\
                \"toggle_window_shortcut\":\"CmdOrCtrl+Shift+H\"}";
    assert_eq!(
        load_settings(SettingsDir::Ready, SettingsFile::Text(text.to_string())),
        Ok(sample())
    );
}

#[test]
fn load_takes_a_null_or_missing_default_path_as_unset() {
    let mut expected = sample();
    expected.default_path = None;
    let with_null = "{\"theme\":\"dark\",\"language\":\"de\",\"default_format\":\"md\",\
                     \"default_path\":null,\"new_note_shortcut\":\"CmdOrCtrl+Shift+N\",\
                     \"close_tab_shortcut\":\"CmdOrCtrl+Shift+W\",\
                     \"toggle_window_shortcut\":\"CmdOrCtrl+Shift+H\"}";
    assert_eq!(decode_settings(with_null), Some(expected.clone()));
    let without = "{\"theme\":\"dark\",\"language\":\"de\",\"default_format\":\"md\",\
                   \"new_note_shortcut\":\"CmdOrCtrl+Shift+N\",\
                   \"close_tab_shortcut\":\"CmdOrCtrl+Shift+W\",\
                   \"toggle_window_shortcut\":\"CmdOrCtrl+Shift+H\"}";
    assert_eq!(decode_settings(without), Some(expected));
}

#[test]
fn load_ignores_members_it_does_not_know() {
    let text = "{\"theme\":\"dark\",\"language\":\"de\",\"default_format\":\"md\",\
                \"default_path\":\"/home/u/notes\",\"new_note_shortcut\":\"CmdOrCtrl+Shift+N\",\
                \"close_tab_shortcut\":\"CmdOrCtrl+Shift+W\",\
                \"toggle_window_shortcut\":\"CmdOrCtrl+Shift+H\",\"font_size\":14}";
    assert_eq!(decode_settings(text), Some(sample()));
}

#[test]
fn load_without_a_config_directory_fails() {
    assert_eq!(
        load_settings(SettingsDir::Unknown, SettingsFile::Absent),
        Err("Could not find app config directory".to_string())
    );
    assert_eq!(
        load_settings(
            SettingsDir::Unavailable("permission denied".to_string()),
            SettingsFile::Text("{}".to_string())
        ),
        Err("permission denied".to_string())
    );
}

#[test]
fn settings_path_is_the_file_name_or_the_reason() {
    assert_eq!(get_settings_path(&SettingsDir::Ready), Ok("settings.json".to_string()));
    assert_eq!(
        get_settings_path(&SettingsDir::Unknown),
        Err("Could not find app config directory".to_string())
    );
    assert_eq!(
        get_settings_path(&SettingsDir::Unavailable("disk full".to_string())),
        Err("disk full".to_string())
    );
}

#[test]
fn save_then_load_gives_the_record_back() {
    let saved = sample();
    let text = save_settings(&SettingsDir::Ready, &saved).unwrap();
    assert_eq!(load_settings(SettingsDir::Ready, SettingsFile::Text(text)), Ok(saved));
    let mut unset = sample();
    unset.default_path = None;
    let text = save_settings(&SettingsDir::Ready, &unset).unwrap();
    assert_eq!(load_settings(SettingsDir::Ready, SettingsFile::Text(text)), Ok(unset));
    let text = save_settings(&SettingsDir::Ready, &defaults()).unwrap();
    assert_eq!(decode_settings(&text), Some(defaults()));
}

#[test]
fn save_then_load_keeps_unusual_characters() {
    let mut odd = sample();
    odd.theme = "da\"rk\\ \n\t\u{e9}\u{4e2d}".to_string();
    odd.default_path = Some("C:\\Users\\u\\notes".to_string());
    let text = save_settings(&SettingsDir::Ready, &odd).unwrap();
    assert_eq!(decode_settings(&text), Some(odd));
}

#[test]
fn save_prints_a_pretty_json_object() {
    let text = save_settings(&SettingsDir::Ready, &defaults()).unwrap();
    let expected = "{\n  \"close_tab_shortcut\": \"CmdOrCtrl+Option+Y\",\n  \
                    \"default_format\": \"txt\",\n  \"default_path\": null,\n  \
                    \"language\": \"en\",\n  \"new_note_shortcut\": \"CmdOrCtrl+Option+T\",\n  \
                    \"theme\": \"light\",\n  \"toggle_window_shortcut\": \"CmdOrCtrl+Option+U\"\n}";
    assert_eq!(text, expected);
}

#[test]
fn save_without_a_config_directory_fails() {
    assert_eq!(
        save_settings(&SettingsDir::Unknown, &sample()),
        Err("Could not find app config directory".to_string())
    );
    assert_eq!(
        save_settings(&SettingsDir::Unavailable("read-only file system".to_string()), &sample()),
        Err("read-only file system".to_string())
    );
}

#[test]
fn settings_object_holds_one_member_for_each_field() {
    let object = settings_object(&sample());
    assert_eq!(object.len(), 7);
    assert_eq!(object.get("theme").and_then(|v| v.as_str()), Some("dark"));
    assert_eq!(object.get("language").and_then(|v| v.as_str()), Some("de"));
    assert_eq!(object.get("default_format").and_then(|v| v.as_str()), Some("md"));
    assert_eq!(object.get("default_path").and_then(|v| v.as_str()), Some("/home/u/notes"));
    assert_eq!(
        object.get("new_note_shortcut").and_then(|v| v.as_str()),
        Some("CmdOrCtrl+Shift+N")
    );
    assert_eq!(
        object.get("close_tab_shortcut").and_then(|v| v.as_str()),
        Some("CmdOrCtrl+Shift+W")
    );
    assert_eq!(
        object.get("toggle_window_shortcut").and_then(|v| v.as_str()),
        Some("CmdOrCtrl+Shift+H")
    );
    let object = settings_object(&defaults());
    assert!(object.get("default_path").unwrap().is_null());
}

#[test]
fn settings_from_object_reads_what_settings_object_wrote() {
    assert_eq!(settings_from_object(&settings_object(&sample())), Some(sample()));
    assert_eq!(settings_from_object(&settings_object(&defaults())), Some(defaults()));
    assert_eq!(settings_from_object(&serde_json::Map::new()), None);
    let mut object = settings_object(&sample());
    object.insert("language".to_string(), serde_json::Value::Bool(true));
    assert_eq!(settings_from_object(&object), None);
    let mut object = settings_object(&sample());
    object.remove("default_path");
    let mut expected = sample();
    expected.default_path = None;
    assert_eq!(settings_from_object(&object), Some(expected));
}

#[test]
fn printed_settings_passes_the_text_and_reports_the_error() {
    assert_eq!(printed_settings(Ok("{}".to_string())), Ok("{}".to_string()));
    let error = serde_json::from_str::<serde_json::Value>("{").unwrap_err();
    let message = error.to_string();
    assert!(!message.is_empty());
    assert_eq!(printed_settings(Err(error)), Err(message));
}

#[test]
fn update_shortcut_without_an_action_means_the_new_note_slot() {
    let mut bindings = ShortcutBindings::new();
    let plan = started(update_shortcut(&mut bindings, "CmdOrCtrl+J", None, true));
    assert_eq!(plan.slot, Slot::NewNote);
    assert_eq!(plan.release, None);
    assert_eq!(plan.bind, Some("CmdOrCtrl+J".to_string()));
    assert_eq!(plan.note, None);
}

#[test]
fn update_shortcut_picks_the_slot_by_the_action_name() {
    let mut bindings = ShortcutBindings::new();
    let plan = started(update_shortcut(&mut bindings, "A", Some("close_tab"), true));
    assert_eq!(plan.slot, Slot::CloseTab);
    let plan = started(update_shortcut(&mut bindings, "B", Some("toggle_window"), true));
    assert_eq!(plan.slot, Slot::ToggleWindow);
    let plan = started(update_shortcut(&mut bindings, "C", Some("new_note"), true));
    assert_eq!(plan.slot, Slot::NewNote);
}

#[test]
fn update_shortcut_releases_what_the_slot_held() {
    let mut bindings = ShortcutBindings::new();
    finish_registration(&mut bindings, Slot::CloseTab, "Old".to_string(), Ok(()));
    let plan = started(update_shortcut(&mut bindings, "New", Some("close_tab"), true));
    assert_eq!(plan.release, Some("Old".to_string()));
    assert_eq!(plan.bind, Some("New".to_string()));
    assert_eq!(bindings.bound(Slot::CloseTab), None);
}

#[test]
fn update_shortcut_with_an_unknown_action_changes_nothing() {
    let mut bindings = ShortcutBindings::new();
    finish_registration(&mut bindings, Slot::NewNote, "Kept".to_string(), Ok(()));
    let result = update_shortcut(&mut bindings, "X", Some("open_file"), true);
    assert_eq!(
        result,
        Ok(ShortcutUpdate::Ignored(Console::Error(
            "Unknown shortcut action: open_file".to_string()
        )))
    );
    assert_eq!(bindings.bound(Slot::NewNote), Some(&"Kept".to_string()));
    assert_eq!(bindings.bound(Slot::CloseTab), None);
    assert_eq!(bindings.bound(Slot::ToggleWindow), None);
}

#[test]
fn update_shortcut_never_fails() {
    let mut bindings = ShortcutBindings::new();
    for action in [None, Some("new_note"), Some("close_tab"), Some("toggle_window"), Some(""), Some("NEW_NOTE")] {
        for window_present in [false, true] {
            assert!(update_shortcut(&mut bindings, "CmdOrCtrl+J", action, window_present).is_ok());
        }
    }
}

#[test]
fn save_with_a_directory_never_fails() {
    let mut odd = sample();
    odd.language = String::new();
    odd.theme = "\u{0}\"\n".to_string();
    for settings in [sample(), defaults(), odd] {
        let text = save_settings(&SettingsDir::Ready, &settings).unwrap();
        let object: serde_json::Map<String, serde_json::Value> =
            serde_json::from_str(&text).unwrap();
        let mut keys: Vec<&str> = object.keys().map(|k| k.as_str()).collect();
        keys.sort();
        assert_eq!(
            keys,
            vec![
                "close_tab_shortcut",
                "default_format",
                "default_path",
                "language",
                "new_note_shortcut",
                "theme",
                "toggle_window_shortcut",
            ]
        );
        assert_eq!(object.get("theme").and_then(|v| v.as_str()), Some(settings.theme.as_str()));
    }
}

#[test]
fn update_tray_menu_stores_the_list_and_never_fails() {
    let mut state = RecentFiles::new();
    let menu = update_tray_menu(&mut state, "com.notes.app", vec!["/a/b.txt".to_string()]).unwrap();
    assert_eq!(state.get("com.notes.app"), Some(&vec!["/a/b.txt".to_string()]));
    assert_eq!(menu.entries.len(), 11);
    match &menu.entries[7] {
        TrayEntry::Submenu { items, .. } => assert_eq!(items.len(), 1),
        other => panic!("expected the submenu, found {:?}", other),
    }
}

#[test]
fn select_directory_dialog_has_its_title() {
    assert_eq!(select_directory().title, "Select Default Directory");
}

//! The settings record and its file, and the commands that change
//! shortcuts and the tray menu.
//!
//! The settings file is a JSON object with one member for each field of the
//! record. The host reads and writes the file; this module turns its text
//! into a record and a record into its text.

use vstd::prelude::*;
use crate::events::{texts, Console, ConsoleView};
use crate::json::{
    error_text, holds_texts_only, member, member_of, new_object, no_members, object_members,
    parse_object, parsed_object, pretty_text, print_object, set_member, text_member, JsonField,
    JsonFieldView,
};
use crate::menu::{
    name_each, option_text, recent_submenu, tray_menu, update_tray_menu_with_recent_files,
    TrayMenu,
};
use crate::recent::RecentFiles;
use crate::shortcuts::{register_shortcut, registration_plan, RegistrationPlan, ShortcutBindings, Slot};
use crate::text::{joined, same_text};

verus! {

/// The user's settings.
#[derive(Debug, Clone, PartialEq, Eq)]
pub struct AppSettings {
    pub theme: String,
    pub language: String,
    pub default_format: String,
    pub default_path: Option<String>,
    pub new_note_shortcut: String,
    pub close_tab_shortcut: String,
    pub toggle_window_shortcut: String,
}

/// Mathematical form of [`AppSettings`].
pub struct AppSettingsView {
    pub theme: Seq<char>,
    pub language: Seq<char>,
    pub default_format: Seq<char>,
    pub default_path: Option<Seq<char>>,
    pub new_note_shortcut: Seq<char>,
    pub close_tab_shortcut: Seq<char>,
    pub toggle_window_shortcut: Seq<char>,
}

impl View for AppSettings {
    type V = AppSettingsView;

    open spec fn view(&self) -> AppSettingsView {
        AppSettingsView {
            theme: self.theme@,
            language: self.language@,
            default_format: self.default_format@,
            default_path: option_text(self.default_path),
            new_note_shortcut: self.new_note_shortcut@,
            close_tab_shortcut: self.close_tab_shortcut@,
            toggle_window_shortcut: self.toggle_window_shortcut@,
        }
    }
}

/// The settings of a fresh installation.
pub open spec fn default_settings() -> AppSettingsView {
    AppSettingsView {
        theme: "light"@,
        language: "en"@,
        default_format: "txt"@,
        default_path: None,
        new_note_shortcut: "CmdOrCtrl+Option+T"@,
        close_tab_shortcut: "CmdOrCtrl+Option+Y"@,
        toggle_window_shortcut: "CmdOrCtrl+Option+U"@,
    }
}

impl Default for AppSettings {
    fn default() -> (r: Self)
        ensures
            r@ == default_settings(),
    {
        AppSettings {
            theme: String::from_str("light"),
            language: String::from_str("en"),
            default_format: String::from_str("txt"),
            default_path: None,
            new_note_shortcut: String::from_str("CmdOrCtrl+Option+T"),
            close_tab_shortcut: String::from_str("CmdOrCtrl+Option+Y"),
            toggle_window_shortcut: String::from_str("CmdOrCtrl+Option+U"),
        }
    }
}

/// The members of the settings file for a record: one string for each
/// field, and `null` for a default path that is not set.
pub open spec fn settings_members(s: AppSettingsView) -> Map<Seq<char>, JsonFieldView> {
    no_members().insert("theme"@, JsonFieldView::Text(s.theme)).insert(
        "language"@,
        JsonFieldView::Text(s.language),
    ).insert("default_format"@, JsonFieldView::Text(s.default_format)).insert(
        "default_path"@,
        text_member(s.default_path),
    ).insert("new_note_shortcut"@, JsonFieldView::Text(s.new_note_shortcut)).insert(
        "close_tab_shortcut"@,
        JsonFieldView::Text(s.close_tab_shortcut),
    ).insert("toggle_window_shortcut"@, JsonFieldView::Text(s.toggle_window_shortcut))
}

/// The record that the members of a settings file stand for. Every field
/// but the default path has to be there as a string; the default path may be
/// a string, `null` or missing. Members of other names are ignored. A file
/// that does not meet this stands for no record. Where the file names a
/// member twice, the parser keeps the later value, and that is the member
/// meant here.
pub open spec fn settings_from_members(m: Map<Seq<char>, JsonFieldView>) -> Option<
    AppSettingsView,
> {
    match (
        member_of(m, "theme"@),
        member_of(m, "language"@),
        member_of(m, "default_format"@),
        member_of(m, "new_note_shortcut"@),
        member_of(m, "close_tab_shortcut"@),
        member_of(m, "toggle_window_shortcut"@),
    ) {
        (
            JsonFieldView::Text(theme),
            JsonFieldView::Text(language),
            JsonFieldView::Text(default_format),
            JsonFieldView::Text(new_note_shortcut),
            JsonFieldView::Text(close_tab_shortcut),
            JsonFieldView::Text(toggle_window_shortcut),
        ) => match member_of(m, "default_path"@) {
            JsonFieldView::Other => None,
            JsonFieldView::Text(path) => Some(
                AppSettingsView {
                    theme,
                    language,
                    default_format,
                    default_path: Some(path),
                    new_note_shortcut,
                    close_tab_shortcut,
                    toggle_window_shortcut,
                },
            ),
            _ => Some(
                AppSettingsView {
                    theme,
                    language,
                    default_format,
                    default_path: None,
                    new_note_shortcut,
                    close_tab_shortcut,
                    toggle_window_shortcut,
                },
            ),
        },
        _ => None,
    }
}

/// Mathematical form of an optional record.
pub open spec fn option_settings(o: Option<AppSettings>) -> Option<AppSettingsView> {
    match o {
        Some(s) => Some(s@),
        None => None,
    }
}

/// The names of the seven members differ from one another.
proof fn lemma_member_names_differ()
    ensures
        "theme"@.len() == 5,
        "language"@.len() == 8,
        "default_format"@.len() == 14,
        "default_path"@.len() == 12,
        "new_note_shortcut"@.len() == 17,
        "close_tab_shortcut"@.len() == 18,
        "toggle_window_shortcut"@.len() == 22,
{
    reveal_strlit("theme");
    reveal_strlit("language");
    reveal_strlit("default_format");
    reveal_strlit("default_path");
    reveal_strlit("new_note_shortcut");
    reveal_strlit("close_tab_shortcut");
    reveal_strlit("toggle_window_shortcut");
}

/// A record that is stored and read again is the record that was stored:
/// the members written for it stand for it, field for field.
pub proof fn lemma_settings_round_trip(s: AppSettingsView)
    ensures
        settings_from_members(settings_members(s)) == Some(s),
        holds_texts_only(settings_members(s)),
{
    lemma_member_names_differ();
}

/// The JSON object that is written to the settings file for a record.
pub fn settings_object(settings: &AppSettings) -> (object: serde_json::Map<
    String,
    serde_json::Value,
>)
    ensures
        object_members(object) == settings_members(settings@),
{
    let mut object = new_object();
    set_member(&mut object, "theme", Some(settings.theme.as_str()));
    set_member(&mut object, "language", Some(settings.language.as_str()));
    set_member(&mut object, "default_format", Some(settings.default_format.as_str()));
    match &settings.default_path {
        Some(path) => set_member(&mut object, "default_path", Some(path.as_str())),
        None => set_member(&mut object, "default_path", None),
    }
    set_member(&mut object, "new_note_shortcut", Some(settings.new_note_shortcut.as_str()));
    set_member(&mut object, "close_tab_shortcut", Some(settings.close_tab_shortcut.as_str()));
    set_member(
        &mut object,
        "toggle_window_shortcut",
        Some(settings.toggle_window_shortcut.as_str()),
    );
    object
}

fn text_of(field: JsonField) -> (r: Option<String>)
    ensures
        match r {
            Some(text) => field@ == JsonFieldView::Text(text@),
            None => !(field@ is Text),
        },
{
    match field {
        JsonField::Text(text) => Some(text),
        _ => None,
    }
}

/// Reads a record from the JSON object of a settings file.
pub fn settings_from_object(object: &serde_json::Map<String, serde_json::Value>) -> (r: Option<
    AppSettings,
>)
    ensures
        option_settings(r) == settings_from_members(object_members(*object)),
{
    let theme = text_of(member(object, "theme"));
    let language = text_of(member(object, "language"));
    let default_format = text_of(member(object, "default_format"));
    let new_note_shortcut = text_of(member(object, "new_note_shortcut"));
    let close_tab_shortcut = text_of(member(object, "close_tab_shortcut"));
    let toggle_window_shortcut = text_of(member(object, "toggle_window_shortcut"));
    let default_path = match member(object, "default_path") {
        JsonField::Other => {
            return None;
        },
        JsonField::Text(path) => Some(path),
        JsonField::Null => None,
        JsonField::Absent => None,
    };
    match (
        theme,
        language,
        default_format,
        new_note_shortcut,
        close_tab_shortcut,
        toggle_window_shortcut,
    ) {
        (
            Some(theme),
            Some(language),
            Some(default_format),
            Some(new_note_shortcut),
            Some(close_tab_shortcut),
            Some(toggle_window_shortcut),
        ) => Some(
            AppSettings {
                theme,
                language,
                default_format,
                default_path,
                new_note_shortcut,
                close_tab_shortcut,
                toggle_window_shortcut,
            },
        ),
        _ => None,
    }
}

/// The record that a settings text stands for: the text has to be a JSON
/// object whose members stand for a record. An array of values, or any
/// other text that is no object, stands for none.
pub open spec fn decoded_settings(text: Seq<char>) -> Option<AppSettingsView> {
    match parsed_object(text) {
        Some(members) => settings_from_members(members),
        None => None,
    }
}

/// Reads a record from the text of a settings file.
pub fn decode_settings(text: &str) -> (r: Option<AppSettings>)
    ensures
        option_settings(r) == decoded_settings(text@),
{
    match parse_object(text) {
        Ok(object) => settings_from_object(&object),
        Err(_) => None,
    }
}

/// What the host found of the directory that holds the settings file.
#[derive(Debug, PartialEq, Eq)]
pub enum SettingsDir {
    /// The system names no configuration directory for the application.
    Unknown,
    /// The directory did not exist and could not be created, for the given
    /// reason.
    Unavailable(String),
    /// The directory exists.
    Ready,
}

/// Mathematical form of a [`SettingsDir`].
pub enum SettingsDirView {
    Unknown,
    Unavailable(Seq<char>),
    Ready,
}

impl View for SettingsDir {
    type V = SettingsDirView;

    open spec fn view(&self) -> SettingsDirView {
        match *self {
            SettingsDir::Unknown => SettingsDirView::Unknown,
            SettingsDir::Unavailable(reason) => SettingsDirView::Unavailable(reason@),
            SettingsDir::Ready => SettingsDirView::Ready,
        }
    }
}

/// The name of the settings file inside its directory, or the message that
/// says why there is no such directory.
pub open spec fn settings_path(dir: SettingsDirView) -> Result<Seq<char>, Seq<char>> {
    match dir {
        SettingsDirView::Unknown => Err("Could not find app config directory"@),
        SettingsDirView::Unavailable(reason) => Err(reason),
        SettingsDirView::Ready => Ok("settings.json"@),
    }
}

/// Mathematical form of a result that holds texts.
pub open spec fn text_result(r: Result<String, String>) -> Result<Seq<char>, Seq<char>> {
    match r {
        Ok(text) => Ok(text@),
        Err(reason) => Err(reason@),
    }
}

/// The name of the settings file inside its directory, or the message that
/// says why there is no such directory.
pub fn get_settings_path(dir: &SettingsDir) -> (r: Result<String, String>)
    ensures
        text_result(r) == settings_path(dir@),
{
    match dir {
        SettingsDir::Unknown => Err(String::from_str("Could not find app config directory")),
        SettingsDir::Unavailable(reason) => Err(reason.clone()),
        SettingsDir::Ready => Ok(String::from_str("settings.json")),
    }
}

/// What the host found of the settings file.
#[derive(Debug, PartialEq, Eq)]
pub enum SettingsFile {
    /// There is no such file.
    Absent,
    /// The file is there, but could not be read.
    Unreadable,
    /// The text of the file.
    Text(String),
}

/// Mathematical form of a [`SettingsFile`].
pub enum SettingsFileView {
    Absent,
    Unreadable,
    Text(Seq<char>),
}

impl View for SettingsFile {
    type V = SettingsFileView;

    open spec fn view(&self) -> SettingsFileView {
        match *self {
            SettingsFile::Absent => SettingsFileView::Absent,
            SettingsFile::Unreadable => SettingsFileView::Unreadable,
            SettingsFile::Text(text) => SettingsFileView::Text(text@),
        }
    }
}

/// The settings that loading gives. Without a directory for the file,
/// loading fails with the reason. Else it never fails: a file that is
/// missing, cannot be read or does not stand for a record gives the default
/// settings.
pub open spec fn loaded_settings(dir: SettingsDirView, file: SettingsFileView) -> Result<
    AppSettingsView,
    Seq<char>,
> {
    match settings_path(dir) {
        Err(reason) => Err(reason),
        Ok(_) => match file {
            SettingsFileView::Text(text) => match decoded_settings(text) {
                Some(settings) => Ok(settings),
                None => Ok(default_settings()),
            },
            _ => Ok(default_settings()),
        },
    }
}

/// With a directory for the file, loading gives settings whatever the file
/// is, and with no file it gives exactly the defaults.
pub proof fn lemma_load_falls_back_to_defaults(dir: SettingsDirView, file: SettingsFileView)
    requires
        settings_path(dir) is Ok,
    ensures
        loaded_settings(dir, file) is Ok,
        !(file is Text) ==> loaded_settings(dir, file)->Ok_0 == default_settings(),
        file matches SettingsFileView::Text(text) && decoded_settings(text) is None
            ==> loaded_settings(dir, file)->Ok_0 == default_settings(),
{
}

/// Mathematical form of the result of loading.
pub open spec fn settings_result(r: Result<AppSettings, String>) -> Result<
    AppSettingsView,
    Seq<char>,
> {
    match r {
        Ok(settings) => Ok(settings@),
        Err(reason) => Err(reason@),
    }
}

/// Loads the settings from what the host found on disk.
pub fn load_settings(dir: SettingsDir, file: SettingsFile) -> (r: Result<AppSettings, String>)
    ensures
        settings_result(r) == loaded_settings(dir@, file@),
{
    match get_settings_path(&dir) {
        Err(reason) => Err(reason),
        Ok(_) => match file {
            SettingsFile::Text(text) => match decode_settings(text.as_str()) {
                Some(settings) => Ok(settings),
                None => Ok(AppSettings::default()),
            },
            SettingsFile::Absent => Ok(AppSettings::default()),
            SettingsFile::Unreadable => Ok(AppSettings::default()),
        },
    }
}

/// Makes the result of printing the settings from what the printer gave:
/// the text, or the printer's message.
pub fn printed_settings(printed: Result<String, serde_json::Error>) -> (r: Result<String, String>)
    ensures
        match printed {
            Ok(text) => text_result(r) matches Ok(out) && out == text@,
            Err(_) => r is Err,
        },
{
    match printed {
        Ok(text) => Ok(text),
        Err(error) => Err(error_text(&error)),
    }
}

/// What saving comes to: without a directory for the file, the message that
/// says why; else the text to write, which is the pretty-printed JSON object
/// of the record's members.
pub open spec fn saved_settings(dir: SettingsDirView, settings: AppSettingsView) -> Result<
    Seq<char>,
    Seq<char>,
> {
    match settings_path(dir) {
        Err(reason) => Err(reason),
        Ok(_) => Ok(pretty_text(settings_members(settings))),
    }
}

/// The text to write to the settings file for `settings`, or the message
/// that says why nothing can be written. With a directory for the file this
/// never fails. The members are printed in the order of their names, two
/// spaces deep, with `null` for a default path that is not set.
pub fn save_settings(dir: &SettingsDir, settings: &AppSettings) -> (r: Result<String, String>)
    ensures
        text_result(r) == saved_settings(dir@, settings@),
{
    match get_settings_path(dir) {
        Err(reason) => Err(reason),
        Ok(_) => {
            let object = settings_object(settings);
            proof {
                lemma_settings_round_trip(settings@);
            }
            printed_settings(print_object(&object))
        },
    }
}

/// The slot that an action name of the front-end stands for. Without a
/// name the new-note slot is meant; a name that is not known stands for no
/// slot.
pub open spec fn action_slot(action: Option<Seq<char>>) -> Option<Slot> {
    match action {
        None => Some(Slot::NewNote),
        Some(name) => if name == "close_tab"@ {
            Some(Slot::CloseTab)
        } else if name == "toggle_window"@ {
            Some(Slot::ToggleWindow)
        } else if name == "new_note"@ {
            Some(Slot::NewNote)
        } else {
            None
        },
    }
}

/// Mathematical form of an optional string slice.
pub open spec fn option_str(o: Option<&str>) -> Option<Seq<char>> {
    match o {
        Some(s) => Some(s@),
        None => None,
    }
}

/// What a request to change a hotkey leads to.
#[derive(Debug, PartialEq, Eq)]
pub enum ShortcutUpdate {
    /// The registration was started; the plan says which calls to make.
    Register(RegistrationPlan),
    /// The action is not known. Nothing changes, and the line reports it
    /// on the console.
    Ignored(Console),
}

/// Starts the registration of `shortcut` for the slot that `action` names.
/// For a name that is not known nothing changes. This never fails: the
/// front-end learns nothing of an unknown name or of a refused combination.
pub fn update_shortcut(
    bindings: &mut ShortcutBindings,
    shortcut: &str,
    action: Option<&str>,
    window_present: bool,
) -> (r: Result<ShortcutUpdate, String>)
    ensures
        match action_slot(option_str(action)) {
            Some(slot) => {
                &&& r matches Ok(ShortcutUpdate::Register(plan))
                &&& plan@ == registration_plan(old(bindings)@, slot, shortcut@, window_present)
                &&& final(bindings)@ == old(bindings)@.set(slot, None)
            },
            None => {
                &&& r matches Ok(ShortcutUpdate::Ignored(line))
                &&& line@ == ConsoleView::Error("Unknown shortcut action: "@ + action->0@)
                &&& final(bindings)@ == old(bindings)@
            },
        },
{
    let slot = match action {
        None => Some(Slot::NewNote),
        Some(name) => {
            if same_text(name, "close_tab") {
                Some(Slot::CloseTab)
            } else if same_text(name, "toggle_window") {
                Some(Slot::ToggleWindow)
            } else if same_text(name, "new_note") {
                Some(Slot::NewNote)
            } else {
                None
            }
        },
    };
    match (slot, action) {
        (Some(slot), _) => Ok(
            ShortcutUpdate::Register(register_shortcut(bindings, slot, shortcut, window_present)),
        ),
        (None, Some(name)) => Ok(
            ShortcutUpdate::Ignored(Console::Error(joined("Unknown shortcut action: ", name))),
        ),
        (None, None) => Ok(
            ShortcutUpdate::Register(
                register_shortcut(bindings, Slot::NewNote, shortcut, window_present),
            ),
        ),
    }
}

/// Stores the recent files of the instance `app_id` and builds the tray
/// menu that shows them. This never fails.
pub fn update_tray_menu(state: &mut RecentFiles, app_id: &str, recent_files: Vec<String>) -> (r:
    Result<TrayMenu, String>)
    ensures
        final(state)@ == old(state)@.insert(app_id@, texts(recent_files@)),
        r matches Ok(menu) && exists|names: Seq<Option<Seq<char>>>|
            name_each(names, texts(recent_files@)) && menu@ == tray_menu(
                #[trigger] recent_submenu(names),
            ),
{
    Ok(update_tray_menu_with_recent_files(state, app_id, recent_files))
}

/// The title of the dialog that picks the default directory.
pub open spec fn directory_dialog_title() -> Seq<char> {
    "Select Default Directory"@
}

/// What to show in the dialog that picks the default directory.
#[derive(Debug, PartialEq, Eq)]
pub struct DirectoryDialog {
    pub title: String,
}

/// Sets up the dialog that picks the default directory.
pub fn select_directory() -> (dialog: DirectoryDialog)
    ensures
        dialog.title@ == directory_dialog_title(),
{
    DirectoryDialog { title: String::from_str("Select Default Directory") }
}

} // verus!

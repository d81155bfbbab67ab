//! The application menu, the tray menu with its list of recent files, and
//! what a click on either leads to.

use vstd::prelude::*;
use crate::events::{op_views, texts, FrontendEvent, FrontendEventView, WindowOp, WindowOpView};
use crate::recent::RecentFiles;
use crate::text::{
    begins_with, chars_of, decimal, decimal_text, has_prefix, joined, lemma_parse_inverts_decimal,
    parse_index, parsed_index, same_text,
};

verus! {

/// Mathematical form of an optional text.
pub open spec fn option_text(o: Option<String>) -> Option<Seq<char>> {
    match o {
        Some(s) => Some(s@),
        None => None,
    }
}

/// A menu item of the application's own, told apart by its identifier.
#[derive(Debug, PartialEq, Eq)]
pub struct CustomItem {
    pub id: String,
    pub title: String,
    /// The key combination shown beside the title, if any.
    pub accelerator: Option<String>,
    pub enabled: bool,
}

/// Mathematical form of a [`CustomItem`].
pub struct CustomItemView {
    pub id: Seq<char>,
    pub title: Seq<char>,
    pub accelerator: Option<Seq<char>>,
    pub enabled: bool,
}

impl View for CustomItem {
    type V = CustomItemView;

    open spec fn view(&self) -> CustomItemView {
        CustomItemView {
            id: self.id@,
            title: self.title@,
            accelerator: option_text(self.accelerator),
            enabled: self.enabled,
        }
    }
}

/// Mathematical form of a list of items.
pub open spec fn item_views(items: Seq<CustomItem>) -> Seq<CustomItemView> {
    items.map_values(|item: CustomItem| item@)
}

/// An enabled item without a key combination.
pub open spec fn plain_item(id: Seq<char>, title: Seq<char>) -> CustomItemView {
    CustomItemView { id, title, accelerator: None, enabled: true }
}

/// An enabled item with a key combination.
pub open spec fn keyed_item(id: Seq<char>, title: Seq<char>, key: Seq<char>) -> CustomItemView {
    CustomItemView { id, title, accelerator: Some(key), enabled: true }
}

fn new_item(id: &str, title: &str) -> (r: CustomItem)
    ensures
        r@ == plain_item(id@, title@),
{
    CustomItem {
        id: String::from_str(id),
        title: String::from_str(title),
        accelerator: None,
        enabled: true,
    }
}

fn new_keyed_item(id: &str, title: &str, key: &str) -> (r: CustomItem)
    ensures
        r@ == keyed_item(id@, title@, key@),
{
    CustomItem {
        id: String::from_str(id),
        title: String::from_str(title),
        accelerator: Some(String::from_str(key)),
        enabled: true,
    }
}

/// An item that the host toolkit provides and handles by itself.
#[derive(Clone, Copy, Debug, PartialEq, Eq)]
pub enum NativeItem {
    Separator,
    Quit,
    Undo,
    Redo,
    Cut,
    Copy,
    Paste,
    SelectAll,
}

/// One line of a submenu of the application menu.
#[derive(Debug, PartialEq, Eq)]
pub enum MenuEntry {
    Custom(CustomItem),
    Native(NativeItem),
}

/// Mathematical form of a [`MenuEntry`].
pub enum MenuEntryView {
    Custom(CustomItemView),
    Native(NativeItem),
}

impl View for MenuEntry {
    type V = MenuEntryView;

    open spec fn view(&self) -> MenuEntryView {
        match *self {
            MenuEntry::Custom(item) => MenuEntryView::Custom(item@),
            MenuEntry::Native(item) => MenuEntryView::Native(item),
        }
    }
}

/// A titled group of entries in the application menu.
#[derive(Debug, PartialEq, Eq)]
pub struct Submenu {
    pub title: String,
    pub entries: Vec<MenuEntry>,
}

/// Mathematical form of a [`Submenu`].
pub struct SubmenuView {
    pub title: Seq<char>,
    pub entries: Seq<MenuEntryView>,
}

impl View for Submenu {
    type V = SubmenuView;

    open spec fn view(&self) -> SubmenuView {
        SubmenuView {
            title: self.title@,
            entries: self.entries@.map_values(|entry: MenuEntry| entry@),
        }
    }
}

/// The application menu: its submenus from left to right.
#[derive(Debug, PartialEq, Eq)]
pub struct Menu {
    pub submenus: Vec<Submenu>,
}

/// Mathematical form of a [`Menu`].
pub struct MenuView {
    pub submenus: Seq<SubmenuView>,
}

impl View for Menu {
    type V = MenuView;

    open spec fn view(&self) -> MenuView {
        MenuView { submenus: self.submenus@.map_values(|submenu: Submenu| submenu@) }
    }
}

/// The File submenu.
pub open spec fn file_menu() -> SubmenuView {
    SubmenuView {
        title: "File"@,
        entries: seq![
            MenuEntryView::Custom(keyed_item("new_note"@, "New Note"@, "CmdOrCtrl+N"@)),
            MenuEntryView::Custom(keyed_item("open_file"@, "Open..."@, "CmdOrCtrl+O"@)),
            MenuEntryView::Custom(keyed_item("save_file"@, "Save"@, "CmdOrCtrl+S"@)),
            MenuEntryView::Custom(
                keyed_item("save_file_as"@, "Save As..."@, "CmdOrCtrl+Shift+S"@),
            ),
            MenuEntryView::Custom(keyed_item("close_tab"@, "Close Tab"@, "CmdOrCtrl+W"@)),
            MenuEntryView::Native(NativeItem::Separator),
            MenuEntryView::Native(NativeItem::Quit),
        ],
    }
}

/// The Edit submenu: the toolkit's standard editing operations.
pub open spec fn edit_menu() -> SubmenuView {
    SubmenuView {
        title: "Edit"@,
        entries: seq![
            MenuEntryView::Native(NativeItem::Undo),
            MenuEntryView::Native(NativeItem::Redo),
            MenuEntryView::Native(NativeItem::Separator),
            MenuEntryView::Native(NativeItem::Cut),
            MenuEntryView::Native(NativeItem::Copy),
            MenuEntryView::Native(NativeItem::Paste),
            MenuEntryView::Native(NativeItem::SelectAll),
        ],
    }
}

/// The View submenu.
pub open spec fn view_menu() -> SubmenuView {
    SubmenuView {
        title: "View"@,
        entries: seq![MenuEntryView::Custom(plain_item("toggle_theme"@, "Toggle Theme"@))],
    }
}

/// The application menu: File, Edit, View.
pub open spec fn app_menu() -> MenuView {
    MenuView { submenus: seq![file_menu(), edit_menu(), view_menu()] }
}

fn create_file_menu() -> (r: Submenu)
    ensures
        r@ == file_menu(),
{
    let mut entries: Vec<MenuEntry> = Vec::new();
    entries.push(MenuEntry::Custom(new_keyed_item("new_note", "New Note", "CmdOrCtrl+N")));
    entries.push(MenuEntry::Custom(new_keyed_item("open_file", "Open...", "CmdOrCtrl+O")));
    entries.push(MenuEntry::Custom(new_keyed_item("save_file", "Save", "CmdOrCtrl+S")));
    entries.push(
        MenuEntry::Custom(new_keyed_item("save_file_as", "Save As...", "CmdOrCtrl+Shift+S")),
    );
    entries.push(MenuEntry::Custom(new_keyed_item("close_tab", "Close Tab", "CmdOrCtrl+W")));
    entries.push(MenuEntry::Native(NativeItem::Separator));
    entries.push(MenuEntry::Native(NativeItem::Quit));
    let r = Submenu { title: String::from_str("File"), entries };
    assert(r@.entries =~= file_menu().entries);
    r
}

fn create_edit_menu() -> (r: Submenu)
    ensures
        r@ == edit_menu(),
{
    let mut entries: Vec<MenuEntry> = Vec::new();
    entries.push(MenuEntry::Native(NativeItem::Undo));
    entries.push(MenuEntry::Native(NativeItem::Redo));
    entries.push(MenuEntry::Native(NativeItem::Separator));
    entries.push(MenuEntry::Native(NativeItem::Cut));
    entries.push(MenuEntry::Native(NativeItem::Copy));
    entries.push(MenuEntry::Native(NativeItem::Paste));
    entries.push(MenuEntry::Native(NativeItem::SelectAll));
    let r = Submenu { title: String::from_str("Edit"), entries };
    assert(r@.entries =~= edit_menu().entries);
    r
}

fn create_view_menu() -> (r: Submenu)
    ensures
        r@ == view_menu(),
{
    let mut entries: Vec<MenuEntry> = Vec::new();
    entries.push(MenuEntry::Custom(new_item("toggle_theme", "Toggle Theme")));
    let r = Submenu { title: String::from_str("View"), entries };
    assert(r@.entries =~= view_menu().entries);
    r
}

/// Creates the main application menu.
pub fn create_app_menu() -> (menu: Menu)
    ensures
        menu@ == app_menu(),
{
    let mut submenus: Vec<Submenu> = Vec::new();
    submenus.push(create_file_menu());
    submenus.push(create_edit_menu());
    submenus.push(create_view_menu());
    let menu = Menu { submenus };
    assert(menu@.submenus =~= app_menu().submenus);
    menu
}

/// Whether an identifier names an action of the application menu that the
/// front-end carries out.
pub open spec fn is_menu_action(id: Seq<char>) -> bool {
    ||| id == "new_note"@
    ||| id == "open_file"@
    ||| id == "save_file"@
    ||| id == "save_file_as"@
    ||| id == "toggle_theme"@
    ||| id == "close_tab"@
}

/// Decides what a click on an item of the application menu leads to: the
/// front-end is told of the six actions it carries out, by their own
/// identifiers, and of nothing else.
pub fn handle_menu_event(menu_id: &str) -> (r: Option<FrontendEvent>)
    ensures
        match r {
            Some(event) => is_menu_action(menu_id@) && event@ == FrontendEventView::MenuEvent(
                menu_id@,
            ),
            None => !is_menu_action(menu_id@),
        },
{
    if same_text(menu_id, "new_note") || same_text(menu_id, "open_file") || same_text(
        menu_id,
        "save_file",
    ) || same_text(menu_id, "save_file_as") || same_text(menu_id, "toggle_theme") || same_text(
        menu_id,
        "close_tab",
    ) {
        Some(FrontendEvent::MenuEvent(String::from_str(menu_id)))
    } else {
        None
    }
}

/// Every item of the application menu that is the application's own names
/// an action that `handle_menu_event` forwards.
pub proof fn lemma_app_menu_items_are_forwarded(s: int, e: int)
    requires
        0 <= s < app_menu().submenus.len(),
        0 <= e < app_menu().submenus[s].entries.len(),
    ensures
        app_menu().submenus[s].entries[e] matches MenuEntryView::Custom(item) ==> is_menu_action(
            item.id,
        ),
{
}

// --- System tray ---

/// One line of the tray menu.
#[derive(Debug, PartialEq, Eq)]
pub enum TrayEntry {
    Item(CustomItem),
    Separator,
    Submenu { title: String, items: Vec<CustomItem> },
}

/// Mathematical form of a [`TrayEntry`].
pub enum TrayEntryView {
    Item(CustomItemView),
    Separator,
    Submenu { title: Seq<char>, items: Seq<CustomItemView> },
}

impl View for TrayEntry {
    type V = TrayEntryView;

    open spec fn view(&self) -> TrayEntryView {
        match *self {
            TrayEntry::Item(item) => TrayEntryView::Item(item@),
            TrayEntry::Separator => TrayEntryView::Separator,
            TrayEntry::Submenu { title, items } => TrayEntryView::Submenu {
                title: title@,
                items: item_views(items@),
            },
        }
    }
}

/// The menu of the tray icon, from top to bottom.
#[derive(Debug, PartialEq, Eq)]
pub struct TrayMenu {
    pub entries: Vec<TrayEntry>,
}

/// Mathematical form of a [`TrayMenu`].
pub struct TrayMenuView {
    pub entries: Seq<TrayEntryView>,
}

impl View for TrayMenu {
    type V = TrayMenuView;

    open spec fn view(&self) -> TrayMenuView {
        TrayMenuView { entries: self.entries@.map_values(|entry: TrayEntry| entry@) }
    }
}

/// The tray menu around a given list of recent-file items: the fixed actions,
/// with the list as the submenu "Recently Closed".
pub open spec fn tray_menu(recent: Seq<CustomItemView>) -> TrayMenuView {
    TrayMenuView {
        entries: seq![
            TrayEntryView::Item(plain_item("tray_new_note"@, "New Note"@)),
            TrayEntryView::Item(plain_item("tray_close_tab"@, "Close Current Tab"@)),
            TrayEntryView::Separator,
            TrayEntryView::Item(plain_item("tray_open_file"@, "Open..."@)),
            TrayEntryView::Item(plain_item("tray_save"@, "Save"@)),
            TrayEntryView::Item(plain_item("tray_save_as"@, "Save As..."@)),
            TrayEntryView::Separator,
            TrayEntryView::Submenu { title: "Recently Closed"@, items: recent },
            TrayEntryView::Separator,
            TrayEntryView::Item(plain_item("tray_show_hide"@, "Show/Hide Window"@)),
            TrayEntryView::Item(plain_item("tray_quit"@, "Quit"@)),
        ],
    }
}

/// The disabled item that stands in an empty list of recent files.
pub open spec fn placeholder_item() -> CustomItemView {
    CustomItemView {
        id: "tray_no_recent"@,
        title: "No Recent Files"@,
        accelerator: None,
        enabled: false,
    }
}

/// The identifier of the recent-file item at a position of the list.
pub open spec fn recent_item_id(index: nat) -> Seq<char> {
    "tray_recent_"@ + decimal(index)
}

/// The label of a recent file: its file name, or a fixed label where the
/// path has none.
pub open spec fn recent_label(file_name: Option<Seq<char>>) -> Seq<char> {
    match file_name {
        Some(name) => name,
        None => "Unknown File"@,
    }
}

/// The item for the recent file at a position of the list.
pub open spec fn recent_item(index: nat, file_name: Option<Seq<char>>) -> CustomItemView {
    plain_item(recent_item_id(index), recent_label(file_name))
}

/// The items of the submenu of recent files, given the file name of each
/// path in order: the placeholder alone for an empty list, else one item for
/// each path, at the path's position.
pub open spec fn recent_submenu(names: Seq<Option<Seq<char>>>) -> Seq<CustomItemView> {
    if names.len() == 0 {
        seq![placeholder_item()]
    } else {
        Seq::new(names.len(), |i: int| recent_item(i as nat, names[i]))
    }
}

/// Mathematical form of a list of optional texts.
pub open spec fn name_views(names: Seq<Option<String>>) -> Seq<Option<Seq<char>>> {
    names.map_values(|name: Option<String>| option_text(name))
}

fn build_tray_menu(recent: Vec<CustomItem>) -> (menu: TrayMenu)
    ensures
        menu@ == tray_menu(item_views(recent@)),
{
    let mut entries: Vec<TrayEntry> = Vec::new();
    entries.push(TrayEntry::Item(new_item("tray_new_note", "New Note")));
    entries.push(TrayEntry::Item(new_item("tray_close_tab", "Close Current Tab")));
    entries.push(TrayEntry::Separator);
    entries.push(TrayEntry::Item(new_item("tray_open_file", "Open...")));
    entries.push(TrayEntry::Item(new_item("tray_save", "Save")));
    entries.push(TrayEntry::Item(new_item("tray_save_as", "Save As...")));
    entries.push(TrayEntry::Separator);
    entries.push(TrayEntry::Submenu { title: String::from_str("Recently Closed"), items: recent });
    entries.push(TrayEntry::Separator);
    entries.push(TrayEntry::Item(new_item("tray_show_hide", "Show/Hide Window")));
    entries.push(TrayEntry::Item(new_item("tray_quit", "Quit")));
    let menu = TrayMenu { entries };
    assert(menu@.entries =~= tray_menu(item_views(recent@)).entries);
    menu
}

fn new_placeholder() -> (r: CustomItem)
    ensures
        r@ == placeholder_item(),
{
    CustomItem {
        id: String::from_str("tray_no_recent"),
        title: String::from_str("No Recent Files"),
        accelerator: None,
        enabled: false,
    }
}

/// Creates the tray menu of a fresh start, when no recent file is known.
pub fn create_tray_menu() -> (menu: TrayMenu)
    ensures
        menu@ == tray_menu(seq![placeholder_item()]),
{
    let mut recent: Vec<CustomItem> = Vec::new();
    recent.push(new_placeholder());
    assert(item_views(recent@) =~= seq![placeholder_item()]);
    build_tray_menu(recent)
}

/// The tray item for the recent file at `index`, labelled with the file name
/// that was found in its path.
pub fn recent_file_item(index: usize, file_name: Option<String>) -> (r: CustomItem)
    ensures
        r@ == recent_item(index as nat, option_text(file_name)),
{
    let digits = decimal_text(index);
    let id = joined("tray_recent_", digits.as_str());
    let title = match file_name {
        Some(name) => name,
        None => String::from_str("Unknown File"),
    };
    CustomItem { id, title, accelerator: None, enabled: true }
}

/// The tray menu for a list of recent files, given the file name found in
/// each path.
pub fn recent_files_menu(file_names: Vec<Option<String>>) -> (menu: TrayMenu)
    ensures
        menu@ == tray_menu(recent_submenu(name_views(file_names@))),
{
    let ghost names = name_views(file_names@);
    let mut items: Vec<CustomItem> = Vec::new();
    if file_names.len() == 0 {
        items.push(new_placeholder());
        assert(item_views(items@) =~= recent_submenu(names));
    } else {
        let mut file_names = file_names;
        let count: usize = file_names.len();
        let mut i: usize = 0;
        while i < count
            invariant
                i <= count,
                count == file_names@.len(),
                names.len() == count,
                items@.len() == i,
                forall|k: int| i <= k < count ==> option_text(#[trigger] file_names@[k]) == names[k],
                forall|k: int| 0 <= k < i ==> (#[trigger] items@[k])@ == recent_item(k as nat, names[k]),
            decreases count - i,
        {
            let mut name: Option<String> = None;
            std::mem::swap(&mut name, &mut file_names[i]);
            items.push(recent_file_item(i, name));
            i += 1;
        }
        assert(item_views(items@) =~= recent_submenu(names));
    }
    build_tray_menu(items)
}

/// Whether `part` occurs in `whole` as a run of neighbouring characters.
pub open spec fn is_part_of(part: Seq<char>, whole: Seq<char>) -> bool {
    exists|start: int|
        0 <= start && start + part.len() <= whole.len() && #[trigger] whole.subrange(
            start,
            start + part.len(),
        ) == part
}

/// What holds of the file name that is found in a path, on Unix and on
/// Windows alike: it is not empty and is a part of the path, and it holds no
/// `/`. The one exception to the last is a path that begins with `\\?\`,
/// which Windows takes as written, with `\` as its only separator.
pub open spec fn names_file_in(name: Option<Seq<char>>, path: Seq<char>) -> bool {
    name matches Some(n) ==> {
        &&& n.len() > 0
        &&& is_part_of(n, path)
        &&& !n.contains('/') || begins_with(path, seq!['\\', '\\', '?', '\\'])
    }
}

/// The final component of a path, by `std::path::Path::file_name`, where it
/// is valid text. Which part of the path that is depends on the platform's
/// path syntax; the contract states what holds on Unix and on Windows.
#[verifier::external_body]
fn file_name_of(path: &str) -> (r: Option<String>)
    ensures
        names_file_in(option_text(r), path@),
{
    match std::path::Path::new(path).file_name() {
        Some(name) => name.to_str().map(String::from),
        None => None,
    }
}

/// Whether `names` may be the file names found in the paths `files`, one
/// for each path.
pub open spec fn name_each(names: Seq<Option<Seq<char>>>, files: Seq<Seq<char>>) -> bool {
    &&& names.len() == files.len()
    &&& forall|i: int| 0 <= i < names.len() ==> names_file_in(#[trigger] names[i], files[i])
}

/// Stores `recent_files` as the recent files of the instance `app_id` and
/// builds the tray menu that shows them: an empty list shows the disabled
/// placeholder alone, any other list one enabled item for each path, in
/// order, whose identifier encodes the path's position and whose label is
/// the file name found in the path, or the fixed label where none is found.
pub fn update_tray_menu_with_recent_files(
    state: &mut RecentFiles,
    app_id: &str,
    recent_files: Vec<String>,
) -> (menu: TrayMenu)
    ensures
        final(state)@ == old(state)@.insert(app_id@, texts(recent_files@)),
        exists|names: Seq<Option<Seq<char>>>|
            name_each(names, texts(recent_files@)) && menu@ == tray_menu(
                #[trigger] recent_submenu(names),
            ),
{
    let mut file_names: Vec<Option<String>> = Vec::new();
    let mut i: usize = 0;
    while i < recent_files.len()
        invariant
            i <= recent_files@.len(),
            file_names@.len() == i,
            forall|k: int|
                0 <= k < i ==> names_file_in(
                    option_text(#[trigger] file_names@[k]),
                    recent_files@[k]@,
                ),
        decreases recent_files@.len() - i,
    {
        file_names.push(file_name_of(recent_files[i].as_str()));
        i += 1;
    }
    let ghost names = name_views(file_names@);
    assert(name_each(names, texts(recent_files@)));
    state.insert(app_id, recent_files);
    let menu = recent_files_menu(file_names);
    assert(name_each(names, texts(recent_files@)) && menu@ == tray_menu(recent_submenu(names)));
    menu
}

/// What the tray reports to the shell.
#[derive(Debug, PartialEq, Eq)]
pub enum TrayEvent {
    /// An item of the tray menu was chosen.
    MenuItemClick { id: String },
    /// The tray icon itself was clicked with the primary button.
    LeftClick,
    /// Any other interaction with the icon.
    Other,
}

/// Mathematical form of a [`TrayEvent`].
pub enum TrayEventView {
    MenuItemClick { id: Seq<char> },
    LeftClick,
    Other,
}

impl View for TrayEvent {
    type V = TrayEventView;

    open spec fn view(&self) -> TrayEventView {
        match *self {
            TrayEvent::MenuItemClick { id } => TrayEventView::MenuItemClick { id: id@ },
            TrayEvent::LeftClick => TrayEventView::LeftClick,
            TrayEvent::Other => TrayEventView::Other,
        }
    }
}

/// What the host has to do after a tray event.
#[derive(Debug, PartialEq, Eq)]
pub enum TrayAction {
    Nothing,
    /// Hide the main window if it is visible, else show and focus it.
    ToggleVisibility,
    /// Deliver an event to the front-end.
    Emit(FrontendEvent),
    /// End the process.
    Quit,
}

/// Mathematical form of a [`TrayAction`].
pub enum TrayActionView {
    Nothing,
    ToggleVisibility,
    Emit(FrontendEventView),
    Quit,
}

impl View for TrayAction {
    type V = TrayActionView;

    open spec fn view(&self) -> TrayActionView {
        match *self {
            TrayAction::Nothing => TrayActionView::Nothing,
            TrayAction::ToggleVisibility => TrayActionView::ToggleVisibility,
            TrayAction::Emit(event) => TrayActionView::Emit(event@),
            TrayAction::Quit => TrayActionView::Quit,
        }
    }
}

/// The position that the identifier of a recent-file item encodes; `None`
/// for any other identifier.
pub open spec fn recent_index(id: Seq<char>) -> Option<usize> {
    if begins_with(id, "tray_recent_"@) {
        parsed_index(id.skip("tray_recent_"@.len() as int))
    } else {
        None
    }
}

/// What a click on the tray item `id` leads to, where `recent` is the list
/// stored for this instance, if any. A recent-file item whose position lies
/// outside the list leads to nothing.
pub open spec fn tray_click(id: Seq<char>, recent: Option<Seq<Seq<char>>>) -> TrayActionView {
    if id == "tray_show_hide"@ {
        TrayActionView::ToggleVisibility
    } else if id == "tray_new_note"@ {
        TrayActionView::Emit(FrontendEventView::MenuEvent("new_note"@))
    } else if id == "tray_open_file"@ {
        TrayActionView::Emit(FrontendEventView::MenuEvent("open_file"@))
    } else if id == "tray_save"@ {
        TrayActionView::Emit(FrontendEventView::MenuEvent("save_file"@))
    } else if id == "tray_save_as"@ {
        TrayActionView::Emit(FrontendEventView::MenuEvent("save_file_as"@))
    } else if id == "tray_close_tab"@ {
        TrayActionView::Emit(FrontendEventView::MenuEvent("close_active_tab"@))
    } else if id == "tray_no_recent"@ {
        TrayActionView::Nothing
    } else if id == "tray_quit"@ {
        TrayActionView::Quit
    } else {
        match (recent_index(id), recent) {
            (Some(index), Some(files)) => if index < files.len() {
                TrayActionView::Emit(FrontendEventView::OpenRecentFile(files[index as int]))
            } else {
                TrayActionView::Nothing
            },
            _ => TrayActionView::Nothing,
        }
    }
}

/// What a tray event leads to. Only a click on a menu item does anything.
/// Quit ends the process whether or not there is a main window; every other
/// item acts on the main window and does nothing without one.
pub open spec fn tray_response(
    store: Map<Seq<char>, Seq<Seq<char>>>,
    app_id: Seq<char>,
    window_present: bool,
    event: TrayEventView,
) -> TrayActionView {
    match event {
        TrayEventView::MenuItemClick { id } => if id == "tray_quit"@ {
            TrayActionView::Quit
        } else if !window_present {
            TrayActionView::Nothing
        } else {
            tray_click(
                id,
                if store.contains_key(app_id) {
                    Some(store[app_id])
                } else {
                    None
                },
            )
        },
        _ => TrayActionView::Nothing,
    }
}

fn menu_event(id: &str) -> (r: TrayAction)
    ensures
        r@ == TrayActionView::Emit(FrontendEventView::MenuEvent(id@)),
{
    TrayAction::Emit(FrontendEvent::MenuEvent(String::from_str(id)))
}

fn recent_click(state: &RecentFiles, app_id: &str, id: &str) -> (r: TrayAction)
    ensures
        r@ == match (
            recent_index(id@),
            if state@.contains_key(app_id@) {
                Some(state@[app_id@])
            } else {
                None
            },
        ) {
            (Some(index), Some(files)) => if index < files.len() {
                TrayActionView::Emit(FrontendEventView::OpenRecentFile(files[index as int]))
            } else {
                TrayActionView::Nothing
            },
            _ => TrayActionView::Nothing,
        },
{
    let chars = chars_of(id);
    let prefix = chars_of("tray_recent_");
    if !has_prefix(&chars, &prefix) {
        return TrayAction::Nothing;
    }
    match parse_index(&chars, prefix.len()) {
        None => TrayAction::Nothing,
        Some(index) => match state.get(app_id) {
            None => TrayAction::Nothing,
            Some(files) => if index < files.len() {
                TrayAction::Emit(FrontendEvent::OpenRecentFile(files[index].clone()))
            } else {
                TrayAction::Nothing
            },
        },
    }
}

/// Decides what a tray event leads to.
pub fn handle_tray_event(
    state: &RecentFiles,
    app_id: &str,
    window_present: bool,
    event: &TrayEvent,
) -> (action: TrayAction)
    ensures
        action@ == tray_response(state@, app_id@, window_present, event@),
{
    match event {
        TrayEvent::MenuItemClick { id } => {
            let id = id.as_str();
            if same_text(id, "tray_quit") {
                TrayAction::Quit
            } else if !window_present {
                TrayAction::Nothing
            } else if same_text(id, "tray_show_hide") {
                TrayAction::ToggleVisibility
            } else if same_text(id, "tray_new_note") {
                menu_event("new_note")
            } else if same_text(id, "tray_open_file") {
                menu_event("open_file")
            } else if same_text(id, "tray_save") {
                menu_event("save_file")
            } else if same_text(id, "tray_save_as") {
                menu_event("save_file_as")
            } else if same_text(id, "tray_close_tab") {
                menu_event("close_active_tab")
            } else if same_text(id, "tray_no_recent") {
                TrayAction::Nothing
            } else {
                recent_click(state, app_id, id)
            }
        },
        TrayEvent::LeftClick => TrayAction::Nothing,
        TrayEvent::Other => TrayAction::Nothing,
    }
}

/// With or without a main window, a click on Quit ends the process.
pub proof fn lemma_quit_always_quits(
    store: Map<Seq<char>, Seq<Seq<char>>>,
    app_id: Seq<char>,
    window_present: bool,
)
    ensures
        tray_response(
            store,
            app_id,
            window_present,
            TrayEventView::MenuItemClick { id: "tray_quit"@ },
        ) == TrayActionView::Quit,
{
}

/// The window requests that flip the main window's visibility: hide it where
/// it is known to be visible, else show and focus it.
pub open spec fn toggle_ops(visible: Option<bool>) -> Seq<WindowOpView> {
    if visible == Some(true) {
        seq![WindowOpView::Hide]
    } else {
        seq![WindowOpView::Show, WindowOpView::SetFocus]
    }
}

/// Flips the main window's visibility. `visible` is what the host learned of
/// the window, `None` where it could not find out.
pub fn toggle_window_visibility(visible: Option<bool>) -> (ops: Vec<WindowOp>)
    ensures
        op_views(ops@) == toggle_ops(visible),
{
    let mut ops: Vec<WindowOp> = Vec::new();
    let shown = match visible {
        Some(v) => v,
        None => false,
    };
    if shown {
        ops.push(WindowOp::Hide);
    } else {
        ops.push(WindowOp::Show);
        ops.push(WindowOp::SetFocus);
    }
    assert(op_views(ops@) =~= toggle_ops(visible));
    ops
}

/// Whether an identifier names an action that the front-end knows from a
/// menu event: the actions of the application menu, and the tray's own way
/// of closing the current tab.
pub open spec fn is_front_end_action(id: Seq<char>) -> bool {
    is_menu_action(id) || id == "close_active_tab"@
}

/// Whatever is clicked in the tray, a menu event that reaches the front-end
/// names an action that it knows.
pub proof fn lemma_tray_menu_events_are_known(id: Seq<char>, recent: Option<Seq<Seq<char>>>)
    ensures
        tray_click(id, recent) matches TrayActionView::Emit(FrontendEventView::MenuEvent(action))
            ==> is_front_end_action(action),
{
}

/// A click on the recent-file item at position `index` opens the file at
/// that position of the stored list, and does nothing where the list has
/// become too short for it.
pub proof fn lemma_recent_item_click(files: Seq<Seq<char>>, index: usize)
    ensures
        tray_click(recent_item_id(index as nat), Some(files)) == if index < files.len() {
            TrayActionView::Emit(FrontendEventView::OpenRecentFile(files[index as int]))
        } else {
            TrayActionView::Nothing
        },
{
    let id = recent_item_id(index as nat);
    let prefix = "tray_recent_"@;
    reveal_strlit("tray_recent_");
    reveal_strlit("tray_show_hide");
    reveal_strlit("tray_new_note");
    reveal_strlit("tray_open_file");
    reveal_strlit("tray_save");
    reveal_strlit("tray_save_as");
    reveal_strlit("tray_close_tab");
    reveal_strlit("tray_no_recent");
    reveal_strlit("tray_quit");
    assert(id[5] == 'r');
    assert(id.len() >= 12);
    assert(id.take(prefix.len() as int) =~= prefix);
    assert(id.skip(prefix.len() as int) =~= decimal(index as nat));
    lemma_parse_inverts_decimal(index);
}

/// The tray menu and the clicks on it fit together. With the list `files`
/// stored and the menu built for it, every fixed item leads to an action,
/// the item of each recent file opens the file at its position, and the
/// placeholder of an empty list leads to nothing.
pub proof fn lemma_tray_menu_fits_clicks(
    names: Seq<Option<Seq<char>>>,
    files: Seq<Seq<char>>,
    e: int,
)
    requires
        names.len() == files.len(),
        files.len() <= usize::MAX,
        0 <= e < tray_menu(recent_submenu(names)).entries.len(),
    ensures
        match tray_menu(recent_submenu(names)).entries[e] {
            TrayEntryView::Item(item) => tray_click(item.id, Some(files))
                != TrayActionView::Nothing,
            TrayEntryView::Submenu { items, .. } => forall|i: int|
                0 <= i < items.len() ==> tray_click((#[trigger] items[i]).id, Some(files)) == if files.len()
                    == 0 {
                    TrayActionView::Nothing
                } else {
                    TrayActionView::Emit(FrontendEventView::OpenRecentFile(files[i]))
                },
            TrayEntryView::Separator => true,
        },
{
    reveal_strlit("tray_show_hide");
    reveal_strlit("tray_new_note");
    reveal_strlit("tray_open_file");
    reveal_strlit("tray_save");
    reveal_strlit("tray_save_as");
    reveal_strlit("tray_close_tab");
    reveal_strlit("tray_no_recent");
    reveal_strlit("tray_quit");
    assert("tray_quit"@.len() != "tray_no_recent"@.len());
    assert("tray_show_hide"@.len() == "tray_no_recent"@.len());
    assert("tray_show_hide"@[5] != "tray_no_recent"@[5]);
    let items = recent_submenu(names);
    assert forall|i: int| 0 <= i < items.len() implies tray_click(
        (#[trigger] items[i]).id,
        Some(files),
    ) == if files.len() == 0 {
        TrayActionView::Nothing
    } else {
        TrayActionView::Emit(FrontendEventView::OpenRecentFile(files[i]))
    } by {
        if files.len() > 0 {
            lemma_recent_item_click(files, i as usize);
        }
    }
}

} // verus!


use note_shell::events::{FrontendEvent, WindowOp};
use note_shell::menu::{
    create_app_menu, create_tray_menu, handle_menu_event, handle_tray_event, recent_file_item,
    recent_files_menu, toggle_window_visibility, update_tray_menu_with_recent_files, CustomItem,
    MenuEntry, NativeItem, TrayAction, TrayEntry, TrayEvent, TrayMenu,
};
use note_shell::recent::RecentFiles;

const APP: &str = "com.example.notes";

fn item(id: &str, title: &str) -> CustomItem {
    CustomItem { id: id.to_string(), title: title.to_string(), accelerator: None, enabled: true }
}

fn keyed(id: &str, title: &str, key: &str) -> MenuEntry {
    MenuEntry::Custom(CustomItem {
        id: id.to_string(),
        title: title.to_string(),
        accelerator: Some(key.to_string()),
        enabled: true,
    })
}

fn placeholder() -> CustomItem {
    CustomItem {
        id: "tray_no_recent".to_string(),
        title: "No Recent Files".to_string(),
        accelerator: None,
        enabled: false,
    }
}

fn tray_around(recent: Vec<CustomItem>) -> TrayMenu {
    TrayMenu {
        entries: vec![
            TrayEntry::Item(item("tray_new_note", "New Note")),
            TrayEntry::Item(item("tray_close_tab", "Close Current Tab")),
            TrayEntry::Separator,
            TrayEntry::Item(item("tray_open_file", "Open...")),
            TrayEntry::Item(item("tray_save", "Save")),
            TrayEntry::Item(item("tray_save_as", "Save As...")),
            TrayEntry::Separator,
            TrayEntry::Submenu { title: "Recently Closed".to_string(), items: recent },
            TrayEntry::Separator,
            TrayEntry::Item(item("tray_show_hide", "Show/Hide Window")),
            TrayEntry::Item(item("tray_quit", "Quit")),
        ],
    }
}

fn click(id: &str) -> TrayEvent {
    TrayEvent::MenuItemClick { id: id.to_string() }
}

fn menu_event(id: &str) -> TrayAction {
    TrayAction::Emit(FrontendEvent::MenuEvent(id.to_string()))
}

fn stored(files: &[&str]) -> RecentFiles {
    let mut state = RecentFiles::new();
    state.insert(APP, files.iter().map(|f| f.to_string()).collect());
    state
}

#[test]
fn app_menu_has_file_edit_and_view() {
    let menu = create_app_menu();
    assert_eq!(menu.submenus.len(), 3);
    assert_eq!(menu.submenus[0].title, "File");
    assert_eq!(
        menu.submenus[0].entries,
        vec![
            keyed("new_note", "New Note", "CmdOrCtrl+N"),
            keyed("open_file", "Open...", "CmdOrCtrl+O"),
            keyed("save_file", "Save", "CmdOrCtrl+S"),
            keyed("save_file_as", "Save As...", "CmdOrCtrl+Shift+S"),
            keyed("close_tab", "Close Tab", "CmdOrCtrl+W"),
            MenuEntry::Native(NativeItem::Separator),
            MenuEntry::Native(NativeItem::Quit),
        ]
    );
    assert_eq!(menu.submenus[1].title, "Edit");
    assert_eq!(
        menu.submenus[1].entries,
        vec![
            MenuEntry::Native(NativeItem::Undo),
            MenuEntry::Native(NativeItem::Redo),
            MenuEntry::Native(NativeItem::Separator),
            MenuEntry::Native(NativeItem::Cut),
            MenuEntry::Native(NativeItem::Copy),
            MenuEntry::Native(NativeItem::Paste),
            MenuEntry::Native(NativeItem::SelectAll),
        ]
    );
    assert_eq!(menu.submenus[2].title, "View");
    assert_eq!(
        menu.submenus[2].entries,
        vec![MenuEntry::Custom(item("toggle_theme", "Toggle Theme"))]
    );
}

#[test]
fn every_custom_item_of_the_app_menu_is_forwarded() {
    let menu = create_app_menu();
    let mut seen: usize = 0;
    for submenu in menu.submenus.iter() {
        for entry in submenu.entries.iter() {
            if let MenuEntry::Custom(item) = entry {
                assert_eq!(
                    handle_menu_event(&item.id),
                    Some(FrontendEvent::MenuEvent(item.id.clone()))
                );
                seen += 1;
            }
        }
    }
    assert_eq!(seen, 6);
}

#[test]
fn menu_event_forwards_the_six_actions() {
    for id in ["new_note", "open_file", "save_file", "save_file_as", "toggle_theme", "close_tab"] {
        assert_eq!(handle_menu_event(id), Some(FrontendEvent::MenuEvent(id.to_string())));
    }
}

#[test]
fn menu_event_ignores_other_identifiers() {
    for id in ["", "quit", "close_active_tab", "tray_new_note", "New_Note", "new_note "] {
        assert_eq!(handle_menu_event(id), None);
    }
}

#[test]
fn fresh_tray_menu_shows_the_placeholder() {
    assert_eq!(create_tray_menu(), tray_around(vec![placeholder()]));
}

#[test]
fn tray_menu_for_no_recent_files_shows_only_the_placeholder() {
    let mut state = RecentFiles::new();
    let menu = update_tray_menu_with_recent_files(&mut state, APP, vec![]);
    assert_eq!(menu, tray_around(vec![placeholder()]));
    assert_eq!(state.get(APP), Some(&vec![]));
}

#[test]
fn tray_menu_lists_recent_files_by_file_name() {
    let mut state = RecentFiles::new();
    let menu = update_tray_menu_with_recent_files(
        &mut state,
        APP,
        vec!["/a/b/note.txt".to_string(), "/x/y/doc.md".to_string()],
    );
    assert_eq!(
        menu,
        tray_around(vec![item("tray_recent_0", "note.txt"), item("tray_recent_1", "doc.md")])
    );
    assert_eq!(
        state.get(APP),
        Some(&vec!["/a/b/note.txt".to_string(), "/x/y/doc.md".to_string()])
    );
}

#[test]
fn tray_menu_labels_a_path_without_a_name() {
    let mut state = RecentFiles::new();
    let menu = update_tray_menu_with_recent_files(
        &mut state,
        APP,
        vec!["/".to_string(), "plain.txt".to_string(), "/a/..".to_string()],
    );
    assert_eq!(
        menu,
        tray_around(vec![
            item("tray_recent_0", "Unknown File"),
            item("tray_recent_1", "plain.txt"),
            item("tray_recent_2", "Unknown File"),
        ])
    );
}

#[test]
fn tray_menu_numbers_a_long_list_in_decimal() {
    let mut state = RecentFiles::new();
    let files: Vec<String> = (0..12).map(|i| format!("/d/f{}.txt", i)).collect();
    let menu = update_tray_menu_with_recent_files(&mut state, APP, files);
    match &menu.entries[7] {
        TrayEntry::Submenu { title, items } => {
            assert_eq!(title, "Recently Closed");
            assert_eq!(items.len(), 12);
            assert_eq!(items[9], item("tray_recent_9", "f9.txt"));
            assert_eq!(items[10], item("tray_recent_10", "f10.txt"));
            assert_eq!(items[11], item("tray_recent_11", "f11.txt"));
        },
        other => panic!("expected the submenu, found {:?}", other),
    }
}

#[test]
fn recent_files_menu_takes_the_names_as_given() {
    assert_eq!(recent_files_menu(vec![]), tray_around(vec![placeholder()]));
    assert_eq!(
        recent_files_menu(vec![Some("a.txt".to_string()), None, Some("".to_string())]),
        tray_around(vec![
            item("tray_recent_0", "a.txt"),
            item("tray_recent_1", "Unknown File"),
            item("tray_recent_2", ""),
        ])
    );
}

#[test]
fn recent_file_item_encodes_the_position() {
    assert_eq!(recent_file_item(0, Some("n.txt".to_string())), item("tray_recent_0", "n.txt"));
    assert_eq!(recent_file_item(305, None), item("tray_recent_305", "Unknown File"));
}

#[test]
fn click_on_a_recent_file_opens_it() {
    let state = stored(&["/a/b/note.txt", "/x/y/doc.md"]);
    assert_eq!(
        handle_tray_event(&state, APP, true, &click("tray_recent_1")),
        TrayAction::Emit(FrontendEvent::OpenRecentFile("/x/y/doc.md".to_string()))
    );
    assert_eq!(
        handle_tray_event(&state, APP, true, &click("tray_recent_0")),
        TrayAction::Emit(FrontendEvent::OpenRecentFile("/a/b/note.txt".to_string()))
    );
}

#[test]
fn click_beyond_a_shrunk_list_does_nothing() {
    let mut state = stored(&["/a/b/note.txt", "/x/y/doc.md"]);
    update_tray_menu_with_recent_files(&mut state, APP, vec!["/only/one.txt".to_string()]);
    assert_eq!(handle_tray_event(&state, APP, true, &click("tray_recent_1")), TrayAction::Nothing);
    assert_eq!(
        handle_tray_event(&state, APP, true, &click("tray_recent_0")),
        TrayAction::Emit(FrontendEvent::OpenRecentFile("/only/one.txt".to_string()))
    );
    update_tray_menu_with_recent_files(&mut state, APP, vec![]);
    assert_eq!(handle_tray_event(&state, APP, true, &click("tray_recent_0")), TrayAction::Nothing);
}

#[test]
fn click_on_a_recent_file_of_an_unknown_instance_does_nothing() {
    let state = stored(&["/a/b/note.txt"]);
    assert_eq!(
        handle_tray_event(&state, "com.other.app", true, &click("tray_recent_0")),
        TrayAction::Nothing
    );
    assert_eq!(
        handle_tray_event(&RecentFiles::new(), APP, true, &click("tray_recent_0")),
        TrayAction::Nothing
    );
}

#[test]
fn recent_identifier_is_read_like_a_number() {
    let state = stored(&["/zero", "/one", "/two"]);
    let open = |path: &str| TrayAction::Emit(FrontendEvent::OpenRecentFile(path.to_string()));
    assert_eq!(handle_tray_event(&state, APP, true, &click("tray_recent_+2")), open("/two"));
    assert_eq!(handle_tray_event(&state, APP, true, &click("tray_recent_001")), open("/one"));
    for id in [
        "tray_recent_",
        "tray_recent_-1",
        "tray_recent_1x",
        "tray_recent_ 1",
        "tray_recent_3",
        "tray_recent_99999999999999999999999999",
        "tray_recent",
        "Tray_recent_1",
        "recent_1",
        "",
    ] {
        assert_eq!(handle_tray_event(&state, APP, true, &click(id)), TrayAction::Nothing, "{}", id);
    }
}

#[test]
fn tray_actions_are_forwarded_as_menu_events() {
    let state = RecentFiles::new();
    assert_eq!(handle_tray_event(&state, APP, true, &click("tray_new_note")), menu_event("new_note"));
    assert_eq!(
        handle_tray_event(&state, APP, true, &click("tray_open_file")),
        menu_event("open_file")
    );
    assert_eq!(handle_tray_event(&state, APP, true, &click("tray_save")), menu_event("save_file"));
    assert_eq!(
        handle_tray_event(&state, APP, true, &click("tray_save_as")),
        menu_event("save_file_as")
    );
    assert_eq!(
        handle_tray_event(&state, APP, true, &click("tray_close_tab")),
        menu_event("close_active_tab")
    );
}

#[test]
fn tray_show_hide_toggles_and_quit_quits() {
    let state = RecentFiles::new();
    assert_eq!(
        handle_tray_event(&state, APP, true, &click("tray_show_hide")),
        TrayAction::ToggleVisibility
    );
    assert_eq!(handle_tray_event(&state, APP, true, &click("tray_quit")), TrayAction::Quit);
    assert_eq!(handle_tray_event(&state, APP, true, &click("tray_no_recent")), TrayAction::Nothing);
}

#[test]
fn tray_icon_clicks_do_nothing() {
    let state = stored(&["/a"]);
    assert_eq!(handle_tray_event(&state, APP, true, &TrayEvent::LeftClick), TrayAction::Nothing);
    assert_eq!(handle_tray_event(&state, APP, true, &TrayEvent::Other), TrayAction::Nothing);
}

#[test]
fn tray_events_without_a_window_do_nothing() {
    let state = stored(&["/a"]);
    for id in [
        "tray_show_hide",
        "tray_new_note",
        "tray_open_file",
        "tray_save",
        "tray_save_as",
        "tray_close_tab",
        "tray_no_recent",
        "tray_recent_0",
    ] {
        assert_eq!(handle_tray_event(&state, APP, false, &click(id)), TrayAction::Nothing);
    }
    assert_eq!(handle_tray_event(&state, APP, false, &TrayEvent::LeftClick), TrayAction::Nothing);
}

#[test]
fn quit_ends_the_process_with_or_without_a_window() {
    let state = stored(&["/a"]);
    assert_eq!(handle_tray_event(&state, APP, true, &click("tray_quit")), TrayAction::Quit);
    assert_eq!(handle_tray_event(&state, APP, false, &click("tray_quit")), TrayAction::Quit);
    assert_eq!(
        handle_tray_event(&RecentFiles::new(), "", false, &click("tray_quit")),
        TrayAction::Quit
    );
}

#[test]
fn recent_labels_are_parts_of_their_paths() {
    let mut state = RecentFiles::new();
    let files = vec![
        "/a/b/note.txt".to_string(),
        "relative/dir/".to_string(),
        "name only".to_string(),
        "/trailing/dot/.".to_string(),
        "/\u{e9}t\u{e9}/r\u{e9}sum\u{e9}.md".to_string(),
    ];
    let menu = update_tray_menu_with_recent_files(&mut state, APP, files.clone());
    match &menu.entries[7] {
        TrayEntry::Submenu { items, .. } => {
            let titles: Vec<&str> = items.iter().map(|item| item.title.as_str()).collect();
            assert_eq!(titles, vec!["note.txt", "dir", "name only", "dot", "r\u{e9}sum\u{e9}.md"]);
            for (item, path) in items.iter().zip(files.iter()) {
                assert!(!item.title.is_empty());
                assert!(path.contains(item.title.as_str()));
                assert!(!item.title.contains('/'));
            }
        },
        other => panic!("expected the submenu, found {:?}", other),
    }
}

#[test]
fn every_item_of_the_tray_menu_leads_somewhere() {
    let mut state = RecentFiles::new();
    let menu = update_tray_menu_with_recent_files(
        &mut state,
        APP,
        vec!["/a/one.txt".to_string(), "/b/two.txt".to_string()],
    );
    let mut checked: usize = 0;
    for entry in menu.entries.iter() {
        match entry {
            TrayEntry::Item(item) => {
                assert_ne!(
                    handle_tray_event(&state, APP, true, &click(&item.id)),
                    TrayAction::Nothing
                );
                checked += 1;
            },
            TrayEntry::Submenu { items, .. } => {
                for (index, item) in items.iter().enumerate() {
                    let path = state.get(APP).unwrap()[index].clone();
                    assert_eq!(
                        handle_tray_event(&state, APP, true, &click(&item.id)),
                        TrayAction::Emit(FrontendEvent::OpenRecentFile(path))
                    );
                    checked += 1;
                }
            },
            TrayEntry::Separator => {},
        }
    }
    assert_eq!(checked, 9);
}

#[test]
fn recent_files_are_kept_for_each_instance() {
    let mut state = RecentFiles::new();
    assert_eq!(state.get("a"), None);
    state.insert("a", vec!["/1".to_string()]);
    state.insert("b", vec!["/2".to_string(), "/3".to_string()]);
    assert_eq!(state.get("a"), Some(&vec!["/1".to_string()]));
    assert_eq!(state.get("b"), Some(&vec!["/2".to_string(), "/3".to_string()]));
    state.insert("a", vec![]);
    assert_eq!(state.get("a"), Some(&vec![]));
    assert_eq!(state.get("b"), Some(&vec!["/2".to_string(), "/3".to_string()]));
    state.insert("b", vec!["/4".to_string()]);
    state.insert("a", vec!["/5".to_string()]);
    assert_eq!(state.get("a"), Some(&vec!["/5".to_string()]));
    assert_eq!(state.get("b"), Some(&vec!["/4".to_string()]));
    assert_eq!(state.get(""), None);
}

#[test]
fn toggle_hides_a_visible_window() {
    assert_eq!(toggle_window_visibility(Some(true)), vec![WindowOp::Hide]);
}

#[test]
fn toggle_shows_and_focuses_a_hidden_window() {
    assert_eq!(toggle_window_visibility(Some(false)), vec![WindowOp::Show, WindowOp::SetFocus]);
    assert_eq!(toggle_window_visibility(None), vec![WindowOp::Show, WindowOp::SetFocus]);
}

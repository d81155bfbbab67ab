//! Decision core of a desktop note editor's native shell.
//!
//! The host program owns every window, dialog, tray icon, hotkey and file.
//! This library decides what the host has to do: which dialog to show, which
//! menu to install, which event to forward to the front-end, which text to
//! write to disk. Every function here works on plain values and carries a
//! contract that is checked by Verus.

use vstd::prelude::*;

pub mod commands;
pub mod events;
pub mod json;
pub mod menu;
pub mod recent;
pub mod shortcuts;
pub mod text;

use crate::commands::settings_commands::{default_settings, AppSettings, AppSettingsView};
use crate::events::{op_views, texts, FrontendEvent, FrontendEventView, WindowOp, WindowOpView};
use crate::menu::{
    app_menu, create_app_menu, create_tray_menu, placeholder_item, tray_menu, Menu, MenuView,
    TrayMenu, TrayMenuView,
};
use crate::shortcuts::{BindingsView, Slot};
use crate::text::same_text;

verus! {

/// A request to register a key combination for a slot.
#[derive(Debug, PartialEq, Eq)]
pub struct ShortcutRequest {
    pub slot: Slot,
    pub shortcut: String,
}

/// Mathematical form of a [`ShortcutRequest`].
pub struct ShortcutRequestView {
    pub slot: Slot,
    pub shortcut: Seq<char>,
}

impl View for ShortcutRequest {
    type V = ShortcutRequestView;

    open spec fn view(&self) -> ShortcutRequestView {
        ShortcutRequestView { slot: self.slot, shortcut: self.shortcut@ }
    }
}

/// Mathematical form of a list of requests.
pub open spec fn request_views(requests: Seq<ShortcutRequest>) -> Seq<ShortcutRequestView> {
    requests.map_values(|request: ShortcutRequest| request@)
}

/// One step of the start of the application.
#[derive(Debug, PartialEq, Eq)]
pub enum StartupStep {
    /// Install the application menu.
    InstallMenu(Menu),
    /// Install the tray icon with its menu.
    InstallTray(TrayMenu),
    /// Register a hotkey.
    Register(ShortcutRequest),
    /// Load the settings in the background, and hand them to
    /// `reconcile_shortcuts` once they are there.
    LoadSettings,
}

/// Mathematical form of a [`StartupStep`].
pub enum StartupStepView {
    InstallMenu(MenuView),
    InstallTray(TrayMenuView),
    Register(ShortcutRequestView),
    LoadSettings,
}

impl View for StartupStep {
    type V = StartupStepView;

    open spec fn view(&self) -> StartupStepView {
        match *self {
            StartupStep::InstallMenu(menu) => StartupStepView::InstallMenu(menu@),
            StartupStep::InstallTray(menu) => StartupStepView::InstallTray(menu@),
            StartupStep::Register(request) => StartupStepView::Register(request@),
            StartupStep::LoadSettings => StartupStepView::LoadSettings,
        }
    }
}

/// Mathematical form of a list of steps.
pub open spec fn step_views(steps: Seq<StartupStep>) -> Seq<StartupStepView> {
    steps.map_values(|step: StartupStep| step@)
}

/// The requests that register the default combination of each slot.
pub open spec fn default_requests() -> Seq<ShortcutRequestView> {
    seq![
        ShortcutRequestView { slot: Slot::NewNote, shortcut: default_settings().new_note_shortcut },
        ShortcutRequestView {
            slot: Slot::CloseTab,
            shortcut: default_settings().close_tab_shortcut,
        },
        ShortcutRequestView {
            slot: Slot::ToggleWindow,
            shortcut: default_settings().toggle_window_shortcut,
        },
    ]
}

/// The start of the application: the menu, the tray with no recent file,
/// the three hotkeys with their default combinations, then the settings.
pub open spec fn startup_steps() -> Seq<StartupStepView> {
    seq![
        StartupStepView::InstallMenu(app_menu()),
        StartupStepView::InstallTray(tray_menu(seq![placeholder_item()])),
        StartupStepView::Register(default_requests()[0]),
        StartupStepView::Register(default_requests()[1]),
        StartupStepView::Register(default_requests()[2]),
        StartupStepView::LoadSettings,
    ]
}

fn request(slot: Slot, shortcut: &str) -> (r: ShortcutRequest)
    ensures
        r@ == (ShortcutRequestView { slot, shortcut: shortcut@ }),
{
    ShortcutRequest { slot, shortcut: String::from_str(shortcut) }
}

/// Lays out the start of the application, for the host to carry out in
/// order.
pub fn run() -> (steps: Vec<StartupStep>)
    ensures
        step_views(steps@) == startup_steps(),
{
    let mut steps: Vec<StartupStep> = Vec::new();
    steps.push(StartupStep::InstallMenu(create_app_menu()));
    steps.push(StartupStep::InstallTray(create_tray_menu()));
    steps.push(StartupStep::Register(request(Slot::NewNote, "CmdOrCtrl+Option+T")));
    steps.push(StartupStep::Register(request(Slot::CloseTab, "CmdOrCtrl+Option+Y")));
    steps.push(StartupStep::Register(request(Slot::ToggleWindow, "CmdOrCtrl+Option+U")));
    steps.push(StartupStep::LoadSettings);
    assert(step_views(steps@) =~= startup_steps());
    steps
}

/// The combination that a record of settings holds for a slot.
pub open spec fn settings_shortcut(settings: AppSettingsView, slot: Slot) -> Seq<char> {
    match slot {
        Slot::NewNote => settings.new_note_shortcut,
        Slot::CloseTab => settings.close_tab_shortcut,
        Slot::ToggleWindow => settings.toggle_window_shortcut,
    }
}

/// The request for a slot after the settings were loaded: none where the
/// slot's combination in the settings is the default one, which is
/// registered already.
pub open spec fn slot_request(settings: AppSettingsView, slot: Slot) -> Seq<ShortcutRequestView> {
    if settings_shortcut(settings, slot) == settings_shortcut(default_settings(), slot) {
        Seq::empty()
    } else {
        seq![ShortcutRequestView { slot, shortcut: settings_shortcut(settings, slot) }]
    }
}

/// The requests that bring the hotkeys in line with the loaded settings.
/// Settings that could not be loaded change nothing.
pub open spec fn reconcile_requests(loaded: Option<AppSettingsView>) -> Seq<ShortcutRequestView> {
    match loaded {
        None => Seq::empty(),
        Some(settings) => slot_request(settings, Slot::NewNote) + slot_request(
            settings,
            Slot::CloseTab,
        ) + slot_request(settings, Slot::ToggleWindow),
    }
}

/// After the start, decides which hotkeys to register anew: each one whose
/// combination in the loaded settings differs from the default.
pub fn reconcile_shortcuts(loaded: &Result<AppSettings, String>) -> (requests: Vec<
    ShortcutRequest,
>)
    ensures
        request_views(requests@) == reconcile_requests(
            match *loaded {
                Ok(settings) => Some(settings@),
                Err(_) => None,
            },
        ),
{
    let mut requests: Vec<ShortcutRequest> = Vec::new();
    match loaded {
        Err(_) => {
            assert(request_views(requests@) =~= Seq::<ShortcutRequestView>::empty());
        },
        Ok(settings) => {
            let ghost s = settings@;
            if !same_text(settings.new_note_shortcut.as_str(), "CmdOrCtrl+Option+T") {
                requests.push(request(Slot::NewNote, settings.new_note_shortcut.as_str()));
            }
            assert(request_views(requests@) =~= slot_request(s, Slot::NewNote));
            if !same_text(settings.close_tab_shortcut.as_str(), "CmdOrCtrl+Option+Y") {
                requests.push(request(Slot::CloseTab, settings.close_tab_shortcut.as_str()));
            }
            assert(request_views(requests@) =~= slot_request(s, Slot::NewNote) + slot_request(
                s,
                Slot::CloseTab,
            ));
            if !same_text(settings.toggle_window_shortcut.as_str(), "CmdOrCtrl+Option+U") {
                requests.push(
                    request(Slot::ToggleWindow, settings.toggle_window_shortcut.as_str()),
                );
            }
            assert(request_views(requests@) =~= reconcile_requests(Some(s)));
        },
    }
    requests
}

/// The bindings after a list of requests, each of which the system grants.
pub open spec fn granted(bindings: BindingsView, requests: Seq<ShortcutRequestView>) -> BindingsView
    decreases requests.len(),
{
    if requests.len() == 0 {
        bindings
    } else {
        granted(bindings, requests.drop_last()).set(
            requests.last().slot,
            Some(requests.last().shortcut),
        )
    }
}

/// The bindings in which each slot holds the combination of a record.
pub open spec fn bindings_of(settings: AppSettingsView) -> BindingsView {
    BindingsView {
        new_note: Some(settings.new_note_shortcut),
        close_tab: Some(settings.close_tab_shortcut),
        toggle_window: Some(settings.toggle_window_shortcut),
    }
}

/// Once the default combinations are registered, and then those that the
/// loaded settings ask for, every slot is registered with the combination
/// that the settings hold for it.
pub proof fn lemma_reconciled_bindings_match_settings(start: BindingsView, settings: AppSettingsView)
    ensures
        granted(start, default_requests()) == bindings_of(default_settings()),
        granted(bindings_of(default_settings()), reconcile_requests(Some(settings)))
            == bindings_of(settings),
        granted(bindings_of(default_settings()), reconcile_requests(None)) == bindings_of(
            default_settings(),
        ),
{
    let d = default_requests();
    assert(d.drop_last().drop_last().drop_last() =~= Seq::<ShortcutRequestView>::empty());
    reveal_with_fuel(granted, 4);
    assert(granted(start, d) == bindings_of(default_settings()));
    let base = bindings_of(default_settings());
    let a = slot_request(settings, Slot::NewNote);
    let b = slot_request(settings, Slot::CloseTab);
    let c = slot_request(settings, Slot::ToggleWindow);
    lemma_granted_append(base, a, b);
    lemma_granted_append(base, a + b, c);
    assert(a.len() == 1 ==> a.drop_last() =~= Seq::<ShortcutRequestView>::empty());
    assert(b.len() == 1 ==> b.drop_last() =~= Seq::<ShortcutRequestView>::empty());
    assert(c.len() == 1 ==> c.drop_last() =~= Seq::<ShortcutRequestView>::empty());
}

proof fn lemma_granted_append(
    bindings: BindingsView,
    first: Seq<ShortcutRequestView>,
    second: Seq<ShortcutRequestView>,
)
    ensures
        granted(bindings, first + second) == granted(granted(bindings, first), second),
    decreases second.len(),
{
    if second.len() == 0 {
        assert(first + second =~= first);
    } else {
        lemma_granted_append(bindings, first, second.drop_last());
        assert((first + second).drop_last() =~= first + second.drop_last());
    }
}

/// What the main window reports to the shell.
#[derive(Debug, PartialEq, Eq)]
pub enum WindowEvent {
    /// The user asked to close the window.
    CloseRequested,
    /// Files were dropped on the window; carries their paths.
    FilesDropped(Vec<String>),
    /// Anything else.
    Other,
}

/// Mathematical form of a [`WindowEvent`].
pub enum WindowEventView {
    CloseRequested,
    FilesDropped(Seq<Seq<char>>),
    Other,
}

impl View for WindowEvent {
    type V = WindowEventView;

    open spec fn view(&self) -> WindowEventView {
        match *self {
            WindowEvent::CloseRequested => WindowEventView::CloseRequested,
            WindowEvent::FilesDropped(paths) => WindowEventView::FilesDropped(texts(paths@)),
            WindowEvent::Other => WindowEventView::Other,
        }
    }
}

/// What a window event asks of the window: a close is turned into hiding,
/// so that the application lives on in the tray, and dropped files are
/// handed to the front-end.
pub open spec fn window_ops(event: WindowEventView) -> Seq<WindowOpView> {
    match event {
        WindowEventView::CloseRequested => seq![WindowOpView::Hide, WindowOpView::PreventClose],
        WindowEventView::FilesDropped(paths) => seq![
            WindowOpView::Emit(FrontendEventView::CustomFileDrop(paths)),
        ],
        WindowEventView::Other => Seq::empty(),
    }
}

/// Decides what a window event leads to.
pub fn handle_window_event(event: WindowEvent) -> (ops: Vec<WindowOp>)
    ensures
        op_views(ops@) == window_ops(event@),
{
    let mut ops: Vec<WindowOp> = Vec::new();
    match event {
        WindowEvent::CloseRequested => {
            ops.push(WindowOp::Hide);
            ops.push(WindowOp::PreventClose);
        },
        WindowEvent::FilesDropped(paths) => {
            ops.push(WindowOp::Emit(FrontendEvent::CustomFileDrop(paths)));
        },
        WindowEvent::Other => {},
    }
    assert(op_views(ops@) =~= window_ops(event@));
    ops
}

} // verus!

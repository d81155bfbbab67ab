//! What the shell tells the front-end, and what it asks of the main window.

use vstd::prelude::*;

verus! {

/// Mathematical form of a list of texts.
pub open spec fn texts(v: Seq<String>) -> Seq<Seq<char>> {
    v.map_values(|s: String| s@)
}

/// A notification delivered to the front-end window.
#[derive(Debug, PartialEq, Eq)]
pub enum FrontendEvent {
    /// A menu or tray action, named by its identifier.
    MenuEvent(String),
    /// A recent file was chosen; carries its path.
    OpenRecentFile(String),
    /// The new-note hotkey was pressed.
    ShortcutNewNote,
    /// The close-tab hotkey was pressed.
    ShortcutCloseTab,
    /// Files were dropped on the window; carries their paths.
    CustomFileDrop(Vec<String>),
    /// Something failed; carries a message for display.
    Error(String),
}

/// Mathematical form of a [`FrontendEvent`].
pub enum FrontendEventView {
    MenuEvent(Seq<char>),
    OpenRecentFile(Seq<char>),
    ShortcutNewNote,
    ShortcutCloseTab,
    CustomFileDrop(Seq<Seq<char>>),
    Error(Seq<char>),
}

impl View for FrontendEvent {
    type V = FrontendEventView;

    open spec fn view(&self) -> FrontendEventView {
        match *self {
            FrontendEvent::MenuEvent(id) => FrontendEventView::MenuEvent(id@),
            FrontendEvent::OpenRecentFile(path) => FrontendEventView::OpenRecentFile(path@),
            FrontendEvent::ShortcutNewNote => FrontendEventView::ShortcutNewNote,
            FrontendEvent::ShortcutCloseTab => FrontendEventView::ShortcutCloseTab,
            FrontendEvent::CustomFileDrop(paths) => FrontendEventView::CustomFileDrop(texts(paths@)),
            FrontendEvent::Error(message) => FrontendEventView::Error(message@),
        }
    }
}

/// The name under which the front-end listens for an event.
pub open spec fn event_name(event: FrontendEventView) -> Seq<char> {
    match event {
        FrontendEventView::MenuEvent(_) => "menu-event"@,
        FrontendEventView::OpenRecentFile(_) => "open-recent-file"@,
        FrontendEventView::ShortcutNewNote => "shortcut-new-note"@,
        FrontendEventView::ShortcutCloseTab => "shortcut-close-tab"@,
        FrontendEventView::CustomFileDrop(_) => "custom-file-drop"@,
        FrontendEventView::Error(_) => "error"@,
    }
}

impl FrontendEvent {
    /// The name under which the front-end listens for this event.
    pub fn name(&self) -> (r: &'static str)
        ensures
            r@ == event_name(self@),
    {
        match self {
            FrontendEvent::MenuEvent(_) => "menu-event",
            FrontendEvent::OpenRecentFile(_) => "open-recent-file",
            FrontendEvent::ShortcutNewNote => "shortcut-new-note",
            FrontendEvent::ShortcutCloseTab => "shortcut-close-tab",
            FrontendEvent::CustomFileDrop(_) => "custom-file-drop",
            FrontendEvent::Error(_) => "error",
        }
    }
}

/// A line for the process console. Such a line never reaches the front-end.
#[derive(Debug, PartialEq, Eq)]
pub enum Console {
    /// A line for standard output.
    Info(String),
    /// A line for standard error.
    Error(String),
}

/// Mathematical form of a [`Console`] line.
pub enum ConsoleView {
    Info(Seq<char>),
    Error(Seq<char>),
}

impl View for Console {
    type V = ConsoleView;

    open spec fn view(&self) -> ConsoleView {
        match *self {
            Console::Info(line) => ConsoleView::Info(line@),
            Console::Error(line) => ConsoleView::Error(line@),
        }
    }
}

/// One request to the host about the main window.
#[derive(Debug, PartialEq, Eq)]
pub enum WindowOp {
    Hide,
    Show,
    SetFocus,
    /// Deliver an event to the front-end.
    Emit(FrontendEvent),
    /// Pin the window above all others, or release it.
    SetAlwaysOnTop(bool),
    /// Release the window from the top after a delay, without waiting for it.
    ClearAlwaysOnTopAfter { millis: u64 },
    /// Keep a requested close from going through.
    PreventClose,
}

/// Mathematical form of a [`WindowOp`].
pub enum WindowOpView {
    Hide,
    Show,
    SetFocus,
    Emit(FrontendEventView),
    SetAlwaysOnTop(bool),
    ClearAlwaysOnTopAfter { millis: u64 },
    PreventClose,
}

impl View for WindowOp {
    type V = WindowOpView;

    open spec fn view(&self) -> WindowOpView {
        match *self {
            WindowOp::Hide => WindowOpView::Hide,
            WindowOp::Show => WindowOpView::Show,
            WindowOp::SetFocus => WindowOpView::SetFocus,
            WindowOp::Emit(event) => WindowOpView::Emit(event@),
            WindowOp::SetAlwaysOnTop(on) => WindowOpView::SetAlwaysOnTop(on),
            WindowOp::ClearAlwaysOnTopAfter { millis } => WindowOpView::ClearAlwaysOnTopAfter {
                millis,
            },
            WindowOp::PreventClose => WindowOpView::PreventClose,
        }
    }
}

/// Mathematical form of a list of window requests.
pub open spec fn op_views(ops: Seq<WindowOp>) -> Seq<WindowOpView> {
    ops.map_values(|op: WindowOp| op@)
}

} // verus!

//! The three global hotkeys: which key combination each one is bound to, how
//! a binding is replaced, and what a press of each one does to the window.
//!
//! Each hotkey is a slot that is either unregistered or registered with one
//! key combination. The operating system owns the registrations; this module
//! keeps the record of them and tells the host which calls to make.

use vstd::prelude::*;
use crate::events::{
    op_views, Console, ConsoleView, FrontendEvent, FrontendEventView, WindowOp, WindowOpView,
};
use crate::menu::{option_text, toggle_ops};

verus! {

/// The hotkeys of the application.
#[derive(Clone, Copy, Debug, PartialEq, Eq)]
pub enum Slot {
    NewNote,
    CloseTab,
    ToggleWindow,
}

/// The key combination that each slot is registered with, if any.
#[derive(Debug, PartialEq, Eq)]
pub struct ShortcutBindings {
    new_note: Option<String>,
    close_tab: Option<String>,
    toggle_window: Option<String>,
}

/// Mathematical form of [`ShortcutBindings`].
pub struct BindingsView {
    pub new_note: Option<Seq<char>>,
    pub close_tab: Option<Seq<char>>,
    pub toggle_window: Option<Seq<char>>,
}

impl BindingsView {
    /// The combination that a slot is registered with.
    pub open spec fn get(self, slot: Slot) -> Option<Seq<char>> {
        match slot {
            Slot::NewNote => self.new_note,
            Slot::CloseTab => self.close_tab,
            Slot::ToggleWindow => self.toggle_window,
        }
    }

    /// These bindings with one slot changed.
    pub open spec fn set(self, slot: Slot, combo: Option<Seq<char>>) -> BindingsView {
        match slot {
            Slot::NewNote => BindingsView { new_note: combo, ..self },
            Slot::CloseTab => BindingsView { close_tab: combo, ..self },
            Slot::ToggleWindow => BindingsView { toggle_window: combo, ..self },
        }
    }

    /// Whether a press of `combo` runs the handler of `slot`.
    pub open spec fn fires(self, combo: Seq<char>, slot: Slot) -> bool {
        self.get(slot) == Some(combo)
    }
}

/// The bindings with no slot registered.
pub open spec fn no_bindings() -> BindingsView {
    BindingsView { new_note: None, close_tab: None, toggle_window: None }
}

impl View for ShortcutBindings {
    type V = BindingsView;

    closed spec fn view(&self) -> BindingsView {
        BindingsView {
            new_note: option_text(self.new_note),
            close_tab: option_text(self.close_tab),
            toggle_window: option_text(self.toggle_window),
        }
    }
}

/// The calls that replace the registration of one slot.
#[derive(Debug, PartialEq, Eq)]
pub struct RegistrationPlan {
    pub slot: Slot,
    /// The combination to unregister first; a failure to do so is ignored.
    pub release: Option<String>,
    /// The combination to register then with the slot's handler; `None`
    /// where the registration is skipped.
    pub bind: Option<String>,
    /// The line that says why the registration is skipped.
    pub note: Option<Console>,
}

/// Mathematical form of a [`RegistrationPlan`].
pub struct RegistrationPlanView {
    pub slot: Slot,
    pub release: Option<Seq<char>>,
    pub bind: Option<Seq<char>>,
    pub note: Option<ConsoleView>,
}

impl View for RegistrationPlan {
    type V = RegistrationPlanView;

    open spec fn view(&self) -> RegistrationPlanView {
        RegistrationPlanView {
            slot: self.slot,
            release: option_text(self.release),
            bind: option_text(self.bind),
            note: match self.note {
                Some(line) => Some(line@),
                None => None,
            },
        }
    }
}

/// The plan that registers `combo` for `slot`: whatever the slot holds is
/// released first, and the new combination is bound only where there is a
/// main window for its handler to act on.
pub open spec fn registration_plan(
    bindings: BindingsView,
    slot: Slot,
    combo: Seq<char>,
    window_present: bool,
) -> RegistrationPlanView {
    RegistrationPlanView {
        slot,
        release: bindings.get(slot),
        bind: if window_present {
            Some(combo)
        } else {
            None
        },
        note: if window_present {
            None
        } else {
            Some(ConsoleView::Error("Main window not found, skipping shortcut registration"@))
        },
    }
}

/// The words that name a slot in a console line.
pub open spec fn slot_words(slot: Slot) -> Seq<char> {
    match slot {
        Slot::NewNote => ""@,
        Slot::CloseTab => "close tab "@,
        Slot::ToggleWindow => "toggle window "@,
    }
}

/// The console line for the outcome of a registration: the system's reason
/// is `Err`'s content.
pub open spec fn registration_line(
    slot: Slot,
    combo: Seq<char>,
    outcome: Result<(), Seq<char>>,
) -> ConsoleView {
    match outcome {
        Ok(_) => ConsoleView::Info(
            "Successfully registered "@ + slot_words(slot) + "shortcut: "@ + combo,
        ),
        Err(reason) => ConsoleView::Error(
            "Failed to register "@ + slot_words(slot) + "shortcut '"@ + combo + "': "@ + reason,
        ),
    }
}

/// Mathematical form of the outcome of a registration.
pub open spec fn outcome_view(outcome: Result<(), String>) -> Result<(), Seq<char>> {
    match outcome {
        Ok(_) => Ok(()),
        Err(reason) => Err(reason@),
    }
}

fn slot_text(slot: Slot) -> (r: &'static str)
    ensures
        r@ == slot_words(slot),
{
    match slot {
        Slot::NewNote => "",
        Slot::CloseTab => "close tab ",
        Slot::ToggleWindow => "toggle window ",
    }
}

impl ShortcutBindings {
    /// Bindings with no slot registered.
    pub fn new() -> (r: Self)
        ensures
            r@ == no_bindings(),
    {
        ShortcutBindings { new_note: None, close_tab: None, toggle_window: None }
    }

    /// The combination that `slot` is registered with.
    pub fn bound(&self, slot: Slot) -> (r: Option<&String>)
        ensures
            match r {
                Some(combo) => self@.get(slot) == Some(combo@),
                None => self@.get(slot) is None,
            },
    {
        match slot {
            Slot::NewNote => self.new_note.as_ref(),
            Slot::CloseTab => self.close_tab.as_ref(),
            Slot::ToggleWindow => self.toggle_window.as_ref(),
        }
    }

    fn replace(&mut self, slot: Slot, combo: Option<String>) -> (r: Option<String>)
        ensures
            option_text(r) == old(self)@.get(slot),
            final(self)@ == old(self)@.set(slot, option_text(combo)),
    {
        let mut held = combo;
        match slot {
            Slot::NewNote => std::mem::swap(&mut held, &mut self.new_note),
            Slot::CloseTab => std::mem::swap(&mut held, &mut self.close_tab),
            Slot::ToggleWindow => std::mem::swap(&mut held, &mut self.toggle_window),
        }
        held
    }
}

/// Starts the registration of `shortcut_str` for `slot`. The slot is
/// unregistered from here on, until `finish_registration` records that the
/// new combination was bound. The plan says which calls the host makes.
pub fn register_shortcut(
    bindings: &mut ShortcutBindings,
    slot: Slot,
    shortcut_str: &str,
    window_present: bool,
) -> (plan: RegistrationPlan)
    ensures
        plan@ == registration_plan(old(bindings)@, slot, shortcut_str@, window_present),
        final(bindings)@ == old(bindings)@.set(slot, None),
{
    let release = bindings.replace(slot, None);
    if window_present {
        RegistrationPlan { slot, release, bind: Some(String::from_str(shortcut_str)), note: None }
    } else {
        RegistrationPlan {
            slot,
            release,
            bind: None,
            note: Some(
                Console::Error(
                    String::from_str("Main window not found, skipping shortcut registration"),
                ),
            ),
        }
    }
}

/// Starts the registration of the hotkey that opens a new note.
pub fn register_new_note_shortcut(
    bindings: &mut ShortcutBindings,
    shortcut_str: &str,
    window_present: bool,
) -> (plan: RegistrationPlan)
    ensures
        plan@ == registration_plan(old(bindings)@, Slot::NewNote, shortcut_str@, window_present),
        final(bindings)@ == old(bindings)@.set(Slot::NewNote, None),
{
    register_shortcut(bindings, Slot::NewNote, shortcut_str, window_present)
}

/// Starts the registration of the hotkey that closes the current tab.
pub fn register_close_tab_shortcut(
    bindings: &mut ShortcutBindings,
    shortcut_str: &str,
    window_present: bool,
) -> (plan: RegistrationPlan)
    ensures
        plan@ == registration_plan(old(bindings)@, Slot::CloseTab, shortcut_str@, window_present),
        final(bindings)@ == old(bindings)@.set(Slot::CloseTab, None),
{
    register_shortcut(bindings, Slot::CloseTab, shortcut_str, window_present)
}

/// Starts the registration of the hotkey that shows or hides the window.
pub fn register_toggle_window_shortcut(
    bindings: &mut ShortcutBindings,
    shortcut_str: &str,
    window_present: bool,
) -> (plan: RegistrationPlan)
    ensures
        plan@ == registration_plan(
            old(bindings)@,
            Slot::ToggleWindow,
            shortcut_str@,
            window_present,
        ),
        final(bindings)@ == old(bindings)@.set(Slot::ToggleWindow, None),
{
    register_shortcut(bindings, Slot::ToggleWindow, shortcut_str, window_present)
}

/// Records how the system answered the attempt to bind `shortcut` for
/// `slot`: bound, the slot is registered with it; refused, the slot stays
/// unregistered. The answer goes to the console and nowhere else.
pub fn finish_registration(
    bindings: &mut ShortcutBindings,
    slot: Slot,
    shortcut: String,
    outcome: Result<(), String>,
) -> (line: Console)
    ensures
        final(bindings)@ == old(bindings)@.set(
            slot,
            if outcome is Ok {
                Some(shortcut@)
            } else {
                None
            },
        ),
        line@ == registration_line(slot, shortcut@, outcome_view(outcome)),
{
    match outcome {
        Ok(_) => {
            let mut text = String::from_str("Successfully registered ");
            text.append(slot_text(slot));
            text.append("shortcut: ");
            text.append(shortcut.as_str());
            let _ = bindings.replace(slot, Some(shortcut));
            Console::Info(text)
        },
        Err(reason) => {
            let mut text = String::from_str("Failed to register ");
            text.append(slot_text(slot));
            text.append("shortcut '");
            text.append(shortcut.as_str());
            text.append("': ");
            text.append(reason.as_str());
            let _ = bindings.replace(slot, None);
            Console::Error(text)
        },
    }
}

/// How long the window stays pinned above the others after a hotkey.
pub const FLASH_MILLIS: u64 = 1000;

/// The two requests that end every hotkey's handler: pin the window above
/// all others, and release it after the delay.
pub open spec fn flash_ops() -> Seq<WindowOpView> {
    seq![
        WindowOpView::SetAlwaysOnTop(true),
        WindowOpView::ClearAlwaysOnTopAfter { millis: FLASH_MILLIS },
    ]
}

/// What a press of a slot's hotkey asks of the main window. `visible` is
/// what the host learned of the window, `None` where it could not find out;
/// only the toggle looks at it.
pub open spec fn shortcut_ops(slot: Slot, visible: Option<bool>) -> Seq<WindowOpView> {
    match slot {
        Slot::NewNote => seq![
            WindowOpView::Hide,
            WindowOpView::Show,
            WindowOpView::SetFocus,
            WindowOpView::Emit(FrontendEventView::ShortcutNewNote),
        ] + flash_ops(),
        Slot::CloseTab => seq![
            WindowOpView::Hide,
            WindowOpView::Show,
            WindowOpView::SetFocus,
            WindowOpView::Emit(FrontendEventView::ShortcutCloseTab),
        ] + flash_ops(),
        Slot::ToggleWindow => toggle_ops(visible) + flash_ops(),
    }
}

/// The handler of a slot's hotkey: the window requests to carry out, in
/// order, when the hotkey is pressed.
pub fn shortcut_triggered(slot: Slot, visible: Option<bool>) -> (ops: Vec<WindowOp>)
    ensures
        op_views(ops@) == shortcut_ops(slot, visible),
{
    let mut ops: Vec<WindowOp> = Vec::new();
    match slot {
        Slot::NewNote => {
            ops.push(WindowOp::Hide);
            ops.push(WindowOp::Show);
            ops.push(WindowOp::SetFocus);
            ops.push(WindowOp::Emit(FrontendEvent::ShortcutNewNote));
        },
        Slot::CloseTab => {
            ops.push(WindowOp::Hide);
            ops.push(WindowOp::Show);
            ops.push(WindowOp::SetFocus);
            ops.push(WindowOp::Emit(FrontendEvent::ShortcutCloseTab));
        },
        Slot::ToggleWindow => {
            let shown = match visible {
                Some(v) => v,
                None => false,
            };
            if shown {
                ops.push(WindowOp::Hide);
            } else {
                ops.push(WindowOp::Show);
                ops.push(WindowOp::SetFocus);
            }
        },
    }
    ops.push(WindowOp::SetAlwaysOnTop(true));
    ops.push(WindowOp::ClearAlwaysOnTopAfter { millis: FLASH_MILLIS });
    assert(op_views(ops@) =~= shortcut_ops(slot, visible));
    ops
}

/// Registering a combination for a slot replaces what the slot held: the
/// plan releases the old combination and binds the new one, and once the
/// system has bound it, the new combination runs the slot's handler and the
/// old one, where it differs, no longer does. No other slot changes.
pub proof fn lemma_registration_replaces(
    before: BindingsView,
    slot: Slot,
    old_combo: Seq<char>,
    new_combo: Seq<char>,
)
    requires
        before.get(slot) == Some(old_combo),
    ensures
        registration_plan(before, slot, new_combo, true).release == Some(old_combo),
        registration_plan(before, slot, new_combo, true).bind == Some(new_combo),
        before.set(slot, None).set(slot, Some(new_combo)).fires(new_combo, slot),
        old_combo != new_combo ==> !before.set(slot, None).set(slot, Some(new_combo)).fires(
            old_combo,
            slot,
        ),
        forall|other: Slot|
            other != slot ==> before.set(slot, None).set(slot, Some(new_combo)).get(other)
                == before.get(other),
{
}

/// A registration that the system refuses, or that is skipped for want of a
/// window, leaves the slot unregistered: no combination runs its handler.
pub proof fn lemma_failed_registration_unregisters(
    before: BindingsView,
    slot: Slot,
    combo: Seq<char>,
)
    ensures
        forall|any: Seq<char>| !before.set(slot, None).fires(any, slot),
        forall|any: Seq<char>| !before.set(slot, None).set(slot, None).fires(any, slot),
{
}

/// Whatever the slot and the window's state, a hotkey's handler ends by
/// pinning the window and scheduling its release, so that the window is
/// never left pinned.
pub proof fn lemma_handler_ends_with_flash(slot: Slot, visible: Option<bool>)
    ensures
        shortcut_ops(slot, visible).len() >= 2,
        shortcut_ops(slot, visible).skip(shortcut_ops(slot, visible).len() - 2) == flash_ops(),
{
    let ops = shortcut_ops(slot, visible);
    assert(ops.skip(ops.len() - 2) =~= flash_ops());
}

} // verus!

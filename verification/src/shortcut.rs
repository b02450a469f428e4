//! The one global shortcut of the shell.

use vstd::prelude::*;
use vstd::string::StringExecFns;
use crate::setup::{continue_after, progress_after, Progress};
use crate::tray::MenuEntry;

verus! {

/// A key that a shortcut can end in.
#[derive(Clone, Copy, Debug, PartialEq, Eq, Structural)]
pub enum Key {
    /// The space bar.
    Space,
}

/// A key combination that is active whether or not the application has the
/// focus.
#[derive(Clone, Copy, Debug, PartialEq, Eq, Structural)]
pub struct Shortcut {
    pub control: bool,
    pub shift: bool,
    pub alt: bool,
    pub super_key: bool,
    pub key: Key,
}

impl Key {
    /// The name of the key as it is displayed.
    pub open spec fn name_text(self) -> Seq<char> {
        match self {
            Key::Space => "Space"@,
        }
    }

    /// The name of the key as it is displayed.
    pub fn name(&self) -> (name: &'static str)
        ensures
            name@ == self.name_text(),
    {
        match self {
            Key::Space => "Space",
        }
    }
}

/// `word` and a plus sign if `held`, and nothing otherwise.
pub open spec fn modifier_text(held: bool, word: Seq<char>) -> Seq<char> {
    if held {
        word + "+"@
    } else {
        Seq::empty()
    }
}

impl Shortcut {
    /// The combination as it is displayed: the modifiers that are held, in
    /// the order Ctrl, Shift, Alt, Super, and then the key, joined by plus
    /// signs.
    pub open spec fn display_text(self) -> Seq<char> {
        modifier_text(self.control, "Ctrl"@) + modifier_text(self.shift, "Shift"@) + modifier_text(
            self.alt,
            "Alt"@,
        ) + modifier_text(self.super_key, "Super"@) + self.key.name_text()
    }

    /// The combination as it is displayed.
    pub fn display(&self) -> (text: String)
        ensures
            text@ == self.display_text(),
    {
        let mut text = String::new();
        if self.control {
            text = text.concat("Ctrl").concat("+");
        }
        if self.shift {
            text = text.concat("Shift").concat("+");
        }
        if self.alt {
            text = text.concat("Alt").concat("+");
        }
        if self.super_key {
            text = text.concat("Super").concat("+");
        }
        let text = text.concat(self.key.name());
        assert(text@ =~= self.display_text());
        text
    }
}

/// The shortcut that opens quick capture: Ctrl+Shift+Space.
pub open spec fn quick_capture_binding() -> Shortcut {
    Shortcut { control: true, shift: true, alt: false, super_key: false, key: Key::Space }
}

/// The shortcut that opens quick capture.
pub fn quick_capture_shortcut() -> (shortcut: Shortcut)
    ensures
        shortcut == quick_capture_binding(),
{
    Shortcut { control: true, shift: true, alt: false, super_key: false, key: Key::Space }
}

/// Where the registration of the global shortcut stands, given how the
/// host's attempt ended, or nothing if it has not been made.
pub open spec fn shortcut_progress(last: Option<Result<(), String>>) -> Progress<Shortcut> {
    match last {
        None => Progress::Request(quick_capture_binding()),
        Some(outcome) => progress_after(outcome, Progress::Ready),
    }
}

/// Drives the registration of the global shortcut. Called with nothing, it
/// asks the host to register the quick capture shortcut, once, with the
/// handler for the hotkey; called with the outcome of that, it reports
/// readiness or fails with the host's error.
pub fn setup_global_shortcut(last: Option<Result<(), String>>) -> (progress: Progress<Shortcut>)
    ensures
        progress == shortcut_progress(last),
{
    match last {
        None => Progress::Request(quick_capture_shortcut()),
        Some(outcome) => continue_after(outcome, Progress::Ready),
    }
}

/// The key combination displayed beside the menu entry for quick capture is
/// the shortcut that is registered for it: the hint and the binding agree.
pub proof fn lemma_capture_hint_is_binding()
    ensures
        MenuEntry::Capture.accelerator_text() == Some(quick_capture_binding().display_text()),
{
    reveal_strlit("Ctrl+Shift+Space");
    reveal_strlit("Ctrl");
    reveal_strlit("Shift");
    reveal_strlit("Space");
    reveal_strlit("+");
    assert("Ctrl+Shift+Space"@ =~= quick_capture_binding().display_text());
}

} // verus!

//! The commands that the user interface invokes.

use vstd::prelude::*;
use crate::router::{desktop_after_trigger, Command, Trigger, TriggerView};
use crate::window::Desktop;

verus! {

/// Shows the main window and gives it the focus, if it exists.
pub fn show_main_window(desktop: &mut Desktop)
    ensures
        final(desktop)@ == desktop_after_trigger(
            old(desktop)@,
            TriggerView::Command(Command::ShowMainWindow),
        ),
{
    desktop.handle(&Trigger::Command(Command::ShowMainWindow));
}

/// Hides the main window, if it exists.
pub fn hide_main_window(desktop: &mut Desktop)
    ensures
        final(desktop)@ == desktop_after_trigger(
            old(desktop)@,
            TriggerView::Command(Command::HideMainWindow),
        ),
{
    desktop.handle(&Trigger::Command(Command::HideMainWindow));
}

/// Shows the main window, gives it the focus and points it at the quick
/// capture page, if it exists.
pub fn open_quick_capture(desktop: &mut Desktop)
    ensures
        final(desktop)@ == desktop_after_trigger(
            old(desktop)@,
            TriggerView::Command(Command::OpenQuickCapture),
        ),
{
    desktop.handle(&Trigger::Command(Command::OpenQuickCapture));
}

} // verus!

//! What holds of the routing and of the executor, for every state of the
//! desktop and every trigger.

use vstd::prelude::*;
use crate::action::{
    capture_path, capture_sequence, hide_sequence, open_sequence, quit_sequence, ActionView,
    QUIT_EXIT_CODE,
};
use crate::router::{
    desktop_after_trigger, intent_of, route_of, Command, Intent, MouseButton, MouseButtonState,
    TrayEvent, TriggerView,
};
use crate::tray::{entry_of, lemma_entry_ids_distinct, MenuEntry};
use crate::window::{desktop_after, desktop_after_all, DesktopView, WindowView};

verus! {

/// Applying a list of one action is applying that action.
pub proof fn lemma_after_one(d: DesktopView, a: ActionView)
    ensures
        desktop_after_all(d, seq![a]) == desktop_after(d, a),
{
    assert(seq![a].drop_last() =~= Seq::<ActionView>::empty());
    reveal_with_fuel(desktop_after_all, 2);
}

/// Applying a list with one more action at its end is applying the list and
/// then that action.
pub proof fn lemma_after_push(d: DesktopView, actions: Seq<ActionView>, a: ActionView)
    ensures
        desktop_after_all(d, actions.push(a)) == desktop_after(desktop_after_all(d, actions), a),
{
    assert(actions.push(a).drop_last() =~= actions);
}

/// Opening applies Show and then Focus.
pub proof fn lemma_after_open(d: DesktopView)
    ensures
        desktop_after_all(d, open_sequence()) == desktop_after(
            desktop_after(d, ActionView::Show),
            ActionView::Focus,
        ),
{
    lemma_after_one(d, ActionView::Show);
    lemma_after_push(d, seq![ActionView::Show], ActionView::Focus);
    assert(seq![ActionView::Show].push(ActionView::Focus) =~= open_sequence());
}

/// Opening the capture page applies Show, Focus and then the navigation.
pub proof fn lemma_after_capture(d: DesktopView)
    ensures
        desktop_after_all(d, capture_sequence()) == desktop_after(
            desktop_after(desktop_after(d, ActionView::Show), ActionView::Focus),
            ActionView::Navigate(capture_path()),
        ),
{
    lemma_after_open(d);
    lemma_after_push(d, open_sequence(), ActionView::Navigate(capture_path()));
}

/// No action creates or removes the main window.
pub proof fn lemma_presence_kept(d: DesktopView, actions: Seq<ActionView>)
    ensures
        desktop_after_all(d, actions).main_window.is_some() == d.main_window.is_some(),
    decreases actions.len(),
{
    if actions.len() > 0 {
        lemma_presence_kept(d, actions.drop_last());
    }
}

/// The triggers that open the main window: the menu item "open", a click on
/// the tray icon with the left button, and the command that shows the window.
pub proof fn lemma_open_triggers(button_state: MouseButtonState)
    ensures
        intent_of(TriggerView::MenuItem("open"@)) == Intent::Open,
        intent_of(
            TriggerView::TrayIcon(TrayEvent::Click { button: MouseButton::Left, button_state }),
        ) == Intent::Open,
        intent_of(TriggerView::Command(Command::ShowMainWindow)) == Intent::Open,
{
}

/// The triggers that open the quick capture page: the menu item "capture",
/// the global hotkey, and the command that opens quick capture.
pub proof fn lemma_capture_triggers()
    ensures
        intent_of(TriggerView::MenuItem("capture"@)) == Intent::Capture,
        intent_of(TriggerView::Hotkey) == Intent::Capture,
        intent_of(TriggerView::Command(Command::OpenQuickCapture)) == Intent::Capture,
{
    lemma_entry_ids_distinct(MenuEntry::Capture);
}

/// The one trigger that hides the main window is the command for it.
pub proof fn lemma_hide_trigger(trigger: TriggerView)
    ensures
        intent_of(trigger) == Intent::Hide <==> trigger == TriggerView::Command(
            Command::HideMainWindow,
        ),
{
}

/// The menu item "quit" ends the application; the separator and any
/// identifier that the menu does not hold are ignored.
pub proof fn lemma_other_menu_items(id: Seq<char>)
    ensures
        intent_of(TriggerView::MenuItem("quit"@)) == Intent::Quit,
        intent_of(TriggerView::MenuItem("sep"@)) == Intent::Ignore,
        entry_of(id).is_none() ==> intent_of(TriggerView::MenuItem(id)) == Intent::Ignore,
{
    lemma_entry_ids_distinct(MenuEntry::Quit);
    lemma_entry_ids_distinct(MenuEntry::Separator);
}

/// After any trigger that opens the main window, an existing window is
/// visible and focused; its location and the rest of the desktop are as
/// before.
pub proof fn lemma_open_shows_and_focuses(d: DesktopView, trigger: TriggerView)
    requires
        intent_of(trigger) == Intent::Open,
        d.main_window.is_some(),
    ensures
        desktop_after_trigger(d, trigger) == (DesktopView {
            main_window: Some(
                WindowView {
                    visible: true,
                    focused: true,
                    location: d.main_window.unwrap().location,
                },
            ),
            exit_code: d.exit_code,
        }),
{
    lemma_after_open(d);
}

/// After any trigger that opens quick capture, an existing window is visible
/// and focused and displays the capture page; the rest of the desktop is as
/// before.
pub proof fn lemma_capture_shows_focuses_navigates(d: DesktopView, trigger: TriggerView)
    requires
        intent_of(trigger) == Intent::Capture,
        d.main_window.is_some(),
    ensures
        desktop_after_trigger(d, trigger) == (DesktopView {
            main_window: Some(
                WindowView { visible: true, focused: true, location: capture_path() },
            ),
            exit_code: d.exit_code,
        }),
{
    lemma_after_capture(d);
}

/// While the main window does not exist, no list of actions without Quit
/// changes anything, and no list of actions at all brings a window about.
pub proof fn lemma_absent_window_untouched(d: DesktopView, actions: Seq<ActionView>)
    requires
        d.main_window.is_none(),
    ensures
        desktop_after_all(d, actions).main_window.is_none(),
        !actions.contains(ActionView::Quit) ==> desktop_after_all(d, actions) == d,
    decreases actions.len(),
{
    if actions.len() > 0 {
        let front = actions.drop_last();
        lemma_absent_window_untouched(d, front);
        if !actions.contains(ActionView::Quit) {
            assert(actions.last() == actions[actions.len() - 1]);
            assert forall|i: int| 0 <= i < front.len() implies front[i] != ActionView::Quit by {
                assert(front[i] == actions[i]);
            }
            assert(!front.contains(ActionView::Quit));
        }
    }
}

/// While the main window does not exist, a trigger changes nothing, unless
/// it asks to quit: then it records the exit code and nothing else.
pub proof fn lemma_absent_window_no_op(d: DesktopView, trigger: TriggerView)
    requires
        d.main_window.is_none(),
    ensures
        intent_of(trigger) != Intent::Quit ==> route_of(trigger, false) == Seq::<
            ActionView,
        >::empty() && desktop_after_trigger(d, trigger) == d,
        intent_of(trigger) == Intent::Quit ==> desktop_after_trigger(d, trigger) == (DesktopView {
            exit_code: Some(QUIT_EXIT_CODE),
            ..d
        }),
{
    lemma_after_one(d, ActionView::Quit);
}

/// Hiding makes an existing window invisible and changes nothing else;
/// without a window it changes nothing.
pub proof fn lemma_hide(d: DesktopView, trigger: TriggerView)
    requires
        intent_of(trigger) == Intent::Hide,
    ensures
        d.main_window matches Some(w) ==> desktop_after_trigger(d, trigger) == (DesktopView {
            main_window: Some(WindowView { visible: false, ..w }),
            ..d
        }),
        d.main_window.is_none() ==> desktop_after_trigger(d, trigger) == d,
{
    lemma_after_one(d, ActionView::Hide);
}

/// Handling a trigger twice in succession leaves the desktop as handling it
/// once does.
pub proof fn lemma_trigger_idempotent(d: DesktopView, trigger: TriggerView)
    ensures
        desktop_after_trigger(desktop_after_trigger(d, trigger), trigger) == desktop_after_trigger(
            d,
            trigger,
        ),
{
    let present = d.main_window.is_some();
    let once = desktop_after_trigger(d, trigger);
    lemma_presence_kept(d, route_of(trigger, present));
    lemma_after_open(d);
    lemma_after_open(once);
    lemma_after_capture(d);
    lemma_after_capture(once);
    lemma_after_one(d, ActionView::Hide);
    lemma_after_one(once, ActionView::Hide);
    lemma_after_one(d, ActionView::Quit);
    lemma_after_one(once, ActionView::Quit);
}

/// An event on the tray icon that is no click with the left button changes
/// nothing.
pub proof fn lemma_other_tray_events_ignored(d: DesktopView, event: TrayEvent)
    requires
        !(event matches TrayEvent::Click { button: MouseButton::Left, .. }),
    ensures
        route_of(TriggerView::TrayIcon(event), d.main_window.is_some()) == Seq::<
            ActionView,
        >::empty(),
        desktop_after_trigger(d, TriggerView::TrayIcon(event)) == d,
{
}

/// In the actions of every trigger, Show is directly followed by Focus, and
/// a navigation comes directly after that pair, never before it.
pub proof fn lemma_navigate_follows_open(trigger: TriggerView, window_present: bool, i: int)
    requires
        0 <= i < route_of(trigger, window_present).len(),
    ensures
        route_of(trigger, window_present)[i] == ActionView::Show ==> i + 1 < route_of(
            trigger,
            window_present,
        ).len() && route_of(trigger, window_present)[i + 1] == ActionView::Focus,
        route_of(trigger, window_present)[i] is Focus ==> i >= 1 && route_of(
            trigger,
            window_present,
        )[i - 1] == ActionView::Show,
        route_of(trigger, window_present)[i] is Navigate ==> i >= 2 && route_of(
            trigger,
            window_present,
        )[i - 2] == ActionView::Show && route_of(trigger, window_present)[i - 1]
            == ActionView::Focus,
{
}

/// Only the menu item "quit" ends the application: the actions of a trigger
/// hold Quit exactly when the trigger asks to quit.
pub proof fn lemma_quit_only_on_request(trigger: TriggerView, window_present: bool)
    ensures
        route_of(trigger, window_present).contains(ActionView::Quit) <==> intent_of(trigger)
            == Intent::Quit,
        intent_of(trigger) == Intent::Quit ==> route_of(trigger, window_present)
            == quit_sequence(),
{
    if intent_of(trigger) == Intent::Quit {
        assert(quit_sequence()[0] == ActionView::Quit);
    }
    assert(hide_sequence().len() == 1);
}

} // verus!

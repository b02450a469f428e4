//! The dispatcher: from what triggered, to what happens.
//!
//! Every trigger is first reduced to an [`Intent`]; the intent and the
//! presence of the main window then decide the actions. A trigger that wants
//! the window while the host has not created it yet is dropped without error.

use vstd::prelude::*;
use crate::action::{
    capture_actions, capture_sequence, hide_actions, hide_sequence, open_actions, open_sequence,
    quit_actions, quit_sequence, views, Action, ActionView,
};
use crate::tray::{entry_of, entry_with_id, MenuEntry};
use crate::window::{desktop_after_all, Desktop, DesktopView};

verus! {

/// A button of the pointing device.
#[derive(Clone, Copy, Debug, PartialEq, Eq, Structural)]
pub enum MouseButton {
    Left,
    Right,
    Middle,
}

/// Whether a button went down or came up.
#[derive(Clone, Copy, Debug, PartialEq, Eq, Structural)]
pub enum MouseButtonState {
    Up,
    Down,
}

/// What the host reports of the pointer and the tray icon.
#[derive(Clone, Copy, Debug, PartialEq, Eq, Structural)]
pub enum TrayEvent {
    /// A button was pressed or released on the icon.
    Click { button: MouseButton, button_state: MouseButtonState },
    /// A button was clicked twice on the icon.
    DoubleClick { button: MouseButton },
    /// The pointer entered the icon.
    Enter,
    /// The pointer moved over the icon.
    Move,
    /// The pointer left the icon.
    Leave,
}

/// A command that the user interface invokes.
#[derive(Clone, Copy, Debug, PartialEq, Eq, Structural)]
pub enum Command {
    ShowMainWindow,
    HideMainWindow,
    OpenQuickCapture,
}

/// Anything that can set the shell in motion.
#[derive(Clone, Debug, PartialEq, Eq)]
pub enum Trigger {
    /// The tray menu item with this identifier was selected.
    MenuItem(String),
    /// The tray icon received this event.
    TrayIcon(TrayEvent),
    /// The global hotkey fired.
    Hotkey,
    /// The user interface invoked this command.
    Command(Command),
}

/// The mathematical value of a [`Trigger`].
pub ghost enum TriggerView {
    MenuItem(Seq<char>),
    TrayIcon(TrayEvent),
    Hotkey,
    Command(Command),
}

impl View for Trigger {
    type V = TriggerView;

    open spec fn view(&self) -> TriggerView {
        match self {
            Trigger::MenuItem(id) => TriggerView::MenuItem(id@),
            Trigger::TrayIcon(event) => TriggerView::TrayIcon(*event),
            Trigger::Hotkey => TriggerView::Hotkey,
            Trigger::Command(command) => TriggerView::Command(*command),
        }
    }
}

/// What a trigger asks for.
#[derive(Clone, Copy, Debug, PartialEq, Eq, Structural)]
pub enum Intent {
    /// Open the main window.
    Open,
    /// Open the main window on the quick capture page.
    Capture,
    /// Hide the main window.
    Hide,
    /// End the application.
    Quit,
    /// Nothing at all.
    Ignore,
}

impl Intent {
    /// Whether the intent is about the main window, and so is dropped while
    /// there is none.
    pub open spec fn needs_window(self) -> bool {
        self == Intent::Open || self == Intent::Capture || self == Intent::Hide
    }

    /// The actions that carry out the intent on an existing window, or, for
    /// [`Intent::Quit`], on the application.
    pub open spec fn full_sequence(self) -> Seq<ActionView> {
        match self {
            Intent::Open => open_sequence(),
            Intent::Capture => capture_sequence(),
            Intent::Hide => hide_sequence(),
            Intent::Quit => quit_sequence(),
            Intent::Ignore => Seq::empty(),
        }
    }

    /// The actions that carry out the intent, given whether the main window
    /// exists.
    pub open spec fn sequence(self, window_present: bool) -> Seq<ActionView> {
        if self.needs_window() && !window_present {
            Seq::empty()
        } else {
            self.full_sequence()
        }
    }

    /// The actions that carry out the intent, given whether the main window
    /// exists.
    pub fn actions(&self, window_present: bool) -> (actions: Vec<Action>)
        ensures
            views(actions@) == self.sequence(window_present),
    {
        let actions = match self {
            Intent::Open => if window_present { open_actions() } else { Vec::new() },
            Intent::Capture => if window_present { capture_actions() } else { Vec::new() },
            Intent::Hide => if window_present { hide_actions() } else { Vec::new() },
            Intent::Quit => quit_actions(),
            Intent::Ignore => Vec::new(),
        };
        assert(views(actions@) =~= self.sequence(window_present));
        actions
    }
}

/// What selecting the given menu entry asks for.
pub open spec fn menu_intent_of(entry: Option<MenuEntry>) -> Intent {
    match entry {
        Some(MenuEntry::Open) => Intent::Open,
        Some(MenuEntry::Capture) => Intent::Capture,
        Some(MenuEntry::Quit) => Intent::Quit,
        Some(MenuEntry::Separator) => Intent::Ignore,
        None => Intent::Ignore,
    }
}

/// What an event on the tray icon asks for: a click with the left button
/// opens the main window, whether the button went down or came up; every
/// other event is ignored.
pub open spec fn tray_intent_of(event: TrayEvent) -> Intent {
    match event {
        TrayEvent::Click { button: MouseButton::Left, .. } => Intent::Open,
        _ => Intent::Ignore,
    }
}

/// What a command of the user interface asks for.
pub open spec fn command_intent_of(command: Command) -> Intent {
    match command {
        Command::ShowMainWindow => Intent::Open,
        Command::HideMainWindow => Intent::Hide,
        Command::OpenQuickCapture => Intent::Capture,
    }
}

/// What a trigger asks for.
pub open spec fn intent_of(trigger: TriggerView) -> Intent {
    match trigger {
        TriggerView::MenuItem(id) => menu_intent_of(entry_of(id)),
        TriggerView::TrayIcon(event) => tray_intent_of(event),
        TriggerView::Hotkey => Intent::Capture,
        TriggerView::Command(command) => command_intent_of(command),
    }
}

/// The actions that a trigger leads to, given whether the main window exists.
pub open spec fn route_of(trigger: TriggerView, window_present: bool) -> Seq<ActionView> {
    intent_of(trigger).sequence(window_present)
}

/// The desktop after a trigger was routed and its actions were applied.
pub open spec fn desktop_after_trigger(d: DesktopView, trigger: TriggerView) -> DesktopView {
    desktop_after_all(d, route_of(trigger, d.main_window.is_some()))
}

/// What selecting the menu item with the given identifier asks for.
pub fn menu_intent(id: &str) -> (intent: Intent)
    ensures
        intent == menu_intent_of(entry_of(id@)),
{
    match entry_with_id(id) {
        Some(MenuEntry::Open) => Intent::Open,
        Some(MenuEntry::Capture) => Intent::Capture,
        Some(MenuEntry::Quit) => Intent::Quit,
        Some(MenuEntry::Separator) => Intent::Ignore,
        None => Intent::Ignore,
    }
}

/// What an event on the tray icon asks for.
pub fn tray_intent(event: &TrayEvent) -> (intent: Intent)
    ensures
        intent == tray_intent_of(*event),
{
    match event {
        TrayEvent::Click { button: MouseButton::Left, .. } => Intent::Open,
        _ => Intent::Ignore,
    }
}

/// What a command of the user interface asks for.
pub fn command_intent(command: &Command) -> (intent: Intent)
    ensures
        intent == command_intent_of(*command),
{
    match command {
        Command::ShowMainWindow => Intent::Open,
        Command::HideMainWindow => Intent::Hide,
        Command::OpenQuickCapture => Intent::Capture,
    }
}

/// What a trigger asks for.
pub fn intent(trigger: &Trigger) -> (intent: Intent)
    ensures
        intent == intent_of(trigger@),
{
    match trigger {
        Trigger::MenuItem(id) => menu_intent(id.as_str()),
        Trigger::TrayIcon(event) => tray_intent(event),
        Trigger::Hotkey => Intent::Capture,
        Trigger::Command(command) => command_intent(command),
    }
}

/// Routes a trigger: the actions to perform, in order, given whether the
/// main window exists.
pub fn route(trigger: &Trigger, window_present: bool) -> (actions: Vec<Action>)
    ensures
        views(actions@) == route_of(trigger@, window_present),
{
    intent(trigger).actions(window_present)
}

impl Desktop {
    /// Routes a trigger and applies its actions.
    pub fn handle(&mut self, trigger: &Trigger)
        ensures
            final(self)@ == desktop_after_trigger(old(self)@, trigger@),
    {
        let actions = route(trigger, self.has_main_window());
        self.run(&actions);
    }
}

} // verus!

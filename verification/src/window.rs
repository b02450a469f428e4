//! A model of the host's main window and the executor that applies actions to it.

use vstd::prelude::*;
use vstd::string::StringExecFns;
use crate::action::{Action, ActionView, QUIT_EXIT_CODE};

verus! {

/// The label of the one window that every action addresses.
pub open spec fn main_window_label_text() -> Seq<char> {
    "main"@
}

/// The label under which the host knows the main window.
pub fn main_window_label() -> (label: &'static str)
    ensures
        label@ == main_window_label_text(),
{
    "main"
}

/// What the shell can observe and change of the main window.
#[derive(Clone, Debug, PartialEq, Eq)]
pub struct Window {
    /// Whether the window is shown on screen.
    pub visible: bool,
    /// Whether the window holds the keyboard focus.
    pub focused: bool,
    /// The location that the content view displays.
    pub location: String,
}

/// The mathematical value of a [`Window`].
pub ghost struct WindowView {
    pub visible: bool,
    pub focused: bool,
    pub location: Seq<char>,
}

impl View for Window {
    type V = WindowView;

    open spec fn view(&self) -> WindowView {
        WindowView { visible: self.visible, focused: self.focused, location: self.location@ }
    }
}

/// The window after one action. Quitting is no matter of the window.
pub open spec fn window_after(w: WindowView, action: ActionView) -> WindowView {
    match action {
        ActionView::Show => WindowView { visible: true, ..w },
        ActionView::Focus => WindowView { focused: true, ..w },
        ActionView::Navigate(target) => WindowView { location: target, ..w },
        ActionView::Hide => WindowView { visible: false, ..w },
        ActionView::Quit => w,
    }
}

impl Window {
    /// A window in the given state.
    pub fn new(visible: bool, focused: bool, location: String) -> (w: Window)
        ensures
            w@ == (WindowView { visible, focused, location: location@ }),
    {
        Window { visible, focused, location }
    }

    /// Applies one action to the window.
    pub fn apply(&mut self, action: &Action)
        ensures
            final(self)@ == window_after(old(self)@, action@),
    {
        match action {
            Action::Show => {
                self.visible = true;
            },
            Action::Focus => {
                self.focused = true;
            },
            Action::Navigate(target) => {
                self.location = target.clone();
            },
            Action::Hide => {
                self.visible = false;
            },
            Action::Quit => {},
        }
    }
}

/// The host as the shell sees it: the main window, which may not exist yet,
/// and the exit code once the application was asked to end.
#[derive(Clone, Debug, PartialEq, Eq)]
pub struct Desktop {
    /// The window named "main", absent until the host has created it.
    pub main_window: Option<Window>,
    /// The exit code that was requested, absent while the application runs.
    pub exit_code: Option<i32>,
}

/// The mathematical value of a [`Desktop`].
pub ghost struct DesktopView {
    pub main_window: Option<WindowView>,
    pub exit_code: Option<i32>,
}

impl View for Desktop {
    type V = DesktopView;

    open spec fn view(&self) -> DesktopView {
        DesktopView {
            main_window: match self.main_window {
                Some(w) => Some(w@),
                None => None,
            },
            exit_code: self.exit_code,
        }
    }
}

/// The desktop after one action: a window action changes the main window if
/// there is one and nothing otherwise; quitting records the exit code.
pub open spec fn desktop_after(d: DesktopView, action: ActionView) -> DesktopView {
    match action {
        ActionView::Quit => DesktopView { exit_code: Some(QUIT_EXIT_CODE), ..d },
        _ => match d.main_window {
            Some(w) => DesktopView { main_window: Some(window_after(w, action)), ..d },
            None => d,
        },
    }
}

/// The desktop after a list of actions, applied first to last.
pub open spec fn desktop_after_all(d: DesktopView, actions: Seq<ActionView>) -> DesktopView
    decreases actions.len(),
{
    if actions.len() == 0 {
        d
    } else {
        desktop_after(desktop_after_all(d, actions.drop_last()), actions.last())
    }
}

impl Desktop {
    /// A running desktop with the given main window.
    pub fn new(main_window: Option<Window>) -> (d: Desktop)
        ensures
            d.main_window == main_window,
            d.exit_code.is_none(),
    {
        Desktop { main_window, exit_code: None }
    }

    /// Whether the main window exists.
    pub fn has_main_window(&self) -> (present: bool)
        ensures
            present == self@.main_window.is_some(),
    {
        self.main_window.is_some()
    }

    /// Applies one action.
    pub fn apply(&mut self, action: &Action)
        ensures
            final(self)@ == desktop_after(old(self)@, action@),
    {
        match action {
            Action::Quit => {
                self.exit_code = Some(QUIT_EXIT_CODE);
            },
            _ => {
                match &mut self.main_window {
                    Some(w) => {
                        w.apply(action);
                    },
                    None => {},
                }
            },
        }
    }

    /// Applies a list of actions, first to last.
    pub fn run(&mut self, actions: &Vec<Action>)
        ensures
            final(self)@ == desktop_after_all(old(self)@, crate::action::views(actions@)),
    {
        let ghost all = crate::action::views(actions@);
        let mut i: usize = 0;
        while i < actions.len()
            invariant
                i <= actions.len(),
                all == crate::action::views(actions@),
                self@ == desktop_after_all(old(self)@, all.take(i as int)),
            decreases actions.len() - i,
        {
            proof {
                let next = all.take(i + 1);
                assert(next.drop_last() =~= all.take(i as int));
                assert(next.last() == actions@[i as int]@);
            }
            self.apply(&actions[i]);
            i += 1;
        }
        assert(all.take(i as int) =~= all);
    }
}

/// The script that points the content view at `target`.
pub open spec fn navigation_script_of(target: Seq<char>) -> Seq<char> {
    "window.location.href = '"@ + target + "'"@
}

/// The script that the host evaluates in the main window to navigate to
/// `target`.
pub fn navigation_script(target: &str) -> (script: String)
    ensures
        script@ == navigation_script_of(target@),
{
    "window.location.href = '".to_owned().concat(target).concat("'")
}

} // verus!

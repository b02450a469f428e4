//! The vocabulary of window actions shared by every trigger.

use vstd::prelude::*;

verus! {

/// One step that the shell asks of the host.
#[derive(Clone, Debug, PartialEq, Eq)]
pub enum Action {
    /// Make the main window visible.
    Show,
    /// Bring the main window to the front and give it the keyboard focus.
    Focus,
    /// Point the content view of the main window at the given location.
    Navigate(String),
    /// Make the main window invisible.
    Hide,
    /// End the application.
    Quit,
}

/// The mathematical value of an [`Action`].
pub ghost enum ActionView {
    Show,
    Focus,
    Navigate(Seq<char>),
    Hide,
    Quit,
}

impl View for Action {
    type V = ActionView;

    open spec fn view(&self) -> ActionView {
        match self {
            Action::Show => ActionView::Show,
            Action::Focus => ActionView::Focus,
            Action::Navigate(target) => ActionView::Navigate(target@),
            Action::Hide => ActionView::Hide,
            Action::Quit => ActionView::Quit,
        }
    }
}

/// The views of a list of actions, in order.
pub open spec fn views(actions: Seq<Action>) -> Seq<ActionView> {
    actions.map_values(|a: Action| a@)
}

/// The location of the quick capture page.
pub open spec fn capture_path() -> Seq<char> {
    "/capture"@
}

/// What opening the main window consists of: show it, then focus it.
pub open spec fn open_sequence() -> Seq<ActionView> {
    seq![ActionView::Show, ActionView::Focus]
}

/// What opening the quick capture page consists of: open the main window,
/// then navigate to the capture page.
pub open spec fn capture_sequence() -> Seq<ActionView> {
    open_sequence().push(ActionView::Navigate(capture_path()))
}

/// What hiding the main window consists of.
pub open spec fn hide_sequence() -> Seq<ActionView> {
    seq![ActionView::Hide]
}

/// What quitting consists of.
pub open spec fn quit_sequence() -> Seq<ActionView> {
    seq![ActionView::Quit]
}

/// The exit code with which the application ends on [`Action::Quit`].
pub const QUIT_EXIT_CODE: i32 = 0;

/// The location of the quick capture page.
pub fn capture_target() -> (target: String)
    ensures
        target@ == capture_path(),
{
    "/capture".to_owned()
}

/// The actions that open the main window.
pub fn open_actions() -> (actions: Vec<Action>)
    ensures
        views(actions@) == open_sequence(),
{
    let actions = vec![Action::Show, Action::Focus];
    assert(views(actions@) =~= open_sequence());
    actions
}

/// The actions that open the main window on the quick capture page.
pub fn capture_actions() -> (actions: Vec<Action>)
    ensures
        views(actions@) == capture_sequence(),
{
    let actions = vec![Action::Show, Action::Focus, Action::Navigate(capture_target())];
    assert(views(actions@) =~= capture_sequence());
    actions
}

/// The actions that hide the main window.
pub fn hide_actions() -> (actions: Vec<Action>)
    ensures
        views(actions@) == hide_sequence(),
{
    let actions = vec![Action::Hide];
    assert(views(actions@) =~= hide_sequence());
    actions
}

/// The actions that end the application.
pub fn quit_actions() -> (actions: Vec<Action>)
    ensures
        views(actions@) == quit_sequence(),
{
    let actions = vec![Action::Quit];
    assert(views(actions@) =~= quit_sequence());
    actions
}

} // verus!

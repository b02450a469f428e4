//! The tray menu: its entries, their order, and how an identifier that the
//! host reports is matched to an entry.

use vstd::prelude::*;
use crate::setup::{continue_after, progress_after, Progress};

verus! {

/// An entry of the tray menu.
#[derive(Clone, Copy, Debug, PartialEq, Eq, Structural)]
pub enum MenuEntry {
    /// Opens the main window.
    Open,
    /// Opens the main window on the quick capture page.
    Capture,
    /// A disabled line between the entries above and the one below.
    Separator,
    /// Ends the application.
    Quit,
}

/// What the host needs to create one menu item.
#[derive(Clone, Debug, PartialEq, Eq)]
pub struct MenuItemSpec {
    /// The identifier that the host reports when the item is selected.
    pub id: String,
    /// The text shown to the user.
    pub label: String,
    /// Whether the item can be selected.
    pub enabled: bool,
    /// A key combination displayed beside the label. It is a hint only: the
    /// menu binds no key.
    pub accelerator: Option<String>,
}

/// The mathematical value of a [`MenuItemSpec`].
pub ghost struct MenuItemSpecView {
    pub id: Seq<char>,
    pub label: Seq<char>,
    pub enabled: bool,
    pub accelerator: Option<Seq<char>>,
}

impl View for MenuItemSpec {
    type V = MenuItemSpecView;

    open spec fn view(&self) -> MenuItemSpecView {
        MenuItemSpecView {
            id: self.id@,
            label: self.label@,
            enabled: self.enabled,
            accelerator: match self.accelerator {
                Some(a) => Some(a@),
                None => None,
            },
        }
    }
}

impl MenuEntry {
    /// The identifier of the entry.
    pub open spec fn id_text(self) -> Seq<char> {
        match self {
            MenuEntry::Open => "open"@,
            MenuEntry::Capture => "capture"@,
            MenuEntry::Separator => "sep"@,
            MenuEntry::Quit => "quit"@,
        }
    }

    /// The label of the entry.
    pub open spec fn label_text(self) -> Seq<char> {
        match self {
            MenuEntry::Open => "Open CoBrain"@,
            MenuEntry::Capture => "Quick Capture"@,
            MenuEntry::Separator => "-"@,
            MenuEntry::Quit => "Quit"@,
        }
    }

    /// Every entry but the separator can be selected.
    pub open spec fn is_enabled(self) -> bool {
        self != MenuEntry::Separator
    }

    /// The key combination displayed beside the entry, if any.
    pub open spec fn accelerator_text(self) -> Option<Seq<char>> {
        match self {
            MenuEntry::Open => None,
            MenuEntry::Capture => Some("Ctrl+Shift+Space"@),
            MenuEntry::Separator => None,
            MenuEntry::Quit => Some("Ctrl+Q"@),
        }
    }

    /// The menu item that stands for the entry.
    pub open spec fn item(self) -> MenuItemSpecView {
        MenuItemSpecView {
            id: self.id_text(),
            label: self.label_text(),
            enabled: self.is_enabled(),
            accelerator: self.accelerator_text(),
        }
    }

    /// The identifier of the entry.
    pub fn id(&self) -> (id: &'static str)
        ensures
            id@ == self.id_text(),
    {
        match self {
            MenuEntry::Open => "open",
            MenuEntry::Capture => "capture",
            MenuEntry::Separator => "sep",
            MenuEntry::Quit => "quit",
        }
    }

    /// The label of the entry.
    pub fn label(&self) -> (label: &'static str)
        ensures
            label@ == self.label_text(),
    {
        match self {
            MenuEntry::Open => "Open CoBrain",
            MenuEntry::Capture => "Quick Capture",
            MenuEntry::Separator => "-",
            MenuEntry::Quit => "Quit",
        }
    }

    /// Whether the entry can be selected.
    pub fn enabled(&self) -> (enabled: bool)
        ensures
            enabled == self.is_enabled(),
    {
        match self {
            MenuEntry::Separator => false,
            _ => true,
        }
    }

    /// The key combination displayed beside the entry, if any.
    pub fn accelerator(&self) -> (hint: Option<&'static str>)
        ensures
            hint.is_some() == self.accelerator_text().is_some(),
            hint matches Some(h) ==> Some(h@) == self.accelerator_text(),
    {
        match self {
            MenuEntry::Open => None,
            MenuEntry::Capture => Some("Ctrl+Shift+Space"),
            MenuEntry::Separator => None,
            MenuEntry::Quit => Some("Ctrl+Q"),
        }
    }

    /// The menu item that stands for the entry.
    pub fn menu_item(&self) -> (item: MenuItemSpec)
        ensures
            item@ == self.item(),
    {
        MenuItemSpec {
            id: self.id().to_owned(),
            label: self.label().to_owned(),
            enabled: self.enabled(),
            accelerator: match self.accelerator() {
                Some(hint) => Some(hint.to_owned()),
                None => None,
            },
        }
    }
}

/// The entries of the tray menu, top to bottom.
pub open spec fn menu_layout() -> Seq<MenuEntry> {
    seq![MenuEntry::Open, MenuEntry::Capture, MenuEntry::Separator, MenuEntry::Quit]
}

/// The entry with the given identifier, if there is one.
pub open spec fn entry_of(id: Seq<char>) -> Option<MenuEntry> {
    if id == MenuEntry::Open.id_text() {
        Some(MenuEntry::Open)
    } else if id == MenuEntry::Capture.id_text() {
        Some(MenuEntry::Capture)
    } else if id == MenuEntry::Separator.id_text() {
        Some(MenuEntry::Separator)
    } else if id == MenuEntry::Quit.id_text() {
        Some(MenuEntry::Quit)
    } else {
        None
    }
}

/// The text shown when the pointer rests on the tray icon.
pub open spec fn tooltip_text() -> Seq<char> {
    "CoBrain - Your AI Second Brain"@
}

/// The entries of the tray menu, top to bottom.
pub fn tray_menu() -> (entries: Vec<MenuEntry>)
    ensures
        entries@ == menu_layout(),
{
    let entries = vec![MenuEntry::Open, MenuEntry::Capture, MenuEntry::Separator, MenuEntry::Quit];
    assert(entries@ =~= menu_layout());
    entries
}

/// The items of the tray menu, top to bottom, as the host creates them.
pub fn tray_menu_items() -> (items: Vec<MenuItemSpec>)
    ensures
        items@.len() == menu_layout().len(),
        forall|i: int| 0 <= i < items@.len() ==> (#[trigger] items@[i])@ == menu_layout()[i].item(),
{
    let entries = tray_menu();
    let mut items: Vec<MenuItemSpec> = Vec::new();
    let mut i: usize = 0;
    while i < entries.len()
        invariant
            i <= entries.len(),
            entries@ == menu_layout(),
            items@.len() == i,
            forall|j: int| 0 <= j < i ==> (#[trigger] items@[j])@ == menu_layout()[j].item(),
        decreases entries.len() - i,
    {
        items.push(entries[i].menu_item());
        i += 1;
    }
    items
}

/// The text shown when the pointer rests on the tray icon.
pub fn tray_tooltip() -> (tooltip: &'static str)
    ensures
        tooltip@ == tooltip_text(),
{
    "CoBrain - Your AI Second Brain"
}

/// Whether two string slices hold the same characters.
fn same_text(a: &str, b: &str) -> (same: bool)
    ensures
        same == (a@ == b@),
{
    let left = a.to_owned();
    let right = b.to_owned();
    left == right
}

/// Matches an identifier reported by the host to an entry of the menu.
pub fn entry_with_id(id: &str) -> (entry: Option<MenuEntry>)
    ensures
        entry == entry_of(id@),
{
    if same_text(id, MenuEntry::Open.id()) {
        Some(MenuEntry::Open)
    } else if same_text(id, MenuEntry::Capture.id()) {
        Some(MenuEntry::Capture)
    } else if same_text(id, MenuEntry::Separator.id()) {
        Some(MenuEntry::Separator)
    } else if same_text(id, MenuEntry::Quit.id()) {
        Some(MenuEntry::Quit)
    } else {
        None
    }
}

/// Each entry is found again by its identifier: no two entries share one.
pub proof fn lemma_entry_ids_distinct(entry: MenuEntry)
    ensures
        entry_of(entry.id_text()) == Some(entry),
{
    reveal_strlit("open");
    reveal_strlit("capture");
    reveal_strlit("sep");
    reveal_strlit("quit");
    assert("open"@.len() == 4 && "capture"@.len() == 7 && "sep"@.len() == 3 && "quit"@.len() == 4);
    assert("open"@[0] == 'o' && "quit"@[0] == 'q');
}

/// A step in the construction of the tray.
#[derive(Clone, Copy, Debug, PartialEq, Eq, Structural)]
pub enum TrayStep {
    /// Create the menu item of this entry.
    Item(MenuEntry),
    /// Create the menu from the four items, top to bottom.
    Menu,
    /// Create the tray icon with the menu, the tooltip and the two handlers.
    Icon,
}

/// The steps that construct the tray, in order: the four items, the menu,
/// the icon.
pub open spec fn tray_plan() -> Seq<TrayStep> {
    menu_layout().map_values(|entry: MenuEntry| TrayStep::Item(entry)).push(TrayStep::Menu).push(
        TrayStep::Icon,
    )
}

/// What follows a step of the tray's construction that succeeded.
pub open spec fn after_tray_step(step: TrayStep) -> Progress<TrayStep> {
    match step {
        TrayStep::Item(MenuEntry::Open) => Progress::Request(TrayStep::Item(MenuEntry::Capture)),
        TrayStep::Item(MenuEntry::Capture) => Progress::Request(
            TrayStep::Item(MenuEntry::Separator),
        ),
        TrayStep::Item(MenuEntry::Separator) => Progress::Request(TrayStep::Item(MenuEntry::Quit)),
        TrayStep::Item(MenuEntry::Quit) => Progress::Request(TrayStep::Menu),
        TrayStep::Menu => Progress::Request(TrayStep::Icon),
        TrayStep::Icon => Progress::Ready,
    }
}

/// Where the construction of the tray stands, given the step that the host
/// carried out last and how it ended, or nothing if it has not begun.
pub open spec fn tray_progress(last: Option<(TrayStep, Result<(), String>)>) -> Progress<TrayStep> {
    match last {
        None => Progress::Request(TrayStep::Item(MenuEntry::Open)),
        Some((step, outcome)) => progress_after(outcome, after_tray_step(step)),
    }
}

/// What follows a step of the tray's construction that succeeded.
pub fn next_tray_step(step: TrayStep) -> (next: Progress<TrayStep>)
    ensures
        next == after_tray_step(step),
{
    match step {
        TrayStep::Item(MenuEntry::Open) => Progress::Request(TrayStep::Item(MenuEntry::Capture)),
        TrayStep::Item(MenuEntry::Capture) => Progress::Request(
            TrayStep::Item(MenuEntry::Separator),
        ),
        TrayStep::Item(MenuEntry::Separator) => Progress::Request(TrayStep::Item(MenuEntry::Quit)),
        TrayStep::Item(MenuEntry::Quit) => Progress::Request(TrayStep::Menu),
        TrayStep::Menu => Progress::Request(TrayStep::Icon),
        TrayStep::Icon => Progress::Ready,
    }
}

/// Drives the construction of the tray. Called with nothing, it names the
/// first step; called with the step that the host carried out last and how
/// that ended, it names the next step, reports that the tray is ready, or
/// fails with the host's error. After a failure no step is left: the tray is
/// not built in part.
pub fn setup_tray(last: Option<(TrayStep, Result<(), String>)>) -> (progress: Progress<TrayStep>)
    ensures
        progress == tray_progress(last),
{
    match last {
        None => Progress::Request(TrayStep::Item(MenuEntry::Open)),
        Some((step, outcome)) => continue_after(outcome, next_tray_step(step)),
    }
}

/// The construction of the tray walks its plan: it begins with the first
/// step of the plan, each step that succeeds is followed by the next one of
/// the plan, the last one by readiness, and every step there is stands in
/// the plan.
pub proof fn lemma_tray_setup_follows_plan(i: int, step: TrayStep)
    ensures
        tray_plan().len() == 6,
        tray_progress(None) == Progress::Request(tray_plan()[0]),
        0 <= i < tray_plan().len() - 1 ==> after_tray_step(tray_plan()[i]) == Progress::Request(
            tray_plan()[i + 1],
        ),
        after_tray_step(tray_plan()[tray_plan().len() - 1]) == Progress::<TrayStep>::Ready,
        tray_plan().contains(step),
{
    let plan = tray_plan();
    assert(plan[0] == TrayStep::Item(MenuEntry::Open));
    assert(plan[1] == TrayStep::Item(MenuEntry::Capture));
    assert(plan[2] == TrayStep::Item(MenuEntry::Separator));
    assert(plan[3] == TrayStep::Item(MenuEntry::Quit));
    assert(plan[4] == TrayStep::Menu);
    assert(plan[5] == TrayStep::Icon);
}

} // verus!

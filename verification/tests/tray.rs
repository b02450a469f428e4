use cobrain_desktop::setup::{InitError, Progress};
use cobrain_desktop::tray::{
    entry_with_id, next_tray_step, setup_tray, tray_menu, tray_menu_items, tray_tooltip,
    MenuEntry, MenuItemSpec, TrayStep,
};

fn item(id: &str, label: &str, enabled: bool, accelerator: Option<&str>) -> MenuItemSpec {
    MenuItemSpec {
        id: id.to_string(),
        label: label.to_string(),
        enabled,
        accelerator: accelerator.map(|a| a.to_string()),
    }
}

#[test]
fn menu_has_four_fixed_items_in_order() {
    assert_eq!(
        tray_menu_items(),
        vec![
            item("open", "Open CoBrain", true, None),
            item("capture", "Quick Capture", true, Some("Ctrl+Shift+Space")),
            item("sep", "-", false, None),
            item("quit", "Quit", true, Some("Ctrl+Q")),
        ]
    );
    assert_eq!(
        tray_menu(),
        vec![MenuEntry::Open, MenuEntry::Capture, MenuEntry::Separator, MenuEntry::Quit]
    );
}

#[test]
fn entry_accessors_agree_with_the_items() {
    for (entry, spec) in tray_menu().iter().zip(tray_menu_items()) {
        assert_eq!(entry.id(), spec.id);
        assert_eq!(entry.label(), spec.label);
        assert_eq!(entry.enabled(), spec.enabled);
        assert_eq!(entry.accelerator().map(|a| a.to_string()), spec.accelerator);
        assert_eq!(entry.menu_item(), spec);
    }
}

#[test]
fn tooltip_names_the_application() {
    assert_eq!(tray_tooltip(), "CoBrain - Your AI Second Brain");
}

#[test]
fn entries_are_found_by_their_ids() {
    assert_eq!(entry_with_id("open"), Some(MenuEntry::Open));
    assert_eq!(entry_with_id("capture"), Some(MenuEntry::Capture));
    assert_eq!(entry_with_id("sep"), Some(MenuEntry::Separator));
    assert_eq!(entry_with_id("quit"), Some(MenuEntry::Quit));
    for entry in tray_menu() {
        assert_eq!(entry_with_id(entry.id()), Some(entry));
    }
}

#[test]
fn unknown_ids_match_no_entry() {
    for id in ["", "OPEN", "open\n", "exit", "capture2", "se"] {
        assert_eq!(entry_with_id(id), None);
    }
}

#[test]
fn tray_setup_walks_items_menu_icon() {
    let plan = [
        TrayStep::Item(MenuEntry::Open),
        TrayStep::Item(MenuEntry::Capture),
        TrayStep::Item(MenuEntry::Separator),
        TrayStep::Item(MenuEntry::Quit),
        TrayStep::Menu,
        TrayStep::Icon,
    ];
    let mut progress = setup_tray(None);
    for step in plan {
        assert_eq!(progress, Progress::Request(step));
        progress = setup_tray(Some((step, Ok(()))));
        assert_eq!(progress, next_tray_step(step));
    }
    assert_eq!(progress, Progress::Ready);
}

#[test]
fn tray_setup_fails_at_the_first_failure() {
    let steps = [
        TrayStep::Item(MenuEntry::Open),
        TrayStep::Item(MenuEntry::Capture),
        TrayStep::Item(MenuEntry::Separator),
        TrayStep::Item(MenuEntry::Quit),
        TrayStep::Menu,
        TrayStep::Icon,
    ];
    for step in steps {
        let progress = setup_tray(Some((step, Err("no tray here".to_string()))));
        assert_eq!(progress, Progress::Failed(InitError { message: "no tray here".to_string() }));
    }
}

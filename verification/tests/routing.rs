use cobrain_desktop::action::{
    capture_actions, capture_target, hide_actions, open_actions, quit_actions, Action,
    QUIT_EXIT_CODE,
};
use cobrain_desktop::router::{
    command_intent, intent, menu_intent, route, tray_intent, Command, Intent, MouseButton,
    MouseButtonState, TrayEvent, Trigger,
};

fn open() -> Vec<Action> {
    vec![Action::Show, Action::Focus]
}

fn capture() -> Vec<Action> {
    vec![Action::Show, Action::Focus, Action::Navigate("/capture".to_string())]
}

fn left_click(button_state: MouseButtonState) -> Trigger {
    Trigger::TrayIcon(TrayEvent::Click { button: MouseButton::Left, button_state })
}

#[test]
fn action_lists_hold_the_fixed_sequences() {
    assert_eq!(open_actions(), open());
    assert_eq!(capture_actions(), capture());
    assert_eq!(hide_actions(), vec![Action::Hide]);
    assert_eq!(quit_actions(), vec![Action::Quit]);
    assert_eq!(capture_target(), "/capture");
    assert_eq!(QUIT_EXIT_CODE, 0);
}

#[test]
fn menu_open_shows_and_focuses() {
    let trigger = Trigger::MenuItem("open".to_string());
    assert_eq!(route(&trigger, true), open());
}

#[test]
fn menu_capture_shows_focuses_and_navigates() {
    let trigger = Trigger::MenuItem("capture".to_string());
    assert_eq!(route(&trigger, true), capture());
}

#[test]
fn menu_quit_quits_with_and_without_window() {
    let trigger = Trigger::MenuItem("quit".to_string());
    assert_eq!(route(&trigger, true), vec![Action::Quit]);
    assert_eq!(route(&trigger, false), vec![Action::Quit]);
}

#[test]
fn menu_separator_and_unknown_ids_do_nothing() {
    for id in ["sep", "", "Open", "open ", "quit!", "capture/", "settings"] {
        let trigger = Trigger::MenuItem(id.to_string());
        assert_eq!(route(&trigger, true), Vec::<Action>::new());
        assert_eq!(route(&trigger, false), Vec::<Action>::new());
        assert_eq!(menu_intent(id), Intent::Ignore);
    }
}

#[test]
fn tray_left_click_opens_on_press_and_on_release() {
    assert_eq!(route(&left_click(MouseButtonState::Down), true), open());
    assert_eq!(route(&left_click(MouseButtonState::Up), true), open());
}

#[test]
fn tray_other_buttons_do_nothing() {
    for button in [MouseButton::Right, MouseButton::Middle] {
        for button_state in [MouseButtonState::Up, MouseButtonState::Down] {
            let event = TrayEvent::Click { button, button_state };
            assert_eq!(tray_intent(&event), Intent::Ignore);
            assert_eq!(route(&Trigger::TrayIcon(event), true), Vec::<Action>::new());
        }
    }
}

#[test]
fn tray_events_other_than_clicks_do_nothing() {
    let events = [
        TrayEvent::DoubleClick { button: MouseButton::Left },
        TrayEvent::DoubleClick { button: MouseButton::Right },
        TrayEvent::Enter,
        TrayEvent::Move,
        TrayEvent::Leave,
    ];
    for event in events {
        assert_eq!(tray_intent(&event), Intent::Ignore);
        assert_eq!(route(&Trigger::TrayIcon(event), true), Vec::<Action>::new());
    }
}

#[test]
fn hotkey_opens_quick_capture() {
    assert_eq!(intent(&Trigger::Hotkey), Intent::Capture);
    assert_eq!(route(&Trigger::Hotkey, true), capture());
}

#[test]
fn commands_route_to_their_sequences() {
    assert_eq!(route(&Trigger::Command(Command::ShowMainWindow), true), open());
    assert_eq!(route(&Trigger::Command(Command::HideMainWindow), true), vec![Action::Hide]);
    assert_eq!(route(&Trigger::Command(Command::OpenQuickCapture), true), capture());
    assert_eq!(command_intent(&Command::ShowMainWindow), Intent::Open);
    assert_eq!(command_intent(&Command::HideMainWindow), Intent::Hide);
    assert_eq!(command_intent(&Command::OpenQuickCapture), Intent::Capture);
}

#[test]
fn window_triggers_are_dropped_while_the_window_is_absent() {
    let triggers = [
        Trigger::MenuItem("open".to_string()),
        Trigger::MenuItem("capture".to_string()),
        left_click(MouseButtonState::Down),
        Trigger::Hotkey,
        Trigger::Command(Command::ShowMainWindow),
        Trigger::Command(Command::HideMainWindow),
        Trigger::Command(Command::OpenQuickCapture),
    ];
    for trigger in triggers {
        assert_eq!(route(&trigger, false), Vec::<Action>::new());
    }
}

#[test]
fn intent_actions_depend_on_presence_only_for_window_intents() {
    assert_eq!(Intent::Open.actions(true), open());
    assert_eq!(Intent::Open.actions(false), Vec::<Action>::new());
    assert_eq!(Intent::Capture.actions(true), capture());
    assert_eq!(Intent::Capture.actions(false), Vec::<Action>::new());
    assert_eq!(Intent::Hide.actions(true), vec![Action::Hide]);
    assert_eq!(Intent::Hide.actions(false), Vec::<Action>::new());
    assert_eq!(Intent::Quit.actions(true), vec![Action::Quit]);
    assert_eq!(Intent::Quit.actions(false), vec![Action::Quit]);
    assert_eq!(Intent::Ignore.actions(true), Vec::<Action>::new());
    assert_eq!(Intent::Ignore.actions(false), Vec::<Action>::new());
}

#[test]
fn navigation_never_precedes_show_and_focus() {
    let triggers = [
        Trigger::MenuItem("capture".to_string()),
        Trigger::Hotkey,
        Trigger::Command(Command::OpenQuickCapture),
    ];
    for trigger in triggers {
        let actions = route(&trigger, true);
        let at = actions.iter().position(|a| matches!(a, Action::Navigate(_)));
        assert_eq!(at, Some(2));
        assert_eq!(actions[0], Action::Show);
        assert_eq!(actions[1], Action::Focus);
    }
}

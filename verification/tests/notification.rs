use cobrain_desktop::notification::{send_notification, Notification, NotificationCenter};

#[test]
fn healthy_host_shows_the_notification() {
    let mut center = NotificationCenter::healthy();
    let reply = send_notification(&mut center, "T".to_string(), "B".to_string());
    assert_eq!(reply, Ok(()));
    assert_eq!(center.shown, vec![Notification { title: "T".to_string(), body: "B".to_string() }]);
    assert_eq!(center.failure, None);
}

#[test]
fn failing_host_returns_its_error_text() {
    let mut center = NotificationCenter::failing("notification daemon unreachable".to_string());
    let reply = send_notification(&mut center, "T".to_string(), "B".to_string());
    assert_eq!(reply, Err("notification daemon unreachable".to_string()));
    assert!(reply.unwrap_err().contains("notification daemon unreachable"));
    assert_eq!(center.shown, Vec::<Notification>::new());
    assert_eq!(center.failure, Some("notification daemon unreachable".to_string()));
}

#[test]
fn notifications_are_kept_oldest_first() {
    let mut center = NotificationCenter::healthy();
    assert_eq!(send_notification(&mut center, "one".to_string(), "1".to_string()), Ok(()));
    assert_eq!(send_notification(&mut center, "two".to_string(), "2".to_string()), Ok(()));
    assert_eq!(
        center.shown,
        vec![
            Notification { title: "one".to_string(), body: "1".to_string() },
            Notification { title: "two".to_string(), body: "2".to_string() },
        ]
    );
}

#[test]
fn any_title_and_body_are_accepted() {
    let mut center = NotificationCenter::healthy();
    assert_eq!(send_notification(&mut center, String::new(), String::new()), Ok(()));
    assert_eq!(
        send_notification(&mut center, "Ünïcödé ✓".to_string(), "line\nbreak 'quoted'".to_string()),
        Ok(())
    );
    assert_eq!(center.shown.len(), 2);
    assert_eq!(center.shown[1].title, "Ünïcödé ✓");
    assert_eq!(center.shown[1].body, "line\nbreak 'quoted'");
}

#[test]
fn a_failing_host_is_asked_each_time_and_never_retried() {
    let mut center = NotificationCenter::failing("denied".to_string());
    for _ in 0..3 {
        assert_eq!(
            send_notification(&mut center, "T".to_string(), "B".to_string()),
            Err("denied".to_string())
        );
    }
    assert!(center.shown.is_empty());
}

//! Notifications, and a model of the host's notification facility.

use vstd::prelude::*;

verus! {

/// A notification as the host displays it.
#[derive(Clone, Debug, PartialEq, Eq)]
pub struct Notification {
    pub title: String,
    pub body: String,
}

/// The host's notification facility as the shell sees it.
#[derive(Clone, Debug, PartialEq, Eq)]
pub struct NotificationCenter {
    /// The error with which the host refuses every notification, absent
    /// while the facility is healthy.
    pub failure: Option<String>,
    /// The notifications displayed so far, oldest first.
    pub shown: Vec<Notification>,
}

impl NotificationCenter {
    /// A healthy facility that has displayed nothing.
    pub fn healthy() -> (center: NotificationCenter)
        ensures
            center.failure.is_none(),
            center.shown@.len() == 0,
    {
        NotificationCenter { failure: None, shown: Vec::new() }
    }

    /// A facility that refuses every notification with `error`.
    pub fn failing(error: String) -> (center: NotificationCenter)
        ensures
            center.failure == Some(error),
            center.shown@.len() == 0,
    {
        NotificationCenter { failure: Some(error), shown: Vec::new() }
    }
}

/// What the host answers to a notification: success while it is healthy,
/// its error otherwise.
pub open spec fn notification_reply(center: NotificationCenter) -> Result<(), String> {
    match center.failure {
        None => Ok(()),
        Some(error) => Err(error),
    }
}

/// What the host has displayed after it was handed a notification: one more
/// while it is healthy, the same as before otherwise.
pub open spec fn shown_after(center: NotificationCenter, notification: Notification) -> Seq<
    Notification,
> {
    match center.failure {
        None => center.shown@.push(notification),
        Some(_) => center.shown@,
    }
}

/// Hands a notification with the given title and body to the host, once.
/// A healthy host displays it, and the call succeeds; a failing host
/// displays nothing, and the call returns the host's error as text. Any
/// title and any body are accepted.
pub fn send_notification(center: &mut NotificationCenter, title: String, body: String) -> (reply:
    Result<(), String>)
    ensures
        reply == notification_reply(*old(center)),
        final(center).shown@ == shown_after(*old(center), Notification { title, body }),
        final(center).failure == old(center).failure,
{
    match &center.failure {
        None => {
            center.shown.push(Notification { title, body });
            Ok(())
        },
        Some(error) => Err(error.clone()),
    }
}

} // verus!

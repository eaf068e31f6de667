//! The pairing notification: what is published, and how the race between
//! "action invoked" and "notification closed" signals is decided.

use vstd::prelude::*;
use crate::text::{joined, same_text, strip_prefix_text, begins_with};

verus! {

/// The scheme and path that open the settings on a device's pairing page.
pub open spec fn pair_url_prefix() -> Seq<char> {
    "kdeconnect://pair/"@
}

/// What the desktop notification service is asked to show.
#[derive(Debug, Clone)]
pub struct NotificationRequest {
    pub app_name: String,
    pub app_icon: String,
    pub summary: String,
    pub body: String,
    /// Pairs of action key and label.
    pub actions: Vec<String>,
    pub urgency: u8,
    pub category: String,
    /// 0: shown until dismissed.
    pub expire_timeout: i32,
    /// The follow-up to launch when the user opens the notification.
    pub follow_up: String,
}

/// The action keys that both mean "open".
pub open spec fn is_open_action(key: Seq<char>) -> bool {
    key == "default"@ || key == "open"@
}

/// The URL that opens the pairing page of device `device_id`.
pub fn pairing_url(device_id: &str) -> (r: String)
    ensures
        r@ == pair_url_prefix() + device_id@,
{
    joined("kdeconnect://pair/", device_id)
}

/// The device whose pairing page a URL opens, if it is a pairing URL.
pub fn pairing_device_from_url(url: &str) -> (r: Option<String>)
    ensures
        r is Some <==> begins_with(url@, pair_url_prefix()),
        r matches Some(id) ==> url@ == pair_url_prefix() + id@,
{
    strip_prefix_text(url, "kdeconnect://pair/")
}

/// The notification announcing that `device_name` (id `device_id`) asks to
/// pair: two equivalent "open" actions, critical urgency, no expiry, and the
/// device's pairing page as follow-up.
pub fn pairing_notification_request(device_name: &str, device_id: &str) -> (r: NotificationRequest)
    ensures
        r.summary@ == device_name@ + " wants to pair"@,
        r.body@ == "Click to open settings and accept or reject"@,
        r.app_name@ == "COSMIC KDE Connect"@,
        r.app_icon@ == "phone"@,
        r.actions@.len() == 4,
        r.actions@[0]@ == "default"@,
        r.actions@[1]@ == "Open Settings"@,
        r.actions@[2]@ == "open"@,
        r.actions@[3]@ == "Open"@,
        r.category@ == "device.added"@,
        r.expire_timeout == 0,
        r.urgency == 2,
        r.follow_up@ == pair_url_prefix() + device_id@,
{
    let mut actions: Vec<String> = Vec::new();
    actions.push("default".to_string());
    actions.push("Open Settings".to_string());
    actions.push("open".to_string());
    actions.push("Open".to_string());
    NotificationRequest {
        app_name: "COSMIC KDE Connect".to_string(),
        app_icon: "phone".to_string(),
        summary: joined(device_name, " wants to pair"),
        body: "Click to open settings and accept or reject".to_string(),
        actions,
        urgency: 2,
        category: "device.added".to_string(),
        expire_timeout: 0,
        follow_up: pairing_url(device_id),
    }
}

/// A signal of the notification service.
#[derive(Debug, Clone)]
pub enum NotificationEvent {
    /// The user invoked action `key` of notification `id`.
    ActionInvoked(u32, String),
    /// Notification `id` was closed for `reason`.
    Closed(u32, u32),
}

/// What the bridge does after a signal.
#[derive(Debug, Clone, Copy, PartialEq, Eq, Structural)]
pub enum BridgeStep {
    /// Not ours, or not decisive: keep waiting.
    Wait,
    /// The user opened the notification: launch the follow-up and finish.
    Launch,
    /// The notification was closed: finish without launching.
    Finish,
}

/// The decision on `event` for the notification published with id `id`.
pub open spec fn step_for(id: u32, event: NotificationEvent) -> BridgeStep {
    match event {
        NotificationEvent::ActionInvoked(n, key) => if n == id && is_open_action(key@) {
            BridgeStep::Launch
        } else {
            BridgeStep::Wait
        },
        NotificationEvent::Closed(n, _) => if n == id {
            BridgeStep::Finish
        } else {
            BridgeStep::Wait
        },
    }
}

/// Waits on one published notification.
#[derive(Debug, Clone, Copy)]
pub struct NotificationBridge {
    pub notification_id: u32,
}

impl NotificationBridge {
    /// Waits on the notification the service published with id `id`.
    pub fn new(id: u32) -> (r: NotificationBridge)
        ensures
            r.notification_id == id,
    {
        NotificationBridge { notification_id: id }
    }

    /// Decides on one signal of either class: an "open" action on this
    /// notification launches the follow-up, its closing finishes, anything
    /// else leaves the race waiting.
    pub fn on_event(&self, event: &NotificationEvent) -> (r: BridgeStep)
        ensures
            r == step_for(self.notification_id, *event),
    {
        proof {
            reveal_strlit("default");
            reveal_strlit("open");
        }
        match event {
            NotificationEvent::ActionInvoked(n, key) => {
                if *n == self.notification_id && (same_text(key.as_str(), "default") || same_text(
                    key.as_str(),
                    "open",
                )) {
                    BridgeStep::Launch
                } else {
                    BridgeStep::Wait
                }
            },
            NotificationEvent::Closed(n, _) => {
                if *n == self.notification_id {
                    BridgeStep::Finish
                } else {
                    BridgeStep::Wait
                }
            },
        }
    }
}

} // verus!

use cosmic_connect_applet::notify::{
    pairing_device_from_url, pairing_notification_request, pairing_url, BridgeStep,
    NotificationBridge, NotificationEvent,
};

#[test]
fn close_before_action_finishes_without_launch() {
    let bridge = NotificationBridge::new(42);
    assert_eq!(bridge.on_event(&NotificationEvent::Closed(42, 2)), BridgeStep::Finish);
}

#[test]
fn open_actions_launch() {
    let bridge = NotificationBridge::new(42);
    assert_eq!(bridge.on_event(&NotificationEvent::ActionInvoked(42, "default".to_string())), BridgeStep::Launch);
    assert_eq!(bridge.on_event(&NotificationEvent::ActionInvoked(42, "open".to_string())), BridgeStep::Launch);
}

#[test]
fn other_events_keep_waiting() {
    let bridge = NotificationBridge::new(42);
    assert_eq!(bridge.on_event(&NotificationEvent::ActionInvoked(41, "open".to_string())), BridgeStep::Wait);
    assert_eq!(bridge.on_event(&NotificationEvent::ActionInvoked(42, "dismiss".to_string())), BridgeStep::Wait);
    assert_eq!(bridge.on_event(&NotificationEvent::Closed(7, 2)), BridgeStep::Wait);
}

#[test]
fn pairing_notification_content() {
    let r = pairing_notification_request("Pixel", "abc");
    assert_eq!(r.summary, "Pixel wants to pair");
    assert_eq!(r.body, "Click to open settings and accept or reject");
    assert_eq!(r.actions, vec!["default", "Open Settings", "open", "Open"]);
    assert_eq!(r.expire_timeout, 0);
    assert_eq!(r.urgency, 2);
    assert_eq!(r.follow_up, "kdeconnect://pair/abc");
    assert_eq!(r.app_name, "COSMIC KDE Connect");
    assert_eq!(r.app_icon, "phone");
    assert_eq!(r.category, "device.added");
}

#[test]
fn pairing_urls_round_trip() {
    assert_eq!(pairing_url("dev9"), "kdeconnect://pair/dev9");
    assert_eq!(pairing_device_from_url("kdeconnect://pair/dev9"), Some("dev9".to_string()));
    assert_eq!(pairing_device_from_url("kdeconnect://other/dev9"), None);
    assert_eq!(pairing_device_from_url("kdeconnect://pair/"), Some(String::new()));
}

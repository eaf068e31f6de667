use cosmic_connect_applet::pairing::{
    extract_device_id_from_path, initial_mode, next_mode, pair_state_from_code,
    pairing_signal_target, PairState, PairingNotification, PairingTracker, WatchMode,
    WatchOutcome,
};

#[test]
fn polling_announces_each_rising_edge_once() {
    let mut tracker = PairingTracker::new();
    let flags = [false, false, true, true, false, true];
    let announced: Vec<usize> = flags
        .iter()
        .enumerate()
        .filter(|(_, f)| tracker.observe("dev1", **f))
        .map(|(i, _)| i)
        .collect();
    assert_eq!(announced, vec![2, 5]);
}

#[test]
fn polling_memory_is_per_device() {
    let mut tracker = PairingTracker::new();
    assert!(tracker.observe("a", true));
    assert!(tracker.observe("b", true));
    assert!(!tracker.observe("a", true));
    assert!(!tracker.observe("b", false));
    assert!(tracker.observe("b", true));
}

#[test]
fn state_codes() {
    assert_eq!(pair_state_from_code(0), Some(PairState::NotPaired));
    assert_eq!(pair_state_from_code(1), Some(PairState::RequestedByUs));
    assert_eq!(pair_state_from_code(2), Some(PairState::RequestedByPeer));
    assert_eq!(pair_state_from_code(3), Some(PairState::Paired));
    assert_eq!(pair_state_from_code(4), None);
    assert_eq!(pair_state_from_code(-1), None);
}

#[test]
fn signal_announces_only_requests_by_peer() {
    let path = "/modules/kdeconnect/devices/abc123";
    assert_eq!(pairing_signal_target(path, 2), Some("abc123".to_string()));
    assert_eq!(pairing_signal_target(path, 3), None);
    assert_eq!(pairing_signal_target(path, 0), None);
    assert_eq!(pairing_signal_target(path, 1), None);
}

#[test]
fn device_id_is_last_path_segment() {
    assert_eq!(extract_device_id_from_path("/modules/kdeconnect/devices/xyz"), "xyz");
    assert_eq!(extract_device_id_from_path("plain"), "plain");
    assert_eq!(extract_device_id_from_path("/ends/with/"), "");
    assert_eq!(extract_device_id_from_path(""), "");
}

#[test]
fn notification_info_defaults() {
    let n = PairingNotification::from_info("d".to_string(), None, None);
    assert_eq!(n.device_id, "d");
    assert_eq!(n.device_name, "Unknown Device");
    assert_eq!(n.device_type, "unknown");
    let m = PairingNotification::from_info(
        "d".to_string(),
        Some("Pixel".to_string()),
        Some("phone".to_string()),
    );
    assert_eq!(m.device_name, "Pixel");
    assert_eq!(m.device_type, "phone");
}

#[test]
fn signal_mode_falls_back_to_polling_once() {
    assert_eq!(initial_mode(false), WatchMode::Signals);
    assert_eq!(initial_mode(true), WatchMode::Polling);
    let m = next_mode(WatchMode::Signals, WatchOutcome::SubscriptionFailed);
    assert_eq!(m, WatchMode::Polling);
    assert_eq!(next_mode(m, WatchOutcome::SubscriptionFailed), WatchMode::Polling);
    assert_eq!(next_mode(m, WatchOutcome::StreamEnded), WatchMode::Polling);
    assert_eq!(next_mode(WatchMode::Signals, WatchOutcome::StreamEnded), WatchMode::Stopped);
    assert_eq!(next_mode(m, WatchOutcome::ReceiverGone), WatchMode::Stopped);
}

use cosmic_connect_applet::permissions::{
    all_permissions, battery_icon, device_icon, get_permission_state, permission_to_plugin_name,
    set_permission_state, toggle_permission, DevicePermissions, PermissionType,
};
use cosmic_connect_applet::pool::ConnectionSlot;
use cosmic_connect_applet::text::{
    contains_text, decimal_string, is_blank, parse_decimal, phone_numbers_match, same_text,
    strip_prefix_text,
};

#[test]
fn default_permissions() {
    let p = DevicePermissions::default();
    assert!(!p.sms);
    assert!(p.share);
    assert!(!p.sftp);
    assert!(p.battery);
    assert!(!p.mousepad);
    assert!(get_permission_state(&p, &PermissionType::Ping));
    assert!(!get_permission_state(&p, &PermissionType::Clipboard));
}

#[test]
fn toggling_changes_one_permission() {
    let mut p = DevicePermissions::default();
    assert!(toggle_permission(&mut p, &PermissionType::SMS));
    assert!(p.sms);
    assert!(p.share);
    assert!(!toggle_permission(&mut p, &PermissionType::Share));
    assert!(!p.share);
    set_permission_state(&mut p, &PermissionType::Mousepad, true);
    assert!(p.mousepad);
    assert!(p.sms);
}

#[test]
fn plugin_names() {
    assert_eq!(permission_to_plugin_name(&PermissionType::SMS), "kdeconnect_sms");
    assert_eq!(permission_to_plugin_name(&PermissionType::MediaPlayer), "kdeconnect_mpriscontrol");
    assert_eq!(permission_to_plugin_name(&PermissionType::MultimediaReceiver), "kdeconnect_mpriscontrol");
    assert_eq!(permission_to_plugin_name(&PermissionType::VolumeControl), "kdeconnect_systemvolume");
    assert_eq!(all_permissions().len(), 27);
}

#[test]
fn icons() {
    assert_eq!(device_icon("phone"), "phone-symbolic");
    assert_eq!(device_icon("tablet"), "tablet-symbolic");
    assert_eq!(device_icon("laptop"), "computer-symbolic");
    assert_eq!(device_icon("desktop"), "computer-symbolic");
    assert_eq!(device_icon("tv"), "phone-symbolic");
    assert_eq!(battery_icon(50, true), "battery-full-charging-symbolic");
    assert_eq!(battery_icon(0, false), "battery-level-20-symbolic");
    assert_eq!(battery_icon(20, false), "battery-level-20-symbolic");
    assert_eq!(battery_icon(21, false), "battery-level-40-symbolic");
    assert_eq!(battery_icon(60, false), "battery-level-60-symbolic");
    assert_eq!(battery_icon(80, false), "battery-level-80-symbolic");
    assert_eq!(battery_icon(81, false), "battery-level-100-symbolic");
    assert_eq!(battery_icon(-5, false), "battery-level-100-symbolic");
}

#[test]
fn connection_slot_lifecycle() {
    let mut slot: ConnectionSlot<u32> = ConnectionSlot::new();
    assert!(slot.current().is_none());
    slot.install(7);
    assert_eq!(slot.current(), Some(&7));
    slot.install(8);
    assert_eq!(slot.current(), Some(&8));
    assert_eq!(slot.take(), Some(8));
    assert_eq!(slot.take(), None);
    assert!(slot.current().is_none());
}

#[test]
fn text_helpers() {
    assert_eq!(decimal_string(0), "0");
    assert_eq!(decimal_string(1234567890), "1234567890");
    assert_eq!(decimal_string(i64::MAX), i64::MAX.to_string());
    assert_eq!(decimal_string(i64::MIN), i64::MIN.to_string());
    assert!(contains_text("abcdef", "cde"));
    assert!(contains_text("abc", ""));
    assert!(!contains_text("abc", "abcd"));
    assert!(same_text("é", "é"));
    assert!(!same_text("a", "b"));
    assert_eq!(strip_prefix_text("prefix-rest", "prefix-"), Some("rest".to_string()));
    assert_eq!(strip_prefix_text("pre", "prefix"), None);
    assert!(is_blank(" \u{3000}\t"));
    assert!(!is_blank(" x "));
}

#[test]
fn phone_number_matching() {
    assert!(phone_numbers_match("+1-555-123-4567", "5551234567"));
    assert!(phone_numbers_match("555 1234", "5551234"));
    assert!(!phone_numbers_match("123", "0123"));
    assert!(phone_numbers_match("123", "1-2-3"));
    assert!(!phone_numbers_match("System", "Unknown"));
    assert!(!phone_numbers_match("5551234567", "5551234568"));
}

#[test]
fn decimal_parsing() {
    assert_eq!(parse_decimal("42"), Some(42));
    assert_eq!(parse_decimal("+7"), Some(7));
    assert_eq!(parse_decimal("-15"), Some(-15));
    assert_eq!(parse_decimal("9223372036854775807"), Some(i64::MAX));
    assert_eq!(parse_decimal("-9223372036854775808"), Some(i64::MIN));
    assert_eq!(parse_decimal("9223372036854775808"), None);
    assert_eq!(parse_decimal("123456789012345678901234567890"), None);
    assert_eq!(parse_decimal(""), None);
    assert_eq!(parse_decimal("-"), None);
    assert_eq!(parse_decimal("new_1700"), None);
    assert_eq!(parse_decimal("12a"), None);
    assert_eq!(parse_decimal(" 1"), None);
}

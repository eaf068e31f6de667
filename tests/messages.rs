use cosmic_connect_applet::payload::{
    conversation_signal_message, decode_conversation, decode_message, extract_i32, extract_i64,
    extract_phone_from_array, extract_string, is_conversation_update,
    parse_conversation_updated_signal, parse_conversation_variant, Payload,
};
use cosmic_connect_applet::sms::Message;
use std::time::{SystemTime, UNIX_EPOCH};

fn phone(number: &str) -> Payload {
    Payload::Array(vec![Payload::Structure(vec![Payload::Str(number.to_string())])])
}

fn fields(stamp: Payload) -> Vec<Payload> {
    vec![
        Payload::Int32(0),
        Payload::Str("hello".to_string()),
        phone("+15551234567"),
        stamp,
        Payload::Int32(2),
        Payload::Other,
        Payload::Int64(42),
    ]
}

fn now_millis() -> i64 {
    SystemTime::now().duration_since(UNIX_EPOCH).unwrap().as_millis() as i64
}

#[test]
fn decodes_a_well_formed_update() {
    let m = decode_message(&fields(Payload::Int64(1700)), 9);
    assert_eq!(m.body, "hello");
    assert_eq!(m.address, "+15551234567");
    assert_eq!(m.date, 1700);
    assert_eq!(m.type_, 2);
    assert!(m.is_sent());
    assert_eq!(m.thread_id, "42");
    assert_eq!(m.id, "42_1700");
    assert!(m.read);
}

#[test]
fn wrong_timestamp_type_yields_now() {
    let before = now_millis();
    let m = decode_message(&fields(Payload::Str("garbage".to_string())), now_millis());
    let after = now_millis();
    assert!(before <= m.date && m.date <= after);
    assert_eq!(m.id, format!("42_{}", m.date));
    assert_eq!(m.body, "hello");
}

#[test]
fn empty_payload_takes_every_default() {
    let m = decode_message(&vec![], 5);
    assert_eq!(m.body, "");
    assert_eq!(m.address, "Unknown");
    assert_eq!(m.date, 5);
    assert_eq!(m.type_, 1);
    assert!(!m.is_sent());
    assert_eq!(m.thread_id, "unknown");
    assert_eq!(m.id, "unknown_5");
}

#[test]
fn negative_numbers_keep_their_sign() {
    let f = vec![
        Payload::Other,
        Payload::Other,
        Payload::Other,
        Payload::Int64(i64::MIN),
        Payload::Other,
        Payload::Other,
        Payload::Int64(-7),
    ];
    let m = decode_message(&f, 0);
    assert_eq!(m.thread_id, "-7");
    assert_eq!(m.id, format!("-7_{}", i64::MIN));
}

#[test]
fn field_extractors() {
    let f = fields(Payload::Int64(3));
    assert_eq!(extract_string(&f, 1), Some("hello".to_string()));
    assert_eq!(extract_string(&f, 0), None);
    assert_eq!(extract_string(&f, 99), None);
    assert_eq!(extract_i32(&f, 4), Some(2));
    assert_eq!(extract_i32(&f, 6), None);
    assert_eq!(extract_i64(&f, 6), Some(42));
    assert_eq!(extract_phone_from_array(&f, 2), Some("+15551234567".to_string()));
    assert_eq!(extract_phone_from_array(&vec![Payload::Array(vec![])], 0), None);
    assert_eq!(extract_phone_from_array(&vec![Payload::Array(vec![Payload::Str("x".to_string())])], 0), None);
}

#[test]
fn only_structures_decode() {
    assert!(parse_conversation_updated_signal(&Payload::Int32(1), 0).is_none());
    assert!(parse_conversation_variant(&Payload::Str("x".to_string()), 0).is_none());
    let m: Message = parse_conversation_updated_signal(&Payload::Structure(fields(Payload::Int64(8))), 0).unwrap();
    assert_eq!(m.id, "42_8");
}

#[test]
fn decodes_a_conversation_entry() {
    let c = decode_conversation(&fields(Payload::Int64(1234)), 0);
    assert_eq!(c.thread_id, "42");
    assert_eq!(c.phone_number, "+15551234567");
    assert_eq!(c.contact_name, "+15551234567");
    assert_eq!(c.last_message, "hello");
    assert_eq!(c.timestamp, 1234);
    assert!(!c.unread);
    let d = parse_conversation_variant(&Payload::Structure(vec![]), 77).unwrap();
    assert_eq!(d.thread_id, "unknown");
    assert_eq!(d.phone_number, "Unknown");
    assert_eq!(d.timestamp, 77);
}

#[test]
fn watcher_filters_by_device_and_member() {
    let path = "/modules/kdeconnect/devices/abc123/sms";
    assert!(is_conversation_update(path, "conversationUpdated", "abc123"));
    assert!(!is_conversation_update(path, "conversationCreated", "abc123"));
    assert!(!is_conversation_update(path, "conversationUpdated", "zzz"));
    let body = Payload::Structure(fields(Payload::Int64(5)));
    assert!(conversation_signal_message(path, "conversationUpdated", "abc123", &body, 0).is_some());
    assert!(conversation_signal_message("", "conversationUpdated", "abc123", &body, 0).is_none());
    assert!(conversation_signal_message(path, "unknown", "abc123", &body, 0).is_none());
}

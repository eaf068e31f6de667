use cosmic_connect_applet::session::{with_placeholder, Contact, SmsSession};
use cosmic_connect_applet::sms::{Conversation, Message, SignalEvent};

fn conv(thread: &str, phone: &str, ts: i64) -> Conversation {
    Conversation {
        thread_id: thread.to_string(),
        contact_name: phone.to_string(),
        phone_number: phone.to_string(),
        last_message: format!("last {}", thread),
        timestamp: ts,
        unread: false,
    }
}

fn msg(id: &str, thread: &str, date: i64) -> Message {
    Message {
        id: id.to_string(),
        thread_id: thread.to_string(),
        body: format!("body {}", id),
        address: "555".to_string(),
        date,
        type_: 1,
        read: true,
    }
}

fn threads(s: &SmsSession) -> Vec<String> {
    s.conversations().iter().map(|c| c.thread_id.clone()).collect()
}

fn loaded() -> SmsSession {
    let mut s = SmsSession::new();
    s.load_conversations(vec![conv("1", "5551234567", 100), conv("2", "5559876543", 300), conv("3", "777", 200)]);
    s
}

#[test]
fn loaded_conversations_are_newest_first() {
    let s = loaded();
    assert_eq!(threads(&s), vec!["2", "3", "1"]);
}

#[test]
fn repeated_thread_keeps_first_report() {
    let mut s = SmsSession::new();
    s.load_conversations(vec![conv("1", "a", 100), conv("1", "b", 300)]);
    assert_eq!(s.conversations().len(), 1);
    assert_eq!(s.conversations()[0].phone_number, "a");
}

#[test]
fn received_messages_are_oldest_first_without_duplicates() {
    let mut s = loaded();
    s.select_thread("1".to_string());
    s.receive(msg("m2", "1", 500));
    s.receive(msg("m1", "1", 400));
    s.receive(msg("m2", "1", 500));
    let ids: Vec<String> = s.messages().iter().map(|m| m.id.clone()).collect();
    assert_eq!(ids, vec!["m1", "m2"]);
    assert_eq!(threads(&s), vec!["1", "2", "3"]);
    assert_eq!(s.conversations()[0].last_message, "body m2");
    assert_eq!(s.conversations()[0].timestamp, 500);
}

#[test]
fn message_of_other_thread_only_updates_its_conversation() {
    let mut s = loaded();
    s.select_thread("1".to_string());
    s.receive(msg("x", "3", 1000));
    assert!(s.messages().is_empty());
    assert_eq!(threads(&s), vec!["3", "2", "1"]);
    s.receive(msg("y", "99", 2000));
    assert_eq!(threads(&s), vec!["3", "2", "1"]);
}

#[test]
fn send_to_unknown_thread_does_nothing() {
    let mut s = loaded();
    s.select_thread("7".to_string());
    assert!(s.send("7", "hi".to_string(), 1000).is_none());
    assert!(s.messages().is_empty());
    assert_eq!(threads(&s), vec!["2", "3", "1"]);
}

#[test]
fn send_of_blank_body_does_nothing() {
    let mut s = loaded();
    s.select_thread("1".to_string());
    assert!(s.send("1", "  \t\n".to_string(), 1000).is_none());
    assert!(s.send("1", String::new(), 1000).is_none());
    assert!(s.messages().is_empty());
    assert_eq!(s.conversations()[2].timestamp, 100);
}

#[test]
fn send_places_an_optimistic_message() {
    let mut s = loaded();
    s.select_thread("1".to_string());
    s.receive(msg("old", "1", 50));
    let req = s.send("1", "hi".to_string(), 1000).unwrap();
    assert_eq!(req.phone_number, "5551234567");
    assert_eq!(req.body, "hi");
    let last = s.messages().last().unwrap();
    assert_eq!(last.id, "sending_1000");
    assert_eq!(last.type_, 2);
    assert_eq!(last.body, "hi");
    assert_eq!(last.address, "5551234567");
    assert_eq!(last.date, 1000);
    assert_eq!(s.messages().len(), 2);
    assert_eq!(threads(&s), vec!["1", "2", "3"]);
    assert_eq!(s.conversations()[0].last_message, "hi");
}

#[test]
fn start_chat_reuses_matching_conversation() {
    let mut s = loaded();
    let t = s.start_chat_with_number("+1-555-123-4567", &vec![], 5000);
    assert_eq!(t, "1");
    assert_eq!(s.conversations().len(), 3);
}

#[test]
fn start_chat_opens_new_conversation() {
    let mut s = loaded();
    let contacts = vec![Contact { phone_number: "+44 20 7946 0958".to_string(), name: "Ada".to_string() }];
    let t = s.start_chat_with_number("2079460958", &contacts, 5000);
    assert_eq!(t, "new_5000");
    let c = &s.conversations()[0];
    assert_eq!(c.thread_id, "new_5000");
    assert_eq!(c.contact_name, "Ada");
    assert_eq!(c.phone_number, "2079460958");
    assert_eq!(c.last_message, "New conversation");
    let u = s.start_chat_with_number("12", &contacts, 6000);
    assert_eq!(u, "new_6000");
    assert_eq!(s.conversations()[0].contact_name, "12");
}

#[test]
fn contacts_name_conversations() {
    let mut s = loaded();
    let contacts = vec![
        Contact { phone_number: "(555) 987-6543".to_string(), name: "Bob".to_string() },
        Contact { phone_number: "555-987-6543".to_string(), name: "Robert".to_string() },
    ];
    s.apply_contacts(&contacts);
    assert_eq!(s.conversations()[0].contact_name, "Bob");
    assert_eq!(s.conversations()[1].contact_name, "777");
}

#[test]
fn empty_list_gets_an_informational_entry() {
    let r = with_placeholder(vec![], 9);
    assert_eq!(r.len(), 1);
    assert_eq!(r[0].thread_id, "info_1");
    assert_eq!(r[0].phone_number, "System");
    assert_eq!(r[0].timestamp, 9);
    let kept = with_placeholder(vec![conv("1", "2", 3)], 9);
    assert_eq!(kept.len(), 1);
    assert_eq!(kept[0].thread_id, "1");
}

#[test]
fn signal_events_apply_messages_and_ignore_errors() {
    let mut s = loaded();
    s.select_thread("2".to_string());
    s.handle_signal_event(SignalEvent::Error("bad payload".to_string()));
    assert!(s.messages().is_empty());
    s.handle_signal_event(SignalEvent::MessageReceived(msg("z", "2", 900)));
    assert_eq!(s.messages().len(), 1);
    assert_eq!(s.selected_thread().map(|t| t.as_str()), Some("2"));
}

#[test]
fn selecting_a_thread_clears_shown_messages() {
    let mut s = loaded();
    s.select_thread("1".to_string());
    s.receive(msg("a", "1", 10));
    s.select_thread("2".to_string());
    assert!(s.messages().is_empty());
    assert_eq!(s.conversations().len(), 3);
}

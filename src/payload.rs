//! Positionally encoded bus payloads, and how messages and conversations are
//! read out of them. A field of the wrong kind yields that field's default;
//! no payload makes decoding fail.

use vstd::prelude::*;
use crate::sms::{Conversation, Message};
use crate::text::{contains_text, decimal_string, decimal_text, occurs_in, push_decimal, same_text};

verus! {

/// One value of a structured bus payload, as far as decoding reads it.
#[derive(Debug)]
pub enum Payload {
    Str(String),
    Int32(i32),
    Int64(i64),
    Array(Vec<Payload>),
    Structure(Vec<Payload>),
    Other,
}

/// The text at position `i`, if that field is a text.
pub open spec fn text_at(fields: Seq<Payload>, i: int) -> Option<Seq<char>> {
    if 0 <= i < fields.len() {
        match fields[i] {
            Payload::Str(s) => Some(s@),
            _ => None,
        }
    } else {
        None
    }
}

/// The 32-bit integer at position `i`, if that field is one.
pub open spec fn int32_at(fields: Seq<Payload>, i: int) -> Option<i32> {
    if 0 <= i < fields.len() {
        match fields[i] {
            Payload::Int32(n) => Some(n),
            _ => None,
        }
    } else {
        None
    }
}

/// The 64-bit integer at position `i`, if that field is one.
pub open spec fn int64_at(fields: Seq<Payload>, i: int) -> Option<i64> {
    if 0 <= i < fields.len() {
        match fields[i] {
            Payload::Int64(n) => Some(n),
            _ => None,
        }
    } else {
        None
    }
}

/// The phone number held at position `i`: that field is an array whose first
/// element is a structure whose first field is a text.
pub open spec fn phone_at(fields: Seq<Payload>, i: int) -> Option<Seq<char>> {
    if 0 <= i < fields.len() {
        match fields[i] {
            Payload::Array(items) => if items@.len() > 0 {
                match items@[0] {
                    Payload::Structure(inner) => text_at(inner@, 0),
                    _ => None,
                }
            } else {
                None
            },
            _ => None,
        }
    } else {
        None
    }
}

/// The text held, or `default`.
pub open spec fn text_or_else(o: Option<Seq<char>>, default: Seq<char>) -> Seq<char> {
    match o {
        Some(s) => s,
        None => default,
    }
}

/// Thread id of a payload: the 64-bit integer at position 6 in decimal, or
/// "unknown".
pub open spec fn payload_thread(fields: Seq<Payload>) -> Seq<char> {
    match int64_at(fields, 6) {
        Some(t) => decimal_text(t as int),
        None => "unknown"@,
    }
}

/// Timestamp of a payload: the 64-bit integer at position 3, or `now`.
pub open spec fn payload_stamp(fields: Seq<Payload>, now: i64) -> i64 {
    match int64_at(fields, 3) {
        Some(t) => t,
        None => now,
    }
}

/// The message a conversation-updated payload stands for, received at `now`.
pub open spec fn decoded_message(m: Message, fields: Seq<Payload>, now: i64) -> bool {
    &&& m.body@ == text_or_else(text_at(fields, 1), Seq::empty())
    &&& m.address@ == text_or_else(phone_at(fields, 2), "Unknown"@)
    &&& m.date == payload_stamp(fields, now)
    &&& m.type_ == (match int32_at(fields, 4) {
        Some(t) => t,
        None => 1i32,
    })
    &&& m.thread_id@ == payload_thread(fields)
    &&& m.id@ == payload_thread(fields) + "_"@ + decimal_text(payload_stamp(fields, now) as int)
    &&& m.read
}

/// The conversation a conversation-list payload stands for, read at `now`.
pub open spec fn decoded_conversation(c: Conversation, fields: Seq<Payload>, now: i64) -> bool {
    &&& c.thread_id@ == payload_thread(fields)
    &&& c.phone_number@ == text_or_else(phone_at(fields, 2), "Unknown"@)
    &&& c.contact_name@ == c.phone_number@
    &&& c.last_message@ == text_or_else(text_at(fields, 1), Seq::empty())
    &&& c.timestamp == payload_stamp(fields, now)
    &&& !c.unread
}

/// The text at position `index`, if that field is a text.
pub fn extract_string(fields: &Vec<Payload>, index: usize) -> (r: Option<String>)
    ensures
        r matches Some(s) ==> text_at(fields@, index as int) == Some(s@),
        r is None ==> text_at(fields@, index as int) is None,
{
    if index < fields.len() {
        match &fields[index] {
            Payload::Str(s) => Some(s.clone()),
            _ => None,
        }
    } else {
        None
    }
}

/// The 32-bit integer at position `index`, if that field is one.
pub fn extract_i32(fields: &Vec<Payload>, index: usize) -> (r: Option<i32>)
    ensures
        r == int32_at(fields@, index as int),
{
    if index < fields.len() {
        match &fields[index] {
            Payload::Int32(n) => Some(*n),
            _ => None,
        }
    } else {
        None
    }
}

/// The 64-bit integer at position `index`, if that field is one.
pub fn extract_i64(fields: &Vec<Payload>, index: usize) -> (r: Option<i64>)
    ensures
        r == int64_at(fields@, index as int),
{
    if index < fields.len() {
        match &fields[index] {
            Payload::Int64(n) => Some(*n),
            _ => None,
        }
    } else {
        None
    }
}

/// The phone number held at position `index`.
pub fn extract_phone_from_array(fields: &Vec<Payload>, index: usize) -> (r: Option<String>)
    ensures
        r matches Some(s) ==> phone_at(fields@, index as int) == Some(s@),
        r is None ==> phone_at(fields@, index as int) is None,
{
    if index < fields.len() {
        match &fields[index] {
            Payload::Array(items) => {
                if items.len() > 0 {
                    match &items[0] {
                        Payload::Structure(inner) => extract_string(inner, 0),
                        _ => None,
                    }
                } else {
                    None
                }
            },
            _ => None,
        }
    } else {
        None
    }
}

fn text_or_literal(o: Option<String>, default: &str) -> (r: String)
    ensures
        r@ == text_or_else(
            match o {
                Some(s) => Some(s@),
                None => None,
            },
            default@,
        ),
{
    match o {
        Some(s) => s,
        None => default.to_string(),
    }
}

fn thread_of(fields: &Vec<Payload>) -> (r: String)
    ensures
        r@ == payload_thread(fields@),
{
    match extract_i64(fields, 6) {
        Some(t) => decimal_string(t),
        None => "unknown".to_string(),
    }
}

/// Reads a message out of the fields of a conversation-updated payload:
/// body at 1, phone number at 2, timestamp at 3 (else `now`), type at 4
/// (else received), thread id at 6; its id is "<thread id>_<timestamp>".
pub fn decode_message(fields: &Vec<Payload>, now: i64) -> (r: Message)
    ensures
        decoded_message(r, fields@, now),
{
    proof {
        reveal_strlit("");
        assert(""@ =~= Seq::<char>::empty());
    }
    let type_ = match extract_i32(fields, 4) {
        Some(t) => t,
        None => 1,
    };
    let body = text_or_literal(extract_string(fields, 1), "");
    let address = text_or_literal(extract_phone_from_array(fields, 2), "Unknown");
    let date = match extract_i64(fields, 3) {
        Some(t) => t,
        None => now,
    };
    let thread_id = thread_of(fields);
    let mut id = thread_id.clone();
    id.append("_");
    push_decimal(&mut id, date);
    Message { id, thread_id, body, address, date, type_, read: true }
}

/// Reads a conversation out of the fields of a conversation-list payload:
/// last message at 1, phone number at 2 (which also names the contact),
/// timestamp at 3 (else `now`), thread id at 6.
pub fn decode_conversation(fields: &Vec<Payload>, now: i64) -> (r: Conversation)
    ensures
        decoded_conversation(r, fields@, now),
{
    proof {
        reveal_strlit("");
        assert(""@ =~= Seq::<char>::empty());
    }
    let last_message = text_or_literal(extract_string(fields, 1), "");
    let phone_number = text_or_literal(extract_phone_from_array(fields, 2), "Unknown");
    let timestamp = match extract_i64(fields, 3) {
        Some(t) => t,
        None => now,
    };
    Conversation {
        thread_id: thread_of(fields),
        contact_name: phone_number.clone(),
        phone_number,
        last_message,
        timestamp,
        unread: false,
    }
}

/// A conversation-updated signal body: a structure yields its message, any
/// other payload none.
pub fn parse_conversation_updated_signal(body: &Payload, now: i64) -> (r: Option<Message>)
    ensures
        body matches Payload::Structure(fields) ==> (r matches Some(m) && decoded_message(
            m,
            fields@,
            now,
        )),
        !(body is Structure) ==> r is None,
{
    match body {
        Payload::Structure(fields) => Some(decode_message(fields, now)),
        _ => None,
    }
}

/// One entry of the daemon's conversation list: a structure yields its
/// conversation, any other payload none.
pub fn parse_conversation_variant(entry: &Payload, now: i64) -> (r: Option<Conversation>)
    ensures
        entry matches Payload::Structure(fields) ==> (r matches Some(c) && decoded_conversation(
            c,
            fields@,
            now,
        )),
        !(entry is Structure) ==> r is None,
{
    match entry {
        Payload::Structure(fields) => Some(decode_conversation(fields, now)),
        _ => None,
    }
}

/// A signal from object `path` named `member` is a conversation update of
/// device `device_id`: the path holds the device id and the member is
/// "conversationUpdated".
pub open spec fn is_update_of(path: Seq<char>, member: Seq<char>, device_id: Seq<char>) -> bool {
    occurs_in(path, device_id) && member == "conversationUpdated"@
}

/// Whether a signal from object `path` named `member` is a conversation
/// update of device `device_id`; every other signal is passed over.
pub fn is_conversation_update(path: &str, member: &str, device_id: &str) -> (r: bool)
    ensures
        r == is_update_of(path@, member@, device_id@),
{
    contains_text(path, device_id) && same_text(member, "conversationUpdated")
}

/// One step of the conversation watcher for device `device_id`: the message a
/// signal carries when it is a conversation update of that device with a
/// structured body, received at `now`; nothing for any other signal.
pub fn conversation_signal_message(path: &str, member: &str, device_id: &str, body: &Payload, now: i64) -> (r: Option<Message>)
    ensures
        !is_update_of(path@, member@, device_id@) ==> r is None,
        is_update_of(path@, member@, device_id@) ==> {
            &&& body matches Payload::Structure(fields) ==> (r matches Some(m) && decoded_message(
                m,
                fields@,
                now,
            ))
            &&& !(body is Structure) ==> r is None
        },
{
    if is_conversation_update(path, member, device_id) {
        parse_conversation_updated_signal(body, now)
    } else {
        None
    }
}

} // verus!

//! SMS records: conversations (threads) and the messages within them.

use vstd::prelude::*;

verus! {

/// A messaging thread.
#[derive(Debug, Clone)]
pub struct Conversation {
    pub thread_id: String,
    pub contact_name: String,
    pub phone_number: String,
    pub last_message: String,
    pub timestamp: i64,
    pub unread: bool,
}

/// One message of a thread. `type_` 2 marks a sent message; any other value a
/// received one.
#[derive(Debug, Clone)]
pub struct Message {
    pub id: String,
    pub thread_id: String,
    pub body: String,
    pub address: String,
    pub date: i64,
    pub type_: i32,
    pub read: bool,
}

impl Message {
    /// Whether this message was sent from the device.
    pub fn is_sent(&self) -> (r: bool)
        ensures
            r == (self.type_ == 2),
    {
        self.type_ == 2
    }
}

/// What the conversation watcher reports.
#[derive(Debug, Clone)]
pub enum SignalEvent {
    MessageReceived(Message),
    Error(String),
}

} // verus!

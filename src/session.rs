//! The SMS window's state for one device: its conversations, newest first
//! with one entry per thread, and the messages of the selected thread, oldest
//! first with one entry per id. Every change keeps both orders.

use vstd::prelude::*;
use crate::sms::{Conversation, Message, SignalEvent};
use crate::text::{
    blank, decimal_text, is_blank, phone_numbers_match, phones_match, push_decimal, same_text,
};

verus! {

broadcast use vstd::seq_lib::group_to_multiset_ensures;

/// Conversations ordered by timestamp, newest first.
pub open spec fn newest_first(s: Seq<Conversation>) -> bool {
    forall|i: int, j: int| 0 <= i < j < s.len() ==> #[trigger] s[i].timestamp >= #[trigger] s[j].timestamp
}

/// No two conversations share a thread id.
pub open spec fn distinct_threads(s: Seq<Conversation>) -> bool {
    forall|i: int, j: int|
        0 <= i < s.len() && 0 <= j < s.len() && i != j ==> #[trigger] s[i].thread_id@
            != #[trigger] s[j].thread_id@
}

/// Messages ordered by date, oldest first.
pub open spec fn oldest_first(s: Seq<Message>) -> bool {
    forall|i: int, j: int| 0 <= i < j < s.len() ==> #[trigger] s[i].date <= #[trigger] s[j].date
}

/// No two messages share an id.
pub open spec fn distinct_ids(s: Seq<Message>) -> bool {
    forall|i: int, j: int|
        0 <= i < s.len() && 0 <= j < s.len() && i != j ==> #[trigger] s[i].id@ != #[trigger] s[j].id@
}

/// Some conversation of `s` has thread id `t`.
pub open spec fn has_thread(s: Seq<Conversation>, t: Seq<char>) -> bool {
    exists|i: int| 0 <= i < s.len() && #[trigger] s[i].thread_id@ == t
}

/// Some message of `s` has id `id`.
pub open spec fn has_message(s: Seq<Message>, id: Seq<char>) -> bool {
    exists|i: int| 0 <= i < s.len() && #[trigger] s[i].id@ == id
}

impl Conversation {
    /// A field-for-field copy.
    pub fn duplicate(&self) -> (r: Conversation)
        ensures
            r == *self,
    {
        Conversation {
            thread_id: self.thread_id.clone(),
            contact_name: self.contact_name.clone(),
            phone_number: self.phone_number.clone(),
            last_message: self.last_message.clone(),
            timestamp: self.timestamp,
            unread: self.unread,
        }
    }
}

impl Message {
    /// A field-for-field copy.
    pub fn duplicate(&self) -> (r: Message)
        ensures
            r == *self,
    {
        Message {
            id: self.id.clone(),
            thread_id: self.thread_id.clone(),
            body: self.body.clone(),
            address: self.address.clone(),
            date: self.date,
            type_: self.type_,
            read: self.read,
        }
    }
}

/// Where the conversation of thread `t` stands.
fn find_thread(s: &Vec<Conversation>, t: &str) -> (r: Option<usize>)
    ensures
        r is Some <==> has_thread(s@, t@),
        r matches Some(i) ==> i < s@.len() && s@[i as int].thread_id@ == t@,
{
    let mut i: usize = 0;
    while i < s.len()
        invariant
            i <= s@.len(),
            forall|j: int| 0 <= j < i ==> #[trigger] s@[j].thread_id@ != t@,
        decreases s@.len() - i,
    {
        if same_text(s[i].thread_id.as_str(), t) {
            return Some(i);
        }
        i = i + 1;
    }
    None
}

/// Whether a message of id `id` is in `s`.
fn find_message(s: &Vec<Message>, id: &str) -> (r: bool)
    ensures
        r == has_message(s@, id@),
{
    let mut i: usize = 0;
    while i < s.len()
        invariant
            i <= s@.len(),
            forall|j: int| 0 <= j < i ==> #[trigger] s@[j].id@ != id@,
        decreases s@.len() - i,
    {
        if same_text(s[i].id.as_str(), id) {
            return true;
        }
        i = i + 1;
    }
    false
}

/// Inserts `c` after every conversation at least as recent.
fn insert_conversation(s: &mut Vec<Conversation>, c: Conversation)
    requires
        newest_first(old(s)@),
        distinct_threads(old(s)@),
        !has_thread(old(s)@, c.thread_id@),
    ensures
        newest_first(final(s)@),
        distinct_threads(final(s)@),
        final(s)@.to_multiset() == old(s)@.to_multiset().insert(c),
        forall|t: Seq<char>| #[trigger] has_thread(final(s)@, t) <==> (has_thread(old(s)@, t) || t == c.thread_id@),
{
    let ghost before = s@;
    let mut p: usize = 0;
    while p < s.len() && s[p].timestamp >= c.timestamp
        invariant
            s@ == before,
            p <= s@.len(),
            forall|j: int| 0 <= j < p ==> #[trigger] s@[j].timestamp >= c.timestamp,
        decreases s@.len() - p,
    {
        p = p + 1;
    }
    s.insert(p, c);
    proof {
        before.insert_ensures(p as int, c);
        assert(s@ == before.insert(p as int, c));
        assert forall|i: int, j: int| 0 <= i < j < s@.len() implies #[trigger] s@[i].timestamp
            >= #[trigger] s@[j].timestamp by {
            if i < p && j < p {
                assert(before[i].timestamp >= before[j].timestamp);
            } else if i < p && j == p {
            } else if i < p {
                assert(before[i].timestamp >= before[j - 1].timestamp);
            } else if i == p {
                if p < before.len() {
                    assert(before[p as int].timestamp < c.timestamp);
                    assert(before[p as int].timestamp >= before[j - 1].timestamp || j - 1 == p);
                }
            } else {
                assert(before[i - 1].timestamp >= before[j - 1].timestamp);
            }
        }
        assert forall|i: int, j: int|
            0 <= i < s@.len() && 0 <= j < s@.len() && i != j implies #[trigger] s@[i].thread_id@
            != #[trigger] s@[j].thread_id@ by {
            let bi = if i < p { i } else { i - 1 };
            let bj = if j < p { j } else { j - 1 };
            if i != p && j != p {
                assert(before[bi].thread_id@ != before[bj].thread_id@);
            } else if i == p {
                assert(before[bj] == s@[j]);
            } else {
                assert(before[bi] == s@[i]);
            }
        }
        assert forall|t: Seq<char>| #[trigger] has_thread(s@, t) <==> (has_thread(before, t)
            || t == c.thread_id@) by {
            if has_thread(s@, t) {
                let i = choose|i: int| 0 <= i < s@.len() && #[trigger] s@[i].thread_id@ == t;
                if i < p {
                    assert(before[i] == s@[i]);
                } else if i > p {
                    assert(before[i - 1] == s@[i]);
                }
            }
            if has_thread(before, t) {
                let i = choose|i: int| 0 <= i < before.len() && #[trigger] before[i].thread_id@ == t;
                if i < p {
                    assert(s@[i] == before[i]);
                } else {
                    assert(s@[i + 1] == before[i]);
                }
            }
            if t == c.thread_id@ {
                assert(s@[p as int].thread_id@ == t);
            }
        }
    }
}

/// Inserts `m` after every message dated no later.
fn insert_message(s: &mut Vec<Message>, m: Message)
    requires
        oldest_first(old(s)@),
        distinct_ids(old(s)@),
        !has_message(old(s)@, m.id@),
    ensures
        oldest_first(final(s)@),
        distinct_ids(final(s)@),
        final(s)@.to_multiset() == old(s)@.to_multiset().insert(m),
{
    let ghost before = s@;
    let mut p: usize = 0;
    while p < s.len() && s[p].date <= m.date
        invariant
            s@ == before,
            p <= s@.len(),
            forall|j: int| 0 <= j < p ==> #[trigger] s@[j].date <= m.date,
        decreases s@.len() - p,
    {
        p = p + 1;
    }
    s.insert(p, m);
    proof {
        before.insert_ensures(p as int, m);
        assert(s@ == before.insert(p as int, m));
        assert forall|i: int, j: int| 0 <= i < j < s@.len() implies #[trigger] s@[i].date
            <= #[trigger] s@[j].date by {
            if i < p && j < p {
                assert(before[i].date <= before[j].date);
            } else if i < p && j == p {
            } else if i < p {
                assert(before[i].date <= before[j - 1].date);
            } else if i == p {
                if p < before.len() {
                    assert(before[p as int].date > m.date);
                    assert(before[p as int].date <= before[j - 1].date || j - 1 == p);
                }
            } else {
                assert(before[i - 1].date <= before[j - 1].date);
            }
        }
        assert forall|i: int, j: int|
            0 <= i < s@.len() && 0 <= j < s@.len() && i != j implies #[trigger] s@[i].id@
            != #[trigger] s@[j].id@ by {
            let bi = if i < p { i } else { i - 1 };
            let bj = if j < p { j } else { j - 1 };
            if i != p && j != p {
                assert(before[bi].id@ != before[bj].id@);
            } else if i == p {
                assert(before[bj] == s@[j]);
            } else {
                assert(before[bi] == s@[i]);
            }
        }
    }
}

/// Takes the conversation at `j` out of the list.
fn take_conversation(s: &mut Vec<Conversation>, j: usize) -> (c: Conversation)
    requires
        j < old(s)@.len(),
        newest_first(old(s)@),
        distinct_threads(old(s)@),
    ensures
        c == old(s)@[j as int],
        final(s)@ == old(s)@.remove(j as int),
        newest_first(final(s)@),
        distinct_threads(final(s)@),
        !has_thread(final(s)@, c.thread_id@),
        forall|t: Seq<char>| #[trigger] has_thread(final(s)@, t) ==> has_thread(old(s)@, t),
{
    let ghost before = s@;
    let c = s.remove(j);
    proof {
        before.remove_ensures(j as int);
        assert forall|a: int, b: int| 0 <= a < b < s@.len() implies #[trigger] s@[a].timestamp
            >= #[trigger] s@[b].timestamp by {
            let ba = if a < j { a } else { a + 1 };
            let bb = if b < j { b } else { b + 1 };
            assert(before[ba].timestamp >= before[bb].timestamp);
        }
        assert forall|a: int, b: int|
            0 <= a < s@.len() && 0 <= b < s@.len() && a != b implies #[trigger] s@[a].thread_id@
            != #[trigger] s@[b].thread_id@ by {
            let ba = if a < j { a } else { a + 1 };
            let bb = if b < j { b } else { b + 1 };
            assert(before[ba].thread_id@ != before[bb].thread_id@);
        }
        if has_thread(s@, c.thread_id@) {
            let a = choose|a: int| 0 <= a < s@.len() && #[trigger] s@[a].thread_id@ == c.thread_id@;
            let ba = if a < j { a } else { a + 1 };
            assert(before[ba].thread_id@ == before[j as int].thread_id@);
        }
        assert forall|t: Seq<char>| #[trigger] has_thread(s@, t) implies has_thread(before, t) by {
            let a = choose|a: int| 0 <= a < s@.len() && #[trigger] s@[a].thread_id@ == t;
            let ba = if a < j { a } else { a + 1 };
            assert(before[ba].thread_id@ == t);
        }
    }
    c
}

/// `c` after a message with `body` at `timestamp` became its latest.
pub open spec fn refreshed(c: Conversation, body: String, timestamp: i64) -> Conversation {
    Conversation { last_message: body, timestamp, ..c }
}

/// The SMS window's state for one device.
pub struct SmsSession {
    conversations: Vec<Conversation>,
    messages: Vec<Message>,
    selected_thread: Option<String>,
}

impl SmsSession {
    #[verifier::type_invariant]
    spec fn inv(self) -> bool {
        &&& newest_first(self.conversations@)
        &&& distinct_threads(self.conversations@)
        &&& oldest_first(self.messages@)
        &&& distinct_ids(self.messages@)
    }

    /// The conversations, newest first.
    pub closed spec fn conversation_list(&self) -> Seq<Conversation> {
        self.conversations@
    }

    /// The messages of the selected thread, oldest first.
    pub closed spec fn message_list(&self) -> Seq<Message> {
        self.messages@
    }

    /// The thread whose messages are shown.
    pub closed spec fn selected(&self) -> Option<Seq<char>> {
        match self.selected_thread {
            Some(t) => Some(t@),
            None => None,
        }
    }

    /// Conversations newest first with one per thread, messages oldest first
    /// with one per id.
    pub open spec fn well_ordered(&self) -> bool {
        &&& newest_first(self.conversation_list())
        &&& distinct_threads(self.conversation_list())
        &&& oldest_first(self.message_list())
        &&& distinct_ids(self.message_list())
    }

    /// A session with no conversation, no message and no thread selected.
    pub fn new() -> (r: SmsSession)
        ensures
            r.conversation_list().len() == 0,
            r.message_list().len() == 0,
            r.selected() is None,
    {
        SmsSession { conversations: Vec::new(), messages: Vec::new(), selected_thread: None }
    }

    /// The conversations: newest first, one per thread.
    pub fn conversations(&self) -> (r: &Vec<Conversation>)
        ensures
            r@ == self.conversation_list(),
            newest_first(r@),
            distinct_threads(r@),
    {
        proof {
            use_type_invariant(self);
        }
        &self.conversations
    }

    /// The messages of the selected thread: oldest first, one per id.
    pub fn messages(&self) -> (r: &Vec<Message>)
        ensures
            r@ == self.message_list(),
            oldest_first(r@),
            distinct_ids(r@),
    {
        proof {
            use_type_invariant(self);
        }
        &self.messages
    }

    /// The selected thread, if any.
    pub fn selected_thread(&self) -> (r: Option<&String>)
        ensures
            r is Some <==> self.selected() is Some,
            r matches Some(t) ==> self.selected() == Some(t@),
    {
        match &self.selected_thread {
            Some(t) => Some(t),
            None => None,
        }
    }

    /// Selects thread `thread_id`; its messages are to be fetched anew, so the
    /// message list starts empty.
    pub fn select_thread(&mut self, thread_id: String)
        ensures
            final(self).well_ordered(),
            final(self).selected() == Some(thread_id@),
            final(self).message_list().len() == 0,
            final(self).conversation_list() == old(self).conversation_list(),
    {
        proof {
            use_type_invariant(&*self);
        }
        self.messages = Vec::new();
        self.selected_thread = Some(thread_id);
    }

    /// Whether `thread_id` is the selected thread.
    fn is_selected(&self, thread_id: &str) -> (r: bool)
        ensures
            r == (self.selected() == Some(thread_id@)),
    {
        match &self.selected_thread {
            Some(t) => same_text(t.as_str(), thread_id),
            None => false,
        }
    }

    /// Adds `m` to the shown messages when its thread is selected and its id
    /// is new there.
    fn show_message(&mut self, m: Message)
        ensures
            final(self).conversation_list() == old(self).conversation_list(),
            final(self).selected() == old(self).selected(),
            if old(self).selected() == Some(m.thread_id@) && !has_message(
                old(self).message_list(),
                m.id@,
            ) {
                final(self).message_list().to_multiset() == old(self).message_list().to_multiset().insert(m)
            } else {
                final(self).message_list() == old(self).message_list()
            },
    {
        proof {
            use_type_invariant(&*self);
        }
        if self.is_selected(m.thread_id.as_str()) && !find_message(&self.messages, m.id.as_str()) {
            let mut list: Vec<Message> = Vec::new();
            std::mem::swap(&mut self.messages, &mut list);
            insert_message(&mut list, m);
            self.messages = list;
        }
    }

    /// Makes a message with `body` at `timestamp` the latest of thread
    /// `thread_id`, which moves to keep the newest-first order.
    fn refresh_thread(&mut self, thread_id: &str, body: String, timestamp: i64)
        ensures
            final(self).message_list() == old(self).message_list(),
            final(self).selected() == old(self).selected(),
            forall|j: int|
                0 <= j < old(self).conversation_list().len()
                    && #[trigger] old(self).conversation_list()[j].thread_id@ == thread_id@
                    ==> final(self).conversation_list().to_multiset() == old(
                    self,
                ).conversation_list().update(j, refreshed(old(self).conversation_list()[j], body, timestamp)).to_multiset(),
            !has_thread(old(self).conversation_list(), thread_id@) ==> final(self).conversation_list()
                == old(self).conversation_list(),
    {
        proof {
            use_type_invariant(&*self);
        }
        match find_thread(&self.conversations, thread_id) {
            Some(j) => {
                let ghost before = self.conversations@;
                let mut list: Vec<Conversation> = Vec::new();
                std::mem::swap(&mut self.conversations, &mut list);
                let mut c = take_conversation(&mut list, j);
                c.last_message = body;
                c.timestamp = timestamp;
                insert_conversation(&mut list, c);
                self.conversations = list;
                proof {
                    assert forall|i: int|
                        0 <= i < before.len() && #[trigger] before[i].thread_id@ == thread_id@ implies i
                        == j by {
                        if i != j {
                            assert(before[i].thread_id@ != before[j as int].thread_id@);
                        }
                    }
                    assert(before.update(j as int, c).to_multiset() =~= before.to_multiset().remove(
                        before[j as int],
                    ).insert(c));
                }
            },
            None => {},
        }
    }

    /// `after` is `before` once message `m` arrived: `m` joins the shown
    /// messages when its thread is selected and its id is new there, and it
    /// becomes the latest message of its conversation.
    pub open spec fn applied(before: SmsSession, after: SmsSession, m: Message) -> bool {
        &&& after.well_ordered()
        &&& after.selected() == before.selected()
        &&& if before.selected() == Some(m.thread_id@) && !has_message(before.message_list(), m.id@) {
            after.message_list().to_multiset() == before.message_list().to_multiset().insert(m)
        } else {
            after.message_list() == before.message_list()
        }
        &&& forall|j: int|
            0 <= j < before.conversation_list().len()
                && #[trigger] before.conversation_list()[j].thread_id@ == m.thread_id@
                ==> after.conversation_list().to_multiset() == before.conversation_list().update(
                j,
                refreshed(before.conversation_list()[j], m.body, m.date),
            ).to_multiset()
        &&& !has_thread(before.conversation_list(), m.thread_id@) ==> after.conversation_list()
            == before.conversation_list()
    }

    /// Applies a message that arrived from the device: it joins the shown
    /// messages when its thread is selected and its id is new there, and it
    /// becomes the latest message of its conversation, which moves to keep
    /// the newest-first order.
    pub fn receive(&mut self, m: Message)
        ensures
            Self::applied(*old(self), *final(self), m),
    {
        let thread_id = m.thread_id.clone();
        let body = m.body.clone();
        let date = m.date;
        self.show_message(m);
        self.refresh_thread(thread_id.as_str(), body, date);
        proof {
            use_type_invariant(&*self);
        }
    }
}

/// What the device is asked to deliver for one send.
#[derive(Debug, Clone)]
pub struct SmsSend {
    pub phone_number: String,
    pub body: String,
}

/// `m` is the placeholder an optimistic send of `body` at `now` puts in
/// conversation `c`.
pub open spec fn is_placeholder(m: Message, c: Conversation, body: Seq<char>, now: i64) -> bool {
    &&& m.id@ == "sending_"@ + decimal_text(now as int)
    &&& m.thread_id@ == c.thread_id@
    &&& m.body@ == body
    &&& m.address@ == c.phone_number@
    &&& m.date == now
    &&& m.type_ == 2
    &&& m.read
}

impl SmsSession {
    /// Sends `body` in thread `thread_id` at time `now`, optimistically: a
    /// placeholder sent message "sending_<now>" joins the shown messages (when
    /// the thread is selected and that id is new there), and `body` becomes the
    /// latest message of the conversation. The delivery to ask for is
    /// returned. A blank body, or a thread with no conversation, changes
    /// nothing and asks for no delivery.
    pub fn send(&mut self, thread_id: &str, body: String, now: i64) -> (r: Option<SmsSend>)
        ensures
            final(self).well_ordered(),
            r is Some <==> (!blank(body@) && has_thread(old(self).conversation_list(), thread_id@)),
            final(self).selected() == old(self).selected(),
            r is None ==> final(self).conversation_list() == old(self).conversation_list()
                && final(self).message_list() == old(self).message_list(),
            forall|j: int|
                0 <= j < old(self).conversation_list().len()
                    && #[trigger] old(self).conversation_list()[j].thread_id@ == thread_id@
                    && !blank(body@) ==> {
                    let c = old(self).conversation_list()[j];
                    &&& r matches Some(q) && q.phone_number@ == c.phone_number@ && q.body == body
                    &&& final(self).conversation_list().to_multiset() == old(
                        self,
                    ).conversation_list().update(j, refreshed(c, body, now)).to_multiset()
                    &&& exists|m: Message|
                        is_placeholder(m, c, body@, now) && if old(self).selected() == Some(
                            thread_id@,
                        ) && !has_message(old(self).message_list(), m.id@) {
                            final(self).message_list().to_multiset() == old(
                                self,
                            ).message_list().to_multiset().insert(m)
                        } else {
                            final(self).message_list() == old(self).message_list()
                        }
                },
    {
        proof {
            use_type_invariant(&*self);
        }
        if is_blank(body.as_str()) {
            return None;
        }
        let j = match find_thread(&self.conversations, thread_id) {
            Some(j) => j,
            None => {
                return None;
            },
        };
        let ghost c = self.conversations@[j as int];
        let phone = self.conversations[j].phone_number.clone();
        let mut id = "sending_".to_string();
        push_decimal(&mut id, now);
        let placeholder = Message {
            id,
            thread_id: self.conversations[j].thread_id.clone(),
            body: body.clone(),
            address: phone.clone(),
            date: now,
            type_: 2,
            read: true,
        };
        let ghost pm = placeholder;
        let ghost before = self.conversations@;
        self.show_message(placeholder);
        self.refresh_thread(thread_id, body.clone(), now);
        proof {
            use_type_invariant(&*self);
            assert(is_placeholder(pm, c, body@, now));
            assert forall|i: int|
                0 <= i < before.len() && #[trigger] before[i].thread_id@ == thread_id@ implies i == j by {
                if i != j {
                    assert(before[i].thread_id@ != before[j as int].thread_id@);
                }
            }
        }
        Some(SmsSend { phone_number: phone, body })
    }
}

/// One entry of the device's address book.
#[derive(Debug, Clone)]
pub struct Contact {
    pub phone_number: String,
    pub name: String,
}

/// The name of the first contact whose number matches `phone`.
pub open spec fn contact_for(contacts: Seq<Contact>, phone: Seq<char>) -> Option<String>
    decreases contacts.len(),
{
    if contacts.len() == 0 {
        None
    } else if phones_match(phone, contacts[0].phone_number@) {
        Some(contacts[0].name)
    } else {
        contact_for(contacts.drop_first(), phone)
    }
}

/// The first conversation whose number matches `phone`.
pub open spec fn conversation_for(s: Seq<Conversation>, phone: Seq<char>) -> Option<Conversation>
    decreases s.len(),
{
    if s.len() == 0 {
        None
    } else if phones_match(s[0].phone_number@, phone) {
        Some(s[0])
    } else {
        conversation_for(s.drop_first(), phone)
    }
}

/// The first conversation of `s` with thread id `t`.
pub open spec fn first_report(s: Seq<Conversation>, t: Seq<char>) -> Conversation
    decreases s.len(),
{
    if s.len() == 0 {
        arbitrary()
    } else if has_thread(s.drop_last(), t) {
        first_report(s.drop_last(), t)
    } else {
        s.last()
    }
}

/// `c` named after the contact found for it, if one was.
pub open spec fn renamed(c: Conversation, name: Option<String>) -> Conversation {
    match name {
        Some(n) => Conversation { contact_name: n, ..c },
        None => c,
    }
}

/// `c` is the conversation a new chat with `phone` at `now` opens as thread
/// `thread`.
pub open spec fn new_chat(c: Conversation, thread: Seq<char>, phone: Seq<char>, contacts: Seq<Contact>, now: i64) -> bool {
    &&& c.thread_id@ == thread
    &&& c.phone_number@ == phone
    &&& c.contact_name@ == (match contact_for(contacts, phone) {
        Some(n) => n@,
        None => phone,
    })
    &&& c.last_message@ == "New conversation"@
    &&& c.timestamp == now
    &&& !c.unread
}

/// The name of the first contact whose number matches `phone`.
pub fn find_contact(contacts: &Vec<Contact>, phone: &str) -> (r: Option<String>)
    ensures
        r == contact_for(contacts@, phone@),
{
    let n = contacts.len();
    let mut i: usize = 0;
    assert(contacts@.subrange(0, n as int) =~= contacts@);
    while i < n
        invariant
            n == contacts@.len(),
            i <= n,
            contact_for(contacts@, phone@) == contact_for(contacts@.subrange(i as int, n as int), phone@),
        decreases n - i,
    {
        let ghost rest = contacts@.subrange(i as int, n as int);
        assert(rest.drop_first() =~= contacts@.subrange(i + 1, n as int));
        if phone_numbers_match(phone, contacts[i].phone_number.as_str()) {
            return Some(contacts[i].name.clone());
        }
        i = i + 1;
    }
    None
}

/// The first conversation whose number matches `phone`.
fn find_conversation(s: &Vec<Conversation>, phone: &str) -> (r: Option<usize>)
    ensures
        r is None ==> conversation_for(s@, phone@) is None,
        r matches Some(i) ==> i < s@.len() && conversation_for(s@, phone@) == Some(s@[i as int]),
{
    let n = s.len();
    let mut i: usize = 0;
    assert(s@.subrange(0, n as int) =~= s@);
    while i < n
        invariant
            n == s@.len(),
            i <= n,
            conversation_for(s@, phone@) == conversation_for(s@.subrange(i as int, n as int), phone@),
        decreases n - i,
    {
        let ghost rest = s@.subrange(i as int, n as int);
        assert(rest.drop_first() =~= s@.subrange(i + 1, n as int));
        if phone_numbers_match(s[i].phone_number.as_str(), phone) {
            return Some(i);
        }
        i = i + 1;
    }
    None
}

/// The conversation list to show for what the daemon reported: the list
/// itself, or, when it is empty, one informational entry at `now` that says
/// no conversation was found.
pub fn with_placeholder(list: Vec<Conversation>, now: i64) -> (r: Vec<Conversation>)
    ensures
        list@.len() > 0 ==> r@ == list@,
        list@.len() == 0 ==> r@.len() == 1 && r@[0].thread_id@ == "info_1"@ && r@[0].contact_name@
            == "KDE Connect SMS"@ && r@[0].phone_number@ == "System"@ && r@[0].last_message@
            == "No conversations found. Make sure SMS plugin is enabled!"@ && r@[0].timestamp == now
            && !r@[0].unread,
{
    if list.len() > 0 {
        return list;
    }
    let mut r: Vec<Conversation> = Vec::new();
    r.push(
        Conversation {
            thread_id: "info_1".to_string(),
            contact_name: "KDE Connect SMS".to_string(),
            phone_number: "System".to_string(),
            last_message: "No conversations found. Make sure SMS plugin is enabled!".to_string(),
            timestamp: now,
            unread: false,
        },
    );
    r
}

impl SmsSession {
    /// Replaces the conversations with those the daemon reported, ordered
    /// newest first; of two reports of one thread the first stands.
    pub fn load_conversations(&mut self, list: Vec<Conversation>)
        ensures
            final(self).well_ordered(),
            forall|t: Seq<char>| #[trigger]
                has_thread(final(self).conversation_list(), t) <==> has_thread(list@, t),
            distinct_threads(list@) ==> final(self).conversation_list().to_multiset()
                == list@.to_multiset(),
            forall|c: Conversation| #[trigger]
                final(self).conversation_list().contains(c) ==> c == first_report(list@, c.thread_id@),
            final(self).message_list() == old(self).message_list(),
            final(self).selected() == old(self).selected(),
    {
        let mut out: Vec<Conversation> = Vec::new();
        let n = list.len();
        let mut i: usize = 0;
        while i < n
            invariant
                n == list@.len(),
                i <= n,
                newest_first(out@),
                distinct_threads(out@),
                forall|t: Seq<char>| #[trigger]
                    has_thread(out@, t) <==> has_thread(list@.subrange(0, i as int), t),
                distinct_threads(list@) ==> out@.to_multiset() == list@.subrange(0, i as int).to_multiset(),
                forall|x: Conversation| #[trigger]
                    out@.contains(x) ==> x == first_report(list@.subrange(0, i as int), x.thread_id@),
            decreases n - i,
        {
            let c = list[i].duplicate();
            let ghost prefix = list@.subrange(0, i as int);
            let ghost next = list@.subrange(0, i + 1);
            assert(next =~= prefix.push(list@[i as int]));
            proof {
                assert forall|t: Seq<char>| #[trigger] has_thread(next, t) <==> (has_thread(prefix, t)
                    || t == c.thread_id@) by {
                    if has_thread(next, t) {
                        let a = choose|a: int| 0 <= a < next.len() && #[trigger] next[a].thread_id@ == t;
                        if a < prefix.len() {
                            assert(prefix[a] == next[a]);
                        }
                    }
                    if has_thread(prefix, t) {
                        let a = choose|a: int| 0 <= a < prefix.len() && #[trigger] prefix[a].thread_id@ == t;
                        assert(next[a] == prefix[a]);
                    }
                    if t == c.thread_id@ {
                        assert(next[i as int].thread_id@ == t);
                    }
                }
                if distinct_threads(list@) && has_thread(prefix, c.thread_id@) {
                    let a = choose|a: int| 0 <= a < prefix.len() && #[trigger] prefix[a].thread_id@ == c.thread_id@;
                    assert(list@[a].thread_id@ == list@[i as int].thread_id@);
                }
            }
            let ghost was = out@;
            if find_thread(&out, c.thread_id.as_str()).is_none() {
                insert_conversation(&mut out, c);
            }
            proof {
                assert(next.drop_last() =~= prefix);
                assert forall|x: Conversation| #[trigger] out@.contains(x) implies x == first_report(
                    next,
                    x.thread_id@,
                ) by {
                    if was.contains(x) {
                        let a = choose|a: int| 0 <= a < was.len() && was[a] == x;
                        assert(was[a].thread_id@ == x.thread_id@);
                        assert(has_thread(was, x.thread_id@));
                        assert(has_thread(prefix, x.thread_id@));
                    } else {
                        assert(out@.to_multiset().count(x) > 0);
                        assert(x == c);
                    }
                }
            }
            i = i + 1;
        }
        assert(list@.subrange(0, n as int) =~= list@);
        proof {
            use_type_invariant(&*self);
        }
        self.conversations = out;
    }

    /// Names each conversation after the first contact whose number matches
    /// its own; a conversation no contact matches keeps its name.
    pub fn apply_contacts(&mut self, contacts: &Vec<Contact>)
        ensures
            final(self).well_ordered(),
            final(self).conversation_list().len() == old(self).conversation_list().len(),
            forall|i: int|
                #![trigger final(self).conversation_list()[i]]
                0 <= i < old(self).conversation_list().len() ==> final(self).conversation_list()[i]
                    == renamed(
                    old(self).conversation_list()[i],
                    contact_for(contacts@, old(self).conversation_list()[i].phone_number@),
                ),
            final(self).message_list() == old(self).message_list(),
            final(self).selected() == old(self).selected(),
    {
        proof {
            use_type_invariant(&*self);
        }
        let ghost before = self.conversations@;
        let mut out: Vec<Conversation> = Vec::new();
        let n = self.conversations.len();
        let mut i: usize = 0;
        while i < n
            invariant
                n == before.len(),
                before == self.conversations@,
                i <= n,
                out@.len() == i,
                forall|a: int|
                    0 <= a < i ==> #[trigger] out@[a] == renamed(
                        before[a],
                        contact_for(contacts@, before[a].phone_number@),
                    ),
            decreases n - i,
        {
            let mut c = self.conversations[i].duplicate();
            match find_contact(contacts, c.phone_number.as_str()) {
                Some(name) => {
                    c.contact_name = name;
                },
                None => {},
            }
            out.push(c);
            i = i + 1;
        }
        proof {
            assert forall|a: int, b: int| 0 <= a < b < out@.len() implies #[trigger] out@[a].timestamp
                >= #[trigger] out@[b].timestamp by {
                assert(before[a].timestamp >= before[b].timestamp);
            }
            assert forall|a: int, b: int|
                0 <= a < out@.len() && 0 <= b < out@.len() && a != b implies #[trigger] out@[a].thread_id@
                != #[trigger] out@[b].thread_id@ by {
                assert(before[a].thread_id@ != before[b].thread_id@);
            }
        }
        self.conversations = out;
    }

    /// Opens a chat with `phone` at `now` and returns the thread to select:
    /// the first conversation whose number matches, or else a new one,
    /// "new_<now>", named after the matching contact (or the number itself).
    pub fn start_chat_with_number(&mut self, phone: &str, contacts: &Vec<Contact>, now: i64) -> (r: String)
        ensures
            final(self).well_ordered(),
            final(self).message_list() == old(self).message_list(),
            final(self).selected() == old(self).selected(),
            conversation_for(old(self).conversation_list(), phone@) matches Some(c) ==> r@
                == c.thread_id@ && final(self).conversation_list() == old(self).conversation_list(),
            conversation_for(old(self).conversation_list(), phone@) is None ==> {
                &&& r@ == "new_"@ + decimal_text(now as int)
                &&& has_thread(old(self).conversation_list(), r@) ==> final(self).conversation_list()
                    == old(self).conversation_list()
                &&& !has_thread(old(self).conversation_list(), r@) ==> exists|c: Conversation|
                    new_chat(c, r@, phone@, contacts@, now) && final(self).conversation_list().to_multiset()
                        == old(self).conversation_list().to_multiset().insert(c)
            },
    {
        proof {
            use_type_invariant(&*self);
        }
        match find_conversation(&self.conversations, phone) {
            Some(i) => {
                return self.conversations[i].thread_id.clone();
            },
            None => {},
        }
        let mut thread_id = "new_".to_string();
        push_decimal(&mut thread_id, now);
        if find_thread(&self.conversations, thread_id.as_str()).is_some() {
            return thread_id;
        }
        let contact_name = match find_contact(contacts, phone) {
            Some(name) => name,
            None => phone.to_string(),
        };
        let c = Conversation {
            thread_id: thread_id.clone(),
            contact_name,
            phone_number: phone.to_string(),
            last_message: "New conversation".to_string(),
            timestamp: now,
            unread: false,
        };
        let ghost made = c;
        let mut list: Vec<Conversation> = Vec::new();
        std::mem::swap(&mut self.conversations, &mut list);
        insert_conversation(&mut list, c);
        self.conversations = list;
        assert(new_chat(made, thread_id@, phone@, contacts@, now));
        thread_id
    }
}

impl SmsSession {
    /// Applies one report of the conversation watcher: a message as
    /// [`SmsSession::receive`] does; an error changes nothing.
    pub fn handle_signal_event(&mut self, event: SignalEvent)
        ensures
            event matches SignalEvent::MessageReceived(m) ==> Self::applied(*old(self), *final(self), m),
            event is Error ==> *final(self) == *old(self),
    {
        match event {
            SignalEvent::MessageReceived(m) => self.receive(m),
            SignalEvent::Error(_) => {},
        }
    }
}

} // verus!

//! The slot of the process-wide bus connection.
//!
//! The slot is empty until the first caller needs a connection, then holds
//! the one handle every caller shares, until shutdown empties it. The lock
//! around it is held only to look and to store, never across connecting: two
//! callers that both find the slot empty may both connect, and the later
//! store replaces the earlier handle, which stays valid for its holder. That
//! race is accepted; closing it would mean holding the lock across a bus
//! round trip.

use vstd::prelude::*;

verus! {

/// Holds at most one shared connection handle.
pub struct ConnectionSlot<C> {
    conn: Option<C>,
}

impl<C> ConnectionSlot<C> {
    /// The handle held, if any.
    pub closed spec fn view(&self) -> Option<C> {
        self.conn
    }

    /// An empty slot.
    pub fn new() -> (r: ConnectionSlot<C>)
        ensures
            r@ is None,
    {
        ConnectionSlot { conn: None }
    }

    /// The handle to share, if one is held; when none is, the caller connects
    /// and stores its connection with [`ConnectionSlot::install`].
    pub fn current(&self) -> (r: Option<&C>)
        ensures
            r is None <==> self@ is None,
            r matches Some(c) ==> self@ == Some(*c),
    {
        match &self.conn {
            Some(c) => Some(c),
            None => None,
        }
    }

    /// Stores a new connection handle in place of any held one.
    pub fn install(&mut self, conn: C)
        ensures
            final(self)@ == Some(conn),
    {
        self.conn = Some(conn);
    }

    /// Empties the slot and hands back what it held, to be dropped; emptying
    /// an empty slot does nothing.
    pub fn take(&mut self) -> (r: Option<C>)
        ensures
            r == old(self)@,
            final(self)@ is None,
    {
        let mut held: Option<C> = None;
        std::mem::swap(&mut self.conn, &mut held);
        held
    }
}

} // verus!

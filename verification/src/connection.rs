//! The sending side of a bus connection.
//!
//! A connection keeps the messages handed to it, in the order in which
//! they were sent, until the transport takes them. Once closed it takes
//! no more.

use vstd::prelude::*;

use crate::error::DBusError;
use crate::message::DBusMessage;
use crate::message::DBusMessageView;

verus! {

/// The sending side of a connection to the bus.
#[derive(Debug)]
pub struct DBusConnection {
    open: bool,
    outgoing: Vec<DBusMessage>,
}

/// The views of the messages of `messages`, in order.
pub open spec fn messages_view(messages: Seq<DBusMessage>) -> Seq<DBusMessageView> {
    messages.map_values(|m: DBusMessage| m@)
}

impl DBusConnection {
    /// Whether the connection still takes messages.
    pub closed spec fn is_open(&self) -> bool {
        self.open
    }

    /// The messages sent and not yet taken by the transport, oldest first.
    pub closed spec fn outgoing(&self) -> Seq<DBusMessageView> {
        messages_view(self.outgoing@)
    }

    /// An open connection on which nothing has been sent.
    pub fn new() -> (conn: DBusConnection)
        ensures
            conn.is_open(),
            conn.outgoing() == Seq::<DBusMessageView>::empty(),
    {
        let conn = DBusConnection { open: true, outgoing: Vec::new() };
        conn
    }

    /// Hands `msg` to the connection. A closed connection refuses it and
    /// keeps what it holds; an open one puts it behind the messages sent
    /// before.
    pub fn send(&mut self, msg: DBusMessage) -> (sent: Result<(), DBusError>)
        ensures
            final(self).is_open() == old(self).is_open(),
            old(self).is_open() ==> sent == Ok::<(), DBusError>(())
                && final(self).outgoing() == old(self).outgoing().push(msg@),
            !old(self).is_open() ==> sent == Err::<(), DBusError>(DBusError::Disconnected)
                && final(self).outgoing() == old(self).outgoing(),
    {
        if self.open {
            self.outgoing.push(msg);
            Ok(())
        } else {
            Err(DBusError::Disconnected)
        }
    }

    /// Closes the connection. What was sent before stays to be taken.
    pub fn close(&mut self)
        ensures
            !final(self).is_open(),
            final(self).outgoing() == old(self).outgoing(),
    {
        self.open = false;
    }

    /// Tells whether the connection still takes messages.
    pub fn connected(&self) -> (open: bool)
        ensures
            open == self.is_open(),
    {
        self.open
    }

    /// The number of messages sent and not yet taken.
    pub fn pending(&self) -> (count: usize)
        ensures
            count == self.outgoing().len(),
    {
        self.outgoing.len()
    }

    /// Takes the messages sent so far, oldest first, for transmission.
    pub fn take_outgoing(&mut self) -> (taken: Vec<DBusMessage>)
        ensures
            messages_view(taken@) == old(self).outgoing(),
            final(self).outgoing() == Seq::<DBusMessageView>::empty(),
            final(self).is_open() == old(self).is_open(),
    {
        let mut taken: Vec<DBusMessage> = Vec::new();
        taken.append(&mut self.outgoing);
        taken
    }
}

} // verus!

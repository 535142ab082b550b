//! The split between the one connection-driving owner and the cloneable
//! request-issuing handles, reduced to its observable core: a single live
//! connection carries an ordered queue of incoming events; the driver feeds
//! it, handles drain it, and once it is disconnected every further handle
//! operation fails with a connection-closed error while the event sequence
//! ends.

use vstd::prelude::*;
use crate::auth::InvocationError;
use crate::events::{Event, NextEvent};

verus! {

/// The one shared connection. There is exactly one per process; every handle
/// operation is serialized through it, so this queue is the only shared
/// state the model needs.
pub struct Connection {
    /// Whether the drive operation is still running.
    pub live: bool,
    /// Events produced by the connection, in arrival order, not yet consumed.
    pub pending: Vec<Event>,
}

impl Connection {
    /// A freshly established connection: live, nothing delivered yet.
    pub fn establish() -> (c: Connection)
        ensures
            c.live,
            c.pending@ == Seq::<Event>::empty(),
    {
        Connection { live: true, pending: Vec::new() }
    }

    /// The driver records one more incoming event, behind all earlier ones:
    /// events reach the consumer in the order the connection produced them.
    pub fn deliver(&mut self, event: Event)
        requires
            old(self).live,
        ensures
            final(self).live,
            final(self).pending@ == old(self).pending@.push(event),
    {
        self.pending.push(event);
    }

    /// The drive operation ends: whether a normal disconnect or a sign-out,
    /// the connection stops producing and serving.
    pub fn disconnect(&mut self)
        ensures
            !final(self).live,
            final(self).pending@ == old(self).pending@,
    {
        self.live = false;
    }

    /// What asking for the next event must yield: the end-of-sequence marker
    /// once the connection has ended, the oldest pending event if one is
    /// there, and otherwise nothing yet.
    pub open spec fn next_event_spec(self) -> NextEvent {
        if !self.live {
            NextEvent::Closed
        } else if self.pending@.len() == 0 {
            NextEvent::NotReady
        } else {
            NextEvent::Delivered { event: self.pending@[0] }
        }
    }

    /// A handle asks for the next event; a delivered event leaves the queue,
    /// and the caller of a not-ready answer suspends and asks again.
    pub fn next_event(&mut self) -> (r: NextEvent)
        ensures
            r == old(self).next_event_spec(),
            final(self).live == old(self).live,
            r matches NextEvent::Delivered { .. } ==> final(self).pending@ == old(
                self,
            ).pending@.drop_first(),
            !(r matches NextEvent::Delivered { .. }) ==> final(self).pending@ == old(
                self,
            ).pending@,
    {
        if !self.live {
            NextEvent::Closed
        } else if self.pending.len() == 0 {
            NextEvent::NotReady
        } else {
            let event = self.pending.remove(0);
            assert(self.pending@ =~= old(self).pending@.drop_first());
            NextEvent::Delivered { event }
        }
    }

    /// Gate for submitting a remote call through a handle: accepted while
    /// the connection is live, refused with a connection-closed error for
    /// every pending or future operation once it is not.
    pub fn accept_call(&self) -> (r: Result<(), InvocationError>)
        ensures
            r == if self.live {
                Ok::<(), InvocationError>(())
            } else {
                Err::<(), InvocationError>(InvocationError::ConnectionClosed)
            },
    {
        if self.live {
            Ok(())
        } else {
            Err(InvocationError::ConnectionClosed)
        }
    }
}

} // verus!

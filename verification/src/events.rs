//! Incoming occurrences as the dispatcher sees them: tagged variants for the
//! event itself, for the chat it arrived in, and for its author.

use vstd::prelude::*;

verus! {

/// The container a message arrived in, or the author of one.
#[derive(Clone, Copy, PartialEq, Eq, Structural, Debug)]
pub enum Chat {
    Group { id: i64 },
    Channel { id: i64 },
    PrivateUser { id: i64 },
}

/// One incoming message: where it arrived and, when known, who wrote it.
/// The sender may be absent, as for anonymous or administrative posts.
#[derive(Clone, Copy, PartialEq, Eq, Structural, Debug)]
pub struct Message {
    pub chat: Chat,
    pub sender: Option<Chat>,
}

/// A tagged incoming occurrence. Only new messages are consumed here; the
/// other variants are ignored without error.
#[derive(Clone, Copy, PartialEq, Eq, Structural, Debug)]
pub enum Event {
    NewMessage { message: Message },
    MessageEdited,
    MessageDeleted,
    Other,
}

/// What asking for the next event yields: an event, nothing yet (the caller
/// suspends and asks again), or the end-of-sequence marker of a connection
/// that has ended.
#[derive(Clone, Copy, PartialEq, Eq, Structural, Debug)]
pub enum NextEvent {
    Delivered { event: Event },
    NotReady,
    Closed,
}

} // verus!

//! Verified core of a long-lived messaging client: the session and
//! authentication lifecycle, the split between one connection-driving owner
//! and many request-issuing handles, and the event-consumption loop with its
//! follow-up calls. The network, storage and console sit outside; they feed
//! events into the decision functions proved here.

pub mod auth;
pub mod connection;
pub mod dispatch;
pub mod events;
pub mod session;

//! Persisted credential state and the storage policy around it.
//!
//! The file itself is an opaque blob owned by the protocol layer; what the
//! rest of the program depends on is only where the state came from and
//! whether it is already authorized. Reading and writing the file happens
//! outside; this module decides what each outcome of a read means.

use vstd::prelude::*;

verus! {

/// How the credential state came to exist at process start.
#[derive(Clone, Copy, PartialEq, Eq, Structural, Debug)]
pub enum SessionOrigin {
    /// No file was found, so fresh unauthenticated state was created.
    Created,
    /// A valid file was found and its state restored.
    Loaded,
}

/// Credential state as the rest of the program sees it.
#[derive(Clone, Copy, PartialEq, Eq, Structural, Debug)]
pub struct Session {
    pub origin: SessionOrigin,
    /// Whether the remote side already considers this state authorized, so
    /// that no interactive sign-in is needed.
    pub authorized: bool,
}

/// What reading the session file yielded: no file at the configured path, a
/// record that decoded cleanly, or bytes that did not.
#[derive(Clone, Copy, PartialEq, Eq, Structural, Debug)]
pub enum StoredState {
    Absent,
    Valid { authorized: bool },
    Corrupt,
}

/// Failure to load or persist the session.
#[derive(Clone, Copy, PartialEq, Eq, Structural, Debug)]
pub enum StorageError {
    /// The file existed but did not decode.
    Corrupt,
    /// The file could not be written.
    WriteFailed,
}

/// Turns the outcome of reading the session file into credential state.
/// Absence is not an error: it yields fresh unauthenticated state. Only a
/// file that exists but does not decode fails.
pub fn load_or_create(stored: StoredState) -> (r: Result<Session, StorageError>)
    ensures
        stored is Absent ==> r == Ok::<Session, StorageError>(Session {
            origin: SessionOrigin::Created,
            authorized: false,
        }),
        stored matches StoredState::Valid { authorized } ==> r == Ok::<Session, StorageError>(
            Session { origin: SessionOrigin::Loaded, authorized },
        ),
        stored is Corrupt ==> r == Err::<Session, StorageError>(StorageError::Corrupt),
{
    match stored {
        StoredState::Absent => Ok(Session { origin: SessionOrigin::Created, authorized: false }),
        StoredState::Valid { authorized } => Ok(Session {
            origin: SessionOrigin::Loaded,
            authorized,
        }),
        StoredState::Corrupt => Err(StorageError::Corrupt),
    }
}

} // verus!

//! Errors surfaced by the session engine and the event store.

use vstd::prelude::*;

verus! {

/// Failures of the pty engine's command surface.
#[derive(Debug)]
pub enum PtyError {
    /// A session is already active; the start request was rejected
    /// and the existing session left untouched.
    AlreadyActive,
    /// The OS could not allocate a pty or could not exec the shell;
    /// fatal to that start request, never retried.
    Spawn(String),
    /// The input queue is closed: the writer pump has terminated.
    Write,
    /// The requested size is invalid or the OS rejected the resize;
    /// the pty size is unchanged.
    Resize(String),
    /// The event store rejected a lifecycle or input record.
    Store(String),
}

/// A failure of the durable event store.
#[derive(Debug)]
pub struct StoreError {
    pub message: String,
}

} // verus!

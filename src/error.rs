use vstd::prelude::*;

verus! {

/// The failures a clipboard operation can report.
#[derive(Debug, Clone, PartialEq, Eq)]
pub enum ClipError {
    /// A pipe read, or spawning or capturing a subprocess, failed.
    Io(String),
    /// A handle to the underlying mechanism could not be created.
    Init(String),
    /// The underlying mechanism refused the operation.
    Protocol(String),
    /// The shared handle was already in use in a conflicting way.
    Contention,
    /// The underlying mechanism aborted internally; the abort was contained.
    Aborted(String),
}

} // verus!

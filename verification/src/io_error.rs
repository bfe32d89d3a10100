use vstd::prelude::*;

verus! {

/// The kinds of I/O failure that the replication logic tells apart.
#[derive(Debug, Clone, Copy, PartialEq, Eq, Structural)]
pub enum IoErrorKind {
    /// The requested key holds no data.
    NotFound,
    /// Any other failure.
    Other,
}

/// An I/O failure reported by a local or remote key-value store.
#[derive(Debug, Clone, PartialEq, Eq)]
pub struct IoError {
    pub kind: IoErrorKind,
    pub message: String,
}

impl IoError {
    /// A failure of the given kind with the given message.
    pub fn new(kind: IoErrorKind, message: String) -> (r: IoError)
        ensures
            r.kind == kind,
            r.message@ == message@,
    {
        IoError { kind, message }
    }
}

} // verus!

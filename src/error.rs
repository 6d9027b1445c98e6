use vstd::prelude::*;

verus! {

/// The kinds of failure that the library reports.
#[derive(Clone, Copy, Debug, PartialEq, Eq, Structural)]
pub enum ErrorKind {
    /// Malformed JSON input, or input of an unsupported shape.
    InvalidJson,
    /// The handle names no live instance.
    InvalidHandle,
    /// The handle names no live credential instance.
    InvalidCredentialHandle,
    /// The operation is not valid in the instance's current state.
    InvalidState,
    /// The transport handed back a message of an unexpected shape.
    InvalidMessages,
    /// An explicitly supplied message could not be read.
    InvalidOption,
    /// The operation is deliberately not implemented.
    ActionNotSupported,
    /// The registry cannot allocate another handle.
    ObjectCacheFull,
}

impl ErrorKind {
    /// Whether this error says that a handle is unknown.
    pub open spec fn is_unknown_handle(self) -> bool {
        self == ErrorKind::InvalidHandle || self == ErrorKind::InvalidCredentialHandle
    }
}

} // verus!

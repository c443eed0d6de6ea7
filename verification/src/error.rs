//! The error type carried by exception events.

use vstd::prelude::*;
use vstd::string::StringExecFns;

verus! {

/// What went wrong, in broad terms.
#[derive(Debug, Clone, Copy, PartialEq, Eq, Hash, Structural)]
pub enum ErrorKind {
    /// A datagram was written without a peer address.
    NotConnected,
    /// A line grew past the configured maximum before its terminator arrived.
    FrameTooLong,
    /// Bytes that should have been UTF-8 were not.
    InvalidData,
    /// Anything else, including a message of the wrong type for a handler.
    Other,
}

/// An error: a kind and a message for people.
#[derive(Debug, PartialEq, Eq)]
pub struct Error {
    kind: ErrorKind,
    message: String,
}

/// The mathematical content of an [`Error`].
pub struct ErrorView {
    pub kind: ErrorKind,
    pub message: Seq<char>,
}

impl View for Error {
    type V = ErrorView;

    closed spec fn view(&self) -> ErrorView {
        ErrorView { kind: self.kind, message: self.message@ }
    }
}

impl Error {
    /// An error of the given kind with the given message.
    pub fn new(kind: ErrorKind, message: String) -> (e: Error)
        ensures
            e@ == (ErrorView { kind, message: message@ }),
    {
        Error { kind, message }
    }

    /// The kind given at construction.
    pub fn kind(&self) -> (k: ErrorKind)
        ensures
            k == self@.kind,
    {
        self.kind
    }

    /// The message given at construction.
    pub fn message(&self) -> (m: &str)
        ensures
            m@ == self@.message,
    {
        self.message.as_str()
    }

    /// The message, as an owned string.
    pub fn to_string(&self) -> (s: String)
        ensures
            s@ == self@.message,
    {
        self.message.clone()
    }
}

/// The text of the error raised when a handler is handed a message whose body
/// it does not accept: a fixed prefix followed by the handler's name.
pub open spec fn downcast_message(id: Seq<char>) -> Seq<char> {
    "message.downcast_mut error for "@ + id
}

/// The error raised when the handler called `id` is handed a message whose
/// body it does not accept.
pub open spec fn downcast_error_view(id: Seq<char>) -> ErrorView {
    ErrorView { kind: ErrorKind::Other, message: downcast_message(id) }
}

/// Builds the error described by [`downcast_error_view`].
pub fn downcast_error(id: &str) -> (e: Error)
    ensures
        e@ == downcast_error_view(id@),
{
    let message = String::from_str("message.downcast_mut error for ").concat(id);
    Error::new(ErrorKind::Other, message)
}

} // verus!

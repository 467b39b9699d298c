//! The failures that cross the boundary: a kind to branch on and a message.

use vstd::prelude::*;

verus! {

/// What went wrong, as the caller on the far side of the boundary tells it apart.
#[derive(Clone, Copy, Debug, PartialEq, Eq, Structural)]
pub enum ErrorKind {
    /// A stream could not be connected: refused, unreachable, unresolved, timed out.
    ConnectionError,
    /// A datagram socket could not be bound to its local address.
    BindError,
    /// The peer address given to a datagram socket was malformed or unresolvable.
    AddressError,
    /// A datagram was to be sent before any default peer was set.
    NotConnectedError,
    /// The transport failed during a transfer.
    IoError,
    /// The stream ended before an exact read was complete.
    UnexpectedEofError,
    /// The bytes read are not valid text.
    EncodingError,
}

/// A failure: its kind, and the message that goes with it.
///
/// A failure is always a value of this type, never a count: no number that an
/// operation returns on success can be mistaken for one.
#[derive(Debug, PartialEq, Eq)]
pub struct Error {
    /// What the caller branches on.
    pub kind: ErrorKind,
    /// What the transport said of its failure, or the library's fixed text.
    pub message: String,
}

/// An [`Error`] as contracts see it.
pub struct ErrorView {
    /// The kind of the failure.
    pub kind: ErrorKind,
    /// The characters of its message.
    pub message: Seq<char>,
}

impl View for Error {
    type V = ErrorView;

    open spec fn view(&self) -> ErrorView {
        ErrorView { kind: self.kind, message: self.message@ }
    }
}

/// The message of a transfer that claims to have moved more bytes than it was offered.
pub const OVERRUN: &'static str = "transport moved more bytes than requested";

/// The message of an exact read that met the end of the stream.
pub const UNEXPECTED_EOF: &'static str = "failed to fill whole buffer";

/// The message of a write that could make no further progress.
pub const WRITE_ZERO: &'static str = "failed to write whole buffer";

/// The message of a text read whose bytes are not valid UTF-8.
pub const INVALID_TEXT: &'static str = "stream did not contain valid UTF-8";

/// The message of a send on a datagram socket that has no default peer.
pub const NO_PEER: &'static str = "no default peer has been set";

/// The failure of the given kind with the given message.
pub open spec fn failure(kind: ErrorKind, message: Seq<char>) -> ErrorView {
    ErrorView { kind, message }
}

/// A result as contracts see it: the success as it is, the failure by its view.
pub open spec fn seen<T>(result: Result<T, Error>) -> Result<T, ErrorView> {
    match result {
        Ok(value) => Ok(value),
        Err(error) => Err(error@),
    }
}

impl ErrorKind {
    /// The name of the kind, as the far side of the boundary reads it.
    pub open spec fn name_of(self) -> Seq<char> {
        match self {
            ErrorKind::ConnectionError => "ConnectionError"@,
            ErrorKind::BindError => "BindError"@,
            ErrorKind::AddressError => "AddressError"@,
            ErrorKind::NotConnectedError => "NotConnectedError"@,
            ErrorKind::IoError => "IoError"@,
            ErrorKind::UnexpectedEofError => "UnexpectedEofError"@,
            ErrorKind::EncodingError => "EncodingError"@,
        }
    }

    /// The name of the kind.
    pub fn name(self) -> (name: &'static str)
        ensures
            name@ == self.name_of(),
    {
        match self {
            ErrorKind::ConnectionError => "ConnectionError",
            ErrorKind::BindError => "BindError",
            ErrorKind::AddressError => "AddressError",
            ErrorKind::NotConnectedError => "NotConnectedError",
            ErrorKind::IoError => "IoError",
            ErrorKind::UnexpectedEofError => "UnexpectedEofError",
            ErrorKind::EncodingError => "EncodingError",
        }
    }
}

impl Error {
    /// A failure of the given kind with the given message.
    pub fn new(kind: ErrorKind, message: String) -> (error: Error)
        ensures
            error@ == failure(kind, message@),
    {
        Error { kind, message }
    }

    /// A failure of the given kind whose message is a fixed text.
    pub fn fixed(kind: ErrorKind, message: &str) -> (error: Error)
        ensures
            error@ == failure(kind, message@),
    {
        Error { kind, message: message.to_string() }
    }

    /// The failure in one line: the name of its kind, a colon and a space, and its message.
    pub fn describe(&self) -> (line: String)
        ensures
            line@ == self.kind.name_of() + ": "@ + self.message@,
    {
        let mut line = self.kind.name().to_string();
        line.append(": ");
        line.append(self.message.as_str());
        line
    }
}

} // verus!

//! What can go wrong on the window manager's sockets.

use vstd::prelude::*;

verus! {

/// The kind of an I/O failure, as the operating system tells them apart.
/// The retry policy asks only whether the pipe broke.
#[derive(Clone, Copy, Debug, PartialEq, Eq, Structural)]
pub enum IoErrorKind {
    NotFound,
    PermissionDenied,
    ConnectionRefused,
    ConnectionReset,
    ConnectionAborted,
    NotConnected,
    AddrInUse,
    AddrNotAvailable,
    /// The remote end reset or closed the pipe: it was not ready yet.
    BrokenPipe,
    AlreadyExists,
    WouldBlock,
    InvalidInput,
    InvalidData,
    TimedOut,
    WriteZero,
    Interrupted,
    Unsupported,
    UnexpectedEof,
    OutOfMemory,
    /// Any other failure.
    Other,
}

/// A failure to open, write or read a socket.
#[derive(Clone, Debug, PartialEq, Eq)]
pub struct IoError {
    pub kind: IoErrorKind,
    /// What the operating system said.
    pub message: String,
}

/// A failure of the event stream or of a command.
#[derive(Clone, Debug, PartialEq, Eq)]
pub enum Error {
    /// A socket could not be opened, written or read.
    Io(IoError),
    /// A command's reply is no well-formed document of the expected shape;
    /// the text describes what was found.
    Json(String),
    /// Every attempt of a command met a broken pipe.
    MaxRetriesExceeded,
    /// A line without the token that ends the event's name.
    MissingSeparator,
    /// A well-formed line whose name is none of the known events.
    UnknownEvent(String),
    /// The named event came with fewer fields than it has.
    MissingField(String),
    /// The token stands where an address belongs and is no hexadecimal number.
    InvalidAddress(String),
    /// The token stands where a flag belongs and is neither `0` nor `1`.
    InvalidFlag(String),
    /// The stream was asked to go on after it had closed.
    StreamClosed,
}

/// An [`Error`] with its texts as sequences of characters.
pub enum ErrorView {
    Io { kind: IoErrorKind, message: Seq<char> },
    Json(Seq<char>),
    MaxRetriesExceeded,
    MissingSeparator,
    UnknownEvent(Seq<char>),
    MissingField(Seq<char>),
    InvalidAddress(Seq<char>),
    InvalidFlag(Seq<char>),
    StreamClosed,
}

impl View for Error {
    type V = ErrorView;

    open spec fn view(&self) -> ErrorView {
        match *self {
            Error::Io(IoError { kind, message }) => ErrorView::Io { kind, message: message@ },
            Error::Json(text) => ErrorView::Json(text@),
            Error::MaxRetriesExceeded => ErrorView::MaxRetriesExceeded,
            Error::MissingSeparator => ErrorView::MissingSeparator,
            Error::UnknownEvent(name) => ErrorView::UnknownEvent(name@),
            Error::MissingField(name) => ErrorView::MissingField(name@),
            Error::InvalidAddress(token) => ErrorView::InvalidAddress(token@),
            Error::InvalidFlag(token) => ErrorView::InvalidFlag(token@),
            Error::StreamClosed => ErrorView::StreamClosed,
        }
    }
}

} // verus!

//! The failure taxonomy shared by both backends.
use vstd::prelude::*;

verus! {

/// The kind of a failure, without its message.
#[derive(Clone, Copy, Debug, PartialEq, Eq, Structural)]
pub enum ErrorKind {
    NotFound,
    Unsupported,
    Io,
    PlatformCallFailed,
}

/// A failure with a human-readable message.
///
/// `NotFound`: a source file or a storage directory is missing.
/// `Unsupported`: the backend has no implementation of the operation.
/// `Io`: a read, write or copy failed, or a file name is unusable.
/// `PlatformCallFailed`: the forwarded native call itself failed.
#[derive(Debug)]
pub enum Error {
    NotFound(String),
    Unsupported(String),
    Io(String),
    PlatformCallFailed(String),
}

/// What an error is, as a value: its kind and its message.
pub struct ErrorModel {
    pub kind: ErrorKind,
    pub message: Seq<char>,
}

impl View for Error {
    type V = ErrorModel;

    open spec fn view(&self) -> ErrorModel {
        match self {
            Error::NotFound(m) => ErrorModel { kind: ErrorKind::NotFound, message: m@ },
            Error::Unsupported(m) => ErrorModel { kind: ErrorKind::Unsupported, message: m@ },
            Error::Io(m) => ErrorModel { kind: ErrorKind::Io, message: m@ },
            Error::PlatformCallFailed(m) => ErrorModel {
                kind: ErrorKind::PlatformCallFailed,
                message: m@,
            },
        }
    }
}

impl Error {
    /// Builds an error of the given kind with the given message.
    pub fn new(kind: ErrorKind, message: String) -> (r: Error)
        ensures
            r@ == (ErrorModel { kind, message: message@ }),
    {
        match kind {
            ErrorKind::NotFound => Error::NotFound(message),
            ErrorKind::Unsupported => Error::Unsupported(message),
            ErrorKind::Io => Error::Io(message),
            ErrorKind::PlatformCallFailed => Error::PlatformCallFailed(message),
        }
    }

    pub fn kind(&self) -> (r: ErrorKind)
        ensures
            r == self@.kind,
    {
        match self {
            Error::NotFound(_) => ErrorKind::NotFound,
            Error::Unsupported(_) => ErrorKind::Unsupported,
            Error::Io(_) => ErrorKind::Io,
            Error::PlatformCallFailed(_) => ErrorKind::PlatformCallFailed,
        }
    }

    /// The message, as `to_string` would give it.
    pub fn message(&self) -> (r: String)
        ensures
            r@ == self@.message,
    {
        match self {
            Error::NotFound(m) => m.clone(),
            Error::Unsupported(m) => m.clone(),
            Error::Io(m) => m.clone(),
            Error::PlatformCallFailed(m) => m.clone(),
        }
    }
}

} // verus!

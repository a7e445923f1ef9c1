//! Error reporting for device discovery and refresh.

use vstd::prelude::*;

verus! {

/// The three failure classes surfaced by adapters: a missing identity or
/// subsystem, a malformed or semantically inconsistent raw field, and an
/// underlying read or transport failure.
#[derive(Clone, Copy, Debug, PartialEq, Eq, Structural)]
pub enum ErrorKind {
    NotFound,
    InvalidData,
    Io,
}

/// Ghost description of an [`Error`]: its kind and its message text.
pub ghost struct ErrorModel {
    pub kind: ErrorKind,
    pub message: Seq<char>,
}

/// The result shape every fallible operation of the library uses.
pub type Result<T> = core::result::Result<T, Error>;

/// An adapter-reported failure, carrying its class and a short description.
#[derive(Clone, Debug)]
pub struct Error {
    kind: ErrorKind,
    message: String,
}

impl View for Error {
    type V = ErrorModel;

    closed spec fn view(&self) -> ErrorModel {
        ErrorModel { kind: self.kind, message: self.message@ }
    }
}

impl Error {
    /// A requested identity or subsystem is absent.
    pub fn not_found(message: &str) -> (r: Error)
        ensures
            r@.kind == ErrorKind::NotFound,
            r@.message == message@,
    {
        Error { kind: ErrorKind::NotFound, message: message.to_owned() }
    }

    /// A required raw field is missing, malformed, or inconsistent.
    pub fn invalid_data(message: &str) -> (r: Error)
        ensures
            r@.kind == ErrorKind::InvalidData,
            r@.message == message@,
    {
        Error { kind: ErrorKind::InvalidData, message: message.to_owned() }
    }

    /// An underlying read or transport failure.
    pub fn io(message: &str) -> (r: Error)
        ensures
            r@.kind == ErrorKind::Io,
            r@.message == message@,
    {
        Error { kind: ErrorKind::Io, message: message.to_owned() }
    }

    /// A fresh error carrying the same kind and message.
    pub fn duplicate(&self) -> (r: Error)
        ensures
            r@ == self@,
    {
        Error { kind: self.kind, message: self.message.clone() }
    }

    pub fn kind(&self) -> (r: ErrorKind)
        ensures
            r == self@.kind,
    {
        self.kind
    }

    pub fn message(&self) -> (r: &str)
        ensures
            r@ == self@.message,
    {
        self.message.as_str()
    }
}

} // verus!

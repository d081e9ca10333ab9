use vstd::prelude::*;

verus! {

/// The classes of failure a request can end in.
#[derive(Debug, Clone, Copy, PartialEq, Eq, Structural)]
pub enum ErrorKind {
    /// Malformed input: an identifier or a body that does not parse.
    Validation,
    /// The addressed todo does not exist.
    NotFound,
    /// Missing or wrong credentials.
    Unauthorized,
    /// The store failed: exhaustion, I/O, a violated constraint.
    Store,
    /// The request ran past its deadline.
    Timeout,
}

impl ErrorKind {
    /// The HTTP status that reports this kind of failure.
    pub open spec fn status(self) -> u16 {
        match self {
            ErrorKind::Validation => 400,
            ErrorKind::NotFound => 404,
            ErrorKind::Unauthorized => 401,
            ErrorKind::Store => 500,
            ErrorKind::Timeout => 503,
        }
    }

    pub fn status_code(&self) -> (r: u16)
        ensures
            r == self.status(),
    {
        match self {
            ErrorKind::Validation => 400,
            ErrorKind::NotFound => 404,
            ErrorKind::Unauthorized => 401,
            ErrorKind::Store => 500,
            ErrorKind::Timeout => 503,
        }
    }
}

/// A failed request: its kind and a diagnostic message.
#[derive(Debug, Clone)]
pub struct Error {
    pub kind: ErrorKind,
    pub message: String,
}

impl Error {
    pub fn new(kind: ErrorKind, message: String) -> (r: Error)
        ensures
            r.kind == kind,
            r.message@ == message@,
    {
        Error { kind, message }
    }

    /// An error of `kind` with a fixed message.
    pub fn with_text(kind: ErrorKind, message: &str) -> (r: Error)
        ensures
            r.kind == kind,
            r.message@ == message@,
    {
        Error { kind, message: message.to_owned() }
    }

    /// The HTTP status that reports this error.
    pub fn status_code(&self) -> (r: u16)
        ensures
            r == self.kind.status(),
    {
        self.kind.status_code()
    }
}

} // verus!

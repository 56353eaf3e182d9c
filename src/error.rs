//! The miner's errors: a kind, inspected by policy, and an optional underlying cause.

use vstd::prelude::*;

verus! {

/// What went wrong, with a short description.
#[derive(Clone, Debug, PartialEq, Eq)]
pub enum ErrorKind {
    /// Standard input/output error.
    Io(String),
    /// A logic or contract violation.
    General(String),
    /// An error of the hashing backend.
    Backend(String),
    /// A USB transfer of the backend failed.
    Usb(String),
    /// Measuring or computing a duration failed.
    Timer(String),
}

/// An error of the miner: its kind and, where there is one, the description of the error
/// that caused it.
#[derive(Clone, Debug, PartialEq, Eq)]
pub struct Error {
    pub kind: ErrorKind,
    pub cause: Option<String>,
}

impl Error {
    /// An error of the given kind with no underlying cause.
    pub fn from_kind(kind: ErrorKind) -> (r: Error)
        ensures
            r.kind == kind,
            r.cause.is_none(),
    {
        Error { kind, cause: None }
    }

    /// An error of the given kind caused by an error described as `cause`.
    pub fn with_cause(kind: ErrorKind, cause: String) -> (r: Error)
        ensures
            r.kind == kind,
            r.cause == Some(cause),
    {
        Error { kind, cause: Some(cause) }
    }

    /// The kind of the error, the one value that policy inspects.
    pub fn kind(&self) -> (r: ErrorKind)
        ensures
            r == self.kind,
    {
        match &self.kind {
            ErrorKind::Io(s) => ErrorKind::Io(s.clone()),
            ErrorKind::General(s) => ErrorKind::General(s.clone()),
            ErrorKind::Backend(s) => ErrorKind::Backend(s.clone()),
            ErrorKind::Usb(s) => ErrorKind::Usb(s.clone()),
            ErrorKind::Timer(s) => ErrorKind::Timer(s.clone()),
        }
    }
}

/// A backend error caused by an error whose description is `msg`.
pub fn from_error(msg: String) -> (r: Error)
    ensures
        r.kind == ErrorKind::Backend(msg),
        r.cause == Some(msg),
{
    Error { kind: ErrorKind::Backend(msg.clone()), cause: Some(msg) }
}

/// A backend error with the description `kind` and no underlying cause.
pub fn from_error_kind(kind: String) -> (r: Error)
    ensures
        r.kind == ErrorKind::Backend(kind),
        r.cause.is_none(),
{
    Error { kind: ErrorKind::Backend(kind), cause: None }
}

/// A USB error with the given description, caused by an error described as `cause`
/// where there is one.
pub fn usb_error(what: &str, cause: Option<String>) -> (r: Error)
    ensures
        r.kind is Usb,
        r.kind->Usb_0@ == what@,
        r.cause == cause,
{
    Error { kind: ErrorKind::Usb(what.to_owned()), cause }
}

} // verus!

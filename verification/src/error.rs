//! The errors that the library reports.

use vstd::prelude::*;

verus! {

/// What went wrong, by kind.
#[derive(Debug, Clone, Copy, PartialEq, Eq, Structural)]
pub enum ErrorKind {
    /// A desired value is malformed.
    InvalidArgument,
    /// The apply path cannot express a desired feature.
    NotImplementedError,
    /// The backend broke its contract.
    Bug,
    /// A transport or backend failure.
    BackendError,
}

/// An error of the reconciliation engine.
#[derive(Debug, PartialEq, Eq)]
pub struct NmstateError {
    pub kind: ErrorKind,
    pub msg: String,
}

impl NmstateError {
    /// An error of the given kind with the given message.
    pub fn new(kind: ErrorKind, msg: String) -> (e: Self)
        ensures
            e.kind == kind,
            e.msg@ == msg@,
    {
        NmstateError { kind, msg }
    }

    /// The kind of the error.
    pub fn kind(&self) -> (k: ErrorKind)
        ensures
            k == self.kind,
    {
        self.kind
    }

    /// The message of the error.
    pub fn msg(&self) -> (m: &str)
        ensures
            m@ == self.msg@,
    {
        self.msg.as_str()
    }
}

/// An error of the profile backend's adapter.
#[derive(Debug, PartialEq, Eq)]
pub struct NmError {
    pub kind: ErrorKind,
    pub msg: String,
}

impl NmError {
    /// An error of the given kind with the given message.
    pub fn new(kind: ErrorKind, msg: String) -> (e: Self)
        ensures
            e.kind == kind,
            e.msg@ == msg@,
    {
        NmError { kind, msg }
    }
}

/// Wraps an error of the profile backend's adapter: the kind and the message
/// are kept.
pub fn nm_error_to_nmstate(e: NmError) -> (r: NmstateError)
    ensures
        r.kind == e.kind,
        r.msg@ == e.msg@,
{
    NmstateError { kind: e.kind, msg: e.msg }
}

} // verus!

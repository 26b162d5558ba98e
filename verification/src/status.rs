//! Error values reported by the remote data-API collaborator.

use vstd::prelude::*;

verus! {

/// What went wrong when talking to the remote data API.
#[derive(Clone, Copy, PartialEq, Eq, Structural, Debug)]
pub enum DbErrorKind {
    /// The remote endpoint could not be reached.
    ConnectRefused,
    /// The remote endpoint answered with data the caller could not use.
    DataError,
}

/// An error from the remote data API: a kind plus the transport's message.
#[derive(Clone, Debug)]
pub struct DbApiError {
    pub kind: DbErrorKind,
    pub message: String,
}

impl DbApiError {
    pub fn new(kind: DbErrorKind, message: String) -> (r: DbApiError)
        ensures
            r.kind == kind,
            r.message@ == message@,
    {
        DbApiError { kind, message }
    }
}

} // verus!

//! The error taxonomy of the query-execution layer.

use vstd::prelude::*;

verus! {

/// Every failure this layer can surface to a caller.
///
/// `ConnectionError` and `ExecutionError` carry the backend-reported
/// message; all other variants are conditions this layer detects itself.
#[derive(Debug, PartialEq)]
pub enum Error {
    /// A session could not be established.
    ConnectionError(String),
    /// The pool is at its configured maximum and no idle connection exists.
    PoolExhausted,
    /// The pool was shut down; no new acquisition succeeds.
    PoolClosed,
    /// A statement mixes placeholder styles or uses the wrong style
    /// for its backend.
    MalformedStatement,
    /// The number of bound parameters differs from the number of
    /// placeholders in the statement text.
    ParameterCountMismatch,
    /// A session-initialization statement (pragma) failed; the connection
    /// must be discarded.
    SessionInitError,
    /// A stored value cannot convert to the requested type.
    TypeMismatch,
    /// The backend rejected a statement; carries its message.
    ExecutionError(String),
    /// A fetch that requires at least one row saw none.
    NoRowsReturned,
}

impl Clone for Error {
    fn clone(&self) -> (r: Self)
        ensures
            r == *self,
    {
        match self {
            Error::ConnectionError(m) => Error::ConnectionError(m.clone()),
            Error::PoolExhausted => Error::PoolExhausted,
            Error::PoolClosed => Error::PoolClosed,
            Error::MalformedStatement => Error::MalformedStatement,
            Error::ParameterCountMismatch => Error::ParameterCountMismatch,
            Error::SessionInitError => Error::SessionInitError,
            Error::TypeMismatch => Error::TypeMismatch,
            Error::ExecutionError(m) => Error::ExecutionError(m.clone()),
            Error::NoRowsReturned => Error::NoRowsReturned,
        }
    }
}

} // verus!

//! The error type shared by the library.

use vstd::prelude::*;

verus! {

/// The ways in which an operation of the library can fail; each carries a
/// human-readable message.
#[derive(Clone, Debug, PartialEq, Eq)]
pub enum Error {
    /// An argument had an invalid value.
    InvalidArgument(String),
    /// An operation was called in a state in which it is not allowed.
    InvalidOperation(String),
    /// The thread-local logger could not be updated.
    LogError(String),
    /// An object could not be constructed.
    ConstructFailed(String),
    /// Any other failure.
    Other(String),
}

/// Result type used throughout the library.
pub type Result<T> = core::result::Result<T, Error>;

/// `r` is an invalid-argument error with message `msg`.
pub open spec fn is_inv_arg<T>(r: Result<T>, msg: Seq<char>) -> bool {
    r matches Err(Error::InvalidArgument(m)) && m@ == msg
}

/// `r` is an invalid-operation error with message `msg`.
pub open spec fn is_inv_op<T>(r: Result<T>, msg: Seq<char>) -> bool {
    r matches Err(Error::InvalidOperation(m)) && m@ == msg
}

/// `r` is an error of kind `Other` with message `msg`.
pub open spec fn is_other<T>(r: Result<T>, msg: Seq<char>) -> bool {
    r matches Err(Error::Other(m)) && m@ == msg
}

} // verus!

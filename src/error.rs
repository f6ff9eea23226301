//! Errors of the library.

use vstd::prelude::*;

verus! {

/// What can go wrong while browsing.
#[derive(Debug, PartialEq, Eq)]
pub enum CustomError {
    /// The remote repository could not be reached.
    RemoteUnavailable(String),
    /// The remote repository refused the request.
    RemoteRejected(String),
    /// Navigation was attempted while nothing had been fetched yet.
    NoDataToList,
}

} // verus!

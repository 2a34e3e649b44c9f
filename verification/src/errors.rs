//! Error taxonomy for cluster lifecycle operations.
//!
//! Every failure surfaced by the core falls into one of these categories;
//! each carries diagnostic text for the invoking command to print. Errors
//! abort the operation that raised them: nothing in the core retries.

use vstd::prelude::*;

verus! {

/// The kinds of failure a lifecycle operation can surface.
#[derive(Debug)]
pub enum Error {
    /// Missing or invalid credentials (cloud API token, helper credentials).
    AuthError(String),
    /// Non-success HTTP status or malformed remote response.
    RemoteError(String),
    /// External tool missing, non-zero exit, or unreadable output.
    ProcessError(String),
    /// Registry directory already exists on create, or entry missing on
    /// delete/config.
    StateError(String),
    /// I/O failure creating or removing directories or files.
    FilesystemError(String),
}

impl Error {
    /// The diagnostic text carried by this error.
    pub fn message(&self) -> (r: &String)
        ensures
            r@ == self.text(),
    {
        match self {
            Error::AuthError(m) => m,
            Error::RemoteError(m) => m,
            Error::ProcessError(m) => m,
            Error::StateError(m) => m,
            Error::FilesystemError(m) => m,
        }
    }

    /// The diagnostic text, as a mathematical sequence.
    pub open spec fn text(self) -> Seq<char> {
        match self {
            Error::AuthError(m) => m@,
            Error::RemoteError(m) => m@,
            Error::ProcessError(m) => m@,
            Error::StateError(m) => m@,
            Error::FilesystemError(m) => m@,
        }
    }
}

} // verus!

//! The failures that the browser reports to its user.

use vstd::prelude::*;

verus! {

/// A directory that could not be listed.
#[derive(Debug, Clone, PartialEq, Eq)]
pub enum ScanError {
    /// The directory could not be opened; the reason as the system gave it.
    Unreadable(String),
}

/// A ledger that could not be read or written.
#[derive(Debug, Clone, PartialEq, Eq)]
pub enum LedgerError {
    /// The ledger file exists but does not hold a ledger.
    Malformed(String),
    /// The ledger file could not be read or written.
    IoFailure(String),
}

/// A delete that did not happen, or happened only in part.
#[derive(Debug, Clone, PartialEq, Eq)]
pub enum DeleteError {
    SourceMissing,
    PermissionDenied,
    /// The holding area lies on another device than the object.
    CrossDevice,
    /// The object was moved into the holding area but is not recorded.
    LedgerWriteFailed(LedgerError),
    /// Any other failure, as the system reported it.
    Failed(String),
}

/// The message shown to the user until it is cleared.
#[derive(Debug, Clone, PartialEq, Eq)]
pub enum ErrorMessage {
    Scan(ScanError),
    Delete(DeleteError),
    /// A delete of the parent-directory marker was refused.
    ParentNotRemovable,
    /// A delete with nothing selected was refused.
    NothingSelected,
    /// The colour scheme could not be loaded.
    Colors(String),
}

} // verus!

//! The error type shared by the file dialogs and file transfers.
//!
//! The dialogs and the reads and writes themselves are performed by the host
//! process; whichever way one of them fails, the outcome is reported back to
//! the state machine as a value of [`Error`], and in any case the state
//! machine can show a message to the user.

use vstd::prelude::*;

use crate::model::ErrorView;

verus! {

/// Why a file could not be opened or saved.
#[derive(Debug, Clone, PartialEq, Eq)]
pub enum Error {
    /// The user dismissed the file dialog without picking a file.
    DialogClosed,
    /// The read or write failed; the payload is the host's description of the
    /// I/O error kind, produced where the operation ran.
    IoError(String),
}

impl View for Error {
    type V = ErrorView;

    open spec fn view(&self) -> ErrorView {
        match self {
            Error::DialogClosed => ErrorView::DialogClosed,
            Error::IoError(kind) => ErrorView::IoError(kind@),
        }
    }
}

} // verus!

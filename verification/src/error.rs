//! The errors of this library.

use vstd::prelude::*;

verus! {

/// Why an operation failed.
#[derive(Debug)]
pub enum Error {
    /// An input does not fit the operation.
    Index { message: String },
    /// Arrow refused an array.
    Arrow { message: String },
}

/// An error, its message taken as a sequence of characters.
pub enum ErrorView {
    Index { message: Seq<char> },
    Arrow { message: Seq<char> },
}

impl View for Error {
    type V = ErrorView;

    open spec fn view(&self) -> ErrorView {
        match self {
            Error::Index { message } => ErrorView::Index { message: message@ },
            Error::Arrow { message } => ErrorView::Arrow { message: message@ },
        }
    }
}

} // verus!

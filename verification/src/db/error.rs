//! How an operation on the store can fail.
use vstd::prelude::*;

verus! {

/// The ways an operation on the store fails.
#[derive(Clone, Copy, Debug, PartialEq, Eq, Structural)]
pub enum ErrorKind {
    /// No row has the id that was asked for.
    NotFound,
    /// The store kept a rule of its tables and refused the row: a post that
    /// refers to no person, an id that is taken.
    ConstraintViolation,
    /// The store could not be reached, or gave no connection.
    Connectivity,
}

/// A failed operation on the store: what kind of failure, and the store's own
/// words for it.
#[derive(Clone, Debug, PartialEq, Eq)]
pub struct Error {
    pub kind: ErrorKind,
    pub message: String,
}

/// An [`Error`] as mathematical values.
pub struct ErrorView {
    pub kind: ErrorKind,
    pub message: Seq<char>,
}

impl View for Error {
    type V = ErrorView;

    open spec fn view(&self) -> ErrorView {
        ErrorView { kind: self.kind, message: self.message@ }
    }
}

impl DeepView for Error {
    type V = ErrorView;

    open spec fn deep_view(&self) -> ErrorView {
        self@
    }
}

} // verus!

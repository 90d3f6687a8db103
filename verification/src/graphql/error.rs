//! How the API tells a caller that an operation failed.
use crate::db::error::Error;
use vstd::prelude::*;
use vstd::std_specs::convert::FromSpecImpl;

verus! {

/// The failure of one operation, as the API reports it: a message.
#[derive(Clone, Debug, PartialEq, Eq)]
pub struct FieldError {
    pub message: String,
}

/// What an operation of the API returns.
pub type FieldResult<T> = Result<T, FieldError>;

impl FromSpecImpl<Error> for FieldError {
    open spec fn obeys_from_spec() -> bool {
        true
    }

    open spec fn from_spec(error: Error) -> FieldError {
        FieldError { message: error.message }
    }
}

impl From<Error> for FieldError {
    /// Reports a failure of the store in the store's own words.
    fn from(error: Error) -> (refusal: FieldError)
        ensures
            refusal.message@ == error.message@,
    {
        FieldError { message: error.message }
    }
}

} // verus!

//! The ways in which an invocation can fail.

use vstd::prelude::*;

verus! {

/// Why an invocation was aborted. Every failure leaves the ledger as it was.
#[derive(Clone, Copy, Debug, PartialEq, Eq, Structural)]
pub enum Error {
    /// A named key that was expected in the namespace is absent.
    MissingKey,
    /// A named key resolved to a reference of another sort than the one required.
    UnexpectedKeyVariant,
    /// The referenced cell could not be materialised.
    ReadFailure,
    /// The cell exists, but what it holds is not a value of the expected type.
    ValueNotFound,
    /// A required invocation argument was not supplied.
    MissingArgument,
}

impl Error {
    /// A short, stable name of the error kind.
    pub fn describe(&self) -> (text: String)
        ensures
            text@ == (match *self {
                Error::MissingKey => "missing key"@,
                Error::UnexpectedKeyVariant => "unexpected key variant"@,
                Error::ReadFailure => "read failure"@,
                Error::ValueNotFound => "value not found"@,
                Error::MissingArgument => "missing argument"@,
            }),
    {
        match self {
            Error::MissingKey => "missing key".to_owned(),
            Error::UnexpectedKeyVariant => "unexpected key variant".to_owned(),
            Error::ReadFailure => "read failure".to_owned(),
            Error::ValueNotFound => "value not found".to_owned(),
            Error::MissingArgument => "missing argument".to_owned(),
        }
    }
}

} // verus!

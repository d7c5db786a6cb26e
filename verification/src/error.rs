//! Errors of the service backend.

use vstd::prelude::*;

verus! {

/// Why a tunnelled request could not be carried out.
#[derive(Debug, Clone, PartialEq, Eq)]
pub enum Error {
    /// The request could not be turned into a call of the local service, or
    /// the call itself failed. The text is the cause.
    HttpRequestError(String),
}

impl Error {
    /// The cause, as text.
    pub open spec fn message(&self) -> Seq<char> {
        match self {
            Error::HttpRequestError(cause) => cause@,
        }
    }

    /// The cause, as text.
    pub fn to_string(&self) -> (text: String)
        ensures
            text@ == self.message(),
    {
        match self {
            Error::HttpRequestError(cause) => cause.clone(),
        }
    }
}

} // verus!

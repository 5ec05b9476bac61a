//! The ways in which a request can be refused before anything is sent.

use vstd::prelude::*;

verus! {

/// Why the configuration of a request was rejected.
#[derive(Clone, Copy, Debug, PartialEq, Eq, Structural)]
pub enum RequestError {
    /// The request type names none of the supported HTTP methods.
    InvalidType,
    /// The header string holds no colon, so it has no name and value.
    MalformedHeader,
}

impl RequestError {
    /// The message shown to the user for this error.
    pub open spec fn message_text(self) -> Seq<char> {
        match self {
            RequestError::InvalidType => "Invalid type of request!"@,
            RequestError::MalformedHeader => "Malformed header: expected name:value"@,
        }
    }

    /// Computes [`RequestError::message_text`].
    pub fn message(&self) -> (text: &'static str)
        ensures
            text@ == self.message_text(),
    {
        match self {
            RequestError::InvalidType => "Invalid type of request!",
            RequestError::MalformedHeader => "Malformed header: expected name:value",
        }
    }
}

} // verus!

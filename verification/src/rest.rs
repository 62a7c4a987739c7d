//! What the HTTP serving unit reads from its configuration, and the body
//! that a handler receives once it has been validated.

use crate::status::{Status, HTTP_INTERNAL_SERVER_ERROR};
use vstd::prelude::*;

verus! {

/// The HTTP section of a configuration.
#[derive(Debug, Clone)]
pub struct Http {
    /// The socket address to listen on.
    pub address: String,
}

impl Default for Http {
    /// The section with no address.
    fn default() -> (section: Self)
        ensures
            section.address@ == Seq::<char>::empty(),
    {
        Http { address: String::new() }
    }
}

/// A configuration that has an HTTP section.
pub trait Config {
    fn http(&self) -> &Http;
}

/// A request body that was decoded and has passed validation.
#[derive(Debug, Clone, Copy, Default)]
pub struct ValidatedJson<T>(pub T);

impl<T> ValidatedJson<T> {
    /// Decides on a decoded body once its validation has run: a body that
    /// passed is accepted as it is, and one that failed is rejected with the
    /// status that carries the validator's findings.
    pub fn accept(value: T, findings: Result<(), String>) -> (result: Result<ValidatedJson<T>, Status>)
        ensures
            findings is Ok ==> (result matches Ok(body) && body.0 == value),
            findings matches Err(text) ==> {
                &&& result matches Err(status)
                &&& status.code == HTTP_INTERNAL_SERVER_ERROR
                &&& status.reason@ == "ValidationErrors"@
                &&& status.message == text
                &&& status.metadata@ == Map::<String, String>::empty()
            },
    {
        match findings {
            Ok(_) => Ok(ValidatedJson(value)),
            Err(text) => Err(Status::validation_errors(text)),
        }
    }
}

} // verus!

//! The request check that turns away a body that fails validation.

use std::marker::PhantomData;
use vstd::prelude::*;

verus! {

/// HTTP status code 406.
pub const HTTP_NOT_ACCEPTABLE: u16 = 406;

/// Accepts a request only if its body passes validation. `ResBody` is the
/// body type of the response that turns a request away.
pub struct AcceptBody<ResBody> {
    _ty: PhantomData<ResBody>,
}

impl<ResBody> AcceptBody<ResBody> {
    /// Create a new `AcceptBody`.
    pub fn new() -> Self {
        Self { _ty: PhantomData }
    }

    /// Decides on a request once its body's validation has run: `Ok` for a
    /// body that passed, and otherwise the status of the empty response that
    /// is sent in place of an answer, 406.
    pub fn verdict(&self, body_is_valid: bool) -> (result: Result<(), u16>)
        ensures
            body_is_valid ==> result is Ok,
            !body_is_valid ==> result == Err::<(), u16>(HTTP_NOT_ACCEPTABLE),
    {
        if body_is_valid {
            Ok(())
        } else {
            Err(HTTP_NOT_ACCEPTABLE)
        }
    }
}

impl<ResBody> Clone for AcceptBody<ResBody> {
    fn clone(&self) -> Self {
        Self { _ty: PhantomData }
    }
}

} // verus!

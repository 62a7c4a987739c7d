//! The response envelope in which every handler's result is sent.

use crate::status::Status;
use vstd::prelude::*;
use vstd::std_specs::convert::FromSpecImpl;

verus! {

/// A response envelope: whether the request succeeded, a code and a message
/// for the caller, and the payload.
pub struct SpringResponse<T> {
    pub success: bool,
    pub code: String,
    pub message: String,
    pub data: T,
}

impl<T> SpringResponse<T> {
    /// The envelope with exactly these four parts.
    pub fn new(success: bool, code: String, message: String, data: T) -> (response: Self)
        ensures
            response.success == success,
            response.code == code,
            response.message == message,
            response.data == data,
    {
        Self { success, code, message, data }
    }

    /// The envelope that reports `status`, around a payload chosen by the
    /// caller: it is unsuccessful, its code is the status's reason and its
    /// message the status's message.
    pub fn failure(status: Status, data: T) -> (response: Self)
        ensures
            !response.success,
            response.code == status.reason,
            response.message == status.message,
            response.data == data,
    {
        Self { success: false, code: status.reason, message: status.message, data }
    }
}

impl<T: Default> From<Status> for SpringResponse<T> {
    /// The envelope that reports `value` around the payload type's default.
    fn from(value: Status) -> (response: Self)
        ensures
            !response.success,
            response.code == value.reason,
            response.message == value.message,
            call_ensures(T::default, (), response.data),
    {
        let data = T::default();
        SpringResponse::failure(value, data)
    }
}

impl<T: Default> FromSpecImpl<Status> for SpringResponse<T> {
    /// The payload's default has no specification, so the conversion is
    /// described by the clauses on `from` and not by `from_spec`.
    open spec fn obeys_from_spec() -> bool {
        false
    }

    open spec fn from_spec(v: Status) -> Self {
        SpringResponse { success: false, code: v.reason, message: v.message, data: arbitrary() }
    }
}

} // verus!

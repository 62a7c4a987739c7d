//! The error value that serving units hand to their callers, and its
//! derivation from an RPC status code.

use std::collections::HashMap;
use vstd::prelude::*;

verus! {

/// HTTP status code 200.
pub const HTTP_OK: u16 = 200;

/// HTTP status code 401.
pub const HTTP_UNAUTHORIZED: u16 = 401;

/// HTTP status code 404.
pub const HTTP_NOT_FOUND: u16 = 404;

/// HTTP status code 500.
pub const HTTP_INTERNAL_SERVER_ERROR: u16 = 500;

/// HTTP status code 503.
pub const HTTP_SERVICE_UNAVAILABLE: u16 = 503;

/// The status code of a remote procedure call.
#[derive(Clone, Copy, Debug, PartialEq, Eq, Structural)]
pub enum Code {
    Okay,
    Cancelled,
    Unknown,
    InvalidArgument,
    DeadlineExceeded,
    NotFound,
    AlreadyExists,
    PermissionDenied,
    ResourceExhausted,
    FailedPrecondition,
    Aborted,
    OutOfRange,
    Unimplemented,
    Internal,
    Unavailable,
    DataLoss,
    Unauthenticated,
}

/// The HTTP status code under which an RPC status code is reported.
pub open spec fn http_status_of(code: Code) -> u16 {
    match code {
        Code::Okay => HTTP_OK,
        Code::Cancelled | Code::Unknown | Code::Unimplemented => HTTP_NOT_FOUND,
        Code::Unavailable => HTTP_SERVICE_UNAVAILABLE,
        Code::Unauthenticated => HTTP_UNAUTHORIZED,
        _ => HTTP_INTERNAL_SERVER_ERROR,
    }
}

/// The status line ("code, space, reason phrase") of each HTTP status code
/// that `http_status_of` can give.
pub open spec fn status_line_of(status: u16) -> Seq<char> {
    if status == HTTP_OK {
        "200 OK"@
    } else if status == HTTP_UNAUTHORIZED {
        "401 Unauthorized"@
    } else if status == HTTP_NOT_FOUND {
        "404 Not Found"@
    } else if status == HTTP_SERVICE_UNAVAILABLE {
        "503 Service Unavailable"@
    } else {
        "500 Internal Server Error"@
    }
}

/// Whether `status` is one of the codes that `http_status_of` can give.
pub open spec fn is_reported_status(status: u16) -> bool {
    status == HTTP_OK || status == HTTP_UNAUTHORIZED || status == HTTP_NOT_FOUND
        || status == HTTP_INTERNAL_SERVER_ERROR || status == HTTP_SERVICE_UNAVAILABLE
}

/// Calls `http::StatusCode::from_u16` and formats the code with its `Display`
/// impl, which writes the number, a space and the canonical reason phrase.
/// Trusted: that for 200, 401, 404, 500 and 503 this is the text that
/// `status_line_of` gives.
#[verifier::external_body]
fn status_line(status: u16) -> (line: String)
    requires
        is_reported_status(status),
    ensures
        line@ == status_line_of(status),
{
    match http::StatusCode::from_u16(status) {
        Ok(code) => code.to_string(),
        Err(_) => String::new(),
    }
}

impl Code {
    /// The HTTP status code under which this code is reported.
    pub fn http_status(self) -> (status: u16)
        ensures
            status == http_status_of(self),
            is_reported_status(status),
    {
        match self {
            Code::Okay => HTTP_OK,
            Code::Cancelled | Code::Unknown | Code::Unimplemented => HTTP_NOT_FOUND,
            Code::Unavailable => HTTP_SERVICE_UNAVAILABLE,
            Code::Unauthenticated => HTTP_UNAUTHORIZED,
            _ => HTTP_INTERNAL_SERVER_ERROR,
        }
    }
}

/// An error with a numeric code, a machine-readable reason and a message.
#[derive(Clone, Debug, PartialEq, Eq)]
pub struct Status {
    pub code: i32,
    pub reason: String,
    pub message: String,
    pub metadata: HashMap<String, String>,
}

impl Status {
    /// An internal error with the given reason and message.
    pub fn new(reason: &str, message: &str) -> (status: Status)
        ensures
            status.code == HTTP_INTERNAL_SERVER_ERROR,
            status.reason@ == reason@,
            status.message@ == message@,
            (status.metadata@ == Map::<String, String>::empty()),
    {
        Status {
            code: HTTP_INTERNAL_SERVER_ERROR as i32,
            reason: reason.to_owned(),
            message: message.to_owned(),
            metadata: HashMap::new(),
        }
    }

    /// The error that reports one failed validation rule.
    pub fn validation_error(finding: String) -> (status: Status)
        ensures
            status.code == HTTP_INTERNAL_SERVER_ERROR,
            status.reason@ == "ValidationError"@,
            status.message == finding,
            (status.metadata@ == Map::<String, String>::empty()),
    {
        Status {
            code: HTTP_INTERNAL_SERVER_ERROR as i32,
            reason: "ValidationError".to_owned(),
            message: finding,
            metadata: HashMap::new(),
        }
    }

    /// The error that reports the findings of a failed validation.
    pub fn validation_errors(findings: String) -> (status: Status)
        ensures
            status.code == HTTP_INTERNAL_SERVER_ERROR,
            status.reason@ == "ValidationErrors"@,
            status.message == findings,
            (status.metadata@ == Map::<String, String>::empty()),
    {
        Status {
            code: HTTP_INTERNAL_SERVER_ERROR as i32,
            reason: "ValidationErrors".to_owned(),
            message: findings,
            metadata: HashMap::new(),
        }
    }

    /// The error that stands for a failed remote call: the code is mapped by
    /// `http_status_of`, the message is kept, and the reason is the one that
    /// the call's decoded details carry, or else the status line of the code.
    pub fn from_rpc(code: Code, message: &str, details: Option<Status>) -> (status: Status)
        ensures
            status.code == http_status_of(code),
            status.message@ == message@,
            status.reason@ == (match details {
                Some(d) => d.reason@,
                None => status_line_of(http_status_of(code)),
            }),
            (status.metadata@ == Map::<String, String>::empty()),
    {
        let http_status = code.http_status();
        let reason = match details {
            Some(d) => d.reason,
            None => status_line(http_status),
        };
        Status {
            code: http_status as i32,
            reason,
            message: message.to_owned(),
            metadata: HashMap::new(),
        }
    }
}

} // verus!

use bamboo::status::{Code, Status};

#[test]
fn test_status_eq() {
    let a = Status::new("UserNotFound", "");
    let b = Status::new("UserNotFound", "");
    assert_eq!(a, b);
}

#[test]
fn test_status_eq1() {
    let a = Status::new("UserNotFound", "a");
    let b = Status::new("UserNotFound", "b");
    assert_ne!(a, b);
}

#[test]
fn new_status_is_an_internal_error() {
    let s = Status::new("UserNotFound", "no such user");
    assert_eq!(s.code, 500);
    assert_eq!(s.reason, "UserNotFound");
    assert_eq!(s.message, "no such user");
    assert!(s.metadata.is_empty());
}

#[test]
fn rpc_codes_map_to_http_statuses() {
    assert_eq!(Code::Okay.http_status(), 200);
    assert_eq!(Code::Cancelled.http_status(), 404);
    assert_eq!(Code::Unknown.http_status(), 404);
    assert_eq!(Code::InvalidArgument.http_status(), 500);
    assert_eq!(Code::DeadlineExceeded.http_status(), 500);
    assert_eq!(Code::NotFound.http_status(), 500);
    assert_eq!(Code::AlreadyExists.http_status(), 500);
    assert_eq!(Code::PermissionDenied.http_status(), 500);
    assert_eq!(Code::ResourceExhausted.http_status(), 500);
    assert_eq!(Code::FailedPrecondition.http_status(), 500);
    assert_eq!(Code::Aborted.http_status(), 500);
    assert_eq!(Code::OutOfRange.http_status(), 500);
    assert_eq!(Code::Unimplemented.http_status(), 404);
    assert_eq!(Code::Internal.http_status(), 500);
    assert_eq!(Code::Unavailable.http_status(), 503);
    assert_eq!(Code::DataLoss.http_status(), 500);
    assert_eq!(Code::Unauthenticated.http_status(), 401);
}

#[test]
fn rpc_status_without_details_takes_the_status_line_as_reason() {
    let s = Status::from_rpc(Code::Cancelled, "gone", None);
    assert_eq!(s.code, 404);
    assert_eq!(s.reason, "404 Not Found");
    assert_eq!(s.message, "gone");
    assert!(s.metadata.is_empty());

    assert_eq!(Status::from_rpc(Code::Okay, "", None).reason, "200 OK");
    assert_eq!(Status::from_rpc(Code::Internal, "", None).reason, "500 Internal Server Error");
    assert_eq!(Status::from_rpc(Code::Unavailable, "", None).reason, "503 Service Unavailable");
    assert_eq!(Status::from_rpc(Code::Unauthenticated, "", None).reason, "401 Unauthorized");
}

#[test]
fn rpc_status_with_details_takes_their_reason() {
    let details = Status::new("UserNotFound", "inner");
    let s = Status::from_rpc(Code::Unknown, "outer", Some(details));
    assert_eq!(s.code, 404);
    assert_eq!(s.reason, "UserNotFound");
    assert_eq!(s.message, "outer");
}

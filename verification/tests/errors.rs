use semantic_explorer_api::errors::{
    bad_request, error_response_with_status, not_found, unauthorized, ApiError, ErrorResponse,
};
use semantic_explorer_api::clock::timestamp_text;

#[test]
fn statuses_and_types_of_each_error() {
    let cases = vec![
        (ApiError::NotFound("a".to_string()), 404, "NotFound", "a"),
        (ApiError::BadRequest("b".to_string()), 400, "BadRequest", "b"),
        (ApiError::Unauthorized("c".to_string()), 401, "Unauthorized", "c"),
        (ApiError::Conflict("d".to_string()), 409, "Conflict", "d"),
        (ApiError::Internal("e".to_string()), 500, "InternalServerError", "e"),
        (ApiError::Database("secret".to_string()), 500, "DatabaseError", "An internal database error occurred"),
        (ApiError::Validation("g".to_string()), 400, "ValidationError", "g"),
    ];
    for (err, status, ty, msg) in cases {
        assert_eq!(err.status_code(), status);
        let body = err.error_response();
        assert_eq!(body.status, status);
        assert_eq!(body.error, ty);
        assert_eq!(body.message, msg);
    }
}

#[test]
fn database_errors_hide_details() {
    match ApiError::from_database_error(true, "no rows".to_string()) {
        ApiError::NotFound(m) => assert_eq!(m, "Resource not found"),
        _ => panic!("expected not found"),
    }
    match ApiError::from_database_error(false, "boom".to_string()) {
        ApiError::Database(m) => assert_eq!(m, "boom"),
        _ => panic!("expected database error"),
    }
}

#[test]
fn error_body_helpers() {
    let b = bad_request("x");
    assert_eq!((b.status, b.error.as_str(), b.message.as_str()), (400, "BadRequest", "x"));
    let n = not_found("y");
    assert_eq!((n.status, n.error.as_str(), n.message.as_str()), (404, "NotFound", "y"));
    let u = unauthorized("z");
    assert_eq!((u.status, u.error.as_str(), u.message.as_str()), (401, "Unauthorized", "z"));
    let c = error_response_with_status(418, "Teapot", "t");
    assert_eq!((c.status, c.error.as_str(), c.message.as_str()), (418, "Teapot", "t"));
    let r = ErrorResponse::new("E", "M");
    assert_eq!((r.error.as_str(), r.message.as_str(), r.details), ("E", "M", None));
}

#[test]
fn rfc3339_timestamps() {
    assert_eq!(timestamp_text(Some((0, 0))), "1970-01-01T00:00:00+00:00");
    assert_eq!(timestamp_text(Some((1_700_000_000, 500_000_000))), "2023-11-14T22:13:20.500+00:00");
    assert_eq!(timestamp_text(None), "");
}

//! The unified API error type and the standardized JSON error bodies.
use vstd::prelude::*;

verus! {

/// Standardized API error response structure.
pub struct ErrorResponse {
    pub error: String,
    pub message: String,
    /// Structured details, as JSON text; never filled by the API itself.
    pub details: Option<String>,
}

impl ErrorResponse {
    /// Creates an error response with basic information and no details.
    pub fn new(error: &str, message: &str) -> (r: Self)
        ensures
            r.error@ == error@,
            r.message@ == message@,
            r.details is None,
    {
        ErrorResponse { error: error.to_string(), message: message.to_string(), details: None }
    }
}

/// The JSON body `{"error", "message", "status"}` of an error response,
/// together with its HTTP status.
pub struct ErrorBody {
    pub status: u16,
    pub error: String,
    pub message: String,
}

/// Unified API error type.
pub enum ApiError {
    /// Resource not found (404).
    NotFound(String),
    /// Bad request or validation error (400).
    BadRequest(String),
    /// Unauthorized access (401).
    Unauthorized(String),
    /// Conflict: the resource has dependents (409).
    Conflict(String),
    /// Internal server error (500).
    Internal(String),
    /// Database error (500); holds the database's error text, which is
    /// logged but never shown to the client.
    Database(String),
    /// Input validation error (400); holds the validation message.
    Validation(String),
}

/// The HTTP status of each error kind.
pub open spec fn api_error_status(e: ApiError) -> u16 {
    match e {
        ApiError::NotFound(_) => 404,
        ApiError::BadRequest(_) => 400,
        ApiError::Unauthorized(_) => 401,
        ApiError::Conflict(_) => 409,
        ApiError::Internal(_) => 500,
        ApiError::Database(_) => 500,
        ApiError::Validation(_) => 400,
    }
}

/// The error type reported in the JSON body of each error kind.
pub open spec fn api_error_type(e: ApiError) -> Seq<char> {
    match e {
        ApiError::NotFound(_) => "NotFound"@,
        ApiError::BadRequest(_) => "BadRequest"@,
        ApiError::Unauthorized(_) => "Unauthorized"@,
        ApiError::Conflict(_) => "Conflict"@,
        ApiError::Internal(_) => "InternalServerError"@,
        ApiError::Database(_) => "DatabaseError"@,
        ApiError::Validation(_) => "ValidationError"@,
    }
}

/// The message reported to the client for each error; database errors are
/// not exposed.
pub open spec fn api_error_message(e: ApiError) -> Seq<char> {
    match e {
        ApiError::NotFound(m) => m@,
        ApiError::BadRequest(m) => m@,
        ApiError::Unauthorized(m) => m@,
        ApiError::Conflict(m) => m@,
        ApiError::Internal(m) => m@,
        ApiError::Database(_) => "An internal database error occurred"@,
        ApiError::Validation(m) => m@,
    }
}

impl ApiError {
    /// The HTTP status code of this error.
    pub fn status_code(&self) -> (r: u16)
        ensures
            r == api_error_status(*self),
    {
        match self {
            ApiError::NotFound(_) => 404,
            ApiError::BadRequest(_) => 400,
            ApiError::Unauthorized(_) => 401,
            ApiError::Conflict(_) => 409,
            ApiError::Internal(_) => 500,
            ApiError::Database(_) => 500,
            ApiError::Validation(_) => 400,
        }
    }

    /// The error body sent to the client for this error.
    pub fn error_response(&self) -> (r: ErrorBody)
        ensures
            r.status == api_error_status(*self),
            r.error@ == api_error_type(*self),
            r.message@ == api_error_message(*self),
    {
        let status = self.status_code();
        let (error_type, message) = match self {
            ApiError::NotFound(msg) => ("NotFound", msg.clone()),
            ApiError::BadRequest(msg) => ("BadRequest", msg.clone()),
            ApiError::Unauthorized(msg) => ("Unauthorized", msg.clone()),
            ApiError::Conflict(msg) => ("Conflict", msg.clone()),
            ApiError::Internal(msg) => ("InternalServerError", msg.clone()),
            ApiError::Database(_) => ("DatabaseError", "An internal database error occurred".to_string()),
            ApiError::Validation(msg) => ("ValidationError", msg.clone()),
        };
        let response = ErrorResponse::new(error_type, message.as_str());
        ErrorBody { status, error: response.error, message: response.message }
    }

    /// The error for a failed database operation: a missing row is reported
    /// as "Resource not found", any other failure as a database error
    /// holding `error_text`.
    pub fn from_database_error(row_not_found: bool, error_text: String) -> (r: ApiError)
        ensures
            row_not_found ==> r is NotFound && r->NotFound_0@ == "Resource not found"@,
            !row_not_found ==> r == ApiError::Database(error_text),
    {
        if row_not_found {
            ApiError::NotFound("Resource not found".to_string())
        } else {
            ApiError::Database(error_text)
        }
    }
}

/// Creates a standardized JSON error body with the given status.
pub fn error_response_with_status(status: u16, error_type: &str, message: &str) -> (r: ErrorBody)
    ensures
        r.status == status,
        r.error@ == error_type@,
        r.message@ == message@,
{
    ErrorBody { status, error: error_type.to_string(), message: message.to_string() }
}

/// A Bad Request (400) error body.
pub fn bad_request(message: &str) -> (r: ErrorBody)
    ensures
        r.status == 400,
        r.error@ == "BadRequest"@,
        r.message@ == message@,
{
    error_response_with_status(400, "BadRequest", message)
}

/// A Not Found (404) error body.
pub fn not_found(message: &str) -> (r: ErrorBody)
    ensures
        r.status == 404,
        r.error@ == "NotFound"@,
        r.message@ == message@,
{
    error_response_with_status(404, "NotFound", message)
}

/// An Unauthorized (401) error body.
pub fn unauthorized(message: &str) -> (r: ErrorBody)
    ensures
        r.status == 401,
        r.error@ == "Unauthorized"@,
        r.message@ == message@,
{
    error_response_with_status(401, "Unauthorized", message)
}

} // verus!

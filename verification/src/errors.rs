//! The application's error kinds, the HTTP status each maps to, and the
//! JSON body sent back for each.

use vstd::prelude::*;
use crate::text::{owned, join2};
use crate::validation::ValidationErrors;

verus! {

/// The body of every error response: `{ code, error, message }`.
#[derive(Debug)]
pub struct ErrorResponse {
    pub code: u16,
    pub error: String,
    pub message: String,
}

/// Everything a request can fail with.
#[derive(Debug)]
pub enum AppError {
    NotFound(String),
    Unauthorized(String),
    Forbidden(String),
    BadRequest(String),
    Conflict(String),
    /// A request body broke one or more field rules.
    Validation(ValidationErrors),
    /// The database reported a failure; the text is its description.
    Database(String),
    InternalServerError,
}

impl From<ValidationErrors> for AppError {
    fn from(e: ValidationErrors) -> (r: AppError) {
        AppError::Validation(e)
    }
}

impl vstd::std_specs::convert::FromSpecImpl<ValidationErrors> for AppError {
    open spec fn obeys_from_spec() -> bool {
        true
    }

    open spec fn from_spec(e: ValidationErrors) -> AppError {
        AppError::Validation(e)
    }
}

/// The HTTP status code of an error.
pub open spec fn status_of(e: AppError) -> u16 {
    match e {
        AppError::NotFound(_) => 404,
        AppError::Unauthorized(_) => 401,
        AppError::Forbidden(_) => 403,
        AppError::BadRequest(_) => 400,
        AppError::Conflict(_) => 409,
        AppError::Validation(_) => 422,
        AppError::Database(_) => 500,
        AppError::InternalServerError => 500,
    }
}

/// The machine-readable key of an error.
pub open spec fn key_of(e: AppError) -> Seq<char> {
    match e {
        AppError::NotFound(_) => "NOT_FOUND"@,
        AppError::Unauthorized(_) => "UNAUTHORIZED"@,
        AppError::Forbidden(_) => "FORBIDDEN"@,
        AppError::BadRequest(_) => "BAD_REQUEST"@,
        AppError::Conflict(_) => "CONFLICT"@,
        AppError::Validation(_) => "VALIDATION_ERROR"@,
        AppError::Database(_) => "INTERNAL_SERVER_ERROR"@,
        AppError::InternalServerError => "INTERNAL_SERVER_ERROR"@,
    }
}

/// The human-readable text of an error.
pub open spec fn text_of(e: AppError) -> Seq<char> {
    match e {
        AppError::NotFound(s) => "Not found: "@ + s@,
        AppError::Unauthorized(s) => "Unauthorized: "@ + s@,
        AppError::Forbidden(s) => "Forbidden: "@ + s@,
        AppError::BadRequest(s) => "Bad request: "@ + s@,
        AppError::Conflict(s) => "Conflict: "@ + s@,
        AppError::Validation(_) => "Validation error"@,
        AppError::Database(_) => "Database error"@,
        AppError::InternalServerError => "Internal server error"@,
    }
}

/// Whether an error comes from the server's own side, whose details are
/// never shown to a client.
pub open spec fn is_internal(e: AppError) -> bool {
    e is Database || e is InternalServerError
}

/// The message of the response body: the error's text, except for
/// internal errors, which all read the same.
pub open spec fn public_message_of(e: AppError) -> Seq<char> {
    if is_internal(e) {
        "An internal error occurred"@
    } else {
        text_of(e)
    }
}

/// `e` is a 404 with message `m`.
pub open spec fn is_not_found(e: AppError, m: Seq<char>) -> bool {
    e matches AppError::NotFound(s) && s@ == m
}

/// `e` is a 401 with message `m`.
pub open spec fn is_unauthorized(e: AppError, m: Seq<char>) -> bool {
    e matches AppError::Unauthorized(s) && s@ == m
}

/// `e` is a 403 with message `m`.
pub open spec fn is_forbidden(e: AppError, m: Seq<char>) -> bool {
    e matches AppError::Forbidden(s) && s@ == m
}

/// `e` is a 400 with message `m`.
pub open spec fn is_bad_request(e: AppError, m: Seq<char>) -> bool {
    e matches AppError::BadRequest(s) && s@ == m
}

/// `e` is a 409 with message `m`.
pub open spec fn is_conflict(e: AppError, m: Seq<char>) -> bool {
    e matches AppError::Conflict(s) && s@ == m
}

/// `e` is a 422 listing the failed rules `failures` (field, code,
/// message).
pub open spec fn is_validation(e: AppError, failures: Seq<(Seq<char>, Seq<char>, Seq<char>)>) -> bool {
    e matches AppError::Validation(v) && v@ == failures
}

impl AppError {
    /// The HTTP status code of this error.
    pub fn status_code(&self) -> (code: u16)
        ensures
            code == status_of(*self),
    {
        match self {
            AppError::NotFound(_) => 404,
            AppError::Unauthorized(_) => 401,
            AppError::Forbidden(_) => 403,
            AppError::BadRequest(_) => 400,
            AppError::Conflict(_) => 409,
            AppError::Validation(_) => 422,
            AppError::Database(_) => 500,
            AppError::InternalServerError => 500,
        }
    }

    /// The machine-readable key of this error, such as `NOT_FOUND`.
    pub fn error_key(&self) -> (key: String)
        ensures
            key@ == key_of(*self),
    {
        match self {
            AppError::NotFound(_) => owned("NOT_FOUND"),
            AppError::Unauthorized(_) => owned("UNAUTHORIZED"),
            AppError::Forbidden(_) => owned("FORBIDDEN"),
            AppError::BadRequest(_) => owned("BAD_REQUEST"),
            AppError::Conflict(_) => owned("CONFLICT"),
            AppError::Validation(_) => owned("VALIDATION_ERROR"),
            AppError::Database(_) => owned("INTERNAL_SERVER_ERROR"),
            AppError::InternalServerError => owned("INTERNAL_SERVER_ERROR"),
        }
    }

    /// The text of this error, such as `Not found: Task … not found`.
    pub fn to_string(&self) -> (text: String)
        ensures
            text@ == text_of(*self),
    {
        match self {
            AppError::NotFound(s) => join2("Not found: ", s.as_str()),
            AppError::Unauthorized(s) => join2("Unauthorized: ", s.as_str()),
            AppError::Forbidden(s) => join2("Forbidden: ", s.as_str()),
            AppError::BadRequest(s) => join2("Bad request: ", s.as_str()),
            AppError::Conflict(s) => join2("Conflict: ", s.as_str()),
            AppError::Validation(_) => owned("Validation error"),
            AppError::Database(_) => owned("Database error"),
            AppError::InternalServerError => owned("Internal server error"),
        }
    }

    /// The JSON body sent back for this error. Its `code` is the status of
    /// the response; database and internal errors hide their details.
    pub fn error_response(&self) -> (body: ErrorResponse)
        ensures
            body.code == status_of(*self),
            body.error@ == key_of(*self),
            body.message@ == public_message_of(*self),
    {
        let status = self.status_code();
        let error_key = self.error_key();
        let message = match self {
            AppError::Database(_) | AppError::InternalServerError => owned(
                "An internal error occurred",
            ),
            other => other.to_string(),
        };
        ErrorResponse { code: status, error: error_key, message }
    }
}

/// The documented error table: each kind of error answers with its HTTP
/// status and its key, and every server-side error with 500 and
/// `INTERNAL_SERVER_ERROR`.
pub proof fn lemma_error_table(s: String, v: ValidationErrors)
    ensures
        status_of(AppError::BadRequest(s)) == 400 && key_of(AppError::BadRequest(s)) == "BAD_REQUEST"@,
        status_of(AppError::Unauthorized(s)) == 401 && key_of(AppError::Unauthorized(s))
            == "UNAUTHORIZED"@,
        status_of(AppError::Forbidden(s)) == 403 && key_of(AppError::Forbidden(s)) == "FORBIDDEN"@,
        status_of(AppError::NotFound(s)) == 404 && key_of(AppError::NotFound(s)) == "NOT_FOUND"@,
        status_of(AppError::Conflict(s)) == 409 && key_of(AppError::Conflict(s)) == "CONFLICT"@,
        status_of(AppError::Validation(v)) == 422 && key_of(AppError::Validation(v))
            == "VALIDATION_ERROR"@,
        status_of(AppError::Database(s)) == 500 && key_of(AppError::Database(s))
            == "INTERNAL_SERVER_ERROR"@,
        status_of(AppError::InternalServerError) == 500 && key_of(AppError::InternalServerError)
            == "INTERNAL_SERVER_ERROR"@,
{
}

/// Every error response carries the status code of its error, and that
/// code is one of 400, 401, 403, 404, 409, 422 and 500.
pub proof fn lemma_response_code_is_status(e: AppError)
    ensures
        status_of(e) == 400 || status_of(e) == 401 || status_of(e) == 403 || status_of(e) == 404
            || status_of(e) == 409 || status_of(e) == 422 || status_of(e) == 500,
        status_of(e) == 500 <==> is_internal(e),
{
}

/// Database and internal errors answer with the same status, the same key
/// `INTERNAL_SERVER_ERROR` and the same fixed message, so no detail of the
/// failure reaches the client.
pub proof fn lemma_internal_errors_hide_details(a: AppError, b: AppError)
    requires
        is_internal(a),
        is_internal(b),
    ensures
        status_of(a) == status_of(b),
        key_of(a) == key_of(b),
        key_of(a) == "INTERNAL_SERVER_ERROR"@,
        public_message_of(a) == public_message_of(b),
        public_message_of(a) == "An internal error occurred"@,
{
}

} // verus!
